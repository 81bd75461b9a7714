use mist::backend::inject::{Inject, Param};
use mist::common::campaign::{Campaign, Member};
use mist::common::character::Character;
use mist::common::models::character::{Character as StoredCharacter, NewCharacter};
use mist::common::models::theme::{NewTheme, Tag, Theme as StoredTheme, ThemeType};
use mist::common::theme::Theme;
use mist::common::theme_descriptor::{
    TagQuestion, ThemeConcept, ThemeDescriptorBuilder, ThemeDescriptorBuilderError, ThemeImprovement, ThemePhrase,
    ThemeRelationships,
};
use mist::common::user::User;
use mist::data::{HasThemeDescriptor, ThemeDescriptors};
use mist::db::managers::character_with_themes;
use mist::db::models::character::{CharacterDbModel, CharacterInsertModel};
use mist::db::models::theme::{ThemeDbModel, ThemeInsertModel};
use mist::entity::campaign as campaign_entity;
use mist::entity::campaign_member::MemberType;
use mist::entity::user as user_entity;
use mist::frontend::dice_agent::{DiceAgent, DiceMessage};
use mist::frontend::dice_overlay::{msg_from_agent, overlay_update, Msg, OverlayStep};
use mist::str_map::StrMap;
use mist::text::{i32_to_decimal, i64_to_decimal, join2, str_eq};
use std::collections::HashMap;

fn user(id: i32) -> User {
    User::from_model(user_entity::Model {
        id,
        email: format!("u{}@x", id),
        username: format!("u{}", id),
        password_hash: String::new(),
        password_salt: String::new(),
    })
}

fn descriptor(name: &str) -> mist::common::theme_descriptor::ThemeDescriptor {
    ThemeDescriptorBuilder::default()
        .name(name)
        .theme_type(ThemeType::Mythos)
        .concept(ThemeConcept::new("blurb".to_string(), "q?".to_string(), vec!["a".to_string()]))
        .phrase(ThemePhrase::new(vec!["p".to_string()], vec!["e".to_string()]))
        .relationships(ThemeRelationships::new(vec!["r".to_string()]))
        .improvements(vec![ThemeImprovement::new("Better".to_string(), "desc".to_string())])
        .power_tag_questions(HashMap::from([('A', TagQuestion::new("What?".to_string(), vec![]))]))
        .weakness_tag_questions(HashMap::new())
        .build()
        .unwrap()
}

#[test]
fn decimal_text() {
    assert_eq!(i64_to_decimal(0), "0");
    assert_eq!(i64_to_decimal(-7), "-7");
    assert_eq!(i64_to_decimal(i64::MIN), "-9223372036854775808");
    assert_eq!(i64_to_decimal(i64::MAX), "9223372036854775807");
    assert_eq!(i32_to_decimal(1234), "1234");
    assert!(str_eq("abc", "abc"));
    assert!(!str_eq("abc", "abd"));
    assert!(!str_eq("", "a"));
    assert_eq!(join2("ab", "cd"), "abcd");
    assert_eq!(join2("", ""), "");
}

#[test]
fn str_map_insert_then_get() {
    let mut m: StrMap<i32> = StrMap::new();
    assert_eq!(m.get("a"), None);
    m.insert("a".to_string(), 1);
    m.insert("b".to_string(), 2);
    m.insert("a".to_string(), 3);
    assert_eq!(m.get("a"), Some(&3));
    assert_eq!(m.get("b"), Some(&2));
    assert!(m.contains_key("b"));
    assert!(!m.contains_key("c"));
}

#[test]
fn dice_agent_relays_to_connected() {
    let mut agent = DiceAgent::create();
    assert!(agent.handle_input(DiceMessage::RollSeed(1)).is_empty());
    agent.connected(4);
    agent.connected(5);
    agent.connected(4);
    let mut out = agent.handle_input(DiceMessage::TriggerRollSeeded(9));
    out.sort_by_key(|p| p.0);
    assert_eq!(out, vec![(4, DiceMessage::TriggerRollSeeded(9)), (5, DiceMessage::TriggerRollSeeded(9))]);
    agent.disconnected(4);
    agent.disconnected(77);
    assert_eq!(agent.handle_input(DiceMessage::Values(vec![1, -1, 0])), vec![(5, DiceMessage::Values(vec![1, -1, 0]))]);
    agent.disconnected(5);
    assert!(agent.handle_input(DiceMessage::RollSeed(2)).is_empty());
}

#[test]
fn dice_overlay_steps() {
    assert_eq!(msg_from_agent(DiceMessage::TriggerRollSeeded(3)), Msg::TriggerRollSeeded(3));
    assert_eq!(msg_from_agent(DiceMessage::RollSeed(3)), Msg::Noop);
    assert_eq!(msg_from_agent(DiceMessage::Values(vec![2])), Msg::Noop);
    assert_eq!(overlay_update(Msg::TriggerRollSeeded(8)), (OverlayStep::Roll(8), false));
    assert_eq!(
        overlay_update(Msg::Values(vec![1, 2])),
        (OverlayStep::Report(DiceMessage::Values(vec![1, 2])), false)
    );
    assert_eq!(overlay_update(Msg::Noop), (OverlayStep::Nothing, false));
}

#[test]
fn campaign_members() {
    let mut sheet = Character::default();
    sheet.name = "Sheet".to_string();
    let c = Campaign::from_model_with_members(
        campaign_entity::Model { id: 1, name: "Tale".to_string() },
        vec![
            (MemberType::Player, user(1), Some(sheet.clone())),
            (MemberType::GM, user(2), None),
            (MemberType::GM, user(3), None),
        ],
    );
    assert_eq!(c.name, "Tale");
    assert_eq!(c.members().unwrap().len(), 3);
    assert_eq!(c.gm().unwrap().id, 2);
    let players = c.players().unwrap();
    assert_eq!(players.len(), 1);
    assert_eq!(players[0].0.id, 1);
    assert_eq!(players[0].1.name, "Sheet");
    let bare = Campaign::from_model(campaign_entity::Model { id: 1, name: "Tale".to_string() });
    assert!(bare.members().is_none() && bare.gm().is_none() && bare.players().is_none());
    let d = Campaign::default();
    assert_eq!(d.name, "");
    assert!(d.members.is_none());
}

#[test]
fn campaign_gm_changes_in_place() {
    let mut c = Campaign::from_model_with_members(
        campaign_entity::Model { id: 1, name: "Tale".to_string() },
        vec![(MemberType::GM, user(2), None)],
    );
    c.gm_mut().unwrap().username = "boss".to_string();
    assert_eq!(c.gm().unwrap().username, "boss");
    c.members_mut().unwrap().push(Member::GM(user(9)));
    assert_eq!(c.gm().unwrap().id, 2);
    let mut none = Campaign::from_model_with_members(campaign_entity::Model { id: 1, name: "x".to_string() }, vec![]);
    assert!(none.gm_mut().is_none());
    assert!(none.players().unwrap().is_empty());
}

#[test]
fn member_from_membership() {
    assert_eq!(Member::from_membership(MemberType::GM, user(1), None), Member::GM(user(1)));
    assert_eq!(
        Member::from_membership(MemberType::Player, user(1), Some(Character::default())),
        Member::Player(user(1), Character::default())
    );
}

#[test]
fn themebook_builder() {
    let d = descriptor("relic");
    assert_eq!(d.name(), "relic");
    assert_eq!(*d.theme_type(), ThemeType::Mythos);
    assert_eq!(d.concept().question(), "q?");
    assert_eq!(d.concept().initial_blurb(), "blurb");
    assert_eq!(d.phrase().prompts(), &vec!["p".to_string()]);
    assert_eq!(d.relationships().example_answers(), &vec!["r".to_string()]);
    assert_eq!(d.improvements()[0].name(), "Better");
    assert_eq!(d.improvements()[0].description(), "desc");
    assert_eq!(d.power_tag_questions().get(&'A').unwrap().question(), "What?");
    assert!(d.weakness_tag_questions().is_empty());
    let missing = ThemeDescriptorBuilder::default().name("x").build().unwrap_err();
    assert_eq!(missing, ThemeDescriptorBuilderError::UninitializedField("theme_type"));
    assert_eq!(
        ThemeDescriptorBuilder::default().build().unwrap_err(),
        ThemeDescriptorBuilderError::UninitializedField("name")
    );
}

#[test]
fn theme_finds_its_themebook() {
    let mut books: ThemeDescriptors = StrMap::new();
    books.insert("relic".to_string(), descriptor("relic"));
    books.insert("ride".to_string(), descriptor("ride"));
    let mut t = Theme::default();
    t.theme_descriptor = "ride".to_string();
    assert_eq!(t.descriptor(&books).name(), "ride");
}

#[test]
fn stored_theme_rows() {
    let theme = StoredTheme {
        id: 3,
        theme_descriptor: "ally".to_string(),
        title: "Friend".to_string(),
        mystery_or_identity: "Loyal".to_string(),
        theme_type: ThemeType::Logos,
        attention: 1,
        fade_or_crack: 2,
        tags: vec![Tag::new_status(1)],
    };
    let row = ThemeDbModel::from_theme(theme_copy(&theme));
    assert_eq!(row.key_phrase, "Loyal");
    assert_eq!(row.degrade, 2);
    assert_eq!(row.tags, Some(vec![Tag::new_status(1)]));
    assert_eq!(row.try_into_theme(), Ok(theme));
    let broken = ThemeDbModel {
        id: 1,
        theme_descriptor: String::new(),
        title: String::new(),
        key_phrase: String::new(),
        theme_type: ThemeType::Extra,
        attention: 0,
        degrade: 0,
        tags: None,
    };
    assert_eq!(broken.try_into_theme(), Err("Couldn't deserialize 'tags' field.".to_string()));
    let insert = ThemeInsertModel::from_new(NewTheme::default());
    assert_eq!(insert.theme_type, ThemeType::Extra);
    assert!(insert.tags.is_empty());
}

fn theme_copy(t: &StoredTheme) -> StoredTheme {
    StoredTheme {
        id: t.id,
        theme_descriptor: t.theme_descriptor.clone(),
        title: t.title.clone(),
        mystery_or_identity: t.mystery_or_identity.clone(),
        theme_type: t.theme_type,
        attention: t.attention,
        fade_or_crack: t.fade_or_crack,
        tags: t.tags.clone(),
    }
}

#[test]
fn stored_character_rows() {
    let c = StoredCharacter { id: 2, name: "n".to_string(), mythos: "m".to_string(), logos: "l".to_string() };
    let row = CharacterDbModel::from_character(c.clone());
    assert_eq!(row.into_character(), c);
    let insert = CharacterInsertModel::from_new(NewCharacter { name: "a".to_string(), mythos: "b".to_string(), logos: "c".to_string() });
    assert_eq!((insert.name.as_str(), insert.mythos.as_str(), insert.logos.as_str()), ("a", "b", "c"));
}

#[test]
fn joined_rows_make_character_with_themes() {
    let c = CharacterDbModel { id: 2, name: "n".to_string(), mythos: "m".to_string(), logos: "l".to_string() };
    let t = |id: u64, title: &str| ThemeDbModel {
        id,
        theme_descriptor: "ally".to_string(),
        title: title.to_string(),
        key_phrase: String::new(),
        theme_type: ThemeType::Extra,
        attention: 0,
        degrade: 0,
        tags: Some(Vec::new()),
    };
    let same = |c: &CharacterDbModel| CharacterDbModel { id: c.id, name: c.name.clone(), mythos: c.mythos.clone(), logos: c.logos.clone() };
    let (character, themes) = character_with_themes(vec![(same(&c), t(1, "x")), (same(&c), t(2, "y"))]);
    assert_eq!(character.id, 2);
    assert_eq!(themes.iter().map(|t| t.title.as_str()).collect::<Vec<_>>(), vec!["x", "y"]);
}

#[test]
fn injected_values() {
    let i = Inject::new(5);
    assert_eq!(*i, 5);
    let p: Param<&str, 2> = Param::new("x");
    assert_eq!(*p, "x");
    assert_eq!(p.position(), 2);
}

#[test]
fn campaign_players_change_in_place() {
    let mut c = Campaign::from_model_with_members(
        campaign_entity::Model { id: 1, name: "Tale".to_string() },
        vec![
            (MemberType::Player, user(1), Some(Character::default())),
            (MemberType::GM, user(2), None),
            (MemberType::Player, user(3), Some(Character::default())),
        ],
    );
    {
        let mut players = c.players_mut().unwrap();
        assert_eq!(players.len(), 2);
        assert_eq!(players[1].0.id, 3);
        players[1].1.name = "Changed".to_string();
        players[0].0.username = "renamed".to_string();
    }
    let players = c.players().unwrap();
    assert_eq!(players[0].0.username, "renamed");
    assert_eq!(players[1].1.name, "Changed");
    assert_eq!(c.gm().unwrap().id, 2);
    let mut bare = Campaign::from_model(campaign_entity::Model { id: 1, name: "x".to_string() });
    assert!(bare.players_mut().is_none());
}
