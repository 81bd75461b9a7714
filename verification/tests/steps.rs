use mist::backend::auth::sign_up;
use mist::backend::character::{start_update, update_step, CharacterUpdateError, UpdateAction, UpdateEvent, UpdateState};
use mist::backend::websocket::{handle_event, Action, Arg, Emit, EventStep, Payload, Target};
use mist::common::character::{Character, CharacterBuilder};
use mist::common::theme::{Theme, ThemeBuilder, ThemeType};
use mist::common::theme_descriptor::{ThemeConcept, ThemeDescriptorBuilder, ThemePhrase, ThemeRelationships};
use mist::data::{example_character, ThemeDescriptors};
use mist::entity::active_value::ActiveValue;
use mist::frontend::cards::{
    character_card, flipped_after_click, CardSide,
    character_card_class, character_card_images, shown_themes, theme_card, theme_card_class, theme_card_images,
};
use mist::str_map::StrMap;
use std::collections::HashMap;

fn s(text: &str) -> Arg {
    Arg::Str(text.to_string())
}

#[test]
fn events_with_handlers() {
    assert_eq!(
        handle_event("ping", Arg::Absent, Arg::Absent, Arg::Absent, false),
        EventStep::Act(Ok(vec![Action::Emit(Emit {
            target: Target::Caller,
            event: "pong".to_string(),
            payload: Payload::Empty
        })]))
    );
    assert_eq!(
        handle_event("msg", s("r"), s("hi"), Arg::Absent, false),
        EventStep::Act(Ok(vec![Action::Emit(Emit {
            target: Target::RoomExceptCaller("r".to_string()),
            event: "msg".to_string(),
            payload: Payload::Content(Ok("hi".to_string()))
        })]))
    );
    assert_eq!(
        handle_event("msg", Arg::Absent, s("hi"), Arg::Absent, false),
        EventStep::Act(Err("No `to` argument.".to_string()))
    );
    match handle_event("dice", Arg::Absent, Arg::Absent, Arg::Absent, false) {
        EventStep::Act(Ok(actions)) => {
            assert_eq!(actions.len(), 1);
            assert!(matches!(&actions[0], Action::Emit(Emit { target: Target::Room(r), .. }) if r == "dice"));
        }
        other => panic!("unexpected step {:?}", other),
    }
    assert_eq!(handle_event("character", Arg::Absent, Arg::Absent, Arg::Int(7), false), EventStep::LoadCharacter(7));
    assert_eq!(
        handle_event("character", Arg::Absent, Arg::Absent, s("7"), false),
        EventStep::Act(Err("No `cid` parameter specified.".to_string()))
    );
    assert_eq!(handle_event("character/new", Arg::Absent, Arg::Absent, Arg::Absent, false), EventStep::CreateCharacter);
    assert_eq!(handle_event("character/modify", Arg::Absent, Arg::Absent, Arg::Int(3), true), EventStep::ModifyCharacter(3));
    assert_eq!(
        handle_event("character/modify", Arg::Absent, Arg::Absent, Arg::Int(3), false),
        EventStep::Act(Err("No `character` parameter specified.".to_string()))
    );
    assert_eq!(
        handle_event("character/modify", Arg::Absent, Arg::Absent, Arg::Absent, true),
        EventStep::Act(Err("No `cid` parameter specified.".to_string()))
    );
}

#[test]
fn events_without_handlers() {
    assert_eq!(handle_event("pong", Arg::Absent, Arg::Absent, Arg::Absent, false), EventStep::Unhandled);
    assert_eq!(handle_event("", Arg::Absent, Arg::Absent, Arg::Absent, false), EventStep::Unhandled);
    assert_eq!(handle_event("character/", Arg::Absent, Arg::Absent, Arg::Absent, false), EventStep::Unhandled);
}

#[test]
fn update_that_writes_the_character_row() {
    let b = CharacterBuilder::default().name("New").extra_themes(Some(vec![ThemeBuilder::default().id(Some(9)).title("t")]));
    let state = start_update(4, b);
    assert!(state.waits_for(&UpdateEvent::Begin));
    let (state, action) = update_step(state, UpdateEvent::Begin);
    match action {
        UpdateAction::SaveCharacter(m) => {
            assert_eq!(m.id, ActiveValue::SetTo(4));
            assert_eq!(m.name, ActiveValue::SetTo("New".to_string()));
        }
        other => panic!("unexpected action {:?}", other),
    }
    assert!(!state.waits_for(&UpdateEvent::Begin));
    let (state, action) = update_step(state, UpdateEvent::CharacterSaved(Ok(4)));
    match action {
        UpdateAction::SaveThemes(themes) => assert_eq!(themes[0].id, ActiveValue::SetTo(9)),
        other => panic!("unexpected action {:?}", other),
    }
    let (state, action) = update_step(state, UpdateEvent::ThemesSaved(Ok(())));
    assert_eq!(action, UpdateAction::Reload(4));
    let (state, action) = update_step(state, UpdateEvent::Reloaded(true));
    assert_eq!(action, UpdateAction::Done(Ok(4)));
    assert_eq!(state, UpdateState::Finished);
    assert!(!state.waits_for(&UpdateEvent::Reloaded(true)));
}

#[test]
fn update_that_only_reads_the_character_row() {
    let b = CharacterBuilder::default().core_themes(Some(vec![ThemeBuilder::default().id(Some(2)).attention(1)]));
    let (state, action) = update_step(start_update(6, b), UpdateEvent::Begin);
    assert_eq!(action, UpdateAction::GetCharacter(6));
    let (_, action) = update_step(state, UpdateEvent::CharacterFound(Ok(None)));
    assert_eq!(action, UpdateAction::Done(Err(CharacterUpdateError::NoSuchCharacter)));

    let (state, _) = update_step(start_update(6, CharacterBuilder::default()), UpdateEvent::Begin);
    let (_, action) = update_step(state, UpdateEvent::CharacterFound(Err("down".to_string())));
    assert_eq!(action, UpdateAction::Done(Err(CharacterUpdateError::Get("down".to_string()))));

    let (state, _) = update_step(start_update(6, CharacterBuilder::default()), UpdateEvent::Begin);
    let (state, action) = update_step(state, UpdateEvent::CharacterFound(Ok(Some(6))));
    assert_eq!(action, UpdateAction::SaveThemes(Vec::new()));
    let (state, _) = update_step(state, UpdateEvent::ThemesSaved(Ok(())));
    let (_, action) = update_step(state, UpdateEvent::Reloaded(false));
    assert_eq!(action, UpdateAction::Done(Err(CharacterUpdateError::NotReloaded)));
}

#[test]
fn update_stops_at_refused_writes() {
    let (state, _) = update_step(start_update(1, CharacterBuilder::default().logos("x")), UpdateEvent::Begin);
    let (state, action) = update_step(state, UpdateEvent::CharacterSaved(Err("locked".to_string())));
    assert_eq!(action, UpdateAction::Done(Err(CharacterUpdateError::Save("locked".to_string()))));
    assert_eq!(state, UpdateState::Finished);
    let (state, _) = update_step(start_update(1, CharacterBuilder::default().logos("x")), UpdateEvent::Begin);
    let (state, _) = update_step(state, UpdateEvent::CharacterSaved(Ok(1)));
    let (_, action) = update_step(state, UpdateEvent::ThemesSaved(Err("bad".to_string())));
    assert_eq!(action, UpdateAction::Done(Err(CharacterUpdateError::Save("bad".to_string()))));
}

#[test]
fn known_descriptor_checks() {
    assert!(example_character().has_known_descriptors());
    let mut c = example_character();
    c.crew_theme.as_mut().unwrap().theme_descriptor = "nonsense".to_string();
    assert!(!c.has_known_descriptors());
    let mut c = Character::default();
    let mut t = Theme::default();
    t.theme_descriptor = "mission".to_string();
    c.extra_themes.push(t);
    assert!(c.has_known_descriptors());
    c.extra_themes[0].theme_descriptor = "Mission".to_string();
    assert!(!c.has_known_descriptors());
    assert!(CharacterBuilder::default().has_known_descriptors());
    assert!(CharacterBuilder::default()
        .core_themes(Some(vec![ThemeBuilder::default(), ThemeBuilder::default().theme_descriptor("relic")]))
        .has_known_descriptors());
    assert!(!CharacterBuilder::default()
        .extra_themes(Some(vec![ThemeBuilder::default().theme_descriptor("relics")]))
        .has_known_descriptors());
    assert!(!CharacterBuilder::default()
        .crew_theme(Some(Some(ThemeBuilder::default().theme_descriptor("team"))))
        .has_known_descriptors());
}

#[test]
fn card_classes_and_pictures() {
    assert_eq!(theme_card_class(false, ThemeType::Mythos), "card theme theme-mythos");
    assert_eq!(theme_card_class(true, ThemeType::Extra), "card card-flipped theme theme-extra");
    assert_eq!(theme_card_images(ThemeType::Logos), ("assets/character-theme.png", "assets/character-theme-flipside.png"));
    assert_eq!(theme_card_images(ThemeType::Crew), ("assets/crew-theme.png", "assets/crew-improvements.png"));
    assert_eq!(character_card_class(false), "card character");
    assert_eq!(character_card_class(true), "card card-flipped character");
    assert_eq!(character_card_images(), ("assets/character-card.png", "assets/com-build-up.png"));
}

#[test]
fn theme_card_follows_its_themebook() {
    let book = ThemeDescriptorBuilder::default()
        .name("crew")
        .theme_type(ThemeType::Crew)
        .concept(ThemeConcept::new("b".to_string(), "q".to_string(), vec![]))
        .phrase(ThemePhrase::new(vec![], vec![]))
        .relationships(ThemeRelationships::new(vec![]))
        .improvements(vec![])
        .power_tag_questions(HashMap::new())
        .weakness_tag_questions(HashMap::new())
        .build()
        .unwrap();
    let mut books: ThemeDescriptors = StrMap::new();
    books.insert("crew".to_string(), book);
    let c = example_character();
    let crew = c.crew_theme.as_ref().unwrap();
    let card = theme_card(crew, &books, true);
    assert_eq!(card.class, "card card-flipped theme theme-crew");
    assert_eq!(card.front_image, "assets/crew-theme.png");
    assert_eq!(card.back_image, "assets/crew-improvements.png");
    assert_eq!(card.themebook, "crew");
    assert_eq!(card.title, "Crew");
}

#[test]
fn card_row_shows_crew_then_extras() {
    let mut c = example_character();
    let mut extra = Theme::default();
    extra.title = "Bike".to_string();
    c.extra_themes.push(extra);
    let shown = shown_themes(&c);
    assert_eq!(shown.len(), 2);
    assert_eq!(shown[0].title, "Crew");
    assert_eq!(shown[1].title, "Bike");
}

#[test]
fn sign_up_salt_is_b64_of_sixteen_bytes() {
    let row = sign_up("e".to_string(), "u".to_string(), "pw").expect("a password this short is hashed");
    match row.password_salt {
        ActiveValue::SetTo(salt) => {
            assert_eq!(salt.len(), 22);
            assert!(salt.chars().all(|c| c.is_ascii_alphanumeric() || c == '+' || c == '/'));
            assert!(matches!(salt.chars().last(), Some('A' | 'Q' | 'g' | 'w')));
        }
        other => panic!("unexpected salt {:?}", other),
    }
}

#[test]
fn watcher_made_once_per_user() {
    let mut watchers = mist::backend::watcher::WatcherService::new();
    assert_eq!(*watchers.get_by_id(1, "first"), "first");
    assert_eq!(*watchers.get_by_id(1, "second"), "first");
    assert_eq!(*watchers.get_by_id(2, "other"), "other");
}

#[test]
fn character_card_shows_the_sheet() {
    let c = example_character();
    let card = character_card(&c, false);
    assert_eq!(card.class, "card character");
    assert_eq!((card.front_image, card.back_image), ("assets/character-card.png", "assets/com-build-up.png"));
    assert_eq!((card.title.as_str(), card.mythos.as_str(), card.logos.as_str()), ("Fenrir", "Fenrir", "Vagrant"));
    assert_eq!(character_card(&c, true).class, "card card-flipped character");
    assert!(flipped_after_click(CardSide::Front));
    assert!(!flipped_after_click(CardSide::Back));
}

#[test]
fn watcher_shared_per_user() {
    let mut watchers = mist::backend::watcher::WatcherService::new();
    let first = *watchers.get_by_id(7, 1u32);
    let again = *watchers.get_by_id(7, 2u32);
    let other = *watchers.get_by_id(8, 3u32);
    assert_eq!((first, again, other), (1, 1, 3));
    assert_eq!(*watchers.get_by_id(7, 4u32), 1);
}
