use mist::backend::character::{plan_character_update, theme_links, CharacterCache, CharacterUpdateError};
use mist::common::character::{partition_themes, Character, CharacterBuilder, CharacterBuilderError};
use mist::common::theme::{Theme, ThemeBuilder, ThemeBuilderError, ThemeType};
use mist::data::example_character;
use mist::entity::active_value::ActiveValue;
use mist::entity::character as character_entity;
use mist::entity::character_theme as character_theme_entity;
use mist::entity::theme as theme_entity;
use mist::entity::theme::ThemeDescriptor;

fn theme_of(title: &str, theme_type: ThemeType) -> Theme {
    let mut t = Theme::default();
    t.title = title.to_string();
    t.theme_type = theme_type;
    t.theme_descriptor = "mission".to_string();
    t
}

fn row(id: i32, title: &str, theme_type: theme_entity::ThemeType) -> theme_entity::Model {
    theme_entity::Model {
        id,
        theme_descriptor: ThemeDescriptor::Ally,
        title: title.to_string(),
        mystery_or_identity: "who?".to_string(),
        theme_type,
        attention: 0,
        fade_or_crack: 0,
        tags: Vec::new(),
    }
}

fn character_row(id: i32) -> character_entity::Model {
    character_entity::Model {
        id,
        name: "Fenrir".to_string(),
        mythos: "Fenrir".to_string(),
        logos: "Vagrant".to_string(),
    }
}

fn full_theme_builder(title: &str, theme_type: ThemeType) -> ThemeBuilder {
    ThemeBuilder::default()
        .theme_descriptor("ally")
        .title(title)
        .mystery_or_identity("?")
        .theme_type(theme_type)
}

#[test]
fn example_character_is_fenrir() {
    let c = example_character();
    assert_eq!(c.id, None);
    assert_eq!(c.name, "Fenrir");
    assert_eq!(c.mythos, "Fenrir");
    assert_eq!(c.logos, "Vagrant");
    let titles: Vec<&str> = c.core_themes.iter().map(|t| t.title.as_str()).collect();
    assert_eq!(titles, vec!["Tooth and Nail", "Demigod", "Animal Senses", "Trust Is A Dagger"]);
    assert_eq!(c.core_themes[3].theme_type, ThemeType::Logos);
    assert_eq!(c.core_themes[0].theme_descriptor, "expression");
    assert_eq!(c.core_themes[0].mystery_or_identity, "blah");
    let crew = c.crew_theme.unwrap();
    assert_eq!(crew.theme_descriptor, "crew");
    assert_eq!(crew.theme_type, ThemeType::Crew);
    assert!(c.extra_themes.is_empty());
}

#[test]
fn partition_sorts_by_kind() {
    let themes = vec![
        theme_of("a", ThemeType::Extra),
        theme_of("b", ThemeType::Mythos),
        theme_of("c", ThemeType::Crew),
        theme_of("d", ThemeType::Logos),
        theme_of("e", ThemeType::Crew),
        theme_of("f", ThemeType::Extra),
    ];
    let (core, crew, extra) = partition_themes(themes);
    let core_titles: Vec<&str> = core.iter().map(|t| t.title.as_str()).collect();
    let extra_titles: Vec<&str> = extra.iter().map(|t| t.title.as_str()).collect();
    assert_eq!(core_titles, vec!["b", "d"]);
    assert_eq!(crew.unwrap().title, "c");
    assert_eq!(extra_titles, vec!["a", "f"]);
    let (core, crew, extra) = partition_themes(Vec::new());
    assert!(core.is_empty() && crew.is_none() && extra.is_empty());
}

#[test]
fn character_from_rows() {
    let c = Character::from_model_with_themes(
        character_row(5),
        vec![
            row(1, "one", theme_entity::ThemeType::Mythos),
            row(2, "two", theme_entity::ThemeType::Crew),
            row(3, "three", theme_entity::ThemeType::Extra),
        ],
    );
    assert_eq!(c.id, Some(5));
    assert_eq!(c.core_themes.len(), 1);
    assert_eq!(c.core_themes[0].id, Some(1));
    assert_eq!(c.core_themes[0].theme_descriptor, "ally");
    assert_eq!(c.crew_theme.as_ref().unwrap().id, Some(2));
    assert_eq!(c.extra_themes[0].title, "three");
    let bare = Character::from_model(character_row(5));
    assert_eq!(bare.id, None);
    assert_eq!(bare.name, "Fenrir");
    assert!(bare.core_themes.is_empty());
}

#[test]
fn character_store_then_load_gives_same_sheet() {
    let c = Character::from_model_with_themes(
        character_row(5),
        vec![
            row(1, "one", theme_entity::ThemeType::Mythos),
            row(2, "two", theme_entity::ThemeType::Logos),
            row(3, "three", theme_entity::ThemeType::Crew),
            row(4, "four", theme_entity::ThemeType::Extra),
        ],
    );
    let copy = c.clone();
    let (m_character, m_themes) = c.into_active_models();
    assert_eq!(m_character.id, ActiveValue::SetTo(5));
    assert_eq!(m_character.name, ActiveValue::SetTo("Fenrir".to_string()));
    assert_eq!(m_themes.len(), 4);
    let mut rows = Vec::new();
    for m in m_themes {
        match (m.id, m.theme_descriptor, m.title, m.mystery_or_identity, m.theme_type, m.attention, m.fade_or_crack, m.tags) {
            (
                ActiveValue::SetTo(id),
                ActiveValue::SetTo(d),
                ActiveValue::SetTo(title),
                ActiveValue::SetTo(mi),
                ActiveValue::SetTo(tt),
                ActiveValue::SetTo(a),
                ActiveValue::SetTo(f),
                ActiveValue::SetTo(tags),
            ) => rows.push(theme_entity::Model {
                id,
                theme_descriptor: d,
                title,
                mystery_or_identity: mi,
                theme_type: tt,
                attention: a,
                fade_or_crack: f,
                tags,
            }),
            _ => panic!("every column is written"),
        }
    }
    let titles: Vec<&str> = rows.iter().map(|r| r.title.as_str()).collect();
    assert_eq!(titles, vec!["one", "two", "three", "four"]);
    assert_eq!(Character::from_model_with_themes(character_row(5), rows), copy);
}

#[test]
fn example_character_active_models() {
    let (m_character, m_themes) = example_character().into_active_models();
    assert_eq!(m_character.id, ActiveValue::NotSet);
    assert_eq!(m_character.logos, ActiveValue::SetTo("Vagrant".to_string()));
    assert_eq!(m_themes.len(), 5);
    assert_eq!(m_themes[4].theme_descriptor, ActiveValue::SetTo(ThemeDescriptor::Crew));
    assert_eq!(m_themes[0].id, ActiveValue::NotSet);
    assert!(m_character.is_changed());
}

#[test]
fn character_builder_builds() {
    let c = CharacterBuilder::default()
        .id(Some(3))
        .name("Iris")
        .mythos("Iris")
        .logos("Courier")
        .core_themes(Some(vec![full_theme_builder("Rainbow", ThemeType::Mythos)]))
        .crew_theme(Some(None))
        .extra_themes(Some(vec![full_theme_builder("Van", ThemeType::Extra)]))
        .build()
        .unwrap();
    assert_eq!(c.id, Some(3));
    assert_eq!(c.name, "Iris");
    assert_eq!(c.core_themes[0].title, "Rainbow");
    assert!(c.crew_theme.is_none());
    assert_eq!(c.extra_themes[0].title, "Van");
    let minimal = CharacterBuilder::default().name("a").mythos("b").logos("c").build().unwrap();
    assert_eq!(minimal.id, None);
    assert!(minimal.core_themes.is_empty() && minimal.crew_theme.is_none() && minimal.extra_themes.is_empty());
}

#[test]
fn character_builder_names_first_missing_field() {
    assert_eq!(CharacterBuilder::default().build().unwrap_err(), CharacterBuilderError::UninitializedField("name"));
    assert_eq!(
        CharacterBuilder::default().name("a").build().unwrap_err(),
        CharacterBuilderError::UninitializedField("mythos")
    );
    assert_eq!(
        CharacterBuilder::default().name("a").mythos("b").build().unwrap_err(),
        CharacterBuilderError::UninitializedField("logos")
    );
    let e = CharacterBuilder::default()
        .name("a")
        .mythos("b")
        .logos("c")
        .core_themes(Some(vec![full_theme_builder("ok", ThemeType::Mythos), ThemeBuilder::default().theme_descriptor("ally")]))
        .build()
        .unwrap_err();
    assert_eq!(e, CharacterBuilderError::UninitializedField("title"));
    let e = CharacterBuilder::default()
        .name("a")
        .mythos("b")
        .logos("c")
        .crew_theme(Some(Some(ThemeBuilder::default())))
        .build()
        .unwrap_err();
    assert_eq!(e, CharacterBuilderError::UninitializedField("theme_descriptor"));
}

#[test]
fn theme_error_becomes_character_error() {
    let e: CharacterBuilderError = ThemeBuilderError::UninitializedField("title").into();
    assert_eq!(e, CharacterBuilderError::UninitializedField("title"));
    let e: CharacterBuilderError = ThemeBuilderError::ValidationError("no".to_string()).into();
    assert_eq!(e, CharacterBuilderError::ValidationError("no".to_string()));
}

#[test]
fn update_plan_writes_sent_fields() {
    let b = CharacterBuilder::default()
        .name("New name")
        .extra_themes(Some(vec![ThemeBuilder::default().id(Some(8)).attention(1)]));
    let plan = plan_character_update(4, b);
    let m = plan.character.unwrap();
    assert_eq!(m.id, ActiveValue::SetTo(4));
    assert_eq!(m.name, ActiveValue::SetTo("New name".to_string()));
    assert_eq!(m.mythos, ActiveValue::NotSet);
    assert_eq!(plan.themes.len(), 1);
    assert_eq!(plan.themes[0].id, ActiveValue::SetTo(8));
    assert_eq!(plan.themes[0].attention, ActiveValue::SetTo(1));
    assert_eq!(plan.themes[0].title, ActiveValue::NotSet);
}

#[test]
fn update_plan_without_character_columns_reads_back() {
    let b = CharacterBuilder::default().core_themes(Some(vec![ThemeBuilder::default().id(Some(2)).title("t")]));
    let plan = plan_character_update(4, b);
    assert!(plan.character.is_none());
    assert_eq!(plan.themes.len(), 1);
    assert_eq!(plan.themes[0].title, ActiveValue::SetTo("t".to_string()));
    let empty = plan_character_update(4, CharacterBuilder::default());
    assert!(empty.character.is_none());
    assert!(empty.themes.is_empty());
}

#[test]
fn update_error_messages() {
    assert_eq!(
        CharacterUpdateError::ActiveModel("bad json".to_string()).message(),
        "Couldn't create active model: bad json"
    );
    assert_eq!(CharacterUpdateError::Save("locked".to_string()).message(), "Couldn't save character: locked");
    assert_eq!(CharacterUpdateError::Get("gone".to_string()).message(), "Couldn't get character: gone");
    assert_eq!(CharacterUpdateError::NoSuchCharacter.message(), "No such character.");
    assert_eq!(CharacterUpdateError::NotReloaded.message(), "Couldn't get character after save.");
}

#[test]
fn theme_links_pair_character_with_each_theme() {
    let links = theme_links(7, &vec![10, 11]);
    assert_eq!(
        links,
        vec![
            character_theme_entity::ActiveModel { character_id: ActiveValue::SetTo(7), theme_id: ActiveValue::SetTo(10) },
            character_theme_entity::ActiveModel { character_id: ActiveValue::SetTo(7), theme_id: ActiveValue::SetTo(11) },
        ]
    );
    assert!(theme_links(7, &Vec::new()).is_empty());
}

#[test]
fn cache_refresh_then_cached() {
    let mut cache = CharacterCache::new();
    assert!(cache.needs_load(5));
    assert!(cache.cached(5).is_none());
    assert!(!cache.refresh(5, None));
    assert!(cache.needs_load(5));
    assert!(cache.refresh(5, Some((character_row(5), vec![row(1, "one", theme_entity::ThemeType::Mythos)]))));
    assert!(!cache.needs_load(5));
    let c = cache.cached(5).unwrap();
    assert_eq!(c.id, Some(5));
    assert_eq!(c.core_themes[0].title, "one");
    assert!(cache.cached(6).is_none());
    let mut renamed = character_row(5);
    renamed.name = "Other".to_string();
    assert!(cache.refresh(5, Some((renamed, Vec::new()))));
    assert_eq!(cache.cached(5).unwrap().name, "Other");
}

#[test]
fn cache_first_load_stays() {
    let mut cache = CharacterCache::new();
    assert!(!cache.load_if_absent(5, None));
    assert!(cache.load_if_absent(5, Some((character_row(5), Vec::new()))));
    let mut renamed = character_row(5);
    renamed.name = "Other".to_string();
    assert!(cache.load_if_absent(5, Some((renamed, Vec::new()))));
    assert_eq!(cache.cached(5).unwrap().name, "Fenrir");
    assert!(cache.load_if_absent(5, None));
}
