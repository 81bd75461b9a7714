use mist::common::theme::{Tag, Theme, ThemeBuilder, ThemeBuilderError, ThemeType};
use mist::entity::active_value::ActiveValue;
use mist::entity::theme as theme_entity;
use mist::entity::theme::ThemeDescriptor;

fn stored_row(id: i32) -> theme_entity::Model {
    theme_entity::Model {
        id,
        theme_descriptor: ThemeDescriptor::DefiningEvent,
        title: "Trust Is A Dagger".to_string(),
        mystery_or_identity: "Never again".to_string(),
        theme_type: theme_entity::ThemeType::Logos,
        attention: 2,
        fade_or_crack: 1,
        tags: vec![Tag::new_power("quick draw".to_string(), false), Tag::new_weakness("paranoid".to_string(), true)],
    }
}

#[test]
fn theme_type_converts_both_ways() {
    let all = [ThemeType::Mythos, ThemeType::Logos, ThemeType::Crew, ThemeType::Extra];
    for t in all {
        let stored: theme_entity::ThemeType = t.into();
        let back: ThemeType = stored.into();
        assert_eq!(back, t);
    }
    let stored: theme_entity::ThemeType = ThemeType::Crew.into();
    assert_eq!(stored, theme_entity::ThemeType::Crew);
    assert_eq!(ThemeType::default(), ThemeType::Extra);
}

#[test]
fn descriptor_names_read_back() {
    let all = [
        ThemeDescriptor::Adaptation,
        ThemeDescriptor::Ally,
        ThemeDescriptor::BaseOfOperations,
        ThemeDescriptor::Bastion,
        ThemeDescriptor::Crew,
        ThemeDescriptor::DefiningEvent,
        ThemeDescriptor::DefiningRelationship,
        ThemeDescriptor::Divination,
        ThemeDescriptor::Expression,
        ThemeDescriptor::Mission,
        ThemeDescriptor::Mobility,
        ThemeDescriptor::Personality,
        ThemeDescriptor::Possessions,
        ThemeDescriptor::Relic,
        ThemeDescriptor::Ride,
        ThemeDescriptor::Routine,
        ThemeDescriptor::Subversion,
        ThemeDescriptor::Training,
    ];
    for d in all {
        assert_eq!(ThemeDescriptor::from_name(d.name()), Some(d));
        assert_eq!(ThemeDescriptor::from_string(d.into_string()), d);
    }
}

#[test]
fn descriptor_name_values() {
    assert_eq!(ThemeDescriptor::BaseOfOperations.name(), "base_of_operations");
    assert_eq!(ThemeDescriptor::DefiningRelationship.into_string(), "defining_relationship".to_string());
    assert_eq!(ThemeDescriptor::from_name("training"), Some(ThemeDescriptor::Training));
    assert_eq!(ThemeDescriptor::from_name("Training"), None);
    assert_eq!(ThemeDescriptor::from_name(""), None);
    assert_eq!(ThemeDescriptor::from_name("crewx"), None);
}

#[test]
fn tag_constructors() {
    assert_eq!(Tag::new_power("fangs".to_string(), true), Tag::Power { name: "fangs".to_string(), burned: true });
    assert_eq!(Tag::new_weakness("silver".to_string(), false), Tag::Weakness { name: "silver".to_string(), invoked: false });
    assert_eq!(Tag::new_story("hunted".to_string()), Tag::Story { name: "hunted".to_string() });
    assert_eq!(Tag::new_status(3), Tag::Status { name: 3 });
}

#[test]
fn theme_builder_builds_with_defaults() {
    let b = ThemeBuilder::default()
        .theme_descriptor("relic")
        .title("Gleipnir")
        .mystery_or_identity("What binds a god?")
        .theme_type(ThemeType::Mythos);
    let t = b.build().unwrap();
    assert_eq!(t.id, None);
    assert_eq!(t.theme_descriptor, "relic");
    assert_eq!(t.title, "Gleipnir");
    assert_eq!(t.mystery_or_identity, "What binds a god?");
    assert_eq!(t.theme_type, ThemeType::Mythos);
    assert_eq!(t.attention, 0);
    assert_eq!(t.fade_or_crack, 0);
    assert!(t.tags.is_empty());
}

#[test]
fn theme_builder_keeps_optional_fields() {
    let t = ThemeBuilder::default()
        .id(Some(9))
        .theme_descriptor("ride")
        .title("Bike")
        .mystery_or_identity("Fast")
        .theme_type(ThemeType::Logos)
        .attention(2)
        .fade_or_crack(1)
        .tags(vec![Tag::new_story("loud".to_string())])
        .build()
        .unwrap();
    assert_eq!(t.id, Some(9));
    assert_eq!(t.attention, 2);
    assert_eq!(t.fade_or_crack, 1);
    assert_eq!(t.tags, vec![Tag::new_story("loud".to_string())]);
}

#[test]
fn theme_builder_names_first_missing_field() {
    let e = ThemeBuilder::default().build().unwrap_err();
    assert_eq!(e, ThemeBuilderError::UninitializedField("theme_descriptor"));
    let e = ThemeBuilder::default().theme_descriptor("ally").build().unwrap_err();
    assert_eq!(e, ThemeBuilderError::UninitializedField("title"));
    let e = ThemeBuilder::default().theme_descriptor("ally").title("x").build().unwrap_err();
    assert_eq!(e, ThemeBuilderError::UninitializedField("mystery_or_identity"));
    let e = ThemeBuilder::default()
        .theme_descriptor("ally")
        .title("x")
        .mystery_or_identity("y")
        .build()
        .unwrap_err();
    assert_eq!(e, ThemeBuilderError::UninitializedField("theme_type"));
    assert_eq!(e.message(), "`theme_type` must be initialized");
    assert_eq!(ThemeBuilderError::ValidationError("bad".to_string()).message(), "bad");
}

#[test]
fn theme_from_stored_row() {
    let t = Theme::from_model(stored_row(12));
    assert_eq!(t.id, Some(12));
    assert_eq!(t.theme_descriptor, "defining_event");
    assert_eq!(t.title, "Trust Is A Dagger");
    assert_eq!(t.mystery_or_identity, "Never again");
    assert_eq!(t.theme_type, ThemeType::Logos);
    assert_eq!(t.attention, 2);
    assert_eq!(t.fade_or_crack, 1);
    assert_eq!(t.tags.len(), 2);
}

#[test]
fn theme_store_then_load_gives_same_theme() {
    let t = Theme::from_model(stored_row(12));
    let copy = t.clone();
    let (active,) = t.into_active_model();
    assert_eq!(active.id, ActiveValue::SetTo(12));
    assert_eq!(active.theme_descriptor, ActiveValue::SetTo(ThemeDescriptor::DefiningEvent));
    assert_eq!(active.theme_type, ActiveValue::SetTo(theme_entity::ThemeType::Logos));
    let row = match (active.id, active.theme_descriptor, active.title, active.mystery_or_identity, active.theme_type, active.attention, active.fade_or_crack, active.tags) {
        (
            ActiveValue::SetTo(id),
            ActiveValue::SetTo(d),
            ActiveValue::SetTo(title),
            ActiveValue::SetTo(m),
            ActiveValue::SetTo(tt),
            ActiveValue::SetTo(a),
            ActiveValue::SetTo(f),
            ActiveValue::SetTo(tags),
        ) => theme_entity::Model {
            id,
            theme_descriptor: d,
            title,
            mystery_or_identity: m,
            theme_type: tt,
            attention: a,
            fade_or_crack: f,
            tags,
        },
        _ => panic!("every column is written"),
    };
    assert_eq!(Theme::from_model(row), copy);
}

#[test]
fn theme_without_id_leaves_id_unset() {
    let mut t = Theme::default();
    t.theme_descriptor = "mission".to_string();
    let (active,) = t.into_active_model();
    assert_eq!(active.id, ActiveValue::NotSet);
    assert!(active.is_changed());
    assert_eq!(active.title, ActiveValue::SetTo(String::new()));
    assert_eq!(active.theme_type, ActiveValue::SetTo(theme_entity::ThemeType::Extra));
}

#[test]
fn theme_builder_active_model_writes_only_given_fields() {
    let (active,) = ThemeBuilder::default().title("New title").attention(3).into_active_model();
    assert_eq!(active.id, ActiveValue::NotSet);
    assert_eq!(active.theme_descriptor, ActiveValue::NotSet);
    assert_eq!(active.title, ActiveValue::SetTo("New title".to_string()));
    assert_eq!(active.attention, ActiveValue::SetTo(3));
    assert_eq!(active.tags, ActiveValue::NotSet);
    assert!(active.is_changed());
    let (empty,) = ThemeBuilder::default().into_active_model();
    assert!(!empty.is_changed());
    let (with_book,) = ThemeBuilder::default().theme_descriptor("subversion").id(Some(4)).into_active_model();
    assert_eq!(with_book.theme_descriptor, ActiveValue::SetTo(ThemeDescriptor::Subversion));
    assert_eq!(with_book.id, ActiveValue::SetTo(4));
}

#[test]
fn active_value_helpers() {
    assert!(ActiveValue::SetTo(1).is_set());
    assert!(!ActiveValue::Unchanged(1).is_set());
    assert!(ActiveValue::<i32>::NotSet.is_not_set());
    assert_eq!(mist::entity::active_value::set_or_not(Some(5)), ActiveValue::SetTo(5));
    assert_eq!(mist::entity::active_value::set_or_not::<i32>(None), ActiveValue::NotSet);
}
