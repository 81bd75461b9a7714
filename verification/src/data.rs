//! The game's fixed content: the themebooks, and an example character.

use crate::common::character::{character_build, Character, CharacterBuilder, CharacterView, themes_build};
use crate::common::theme::{theme_builder_missing, Theme, ThemeBuilder, ThemeType, ThemeView};
use crate::common::theme_descriptor::ThemeDescriptor;
use crate::str_map::StrMap;
use vstd::prelude::*;
use vstd::string::*;

verus! {

/// The themebooks, by name.
pub type ThemeDescriptors = StrMap<ThemeDescriptor>;

/// Something that is made from a themebook.
pub trait HasThemeDescriptor {
    /// The name of the themebook it is made from.
    spec fn descriptor_key(&self) -> Seq<char>;

    /// The themebook it is made from; the themebook must be known.
    fn descriptor<'a>(&self, descriptors: &'a ThemeDescriptors) -> (r: &'a ThemeDescriptor)
        requires
            descriptors@.contains_key(self.descriptor_key()),
        ensures
            *r == descriptors@[self.descriptor_key()],
    ;
}

impl HasThemeDescriptor for Theme {
    open spec fn descriptor_key(&self) -> Seq<char> {
        self.theme_descriptor@
    }

    fn descriptor<'a>(&self, descriptors: &'a ThemeDescriptors) -> (r: &'a ThemeDescriptor) {
        match descriptors.get(self.theme_descriptor.as_str()) {
            Some(d) => d,
            None => unreached(),
        }
    }
}

/// A fresh theme of the example character: no id, no attention, no fade
/// or crack, no tags, and "blah" for its mystery or identity.
pub open spec fn example_theme(descriptor: Seq<char>, theme_type: ThemeType, title: Seq<char>) -> ThemeView {
    ThemeView {
        id: None,
        theme_descriptor: descriptor,
        title: title,
        mystery_or_identity: "blah"@,
        theme_type: theme_type,
        attention: 0,
        fade_or_crack: 0,
        tags: Seq::empty(),
    }
}

/// The example character: Fenrir the Vagrant, with four core themes and a
/// crew theme.
pub open spec fn example_character_view() -> CharacterView {
    CharacterView {
        id: None,
        name: "Fenrir"@,
        mythos: "Fenrir"@,
        logos: "Vagrant"@,
        core_themes: seq![
            example_theme("expression"@, ThemeType::Mythos, "Tooth and Nail"@),
            example_theme("bastion"@, ThemeType::Mythos, "Demigod"@),
            example_theme("divination"@, ThemeType::Mythos, "Animal Senses"@),
            example_theme("defining_event"@, ThemeType::Logos, "Trust Is A Dagger"@),
        ],
        crew_theme: Some(example_theme("crew"@, ThemeType::Crew, "Crew"@)),
        extra_themes: Seq::empty(),
    }
}

fn example_theme_builder(descriptor: &str, theme_type: ThemeType, title: &str) -> (r: ThemeBuilder)
    ensures
        theme_builder_missing(r) is None,
        crate::common::theme::theme_builder_value(r) == example_theme(descriptor@, theme_type, title@),
{
    proof { reveal_strlit("blah"); }
    ThemeBuilder::default()
        .theme_descriptor(descriptor)
        .theme_type(theme_type)
        .title(title)
        .mystery_or_identity("blah")
}

/// The example character that a new sheet starts from.
pub fn example_character() -> (r: Character)
    ensures
        r@ == example_character_view(),
{
    let expression = example_theme_builder("expression", ThemeType::Mythos, "Tooth and Nail");
    let bastion = example_theme_builder("bastion", ThemeType::Mythos, "Demigod");
    let divination = example_theme_builder("divination", ThemeType::Mythos, "Animal Senses");
    let defining_event = example_theme_builder("defining_event", ThemeType::Logos, "Trust Is A Dagger");
    let crew = example_theme_builder("crew", ThemeType::Crew, "Crew");
    let mut core: Vec<ThemeBuilder> = Vec::new();
    core.push(expression);
    core.push(bastion);
    core.push(divination);
    core.push(defining_event);
    let builder = CharacterBuilder::default()
        .name("Fenrir")
        .mythos("Fenrir")
        .logos("Vagrant")
        .core_themes(Some(core))
        .crew_theme(Some(Some(crew)));
    proof {
        let bs = builder.core_themes->0@;
        reveal_with_fuel(themes_build, 5);
        assert(bs.drop_last().drop_last().drop_last().drop_last() =~= Seq::<ThemeBuilder>::empty());
        assert(character_build(builder) is Ok);
    }
    let r = builder.build();
    match r {
        Ok(c) => {
            assert(c@.core_themes =~= example_character_view().core_themes);
            c
        },
        Err(_) => {
            assert(false);
            Character::default()
        },
    }
}

} // verus!
