//! The cards of the character sheet: which class and which pictures a
//! card shows, front and back.

use crate::common::character::Character;
use crate::common::theme::{Theme, ThemeType};
use crate::data::{HasThemeDescriptor, ThemeDescriptors};
use crate::text::join2;
use vstd::prelude::*;
use vstd::string::*;

verus! {

/// Which theme of the sheet a card shows.
#[derive(Debug, PartialEq, Eq, Structural, Clone, Copy)]
pub enum ThemeRef {
    /// The core theme at this place.
    CoreTheme(i8),
    /// The crew theme.
    CrewTheme,
    /// The extra theme at this place.
    ExtraTheme(i8),
}

/// The name of a theme kind in a card's class.
pub open spec fn kind_class(kind: ThemeType) -> Seq<char> {
    match kind {
        ThemeType::Mythos => "mythos"@,
        ThemeType::Logos => "logos"@,
        ThemeType::Crew => "crew"@,
        ThemeType::Extra => "extra"@,
    }
}

/// The part of a card's class that tells it is turned over.
pub open spec fn flipped_class(flipped: bool) -> Seq<char> {
    if flipped { "card-flipped "@ } else { ""@ }
}

fn kind_class_str(kind: ThemeType) -> (r: &'static str)
    ensures
        r@ == kind_class(kind),
{
    match kind {
        ThemeType::Mythos => "mythos",
        ThemeType::Logos => "logos",
        ThemeType::Crew => "crew",
        ThemeType::Extra => "extra",
    }
}

fn flipped_class_str(flipped: bool) -> (r: &'static str)
    ensures
        r@ == flipped_class(flipped),
{
    if flipped { "card-flipped " } else { "" }
}

/// The class of a theme card: `card `, `card-flipped ` when it is turned
/// over, then `theme theme-` and the kind of theme its themebook makes.
pub fn theme_card_class(flipped: bool, kind: ThemeType) -> (r: String)
    ensures
        r@ == "card "@ + flipped_class(flipped) + "theme theme-"@ + kind_class(kind),
{
    let mut s = join2("card ", flipped_class_str(flipped));
    s.append("theme theme-");
    s.append(kind_class_str(kind));
    s
}

/// The pictures of a theme card, front and back: the character-theme
/// pictures for mythos and logos themes, the crew pictures for the others.
pub fn theme_card_images(kind: ThemeType) -> (r: (&'static str, &'static str))
    ensures
        (kind == ThemeType::Mythos || kind == ThemeType::Logos) ==> r.0@ == "assets/character-theme.png"@
            && r.1@ == "assets/character-theme-flipside.png"@,
        (kind == ThemeType::Crew || kind == ThemeType::Extra) ==> r.0@ == "assets/crew-theme.png"@
            && r.1@ == "assets/crew-improvements.png"@,
{
    match kind {
        ThemeType::Mythos | ThemeType::Logos => ("assets/character-theme.png", "assets/character-theme-flipside.png"),
        ThemeType::Crew | ThemeType::Extra => ("assets/crew-theme.png", "assets/crew-improvements.png"),
    }
}

/// What a theme card shows.
#[derive(Debug, PartialEq)]
pub struct ThemeCardView {
    pub class: String,
    pub front_image: &'static str,
    pub back_image: &'static str,
    pub themebook: String,
    pub title: String,
}

/// The card of a theme: its class and pictures follow the kind of theme
/// its themebook makes; it shows the themebook's name and the theme's
/// title. The themebook must be known.
pub fn theme_card(theme: &Theme, descriptors: &ThemeDescriptors, flipped: bool) -> (r: ThemeCardView)
    requires
        descriptors@.contains_key(theme.theme_descriptor@),
    ensures
        ({
            let book = descriptors@[theme.theme_descriptor@]@;
            &&& r.class@ == "card "@ + flipped_class(flipped) + "theme theme-"@ + kind_class(book.theme_type)
            &&& (book.theme_type == ThemeType::Mythos || book.theme_type == ThemeType::Logos) ==> r.front_image@
                == "assets/character-theme.png"@ && r.back_image@ == "assets/character-theme-flipside.png"@
            &&& (book.theme_type == ThemeType::Crew || book.theme_type == ThemeType::Extra) ==> r.front_image@
                == "assets/crew-theme.png"@ && r.back_image@ == "assets/crew-improvements.png"@
            &&& r.themebook@ == book.name
            &&& r.title@ == theme.title@
        }),
{
    let book = theme.descriptor(descriptors);
    let kind = *book.theme_type();
    let (front_image, back_image) = theme_card_images(kind);
    let r = ThemeCardView {
        class: theme_card_class(flipped, kind),
        front_image,
        back_image,
        themebook: book.name().clone(),
        title: theme.title.clone(),
    };
    r
}

/// A side of a card.
#[derive(Debug, PartialEq, Eq, Structural, Clone, Copy)]
pub enum CardSide {
    Front,
    Back,
}

/// Whether a card is turned over after its Flip button is clicked on the
/// given side: the front's button turns it over, the back's turns it back.
pub fn flipped_after_click(side: CardSide) -> (r: bool)
    ensures
        r == (side == CardSide::Front),
{
    match side {
        CardSide::Front => true,
        CardSide::Back => false,
    }
}

/// What the character card shows: its class and pictures, and on its
/// front the character's name, mythos and logos.
#[derive(Debug, PartialEq)]
pub struct CharacterCardView {
    pub class: String,
    pub front_image: &'static str,
    pub back_image: &'static str,
    pub title: String,
    pub mythos: String,
    pub logos: String,
}

/// The character card of a sheet, turned over or not.
pub fn character_card(c: &Character, flipped: bool) -> (r: CharacterCardView)
    ensures
        r.class@ == "card "@ + flipped_class(flipped) + "character"@,
        r.front_image@ == "assets/character-card.png"@,
        r.back_image@ == "assets/com-build-up.png"@,
        r.title@ == c.name@,
        r.mythos@ == c.mythos@,
        r.logos@ == c.logos@,
{
    let (front_image, back_image) = character_card_images();
    CharacterCardView {
        class: character_card_class(flipped),
        front_image,
        back_image,
        title: c.name.clone(),
        mythos: c.mythos.clone(),
        logos: c.logos.clone(),
    }
}

/// The class of the character card: `card `, `card-flipped ` when it is
/// turned over, then `character`.
pub fn character_card_class(flipped: bool) -> (r: String)
    ensures
        r@ == "card "@ + flipped_class(flipped) + "character"@,
{
    let mut s = join2("card ", flipped_class_str(flipped));
    s.append("character");
    s
}

/// The pictures of the character card, front and back.
pub fn character_card_images() -> (r: (&'static str, &'static str))
    ensures
        r.0@ == "assets/character-card.png"@,
        r.1@ == "assets/com-build-up.png"@,
{
    ("assets/character-card.png", "assets/com-build-up.png")
}

/// The themes the card row shows after the character card: the crew
/// theme, then the extra themes. The sheet must have a crew theme.
pub fn shown_themes(c: &Character) -> (r: Vec<&Theme>)
    requires
        c.crew_theme is Some,
    ensures
        r@.len() == 1 + c.extra_themes@.len(),
        *r@[0] == c.crew_theme->0,
        forall|i: int| 0 <= i < c.extra_themes@.len() ==> *r@[i + 1] == #[trigger] c.extra_themes@[i],
{
    let mut r: Vec<&Theme> = Vec::new();
    match &c.crew_theme {
        Some(t) => r.push(t),
        None => {},
    }
    let mut i: usize = 0;
    while i < c.extra_themes.len()
        invariant
            i <= c.extra_themes.len(),
            c.crew_theme is Some,
            r@.len() == 1 + i,
            *r@[0] == c.crew_theme->0,
            forall|j: int| 0 <= j < i ==> *r@[j + 1] == #[trigger] c.extra_themes@[j],
        decreases c.extra_themes.len() - i,
    {
        r.push(&c.extra_themes[i]);
        i = i + 1;
    }
    r
}

/// Each theme kind is named in a card's class by its own lower-case name,
/// so different kinds are named differently.
pub proof fn lemma_kind_classes(k1: ThemeType, k2: ThemeType)
    ensures
        kind_class(ThemeType::Mythos) == "mythos"@,
        kind_class(ThemeType::Logos) == "logos"@,
        kind_class(ThemeType::Crew) == "crew"@,
        kind_class(ThemeType::Extra) == "extra"@,
        k1 != k2 ==> kind_class(k1) != kind_class(k2),
{
    reveal_strlit("mythos");
    reveal_strlit("logos");
    reveal_strlit("crew");
    reveal_strlit("extra");
    if k1 != k2 {
        let a = kind_class(k1);
        let b = kind_class(k2);
        if a.len() == b.len() {
            assert(a[0] != b[0]);
        }
    }
}

/// Two theme cards have the same class only when both or neither are
/// turned over and their themebooks make the same kind of theme.
pub proof fn lemma_theme_card_classes_tell_apart(f1: bool, k1: ThemeType, f2: bool, k2: ThemeType)
    ensures
        "card "@ + flipped_class(f1) + "theme theme-"@ + kind_class(k1)
            == "card "@ + flipped_class(f2) + "theme theme-"@ + kind_class(k2) ==> f1 == f2 && k1 == k2,
{
    reveal_strlit("card ");
    reveal_strlit("card-flipped ");
    reveal_strlit("");
    reveal_strlit("theme theme-");
    reveal_strlit("mythos");
    reveal_strlit("logos");
    reveal_strlit("crew");
    reveal_strlit("extra");
    let p1 = "card "@ + flipped_class(f1) + "theme theme-"@;
    let p2 = "card "@ + flipped_class(f2) + "theme theme-"@;
    let s1 = p1 + kind_class(k1);
    let s2 = p2 + kind_class(k2);
    if s1 == s2 {
        if f1 == f2 {
            assert(s1.skip(p1.len() as int) =~= kind_class(k1));
            assert(s2.skip(p2.len() as int) =~= kind_class(k2));
            lemma_kind_classes(k1, k2);
        } else {
            assert(s1.len() == s2.len());
        }
    }
}

/// A turned-over card's class says so with `card-flipped `; a card that
/// is not turned over has nothing there.
pub proof fn lemma_flipped_class()
    ensures
        flipped_class(true) == "card-flipped "@,
        flipped_class(false).len() == 0,
        flipped_class(true) != flipped_class(false),
{
    reveal_strlit("card-flipped ");
    reveal_strlit("");
}

} // verus!
