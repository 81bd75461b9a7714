//! Characters: a name, a mythos and a logos, and the themes that make up
//! the sheet.

use crate::common::theme::{
    builder_active, builder_descriptor_known, clone_themes, lemma_theme_store_then_load, theme_from_model, set_or_not_spec, theme_active,
    theme_builder_missing, theme_builder_value, theme_views, Theme, ThemeBuilder, ThemeBuilderError,
    ThemeType, ThemeView,
};
use crate::entity::active_value::{set_or_not, ActiveValue};
use crate::entity::character as character_entity;
use crate::entity::theme as theme_entity;
use crate::entity::theme::descriptor_named;
use vstd::prelude::*;
use vstd::std_specs::convert::FromSpecImpl;

verus! {

/// A character sheet.
#[derive(Debug, PartialEq)]
pub struct Character {
    pub id: Option<i32>,
    pub name: String,
    pub mythos: String,
    pub logos: String,
    pub core_themes: Vec<Theme>,
    pub crew_theme: Option<Theme>,
    pub extra_themes: Vec<Theme>,
}

/// The value of a character sheet.
pub struct CharacterView {
    pub id: Option<i32>,
    pub name: Seq<char>,
    pub mythos: Seq<char>,
    pub logos: Seq<char>,
    pub core_themes: Seq<ThemeView>,
    pub crew_theme: Option<ThemeView>,
    pub extra_themes: Seq<ThemeView>,
}

impl View for Character {
    type V = CharacterView;

    open spec fn view(&self) -> CharacterView {
        CharacterView {
            id: self.id,
            name: self.name@,
            mythos: self.mythos@,
            logos: self.logos@,
            core_themes: theme_views(self.core_themes@),
            crew_theme: match self.crew_theme {
                Some(t) => Some(t@),
                None => None,
            },
            extra_themes: theme_views(self.extra_themes@),
        }
    }
}

impl Clone for Character {
    fn clone(&self) -> (r: Self)
        ensures
            r@ == self@,
    {
        let crew_theme = match &self.crew_theme {
            Some(t) => Some(t.clone()),
            None => None,
        };
        Character {
            id: self.id,
            name: self.name.clone(),
            mythos: self.mythos.clone(),
            logos: self.logos.clone(),
            core_themes: clone_themes(&self.core_themes),
            crew_theme,
            extra_themes: clone_themes(&self.extra_themes),
        }
    }
}

impl Default for Character {
    /// The empty sheet: no id, empty text, no themes.
    fn default() -> (r: Self)
        ensures
            r.id is None,
            r.name@ == Seq::<char>::empty(),
            r.mythos@ == Seq::<char>::empty(),
            r.logos@ == Seq::<char>::empty(),
            r.core_themes@ == Seq::<Theme>::empty(),
            r.crew_theme is None,
            r.extra_themes@ == Seq::<Theme>::empty(),
    {
        Character {
            id: None,
            name: String::new(),
            mythos: String::new(),
            logos: String::new(),
            core_themes: Vec::new(),
            crew_theme: None,
            extra_themes: Vec::new(),
        }
    }
}

/// Whether a theme kind belongs among the core themes.
pub open spec fn is_core_type(t: ThemeType) -> bool {
    t == ThemeType::Mythos || t == ThemeType::Logos
}

/// The core (mythos and logos) themes of a list, in order.
pub open spec fn core_of(themes: Seq<ThemeView>) -> Seq<ThemeView> {
    themes.filter(|t: ThemeView| is_core_type(t.theme_type))
}

/// The extra themes of a list, in order.
pub open spec fn extra_of(themes: Seq<ThemeView>) -> Seq<ThemeView> {
    themes.filter(|t: ThemeView| t.theme_type == ThemeType::Extra)
}

/// The crew themes of a list, in order.
pub open spec fn crews_of(themes: Seq<ThemeView>) -> Seq<ThemeView> {
    themes.filter(|t: ThemeView| t.theme_type == ThemeType::Crew)
}

/// The first crew theme of a list, if there is one.
pub open spec fn crew_of(themes: Seq<ThemeView>) -> Option<ThemeView> {
    if crews_of(themes).len() > 0 {
        Some(crews_of(themes)[0])
    } else {
        None
    }
}

/// The sheet that a stored character row stands for, without its themes
/// and without an id.
pub open spec fn character_from_model(m: character_entity::Model) -> CharacterView {
    CharacterView {
        id: None,
        name: m.name@,
        mythos: m.mythos@,
        logos: m.logos@,
        core_themes: Seq::empty(),
        crew_theme: None,
        extra_themes: Seq::empty(),
    }
}

/// The sheet that a stored character row and its themes stand for: the
/// mythos and logos themes are the core themes, the extra themes are the
/// extras, the first crew theme is the crew theme, and the row's id is the
/// sheet's id.
pub open spec fn character_from_rows(m: character_entity::Model, themes: Seq<ThemeView>) -> CharacterView {
    CharacterView {
        id: Some(m.id),
        name: m.name@,
        mythos: m.mythos@,
        logos: m.logos@,
        core_themes: core_of(themes),
        crew_theme: crew_of(themes),
        extra_themes: extra_of(themes),
    }
}

/// Sorts themes into core themes, extra themes and the first crew theme.
pub fn partition_themes(themes: Vec<Theme>) -> (r: (Vec<Theme>, Option<Theme>, Vec<Theme>))
    ensures
        theme_views(r.0@) == core_of(theme_views(themes@)),
        (match r.1 { Some(t) => Some(t@), None => None }) == crew_of(theme_views(themes@)),
        theme_views(r.2@) == extra_of(theme_views(themes@)),
{
    let ghost all = theme_views(themes@);
    assert(forall|k: int| 0 <= k < themes.len() ==> #[trigger] themes@[k]@ == all[0 + k]);
    let mut themes = themes;
    let mut core: Vec<Theme> = Vec::new();
    let mut extra: Vec<Theme> = Vec::new();
    let mut crew: Option<Theme> = None;
    let ghost mut i: int = 0;
    while themes.len() > 0
        invariant
            0 <= i <= all.len(),
            themes.len() == all.len() - i,
            forall|k: int| 0 <= k < themes.len() ==> #[trigger] themes@[k]@ == all[i + k],
            theme_views(core@) == core_of(all.take(i)),
            theme_views(extra@) == extra_of(all.take(i)),
            (match crew { Some(t) => Some(t@), None => None }) == crew_of(all.take(i)),
        decreases themes.len(),
    {
        let ghost before = themes@;
        let t = themes.remove(0);
        proof {
            reveal_with_fuel(Seq::filter, 1);
            assert(t@ == all[i + 0]);
            assert forall|k: int| 0 <= k < themes.len() implies #[trigger] themes@[k]@ == all[(i + 1) + k] by {
                assert(themes@[k] == before[k + 1]);
            }
            assert(all.take(i + 1).drop_last() =~= all.take(i));
            assert(all.take(i + 1).last() == all[i]);
        }
        if t.theme_type == ThemeType::Mythos || t.theme_type == ThemeType::Logos {
            core.push(t);
            proof {
                assert(theme_views(core@) =~= core_of(all.take(i)).push(all[i]));
            }
        } else if t.theme_type == ThemeType::Extra {
            extra.push(t);
            proof {
                assert(theme_views(extra@) =~= extra_of(all.take(i)).push(all[i]));
            }
        } else if crew.is_none() {
            crew = Some(t);
        }
        proof {
            i = i + 1;
        }
    }
    proof {
        assert(all.take(i) =~= all);
    }
    (core, crew, extra)
}

impl Character {
    /// The sheet that a stored character row stands for, without themes and
    /// without an id.
    pub fn from_model(character: character_entity::Model) -> (r: Character)
        ensures
            r@ == character_from_model(character),
    {
        let r = Character {
            id: None,
            name: character.name,
            mythos: character.mythos,
            logos: character.logos,
            core_themes: Vec::new(),
            crew_theme: None,
            extra_themes: Vec::new(),
        };
        assert(r@.core_themes =~= Seq::<ThemeView>::empty());
        assert(r@.extra_themes =~= Seq::<ThemeView>::empty());
        r
    }

    /// The sheet that a stored character row and its stored themes stand
    /// for: see `character_from_rows`.
    pub fn from_model_with_themes(character: character_entity::Model, themes: Vec<theme_entity::Model>) -> (r: Character)
        ensures
            r@ == character_from_rows(
                character,
                themes@.map_values(|m: theme_entity::Model| crate::common::theme::theme_from_model(m)),
            ),
    {
        let ghost rows = themes@;
        let mut themes = themes;
        let mut loaded: Vec<Theme> = Vec::new();
        let ghost mut i: int = 0;
        while themes.len() > 0
            invariant
                0 <= i <= rows.len(),
                themes@ == rows.skip(i),
                loaded.len() == i,
                forall|j: int| 0 <= j < i ==> #[trigger] loaded@[j]@ == crate::common::theme::theme_from_model(rows[j]),
            decreases themes.len(),
        {
            let ghost before = themes@;
            proof {
                assert(before[0] == rows.skip(i)[0]);
            }
            let m = themes.remove(0);
            proof {
                assert(themes@ =~= rows.skip(i + 1));
                assert(m == rows[i]);
            }
            loaded.push(Theme::from_model(m));
            proof {
                i = i + 1;
            }
        }
        let ghost views = rows.map_values(|m: theme_entity::Model| crate::common::theme::theme_from_model(m));
        assert(theme_views(loaded@) =~= views);
        let (core_themes, crew_theme, extra_themes) = partition_themes(loaded);
        Character {
            id: Some(character.id),
            name: character.name,
            mythos: character.mythos,
            logos: character.logos,
            core_themes,
            crew_theme,
            extra_themes,
        }
    }
}

/// Why a character builder could not produce its sheet.
#[derive(Debug, PartialEq)]
pub enum CharacterBuilderError {
    /// A field that has no default was never set; the payload is its name.
    UninitializedField(&'static str),
    /// The value was rejected.
    ValidationError(String),
}

/// The character error that a theme error becomes: the same kind, with the
/// same payload.
pub open spec fn character_error_of(e: ThemeBuilderError) -> CharacterBuilderError {
    match e {
        ThemeBuilderError::UninitializedField(f) => CharacterBuilderError::UninitializedField(f),
        ThemeBuilderError::ValidationError(m) => CharacterBuilderError::ValidationError(m),
    }
}

impl From<ThemeBuilderError> for CharacterBuilderError {
    fn from(err: ThemeBuilderError) -> (r: Self) {
        match err {
            ThemeBuilderError::UninitializedField(field) => CharacterBuilderError::UninitializedField(field),
            ThemeBuilderError::ValidationError(msg) => CharacterBuilderError::ValidationError(msg),
        }
    }
}

impl FromSpecImpl<ThemeBuilderError> for CharacterBuilderError {
    open spec fn obeys_from_spec() -> bool {
        true
    }

    open spec fn from_spec(v: ThemeBuilderError) -> CharacterBuilderError {
        character_error_of(v)
    }
}

/// A character sheet under construction. The theme fields hold theme
/// builders, which are built together with the sheet.
#[derive(Debug, PartialEq)]
pub struct CharacterBuilder {
    pub id: Option<Option<i32>>,
    pub name: Option<String>,
    pub mythos: Option<String>,
    pub logos: Option<String>,
    pub core_themes: Option<Vec<ThemeBuilder>>,
    pub crew_theme: Option<Option<ThemeBuilder>>,
    pub extra_themes: Option<Vec<ThemeBuilder>>,
}

/// What building each theme of a list gives: their values in order, or
/// the missing field of the first one that cannot be built.
pub open spec fn themes_build(bs: Seq<ThemeBuilder>) -> Result<Seq<ThemeView>, Seq<char>>
    decreases bs.len(),
{
    if bs.len() == 0 {
        Ok(Seq::empty())
    } else {
        match themes_build(bs.drop_last()) {
            Err(f) => Err(f),
            Ok(vs) => match theme_builder_missing(bs.last()) {
                Some(f) => Err(f),
                None => Ok(vs.push(theme_builder_value(bs.last()))),
            },
        }
    }
}

/// What a theme list field of the builder gives: nothing when unset.
pub open spec fn theme_list_build(f: Option<Vec<ThemeBuilder>>) -> Result<Seq<ThemeView>, Seq<char>> {
    match f {
        Some(bs) => themes_build(bs@),
        None => Ok(Seq::empty()),
    }
}

/// What the crew theme field of the builder gives: no crew theme when
/// unset or set to none.
pub open spec fn crew_build(f: Option<Option<ThemeBuilder>>) -> Result<Option<ThemeView>, Seq<char>> {
    match f {
        Some(Some(b)) => match theme_builder_missing(b) {
            Some(m) => Err(m),
            None => Ok(Some(theme_builder_value(b))),
        },
        _ => Ok(None),
    }
}

/// What building a character gives: the sheet, or the name of the first
/// missing field, the fields taken in declaration order and each theme
/// list in its own order.
pub open spec fn character_build(b: CharacterBuilder) -> Result<CharacterView, Seq<char>> {
    if b.name is None {
        Err("name"@)
    } else if b.mythos is None {
        Err("mythos"@)
    } else if b.logos is None {
        Err("logos"@)
    } else {
        match theme_list_build(b.core_themes) {
            Err(f) => Err(f),
            Ok(core) => match crew_build(b.crew_theme) {
                Err(f) => Err(f),
                Ok(crew) => match theme_list_build(b.extra_themes) {
                    Err(f) => Err(f),
                    Ok(extra) => Ok(CharacterView {
                        id: match b.id { Some(v) => v, None => None },
                        name: b.name->0@,
                        mythos: b.mythos->0@,
                        logos: b.logos->0@,
                        core_themes: core,
                        crew_theme: crew,
                        extra_themes: extra,
                    }),
                },
            },
        }
    }
}

/// Whether `r` is what building from `b` gives.
pub open spec fn character_build_ok(b: CharacterBuilder, r: Result<Character, CharacterBuilderError>) -> bool {
    match character_build(b) {
        Err(f) => r matches Err(CharacterBuilderError::UninitializedField(name)) && name@ == f,
        Ok(v) => r matches Ok(c) && c@ == v,
    }
}

/// Builds each theme of a list, stopping at the first that cannot be built.
pub fn build_theme_list(bs: &Vec<ThemeBuilder>) -> (r: Result<Vec<Theme>, ThemeBuilderError>)
    ensures
        match themes_build(bs@) {
            Err(f) => r matches Err(ThemeBuilderError::UninitializedField(name)) && name@ == f,
            Ok(vs) => r matches Ok(ts) && theme_views(ts@) == vs,
        },
{
    let mut out: Vec<Theme> = Vec::new();
    let mut i: usize = 0;
    assert(theme_views(out@) =~= Seq::<ThemeView>::empty());
    while i < bs.len()
        invariant
            i <= bs.len(),
            themes_build(bs@.take(i as int)) == Ok::<Seq<ThemeView>, Seq<char>>(theme_views(out@)),
        decreases bs.len() - i,
    {
        proof {
            assert(bs@.take(i + 1).drop_last() =~= bs@.take(i as int));
        }
        match bs[i].build() {
            Ok(t) => {
                let ghost before = out@;
                out.push(t);
                proof {
                    assert(theme_views(out@) =~= theme_views(before).push(t@));
                }
            },
            Err(e) => {
                proof {
                    lemma_themes_build_prefix_err(bs@, i as int + 1);
                }
                return Err(e);
            },
        }
        i = i + 1;
    }
    assert(bs@.take(i as int) =~= bs@);
    Ok(out)
}

/// Once a prefix of a list fails to build, the whole list fails the same way.
proof fn lemma_themes_build_prefix_err(bs: Seq<ThemeBuilder>, n: int)
    requires
        0 <= n <= bs.len(),
        themes_build(bs.take(n)) is Err,
    ensures
        themes_build(bs) == themes_build(bs.take(n)),
    decreases bs.len() - n,
{
    if n < bs.len() {
        assert(bs.take(n + 1).drop_last() =~= bs.take(n));
        lemma_themes_build_prefix_err(bs, n + 1);
    } else {
        assert(bs.take(n) =~= bs);
    }
}

impl Default for CharacterBuilder {
    /// A builder with no field set.
    fn default() -> (r: Self)
        ensures
            r.id is None,
            r.name is None,
            r.mythos is None,
            r.logos is None,
            r.core_themes is None,
            r.crew_theme is None,
            r.extra_themes is None,
    {
        CharacterBuilder {
            id: None,
            name: None,
            mythos: None,
            logos: None,
            core_themes: None,
            crew_theme: None,
            extra_themes: None,
        }
    }
}

impl CharacterBuilder {
    /// Sets the id.
    pub fn id(self, value: Option<i32>) -> (r: Self)
        ensures
            r == (CharacterBuilder { id: Some(value), ..self }),
    {
        CharacterBuilder { id: Some(value), ..self }
    }

    /// Sets the name.
    pub fn name(self, value: &str) -> (r: Self)
        ensures
            r.name matches Some(v) && v@ == value@,
            r == (CharacterBuilder { name: r.name, ..self }),
    {
        CharacterBuilder { name: Some(value.to_owned()), ..self }
    }

    /// Sets the mythos.
    pub fn mythos(self, value: &str) -> (r: Self)
        ensures
            r.mythos matches Some(v) && v@ == value@,
            r == (CharacterBuilder { mythos: r.mythos, ..self }),
    {
        CharacterBuilder { mythos: Some(value.to_owned()), ..self }
    }

    /// Sets the logos.
    pub fn logos(self, value: &str) -> (r: Self)
        ensures
            r.logos matches Some(v) && v@ == value@,
            r == (CharacterBuilder { logos: r.logos, ..self }),
    {
        CharacterBuilder { logos: Some(value.to_owned()), ..self }
    }

    /// Sets the core theme builders.
    pub fn core_themes(self, value: Option<Vec<ThemeBuilder>>) -> (r: Self)
        ensures
            r == (CharacterBuilder { core_themes: value, ..self }),
    {
        CharacterBuilder { core_themes: value, ..self }
    }

    /// Sets the crew theme builder.
    pub fn crew_theme(self, value: Option<Option<ThemeBuilder>>) -> (r: Self)
        ensures
            r == (CharacterBuilder { crew_theme: value, ..self }),
    {
        CharacterBuilder { crew_theme: value, ..self }
    }

    /// Sets the extra theme builders.
    pub fn extra_themes(self, value: Option<Vec<ThemeBuilder>>) -> (r: Self)
        ensures
            r == (CharacterBuilder { extra_themes: value, ..self }),
    {
        CharacterBuilder { extra_themes: value, ..self }
    }

    /// Builds the sheet and its themes; fails on the first missing field,
    /// in declaration order, of the sheet or of one of its themes.
    pub fn build(&self) -> (r: Result<Character, CharacterBuilderError>)
        ensures
            character_build_ok(*self, r),
    {
        proof {
            reveal_strlit("name");
            reveal_strlit("mythos");
            reveal_strlit("logos");
        }
        let id = match self.id {
            Some(v) => v,
            None => None,
        };
        let name = match &self.name {
            Some(v) => v.clone(),
            None => return Err(CharacterBuilderError::UninitializedField("name")),
        };
        let mythos = match &self.mythos {
            Some(v) => v.clone(),
            None => return Err(CharacterBuilderError::UninitializedField("mythos")),
        };
        let logos = match &self.logos {
            Some(v) => v.clone(),
            None => return Err(CharacterBuilderError::UninitializedField("logos")),
        };
        let core_themes = match &self.core_themes {
            Some(bs) => match build_theme_list(bs) {
                Ok(ts) => ts,
                Err(e) => return Err(CharacterBuilderError::from(e)),
            },
            None => Vec::new(),
        };
        let crew_theme = match &self.crew_theme {
            Some(Some(b)) => match b.build() {
                Ok(t) => Some(t),
                Err(e) => return Err(CharacterBuilderError::from(e)),
            },
            _ => None,
        };
        let extra_themes = match &self.extra_themes {
            Some(bs) => match build_theme_list(bs) {
                Ok(ts) => ts,
                Err(e) => return Err(CharacterBuilderError::from(e)),
            },
            None => Vec::new(),
        };
        assert(theme_views(Seq::<Theme>::empty()) =~= Seq::<ThemeView>::empty());
        Ok(Character { id, name, mythos, logos, core_themes, crew_theme, extra_themes })
    }
}

/// The themes of a sheet in the order they are stored: core themes, then
/// the crew theme, then the extra themes.
pub open spec fn stored_theme_order(c: Character) -> Seq<Theme> {
    c.core_themes@ + optional_seq(c.crew_theme) + c.extra_themes@
}

/// The one-element sequence of a present value, the empty one otherwise.
pub open spec fn optional_seq<T>(o: Option<T>) -> Seq<T> {
    match o {
        Some(t) => seq![t],
        None => Seq::empty(),
    }
}

/// The insert or update of a sheet's character row: every column, the id
/// only where the sheet has one.
pub open spec fn character_active(c: Character) -> character_entity::ActiveModel {
    character_entity::ActiveModel {
        id: set_or_not_spec(c.id),
        name: ActiveValue::SetTo(c.name),
        mythos: ActiveValue::SetTo(c.mythos),
        logos: ActiveValue::SetTo(c.logos),
    }
}

/// Whether every themebook name in a list of themes is one of the eighteen.
pub open spec fn descriptors_known(themes: Seq<Theme>) -> bool {
    forall|i: int| 0 <= i < themes.len() ==> (#[trigger] descriptor_named(themes[i].theme_descriptor@)) is Some
}

/// Moves each theme of a list, in order, into its insert or update.
fn push_theme_actives(themes: Vec<Theme>, out: &mut Vec<theme_entity::ActiveModel>)
    requires
        descriptors_known(themes@),
    ensures
        final(out)@ == old(out)@ + themes@.map_values(|t: Theme| theme_active(t)),
{
    let ghost start = out@;
    let ghost all = themes@;
    let mut themes = themes;
    let ghost mut i: int = 0;
    while themes.len() > 0
        invariant
            0 <= i <= all.len(),
            themes@ == all.skip(i),
            descriptors_known(all),
            out@ == start + all.take(i).map_values(|t: Theme| theme_active(t)),
        decreases themes.len(),
    {
        let ghost before = themes@;
        proof {
            assert(before[0] == all[i]);
        }
        let t = themes.remove(0);
        proof {
            assert(themes@ =~= all.skip(i + 1));
            assert(descriptor_named(all[i].theme_descriptor@) is Some);
        }
        let (m,) = t.into_active_model();
        out.push(m);
        proof {
            assert(all.take(i + 1).map_values(|t: Theme| theme_active(t))
                =~= all.take(i).map_values(|t: Theme| theme_active(t)).push(theme_active(all[i])));
            i = i + 1;
        }
    }
    proof {
        assert(all.take(i) =~= all);
    }
}

impl Character {
    /// The inserts or updates that store this sheet: the character row
    /// (its id only where it has one) and one theme row per theme, core
    /// themes first, then the crew theme, then the extras. Every themebook
    /// name must be one of the eighteen.
    pub fn into_active_models(self) -> (r: (character_entity::ActiveModel, Vec<theme_entity::ActiveModel>))
        requires
            descriptors_known(stored_theme_order(self)),
        ensures
            r.0 == character_active(self),
            r.1@ == stored_theme_order(self).map_values(|t: Theme| theme_active(t)),
    {
        let ghost order = stored_theme_order(self);
        let ghost core = self.core_themes@;
        let ghost extra = self.extra_themes@;
        let ghost crew_seq = optional_seq(self.crew_theme);
        proof {
            assert forall|i: int| 0 <= i < core.len() implies (#[trigger] descriptor_named(core[i].theme_descriptor@)) is Some by {
                assert(order[i] == core[i]);
            }
            assert forall|i: int| 0 <= i < extra.len() implies (#[trigger] descriptor_named(extra[i].theme_descriptor@)) is Some by {
                assert(order[core.len() + crew_seq.len() + i] == extra[i]);
            }
        }
        let character_model = character_entity::ActiveModel {
            id: set_or_not(self.id),
            name: ActiveValue::SetTo(self.name),
            mythos: ActiveValue::SetTo(self.mythos),
            logos: ActiveValue::SetTo(self.logos),
        };
        let mut themes: Vec<theme_entity::ActiveModel> = Vec::new();
        push_theme_actives(self.core_themes, &mut themes);
        match self.crew_theme {
            Some(t) => {
                proof {
                    assert(order[core.len() as int] == t);
                }
                let (m,) = t.into_active_model();
                themes.push(m);
            },
            None => {},
        }
        push_theme_actives(self.extra_themes, &mut themes);
        proof {
            let f = |t: Theme| theme_active(t);
            assert(themes@ =~= core.map_values(f) + crew_seq.map_values(f) + extra.map_values(f));
            assert(order.map_values(f) =~= core.map_values(f) + crew_seq.map_values(f) + extra.map_values(f));
        }
        (character_model, themes)
    }
}

/// The theme builders of a character builder in the order they are
/// stored: core themes, then the crew theme, then the extras; unset fields
/// contribute nothing.
pub open spec fn builder_theme_order(b: CharacterBuilder) -> Seq<ThemeBuilder> {
    builder_list(b.core_themes) + builder_crew(b.crew_theme) + builder_list(b.extra_themes)
}

/// The theme builders of a list field; none when unset.
pub open spec fn builder_list(f: Option<Vec<ThemeBuilder>>) -> Seq<ThemeBuilder> {
    match f {
        Some(v) => v@,
        None => Seq::empty(),
    }
}

/// The crew theme builder, if one is set.
pub open spec fn builder_crew(f: Option<Option<ThemeBuilder>>) -> Seq<ThemeBuilder> {
    match f {
        Some(Some(t)) => seq![t],
        _ => Seq::empty(),
    }
}

/// Whether every themebook name set in a list of theme builders is one of the eighteen.
pub open spec fn builder_descriptors_known(bs: Seq<ThemeBuilder>) -> bool {
    forall|i: int| 0 <= i < bs.len() ==> #[trigger] builder_descriptor_known(bs[i])
}

/// Moves each theme builder of a list, in order, into its insert or update.
fn push_builder_actives(bs: Vec<ThemeBuilder>, out: &mut Vec<theme_entity::ActiveModel>)
    requires
        builder_descriptors_known(bs@),
    ensures
        final(out)@ == old(out)@ + bs@.map_values(|b: ThemeBuilder| builder_active(b)),
{
    let ghost start = out@;
    let ghost all = bs@;
    let mut bs = bs;
    let ghost mut i: int = 0;
    while bs.len() > 0
        invariant
            0 <= i <= all.len(),
            bs@ == all.skip(i),
            builder_descriptors_known(all),
            out@ == start + all.take(i).map_values(|b: ThemeBuilder| builder_active(b)),
        decreases bs.len(),
    {
        let ghost before = bs@;
        proof {
            assert(before[0] == all[i]);
        }
        let b = bs.remove(0);
        proof {
            assert(bs@ =~= all.skip(i + 1));
            assert(builder_descriptor_known(all[i]));
        }
        let (m,) = b.into_active_model();
        out.push(m);
        proof {
            assert(all.take(i + 1).map_values(|b: ThemeBuilder| builder_active(b))
                =~= all.take(i).map_values(|b: ThemeBuilder| builder_active(b)).push(builder_active(all[i])));
            i = i + 1;
        }
    }
    proof {
        assert(all.take(i) =~= all);
    }
}

impl CharacterBuilder {
    /// The inserts or updates that write what this builder holds: the
    /// character columns that are set, and one theme row per theme builder,
    /// core themes first, then the crew theme, then the extras. Every
    /// themebook name that is set must be one of the eighteen.
    pub fn into_active_models(self) -> (r: (character_entity::ActiveModel, Vec<theme_entity::ActiveModel>))
        requires
            builder_descriptors_known(builder_theme_order(self)),
        ensures
            r.0 == (character_entity::ActiveModel {
                id: set_or_not_spec(match self.id { Some(v) => v, None => None }),
                name: set_or_not_spec(self.name),
                mythos: set_or_not_spec(self.mythos),
                logos: set_or_not_spec(self.logos),
            }),
            r.1@ == builder_theme_order(self).map_values(|b: ThemeBuilder| builder_active(b)),
    {
        let ghost order = builder_theme_order(self);
        let ghost core = builder_list(self.core_themes);
        let ghost crew_seq = builder_crew(self.crew_theme);
        let ghost extra = builder_list(self.extra_themes);
        proof {
            assert forall|i: int| 0 <= i < core.len() implies #[trigger] builder_descriptor_known(core[i]) by {
                assert(order[i] == core[i]);
            }
            assert forall|i: int| 0 <= i < extra.len() implies #[trigger] builder_descriptor_known(extra[i]) by {
                assert(order[core.len() + crew_seq.len() + i] == extra[i]);
            }
        }
        let id = match self.id {
            Some(v) => v,
            None => None,
        };
        let character_model = character_entity::ActiveModel {
            id: set_or_not(id),
            name: set_or_not(self.name),
            mythos: set_or_not(self.mythos),
            logos: set_or_not(self.logos),
        };
        let mut themes: Vec<theme_entity::ActiveModel> = Vec::new();
        match self.core_themes {
            Some(v) => push_builder_actives(v, &mut themes),
            None => {},
        }
        match self.crew_theme {
            Some(Some(t)) => {
                proof {
                    assert(order[core.len() as int] == t);
                }
                let (m,) = t.into_active_model();
                themes.push(m);
            },
            _ => {},
        }
        match self.extra_themes {
            Some(v) => push_builder_actives(v, &mut themes),
            None => {},
        }
        proof {
            let f = |b: ThemeBuilder| builder_active(b);
            assert(themes@ =~= core.map_values(f) + crew_seq.map_values(f) + extra.map_values(f));
            assert(order.map_values(f) =~= core.map_values(f) + crew_seq.map_values(f) + extra.map_values(f));
        }
        (character_model, themes)
    }
}

/// Whether each theme of a sheet is of the kind its place holds: the core
/// themes are mythos or logos themes, the crew theme is a crew theme, and
/// the extra themes are extra themes.
pub open spec fn themes_in_place(c: Character) -> bool {
    &&& forall|i: int| 0 <= i < c.core_themes@.len() ==> is_core_type(#[trigger] c.core_themes@[i].theme_type)
    &&& c.crew_theme matches Some(t) ==> t.theme_type == ThemeType::Crew
    &&& forall|i: int| 0 <= i < c.extra_themes@.len() ==> (#[trigger] c.extra_themes@[i].theme_type) == ThemeType::Extra
}

proof fn lemma_filter_keeps_all<A>(s: Seq<A>, pred: spec_fn(A) -> bool)
    requires
        forall|i: int| 0 <= i < s.len() ==> pred(#[trigger] s[i]),
    ensures
        s.filter(pred) == s,
    decreases s.len(),
{
    reveal_with_fuel(Seq::filter, 1);
    if s.len() > 0 {
        lemma_filter_keeps_all(s.drop_last(), pred);
        assert(s.drop_last().push(s.last()) =~= s);
    }
}

proof fn lemma_filter_keeps_none<A>(s: Seq<A>, pred: spec_fn(A) -> bool)
    requires
        forall|i: int| 0 <= i < s.len() ==> !pred(#[trigger] s[i]),
    ensures
        s.filter(pred) == Seq::<A>::empty(),
    decreases s.len(),
{
    reveal_with_fuel(Seq::filter, 1);
    if s.len() > 0 {
        lemma_filter_keeps_none(s.drop_last(), pred);
    }
}

/// Storing a sheet and reading back its character row and its theme rows,
/// in the order they were written, gives the same sheet, where each theme
/// is of the kind its place holds and the sheet and its themes already
/// have ids (the store gives new ones to those that have none).
pub proof fn lemma_character_store_then_load(
    c: Character,
    row: character_entity::Model,
    theme_rows: Seq<theme_entity::Model>,
)
    requires
        descriptors_known(stored_theme_order(c)),
        themes_in_place(c),
        c.id is Some,
        forall|i: int| 0 <= i < stored_theme_order(c).len() ==> (#[trigger] stored_theme_order(c)[i]).id is Some,
        character_entity::written_by(character_active(c), row),
        theme_rows.len() == stored_theme_order(c).len(),
        forall|i: int| 0 <= i < theme_rows.len()
            ==> theme_entity::written_by(theme_active(stored_theme_order(c)[i]), #[trigger] theme_rows[i]),
    ensures
        character_from_rows(row, theme_rows.map_values(|m: theme_entity::Model| theme_from_model(m))) == c@,
{
    let order = stored_theme_order(c);
    let views = theme_rows.map_values(|m: theme_entity::Model| theme_from_model(m));
    let core = theme_views(c.core_themes@);
    let crew = theme_views(optional_seq(c.crew_theme));
    let extra = theme_views(c.extra_themes@);
    assert forall|i: int| 0 <= i < order.len() implies #[trigger] views[i] == order[i]@ by {
        assert(descriptor_named(order[i].theme_descriptor@) is Some);
        assert(theme_entity::written_by(theme_active(order[i]), theme_rows[i]));
        lemma_theme_store_then_load(order[i], theme_rows[i]);
    }
    let n = c.core_themes@.len();
    let k = optional_seq(c.crew_theme).len();
    assert forall|i: int| 0 <= i < views.len() implies #[trigger] views[i] == (core + crew + extra)[i] by {
        assert(views[i] == order[i]@);
        if i < n {
            assert(order[i] == c.core_themes@[i]);
        } else if i < n + k {
            assert(order[i] == optional_seq(c.crew_theme)[i - n]);
        } else {
            assert(order[i] == c.extra_themes@[i - n - k]);
        }
    }
    assert(views =~= core + crew + extra);
    let p_core = |t: ThemeView| is_core_type(t.theme_type);
    let p_crew = |t: ThemeView| t.theme_type == ThemeType::Crew;
    let p_extra = |t: ThemeView| t.theme_type == ThemeType::Extra;
    Seq::filter_distributes_over_add(core + crew, extra, p_core);
    Seq::filter_distributes_over_add(core, crew, p_core);
    Seq::filter_distributes_over_add(core + crew, extra, p_crew);
    Seq::filter_distributes_over_add(core, crew, p_crew);
    Seq::filter_distributes_over_add(core + crew, extra, p_extra);
    Seq::filter_distributes_over_add(core, crew, p_extra);
    assert forall|i: int| 0 <= i < core.len() implies #[trigger] core[i].theme_type == c.core_themes@[i].theme_type by {}
    assert forall|i: int| 0 <= i < extra.len() implies #[trigger] extra[i].theme_type == c.extra_themes@[i].theme_type by {}
    lemma_filter_keeps_all(core, p_core);
    lemma_filter_keeps_none(crew, p_core);
    lemma_filter_keeps_none(extra, p_core);
    lemma_filter_keeps_none(core, p_crew);
    lemma_filter_keeps_all(crew, p_crew);
    lemma_filter_keeps_none(extra, p_crew);
    lemma_filter_keeps_none(core, p_extra);
    lemma_filter_keeps_none(crew, p_extra);
    lemma_filter_keeps_all(extra, p_extra);
    assert(core_of(views) =~= core);
    assert(crews_of(views) =~= crew);
    assert(extra_of(views) =~= extra);
}

/// Whether every themebook name of a list of themes is one of the
/// eighteen.
fn themes_known(themes: &Vec<Theme>) -> (r: bool)
    ensures
        r == descriptors_known(themes@),
{
    let mut i: usize = 0;
    while i < themes.len()
        invariant
            i <= themes.len(),
            forall|j: int| 0 <= j < i ==> (#[trigger] descriptor_named(themes@[j].theme_descriptor@)) is Some,
        decreases themes.len() - i,
    {
        if crate::entity::theme::ThemeDescriptor::from_name(themes[i].theme_descriptor.as_str()).is_none() {
            return false;
        }
        i = i + 1;
    }
    true
}

/// Whether every themebook name a list of theme builders holds is one of
/// the eighteen.
fn builders_known(builders: &Vec<ThemeBuilder>) -> (r: bool)
    ensures
        r == builder_descriptors_known(builders@),
{
    let mut i: usize = 0;
    while i < builders.len()
        invariant
            i <= builders.len(),
            forall|j: int| 0 <= j < i ==> #[trigger] builder_descriptor_known(builders@[j]),
        decreases builders.len() - i,
    {
        match &builders[i].theme_descriptor {
            Some(n) => {
                if crate::entity::theme::ThemeDescriptor::from_name(n.as_str()).is_none() {
                    assert(!builder_descriptor_known(builders@[i as int]));
                    return false;
                }
            },
            None => {},
        }
        i = i + 1;
    }
    true
}

impl Character {
    /// Whether every themebook name of the sheet is one of the eighteen, as
    /// storing it needs.
    pub fn has_known_descriptors(&self) -> (r: bool)
        ensures
            r == descriptors_known(stored_theme_order(*self)),
    {
        let ghost order = stored_theme_order(*self);
        let ghost core = self.core_themes@;
        let ghost crew = optional_seq(self.crew_theme);
        let ghost extra = self.extra_themes@;
        proof {
            assert forall|i: int| 0 <= i < core.len() implies order[i] == core[i] by {}
            assert forall|i: int| 0 <= i < extra.len() implies order[core.len() + crew.len() + i] == extra[i] by {}
        }
        if !themes_known(&self.core_themes) {
            proof {
                let j = choose|j: int| 0 <= j < core.len() && !(#[trigger] descriptor_named(core[j].theme_descriptor@) is Some);
                assert(order[j] == core[j]);
            }
            return false;
        }
        match &self.crew_theme {
            Some(t) => {
                if crate::entity::theme::ThemeDescriptor::from_name(t.theme_descriptor.as_str()).is_none() {
                    assert(order[core.len() as int] == *t);
                    return false;
                }
            },
            None => {},
        }
        if !themes_known(&self.extra_themes) {
            proof {
                let j = choose|j: int| 0 <= j < extra.len() && !(#[trigger] descriptor_named(extra[j].theme_descriptor@) is Some);
                assert(order[core.len() + crew.len() + j] == extra[j]);
            }
            return false;
        }
        proof {
            assert forall|i: int| 0 <= i < order.len() implies (#[trigger] descriptor_named(order[i].theme_descriptor@)) is Some by {
                if i < core.len() {
                    assert(order[i] == core[i]);
                } else if i < core.len() + crew.len() {
                    assert(order[i] == crew[i - core.len()]);
                } else {
                    assert(order[i] == extra[i - core.len() - crew.len()]);
                }
            }
        }
        true
    }
}

impl CharacterBuilder {
    /// Whether every themebook name the builder holds is one of the
    /// eighteen, as turning it into writes needs.
    pub fn has_known_descriptors(&self) -> (r: bool)
        ensures
            r == builder_descriptors_known(builder_theme_order(*self)),
    {
        let ghost order = builder_theme_order(*self);
        let ghost core = builder_list(self.core_themes);
        let ghost crew = builder_crew(self.crew_theme);
        let ghost extra = builder_list(self.extra_themes);
        let core_ok = match &self.core_themes {
            Some(v) => builders_known(v),
            None => true,
        };
        if !core_ok {
            proof {
                let j = choose|j: int| 0 <= j < core.len() && !#[trigger] builder_descriptor_known(core[j]);
                assert(order[j] == core[j]);
            }
            return false;
        }
        match &self.crew_theme {
            Some(Some(b)) => match &b.theme_descriptor {
                Some(n) => {
                    if crate::entity::theme::ThemeDescriptor::from_name(n.as_str()).is_none() {
                        proof {
                            assert(crew[0] == *b);
                            assert(order[core.len() as int] == crew[0]);
                            assert(!builder_descriptor_known(order[core.len() as int]));
                        }
                        return false;
                    }
                },
                None => {},
            },
            _ => {},
        }
        let extra_ok = match &self.extra_themes {
            Some(v) => builders_known(v),
            None => true,
        };
        if !extra_ok {
            proof {
                let j = choose|j: int| 0 <= j < extra.len() && !#[trigger] builder_descriptor_known(extra[j]);
                assert(order[core.len() + crew.len() + j] == extra[j]);
            }
            return false;
        }
        proof {
            assert forall|i: int| 0 <= i < order.len() implies #[trigger] builder_descriptor_known(order[i]) by {
                if i < core.len() {
                    assert(order[i] == core[i]);
                } else if i < core.len() + crew.len() {
                    assert(order[i] == crew[i - core.len()]);
                } else {
                    assert(order[i] == extra[i - core.len() - crew.len()]);
                }
            }
        }
        true
    }
}

/// The sheet read from a stored character row, without its themes, holds
/// the row's name, mythos and logos, and no id and no themes.
pub proof fn lemma_character_read_holds_row(m: character_entity::Model)
    ensures
        character_from_model(m).name == m.name@,
        character_from_model(m).mythos == m.mythos@,
        character_from_model(m).logos == m.logos@,
        character_from_model(m).id is None,
        character_from_model(m).core_themes.len() == 0,
        character_from_model(m).crew_theme is None,
        character_from_model(m).extra_themes.len() == 0,
{
}

proof fn lemma_kinds_split(themes: Seq<ThemeView>)
    ensures
        core_of(themes).len() + crews_of(themes).len() + extra_of(themes).len() == themes.len(),
    decreases themes.len(),
{
    reveal_with_fuel(Seq::filter, 1);
    if themes.len() > 0 {
        lemma_kinds_split(themes.drop_last());
    }
}

/// The sheet read from a stored character row and its theme rows holds
/// the row's id, name, mythos and logos; its core themes are all mythos or
/// logos themes, its extra themes all extra themes, its crew theme a crew
/// theme; and every theme read is one of them, none twice.
pub proof fn lemma_character_read_with_themes(m: character_entity::Model, themes: Seq<ThemeView>)
    ensures
        ({
            let c = character_from_rows(m, themes);
            &&& c.id == Some(m.id)
            &&& c.name == m.name@
            &&& c.mythos == m.mythos@
            &&& c.logos == m.logos@
            &&& forall|i: int| 0 <= i < c.core_themes.len() ==> is_core_type(#[trigger] c.core_themes[i].theme_type)
            &&& forall|i: int| 0 <= i < c.extra_themes.len() ==> (#[trigger] c.extra_themes[i].theme_type) == ThemeType::Extra
            &&& (c.crew_theme matches Some(t) ==> t.theme_type == ThemeType::Crew)
            &&& (c.crew_theme is Some <==> exists|i: int| 0 <= i < themes.len() && (#[trigger] themes[i]).theme_type == ThemeType::Crew)
            &&& core_of(themes).len() + crews_of(themes).len() + extra_of(themes).len() == themes.len()
        }),
{
    let c = character_from_rows(m, themes);
    let p_core = |t: ThemeView| is_core_type(t.theme_type);
    let p_crew = |t: ThemeView| t.theme_type == ThemeType::Crew;
    let p_extra = |t: ThemeView| t.theme_type == ThemeType::Extra;
    assert forall|i: int| 0 <= i < c.core_themes.len() implies is_core_type(#[trigger] c.core_themes[i].theme_type) by {
        themes.lemma_filter_pred(p_core, i);
    }
    assert forall|i: int| 0 <= i < c.extra_themes.len() implies (#[trigger] c.extra_themes[i].theme_type) == ThemeType::Extra by {
        themes.lemma_filter_pred(p_extra, i);
    }
    if crews_of(themes).len() > 0 {
        themes.lemma_filter_pred(p_crew, 0);
        let t = crews_of(themes)[0];
        assert(crews_of(themes).contains(t));
        themes.lemma_filter_contains_rev(p_crew, t);
        assert(themes.contains(t));
        let j = choose|j: int| 0 <= j < themes.len() && themes[j] == t;
        assert(themes[j].theme_type == ThemeType::Crew);
    } else {
        if exists|i: int| 0 <= i < themes.len() && (#[trigger] themes[i]).theme_type == ThemeType::Crew {
            let i = choose|i: int| 0 <= i < themes.len() && (#[trigger] themes[i]).theme_type == ThemeType::Crew;
            themes.lemma_filter_contains(p_crew, i);
            assert(crews_of(themes).contains(themes[i]));
        }
    }
    lemma_kinds_split(themes);
}

proof fn lemma_themes_built_hold_builders(bs: Seq<ThemeBuilder>)
    ensures
        themes_build(bs) matches Ok(vs) ==> vs.len() == bs.len()
            && forall|i: int| 0 <= i < bs.len() ==> (#[trigger] theme_builder_missing(bs[i])) is None
                && vs[i] == theme_builder_value(bs[i]),
    decreases bs.len(),
{
    if bs.len() > 0 {
        lemma_themes_built_hold_builders(bs.drop_last());
        if let Ok(vs) = themes_build(bs) {
            assert forall|i: int| 0 <= i < bs.len() implies (#[trigger] theme_builder_missing(bs[i])) is None
                && vs[i] == theme_builder_value(bs[i]) by {
                if i < bs.len() - 1 {
                    assert(bs.drop_last()[i] == bs[i]);
                }
            }
        }
    }
}

/// A character builder builds exactly when it holds a name, a mythos and
/// a logos and every theme builder it holds builds; the sheet built holds
/// the builder's name, mythos and logos, its id where it holds one, and in
/// each theme place the themes its theme builders build, in order (no
/// theme where a place is not set). The first missing field, in the order
/// name, mythos, logos, is the one reported.
pub proof fn lemma_character_built_holds_builder_fields(b: CharacterBuilder)
    ensures
        b.name is None ==> character_build(b) == Err::<CharacterView, Seq<char>>("name"@),
        b.name is Some && b.mythos is None ==> character_build(b) == Err::<CharacterView, Seq<char>>("mythos"@),
        b.name is Some && b.mythos is Some && b.logos is None ==> character_build(b) == Err::<CharacterView, Seq<char>>("logos"@),
        character_build(b) matches Ok(v) ==> {
            &&& (b.name matches Some(n) && v.name == n@)
            &&& (b.mythos matches Some(n) && v.mythos == n@)
            &&& (b.logos matches Some(n) && v.logos == n@)
            &&& (b.id matches Some(Some(i)) ==> v.id == Some(i))
            &&& (!(b.id matches Some(Some(_))) ==> v.id is None)
            &&& v.core_themes.len() == builder_list(b.core_themes).len()
            &&& (forall|i: int| 0 <= i < v.core_themes.len()
                ==> #[trigger] v.core_themes[i] == theme_builder_value(builder_list(b.core_themes)[i]))
            &&& v.extra_themes.len() == builder_list(b.extra_themes).len()
            &&& (forall|i: int| 0 <= i < v.extra_themes.len()
                ==> #[trigger] v.extra_themes[i] == theme_builder_value(builder_list(b.extra_themes)[i]))
            &&& (b.crew_theme matches Some(Some(cb)) ==> v.crew_theme == Some(theme_builder_value(cb)))
            &&& (!(b.crew_theme matches Some(Some(_))) ==> v.crew_theme is None)
        },
{
    lemma_themes_built_hold_builders(builder_list(b.core_themes));
    lemma_themes_built_hold_builders(builder_list(b.extra_themes));
}

/// The update that stores a sheet's character row writes its name,
/// mythos and logos, and its id where it has one (none otherwise).
pub proof fn lemma_character_update_writes_every_column(c: Character)
    ensures
        character_active(c).name == ActiveValue::SetTo(c.name),
        character_active(c).mythos == ActiveValue::SetTo(c.mythos),
        character_active(c).logos == ActiveValue::SetTo(c.logos),
        c.id matches Some(i) ==> character_active(c).id == ActiveValue::SetTo(i),
        c.id is None ==> character_active(c).id is NotSet,
{
}

} // verus!
