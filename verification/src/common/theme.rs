//! Themes, the building blocks of a character sheet, and their builder.

use crate::entity::active_value::{set_or_not, ActiveValue};
use crate::entity::theme as theme_entity;
use crate::entity::theme::{descriptor_name, descriptor_named};
use vstd::prelude::*;
use vstd::std_specs::convert::FromSpecImpl;
use vstd::string::*;

verus! {

/// The four kinds of theme a character can carry.
#[derive(Debug, PartialEq, Eq, Structural, Clone, Copy)]
pub enum ThemeType {
    Mythos,
    Logos,
    Crew,
    Extra,
}

impl Default for ThemeType {
    /// A theme is an extra theme unless told otherwise.
    fn default() -> (r: Self)
        ensures
            r == ThemeType::Extra,
    {
        ThemeType::Extra
    }
}

/// The stored kind that stands for a theme kind.
pub open spec fn stored_theme_type(t: ThemeType) -> theme_entity::ThemeType {
    match t {
        ThemeType::Mythos => theme_entity::ThemeType::Mythos,
        ThemeType::Logos => theme_entity::ThemeType::Logos,
        ThemeType::Crew => theme_entity::ThemeType::Crew,
        ThemeType::Extra => theme_entity::ThemeType::Extra,
    }
}

/// The theme kind that a stored kind stands for.
pub open spec fn loaded_theme_type(t: theme_entity::ThemeType) -> ThemeType {
    match t {
        theme_entity::ThemeType::Mythos => ThemeType::Mythos,
        theme_entity::ThemeType::Logos => ThemeType::Logos,
        theme_entity::ThemeType::Crew => ThemeType::Crew,
        theme_entity::ThemeType::Extra => ThemeType::Extra,
    }
}

impl From<theme_entity::ThemeType> for ThemeType {
    fn from(theme_type: theme_entity::ThemeType) -> (r: Self) {
        match theme_type {
            theme_entity::ThemeType::Mythos => ThemeType::Mythos,
            theme_entity::ThemeType::Logos => ThemeType::Logos,
            theme_entity::ThemeType::Crew => ThemeType::Crew,
            theme_entity::ThemeType::Extra => ThemeType::Extra,
        }
    }
}

impl FromSpecImpl<theme_entity::ThemeType> for ThemeType {
    open spec fn obeys_from_spec() -> bool {
        true
    }

    open spec fn from_spec(v: theme_entity::ThemeType) -> ThemeType {
        loaded_theme_type(v)
    }
}

impl From<ThemeType> for theme_entity::ThemeType {
    fn from(theme_type: ThemeType) -> (r: Self) {
        match theme_type {
            ThemeType::Mythos => theme_entity::ThemeType::Mythos,
            ThemeType::Logos => theme_entity::ThemeType::Logos,
            ThemeType::Crew => theme_entity::ThemeType::Crew,
            ThemeType::Extra => theme_entity::ThemeType::Extra,
        }
    }
}

impl FromSpecImpl<ThemeType> for theme_entity::ThemeType {
    open spec fn obeys_from_spec() -> bool {
        true
    }

    open spec fn from_spec(v: ThemeType) -> theme_entity::ThemeType {
        stored_theme_type(v)
    }
}

/// Storing a theme kind and loading it back gives the same kind, and the
/// other way round.
pub proof fn lemma_theme_type_round_trip(t: ThemeType, e: theme_entity::ThemeType)
    ensures
        loaded_theme_type(stored_theme_type(t)) == t,
        stored_theme_type(loaded_theme_type(e)) == e,
{
}

/// A tag on a theme.
#[allow(inconsistent_fields)]
#[derive(Debug, PartialEq)]
pub enum Tag {
    Power { name: String, burned: bool },
    Weakness { name: String, invoked: bool },
    Story { name: String },
    Status { name: i8 },
}

impl Clone for Tag {
    fn clone(&self) -> (r: Self)
        ensures
            r == *self,
    {
        match self {
            Tag::Power { name, burned } => Tag::Power { name: name.clone(), burned: *burned },
            Tag::Weakness { name, invoked } => Tag::Weakness { name: name.clone(), invoked: *invoked },
            Tag::Story { name } => Tag::Story { name: name.clone() },
            Tag::Status { name } => Tag::Status { name: *name },
        }
    }
}

impl Tag {
    /// A power tag.
    pub fn new_power(name: String, burned: bool) -> (r: Tag)
        ensures
            r == (Tag::Power { name, burned }),
    {
        Tag::Power { name, burned }
    }

    /// A weakness tag.
    pub fn new_weakness(name: String, invoked: bool) -> (r: Tag)
        ensures
            r == (Tag::Weakness { name, invoked }),
    {
        Tag::Weakness { name, invoked }
    }

    /// A story tag.
    pub fn new_story(name: String) -> (r: Tag)
        ensures
            r == (Tag::Story { name }),
    {
        Tag::Story { name }
    }

    /// A status.
    pub fn new_status(name: i8) -> (r: Tag)
        ensures
            r == (Tag::Status { name }),
    {
        Tag::Status { name }
    }
}

/// Copies a list of tags.
pub fn clone_tags(tags: &Vec<Tag>) -> (r: Vec<Tag>)
    ensures
        r@ == tags@,
{
    let r = tags.clone();
    assert(r@ =~= tags@);
    r
}

/// A theme on a character sheet.
#[derive(Debug, PartialEq)]
pub struct Theme {
    pub id: Option<i32>,
    pub theme_descriptor: String,
    pub title: String,
    pub mystery_or_identity: String,
    pub theme_type: ThemeType,
    pub attention: i8,
    pub fade_or_crack: i8,
    pub tags: Vec<Tag>,
}

/// The value of a theme, with its text fields and tags as sequences.
pub struct ThemeView {
    pub id: Option<i32>,
    pub theme_descriptor: Seq<char>,
    pub title: Seq<char>,
    pub mystery_or_identity: Seq<char>,
    pub theme_type: ThemeType,
    pub attention: i8,
    pub fade_or_crack: i8,
    pub tags: Seq<Tag>,
}

impl View for Theme {
    type V = ThemeView;

    open spec fn view(&self) -> ThemeView {
        ThemeView {
            id: self.id,
            theme_descriptor: self.theme_descriptor@,
            title: self.title@,
            mystery_or_identity: self.mystery_or_identity@,
            theme_type: self.theme_type,
            attention: self.attention,
            fade_or_crack: self.fade_or_crack,
            tags: self.tags@,
        }
    }
}

/// The views of a list of themes.
pub open spec fn theme_views(themes: Seq<Theme>) -> Seq<ThemeView> {
    themes.map_values(|t: Theme| t@)
}

impl Clone for Theme {
    fn clone(&self) -> (r: Self)
        ensures
            r@ == self@,
    {
        Theme {
            id: self.id,
            theme_descriptor: self.theme_descriptor.clone(),
            title: self.title.clone(),
            mystery_or_identity: self.mystery_or_identity.clone(),
            theme_type: self.theme_type,
            attention: self.attention,
            fade_or_crack: self.fade_or_crack,
            tags: clone_tags(&self.tags),
        }
    }
}

impl Default for Theme {
    /// The empty theme: no id, empty text, an extra theme with no tags.
    fn default() -> (r: Self)
        ensures
            r@ == (ThemeView {
                id: None,
                theme_descriptor: Seq::empty(),
                title: Seq::empty(),
                mystery_or_identity: Seq::empty(),
                theme_type: ThemeType::Extra,
                attention: 0,
                fade_or_crack: 0,
                tags: Seq::empty(),
            }),
    {
        Theme {
            id: None,
            theme_descriptor: String::new(),
            title: String::new(),
            mystery_or_identity: String::new(),
            theme_type: ThemeType::Extra,
            attention: 0,
            fade_or_crack: 0,
            tags: Vec::new(),
        }
    }
}

/// Copies a list of themes.
pub fn clone_themes(themes: &Vec<Theme>) -> (r: Vec<Theme>)
    ensures
        theme_views(r@) == theme_views(themes@),
{
    let mut r: Vec<Theme> = Vec::new();
    let mut i: usize = 0;
    while i < themes.len()
        invariant
            i <= themes.len(),
            r.len() == i,
            forall|j: int| 0 <= j < i ==> #[trigger] r@[j]@ == themes@[j]@,
        decreases themes.len() - i,
    {
        r.push(themes[i].clone());
        i = i + 1;
    }
    assert(theme_views(r@) =~= theme_views(themes@));
    r
}

/// Why a builder could not produce its value.
#[derive(Debug, PartialEq)]
pub enum ThemeBuilderError {
    /// A field that has no default was never set; the payload is its name.
    UninitializedField(&'static str),
    /// The value was rejected.
    ValidationError(String),
}

impl ThemeBuilderError {
    /// The message of the error: "`field` must be initialized", or the
    /// validation message itself.
    pub fn message(&self) -> (s: String)
        ensures
            self matches ThemeBuilderError::UninitializedField(f) ==> s@ == seq!['`'] + f@ + "` must be initialized"@,
            self matches ThemeBuilderError::ValidationError(m) ==> s@ == m@,
    {
        match self {
            ThemeBuilderError::UninitializedField(f) => {
                let mut s = String::from_str("`");
                proof { reveal_strlit("`"); }
                s.append(f);
                s.append("` must be initialized");
                s
            },
            ThemeBuilderError::ValidationError(m) => m.clone(),
        }
    }
}

/// A theme under construction: each field is unset until given.
#[derive(Debug, PartialEq)]
pub struct ThemeBuilder {
    pub id: Option<Option<i32>>,
    pub theme_descriptor: Option<String>,
    pub title: Option<String>,
    pub mystery_or_identity: Option<String>,
    pub theme_type: Option<ThemeType>,
    pub attention: Option<i8>,
    pub fade_or_crack: Option<i8>,
    pub tags: Option<Vec<Tag>>,
}

/// The name of the first field, in declaration order, that the theme
/// builder needs and does not have.
pub open spec fn theme_builder_missing(b: ThemeBuilder) -> Option<Seq<char>> {
    if b.theme_descriptor is None {
        Some("theme_descriptor"@)
    } else if b.title is None {
        Some("title"@)
    } else if b.mystery_or_identity is None {
        Some("mystery_or_identity"@)
    } else if b.theme_type is None {
        Some("theme_type"@)
    } else {
        None
    }
}

/// The theme that a builder with all its required fields set produces:
/// the fields it holds, and the defaults (no id, no attention, no fade or
/// crack, no tags) for the others.
pub open spec fn theme_builder_value(b: ThemeBuilder) -> ThemeView {
    ThemeView {
        id: match b.id { Some(id) => id, None => None },
        theme_descriptor: b.theme_descriptor->0@,
        title: b.title->0@,
        mystery_or_identity: b.mystery_or_identity->0@,
        theme_type: b.theme_type->0,
        attention: match b.attention { Some(a) => a, None => 0 },
        fade_or_crack: match b.fade_or_crack { Some(a) => a, None => 0 },
        tags: match b.tags { Some(t) => t@, None => Seq::empty() },
    }
}

/// What building from `b` gives: the theme, or the first missing field.
pub open spec fn theme_build_ok(b: ThemeBuilder, r: Result<Theme, ThemeBuilderError>) -> bool {
    match theme_builder_missing(b) {
        Some(f) => r matches Err(ThemeBuilderError::UninitializedField(name)) && name@ == f,
        None => r matches Ok(t) && t@ == theme_builder_value(b),
    }
}

impl Default for ThemeBuilder {
    /// A builder with no field set.
    fn default() -> (r: Self)
        ensures
            r.id is None,
            r.theme_descriptor is None,
            r.title is None,
            r.mystery_or_identity is None,
            r.theme_type is None,
            r.attention is None,
            r.fade_or_crack is None,
            r.tags is None,
    {
        ThemeBuilder {
            id: None,
            theme_descriptor: None,
            title: None,
            mystery_or_identity: None,
            theme_type: None,
            attention: None,
            fade_or_crack: None,
            tags: None,
        }
    }
}

impl ThemeBuilder {
    /// Sets the id.
    pub fn id(self, value: Option<i32>) -> (r: Self)
        ensures
            r == (ThemeBuilder { id: Some(value), ..self }),
    {
        ThemeBuilder { id: Some(value), ..self }
    }

    /// Sets the name of the theme's descriptor.
    pub fn theme_descriptor(self, value: &str) -> (r: Self)
        ensures
            r.theme_descriptor matches Some(v) && v@ == value@,
            r == (ThemeBuilder { theme_descriptor: r.theme_descriptor, ..self }),
    {
        ThemeBuilder { theme_descriptor: Some(value.to_owned()), ..self }
    }

    /// Sets the title.
    pub fn title(self, value: &str) -> (r: Self)
        ensures
            r.title matches Some(v) && v@ == value@,
            r == (ThemeBuilder { title: r.title, ..self }),
    {
        ThemeBuilder { title: Some(value.to_owned()), ..self }
    }

    /// Sets the mystery (of a mythos theme) or identity (of a logos theme).
    pub fn mystery_or_identity(self, value: &str) -> (r: Self)
        ensures
            r.mystery_or_identity matches Some(v) && v@ == value@,
            r == (ThemeBuilder { mystery_or_identity: r.mystery_or_identity, ..self }),
    {
        ThemeBuilder { mystery_or_identity: Some(value.to_owned()), ..self }
    }

    /// Sets the kind of theme.
    pub fn theme_type(self, value: ThemeType) -> (r: Self)
        ensures
            r == (ThemeBuilder { theme_type: Some(value), ..self }),
    {
        ThemeBuilder { theme_type: Some(value), ..self }
    }

    /// Sets the attention.
    pub fn attention(self, value: i8) -> (r: Self)
        ensures
            r == (ThemeBuilder { attention: Some(value), ..self }),
    {
        ThemeBuilder { attention: Some(value), ..self }
    }

    /// Sets the fade (of a mythos theme) or crack (of a logos theme).
    pub fn fade_or_crack(self, value: i8) -> (r: Self)
        ensures
            r == (ThemeBuilder { fade_or_crack: Some(value), ..self }),
    {
        ThemeBuilder { fade_or_crack: Some(value), ..self }
    }

    /// Sets the tags.
    pub fn tags(self, value: Vec<Tag>) -> (r: Self)
        ensures
            r == (ThemeBuilder { tags: Some(value), ..self }),
    {
        ThemeBuilder { tags: Some(value), ..self }
    }

    /// Builds the theme: fails on the first required field, in declaration
    /// order, that was never set.
    pub fn build(&self) -> (r: Result<Theme, ThemeBuilderError>)
        ensures
            theme_build_ok(*self, r),
    {
        proof {
            reveal_strlit("theme_descriptor");
            reveal_strlit("title");
            reveal_strlit("mystery_or_identity");
            reveal_strlit("theme_type");
        }
        let id = match self.id {
            Some(v) => v,
            None => None,
        };
        let theme_descriptor = match &self.theme_descriptor {
            Some(v) => v.clone(),
            None => return Err(ThemeBuilderError::UninitializedField("theme_descriptor")),
        };
        let title = match &self.title {
            Some(v) => v.clone(),
            None => return Err(ThemeBuilderError::UninitializedField("title")),
        };
        let mystery_or_identity = match &self.mystery_or_identity {
            Some(v) => v.clone(),
            None => return Err(ThemeBuilderError::UninitializedField("mystery_or_identity")),
        };
        let theme_type = match self.theme_type {
            Some(v) => v,
            None => return Err(ThemeBuilderError::UninitializedField("theme_type")),
        };
        let attention = match self.attention {
            Some(v) => v,
            None => 0,
        };
        let fade_or_crack = match self.fade_or_crack {
            Some(v) => v,
            None => 0,
        };
        let tags = match &self.tags {
            Some(v) => clone_tags(v),
            None => Vec::new(),
        };
        Ok(Theme { id, theme_descriptor, title, mystery_or_identity, theme_type, attention, fade_or_crack, tags })
    }
}

/// The theme that a stored theme row stands for.
pub open spec fn theme_from_model(m: theme_entity::Model) -> ThemeView {
    ThemeView {
        id: Some(m.id),
        theme_descriptor: descriptor_name(m.theme_descriptor),
        title: m.title@,
        mystery_or_identity: m.mystery_or_identity@,
        theme_type: loaded_theme_type(m.theme_type),
        attention: m.attention,
        fade_or_crack: m.fade_or_crack,
        tags: m.tags@,
    }
}

impl Theme {
    /// The theme that a stored row stands for: the row's id, the name of its
    /// themebook, and its other columns as they are.
    pub fn from_model(entity: theme_entity::Model) -> (r: Theme)
        ensures
            r@ == theme_from_model(entity),
    {
        Theme {
            id: Some(entity.id),
            theme_descriptor: entity.theme_descriptor.into_string(),
            title: entity.title,
            mystery_or_identity: entity.mystery_or_identity,
            theme_type: ThemeType::from(entity.theme_type),
            attention: entity.attention,
            fade_or_crack: entity.fade_or_crack,
            tags: entity.tags,
        }
    }

    /// The insert or update that stores this theme: every column is
    /// written, the id only where the theme has one. The themebook name must
    /// be one of the eighteen.
    pub fn into_active_model(self) -> (r: (theme_entity::ActiveModel,))
        requires
            descriptor_named(self.theme_descriptor@) is Some,
        ensures
            r.0 == theme_active(self),
    {
        let theme_model = theme_entity::ActiveModel {
            id: set_or_not(self.id),
            theme_descriptor: ActiveValue::SetTo(theme_entity::ThemeDescriptor::from_string(self.theme_descriptor)),
            title: ActiveValue::SetTo(self.title),
            mystery_or_identity: ActiveValue::SetTo(self.mystery_or_identity),
            theme_type: ActiveValue::SetTo(theme_entity::ThemeType::from(self.theme_type)),
            attention: ActiveValue::SetTo(self.attention),
            fade_or_crack: ActiveValue::SetTo(self.fade_or_crack),
            tags: ActiveValue::SetTo(self.tags),
        };
        (theme_model,)
    }
}

/// `SetTo(v)` for a value, `NotSet` for none.
pub open spec fn set_or_not_spec<V>(value: Option<V>) -> ActiveValue<V> {
    match value {
        Some(v) => ActiveValue::SetTo(v),
        None => ActiveValue::NotSet,
    }
}

/// The insert or update that stores a theme: see `Theme::into_active_model`.
pub open spec fn theme_active(t: Theme) -> theme_entity::ActiveModel {
    theme_entity::ActiveModel {
        id: set_or_not_spec(t.id),
        theme_descriptor: ActiveValue::SetTo(descriptor_named(t.theme_descriptor@)->0),
        title: ActiveValue::SetTo(t.title),
        mystery_or_identity: ActiveValue::SetTo(t.mystery_or_identity),
        theme_type: ActiveValue::SetTo(stored_theme_type(t.theme_type)),
        attention: ActiveValue::SetTo(t.attention),
        fade_or_crack: ActiveValue::SetTo(t.fade_or_crack),
        tags: ActiveValue::SetTo(t.tags),
    }
}

/// The insert or update that a builder's fields give: see
/// `ThemeBuilder::into_active_model`.
pub open spec fn builder_active(b: ThemeBuilder) -> theme_entity::ActiveModel {
    theme_entity::ActiveModel {
        id: set_or_not_spec(match b.id { Some(v) => v, None => None }),
        theme_descriptor: set_or_not_spec(match b.theme_descriptor {
            Some(n) => descriptor_named(n@),
            None => None,
        }),
        title: set_or_not_spec(b.title),
        mystery_or_identity: set_or_not_spec(b.mystery_or_identity),
        theme_type: set_or_not_spec(match b.theme_type {
            Some(t) => Some(stored_theme_type(t)),
            None => None,
        }),
        attention: set_or_not_spec(b.attention),
        fade_or_crack: set_or_not_spec(b.fade_or_crack),
        tags: set_or_not_spec(b.tags),
    }
}

/// Whether a builder's themebook name, if it has one, is one of the eighteen.
pub open spec fn builder_descriptor_known(b: ThemeBuilder) -> bool {
    b.theme_descriptor matches Some(n) ==> descriptor_named(n@) is Some
}

impl ThemeBuilder {
    /// The insert or update that writes the fields this builder holds and
    /// leaves out the others. A themebook name it holds must be one of the
    /// eighteen.
    pub fn into_active_model(self) -> (r: (theme_entity::ActiveModel,))
        requires
            builder_descriptor_known(self),
        ensures
            r.0 == builder_active(self),
    {
        let id = match self.id {
            Some(v) => v,
            None => None,
        };
        let theme_descriptor = match self.theme_descriptor {
            Some(n) => ActiveValue::SetTo(theme_entity::ThemeDescriptor::from_string(n)),
            None => ActiveValue::NotSet,
        };
        let theme_type = match self.theme_type {
            Some(t) => ActiveValue::SetTo(theme_entity::ThemeType::from(t)),
            None => ActiveValue::NotSet,
        };
        let theme_model = theme_entity::ActiveModel {
            id: set_or_not(id),
            theme_descriptor,
            title: set_or_not(self.title),
            mystery_or_identity: set_or_not(self.mystery_or_identity),
            theme_type,
            attention: set_or_not(self.attention),
            fade_or_crack: set_or_not(self.fade_or_crack),
            tags: set_or_not(self.tags),
        };
        (theme_model,)
    }
}

/// Storing a theme and reading its row back gives the same theme, but for
/// the id of a theme that had none, which the store gives it.
pub proof fn lemma_theme_store_then_load(t: Theme, m: theme_entity::Model)
    requires
        descriptor_named(t.theme_descriptor@) is Some,
        theme_entity::written_by(theme_active(t), m),
    ensures
        theme_from_model(m) == (ThemeView { id: Some(m.id), ..t@ }),
        t.id is Some ==> theme_from_model(m) == t@,
{
    crate::entity::theme::lemma_descriptor_named_inverse(t.theme_descriptor@);
    lemma_theme_type_round_trip(t.theme_type, m.theme_type);
}

/// The stored kind that a theme kind is written as: each kind as the
/// stored kind of the same name.
pub open spec fn stored_as(t: ThemeType, e: theme_entity::ThemeType) -> bool {
    &&& (t == ThemeType::Mythos <==> e == theme_entity::ThemeType::Mythos)
    &&& (t == ThemeType::Logos <==> e == theme_entity::ThemeType::Logos)
    &&& (t == ThemeType::Crew <==> e == theme_entity::ThemeType::Crew)
    &&& (t == ThemeType::Extra <==> e == theme_entity::ThemeType::Extra)
}

/// The update a theme builder gives writes exactly the fields the builder
/// holds, each with the value it holds, and leaves every other field out:
/// the id where one is held, the themebook whose name is the one held,
/// the stored kind of the kind held, and the title, mystery or identity,
/// attention, fade or crack and tags as held.
pub proof fn lemma_builder_update_writes_held_fields(b: ThemeBuilder)
    requires
        builder_descriptor_known(b),
    ensures
        ({
            let a = builder_active(b);
            &&& (b.id matches Some(Some(i)) ==> a.id == ActiveValue::SetTo(i))
            &&& (!(b.id matches Some(Some(_))) ==> a.id is NotSet)
            &&& (b.theme_descriptor matches Some(n) ==> (a.theme_descriptor matches ActiveValue::SetTo(d)
                && descriptor_name(d) == n@))
            &&& (b.theme_descriptor is None ==> a.theme_descriptor is NotSet)
            &&& (b.title matches Some(v) ==> a.title == ActiveValue::SetTo(v))
            &&& (b.title is None ==> a.title is NotSet)
            &&& (b.mystery_or_identity matches Some(v) ==> a.mystery_or_identity == ActiveValue::SetTo(v))
            &&& (b.mystery_or_identity is None ==> a.mystery_or_identity is NotSet)
            &&& (b.theme_type matches Some(t) ==> (a.theme_type matches ActiveValue::SetTo(e) && stored_as(t, e)))
            &&& (b.theme_type is None ==> a.theme_type is NotSet)
            &&& (b.attention matches Some(v) ==> a.attention == ActiveValue::SetTo(v))
            &&& (b.attention is None ==> a.attention is NotSet)
            &&& (b.fade_or_crack matches Some(v) ==> a.fade_or_crack == ActiveValue::SetTo(v))
            &&& (b.fade_or_crack is None ==> a.fade_or_crack is NotSet)
            &&& (b.tags matches Some(v) ==> a.tags == ActiveValue::SetTo(v))
            &&& (b.tags is None ==> a.tags is NotSet)
        }),
{
    match b.theme_descriptor {
        Some(n) => crate::entity::theme::lemma_descriptor_named_inverse(n@),
        None => {},
    }
}

/// The update that stores a theme writes every field with the theme's
/// value: its id where it has one (none is written otherwise), the
/// themebook whose name the theme holds, the stored kind of its kind, and
/// its title, mystery or identity, attention, fade or crack and tags.
pub proof fn lemma_theme_update_writes_every_field(t: Theme)
    requires
        descriptor_named(t.theme_descriptor@) is Some,
    ensures
        ({
            let a = theme_active(t);
            &&& (t.id matches Some(i) ==> a.id == ActiveValue::SetTo(i))
            &&& (t.id is None ==> a.id is NotSet)
            &&& (a.theme_descriptor matches ActiveValue::SetTo(d) && descriptor_name(d) == t.theme_descriptor@)
            &&& a.title == ActiveValue::SetTo(t.title)
            &&& a.mystery_or_identity == ActiveValue::SetTo(t.mystery_or_identity)
            &&& (a.theme_type matches ActiveValue::SetTo(e) && stored_as(t.theme_type, e))
            &&& a.attention == ActiveValue::SetTo(t.attention)
            &&& a.fade_or_crack == ActiveValue::SetTo(t.fade_or_crack)
            &&& a.tags == ActiveValue::SetTo(t.tags)
        }),
{
    crate::entity::theme::lemma_descriptor_named_inverse(t.theme_descriptor@);
}

/// A theme builder builds exactly when it holds a themebook, a title, a
/// mystery or identity and a kind; the theme built holds each field the
/// builder holds, and for the others no id, no attention, no fade or
/// crack and no tags.
pub proof fn lemma_theme_built_holds_builder_fields(b: ThemeBuilder)
    ensures
        (theme_builder_missing(b) is None) <==> (b.theme_descriptor is Some && b.title is Some
            && b.mystery_or_identity is Some && b.theme_type is Some),
        b.theme_descriptor is None ==> theme_builder_missing(b) == Some("theme_descriptor"@),
        theme_builder_missing(b) is None ==> ({
            let v = theme_builder_value(b);
            &&& (b.theme_descriptor matches Some(n) && v.theme_descriptor == n@)
            &&& (b.title matches Some(n) && v.title == n@)
            &&& (b.mystery_or_identity matches Some(n) && v.mystery_or_identity == n@)
            &&& (b.theme_type matches Some(k) && v.theme_type == k)
            &&& (b.id matches Some(Some(i)) ==> v.id == Some(i))
            &&& (!(b.id matches Some(Some(_))) ==> v.id is None)
            &&& (b.attention matches Some(a) ==> v.attention == a)
            &&& (b.attention is None ==> v.attention == 0)
            &&& (b.fade_or_crack matches Some(a) ==> v.fade_or_crack == a)
            &&& (b.fade_or_crack is None ==> v.fade_or_crack == 0)
            &&& (b.tags matches Some(ts) ==> v.tags == ts@)
            &&& (b.tags is None ==> v.tags == Seq::<Tag>::empty())
        }),
{
}

/// The theme read from a stored row holds the row's id, the name of its
/// themebook (which reads back as that themebook), the theme kind of its
/// stored kind, and its title, mystery or identity, attention, fade or
/// crack and tags.
pub proof fn lemma_theme_read_holds_row(m: theme_entity::Model)
    ensures
        ({
            let v = theme_from_model(m);
            &&& v.id == Some(m.id)
            &&& descriptor_named(v.theme_descriptor) == Some(m.theme_descriptor)
            &&& stored_as(v.theme_type, m.theme_type)
            &&& v.title == m.title@
            &&& v.mystery_or_identity == m.mystery_or_identity@
            &&& v.attention == m.attention
            &&& v.fade_or_crack == m.fade_or_crack
            &&& v.tags == m.tags@
        }),
{
    crate::entity::theme::lemma_descriptor_name_round_trip(m.theme_descriptor);
}

/// A column given a value is written with that value; a column given
/// none is left out.
pub proof fn lemma_set_or_not_writes_given<V>(value: Option<V>)
    ensures
        value matches Some(v) ==> set_or_not_spec(value) == ActiveValue::SetTo(v),
        value is None ==> set_or_not_spec(value) is NotSet,
{
}

} // verus!
