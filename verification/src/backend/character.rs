//! The characters the server keeps loaded, and the writes that creating or
//! changing a character makes.

use crate::common::character::{
    builder_descriptors_known, builder_theme_order, character_from_rows, Character, CharacterBuilder,
    CharacterView,
};
use crate::common::theme::{builder_active, theme_from_model, ThemeBuilder};
use crate::entity::active_value::ActiveValue;
use crate::entity::character as character_entity;
use crate::entity::character_theme as character_theme_entity;
use crate::entity::theme as theme_entity;
use crate::text::join2;
use std::collections::HashMap;
use vstd::prelude::*;
use vstd::string::*;

verus! {

broadcast use vstd::std_specs::hash::group_hash_axioms;

/// The loaded characters, by id.
pub struct CharacterCache {
    loaded_characters: HashMap<i32, Character>,
}

impl View for CharacterCache {
    type V = Map<i32, CharacterView>;

    closed spec fn view(&self) -> Map<i32, CharacterView> {
        self.loaded_characters@.map_values(|c: Character| c@)
    }
}

/// The sheet that a stored character row and its theme rows stand for.
pub open spec fn loaded_view(rows: (character_entity::Model, Vec<theme_entity::Model>)) -> CharacterView {
    character_from_rows(rows.0, rows.1@.map_values(|m: theme_entity::Model| theme_from_model(m)))
}

/// The loaded characters after keeping what was read from the store for
/// the character `id`; `None` when the store had nothing.
pub open spec fn refreshed(
    cache: Map<i32, CharacterView>,
    id: i32,
    loaded: Option<(character_entity::Model, Vec<theme_entity::Model>)>,
) -> Map<i32, CharacterView> {
    match loaded {
        Some(rows) => cache.insert(id, loaded_view(rows)),
        None => cache,
    }
}

/// The loaded characters after keeping what was read from the store for
/// the character `id` unless it is loaded already.
pub open spec fn loaded_if_absent(
    cache: Map<i32, CharacterView>,
    id: i32,
    loaded: Option<(character_entity::Model, Vec<theme_entity::Model>)>,
) -> Map<i32, CharacterView> {
    if cache.contains_key(id) {
        cache
    } else {
        refreshed(cache, id, loaded)
    }
}

impl CharacterCache {
    /// No character loaded.
    pub fn new() -> (r: Self)
        ensures
            r@ == Map::<i32, CharacterView>::empty(),
    {
        let r = CharacterCache { loaded_characters: HashMap::new() };
        assert(r@ =~= Map::<i32, CharacterView>::empty());
        r
    }

    /// The loaded character with the given id, if it is loaded.
    pub fn cached(&self, id: i32) -> (r: Option<&Character>)
        ensures
            r is Some <==> self@.contains_key(id),
            r matches Some(c) ==> c@ == self@[id],
    {
        self.loaded_characters.get(&id)
    }

    /// Whether the character with the given id has to be read from the
    /// store before it can be handed out.
    pub fn needs_load(&self, id: i32) -> (r: bool)
        ensures
            r == !self@.contains_key(id),
    {
        !self.loaded_characters.contains_key(&id)
    }

    /// Keeps what was just read from the store for a character, replacing
    /// the loaded one; `loaded` is `None` when the store had nothing, and
    /// then nothing changes. Tells whether the character is now loaded
    /// from the store.
    pub fn refresh(&mut self, id: i32, loaded: Option<(character_entity::Model, Vec<theme_entity::Model>)>) -> (r: bool)
        ensures
            r == loaded is Some,
            final(self)@ == refreshed(old(self)@, id, loaded),
    {
        match loaded {
            Some((character, themes)) => {
                let c = Character::from_model_with_themes(character, themes);
                self.loaded_characters.insert(id, c);
                assert(self@ =~= old(self)@.insert(id, loaded_view(loaded->0)));
                true
            },
            None => false,
        }
    }

    /// Keeps what was just read from the store for a character unless one
    /// is loaded already; `loaded` is `None` when the store had nothing.
    /// Tells whether the character is now loaded.
    pub fn load_if_absent(&mut self, id: i32, loaded: Option<(character_entity::Model, Vec<theme_entity::Model>)>) -> (r: bool)
        ensures
            r == (old(self)@.contains_key(id) || loaded is Some),
            final(self)@ == loaded_if_absent(old(self)@, id, loaded),
    {
        if self.loaded_characters.contains_key(&id) {
            return true;
        }
        self.refresh(id, loaded)
    }
}

/// What the store gave for a character is what the cache then hands out
/// for its id, and keeping it leaves every other loaded character as it
/// was.
pub proof fn lemma_refresh_then_cached(
    cache: Map<i32, CharacterView>,
    id: i32,
    rows: (character_entity::Model, Vec<theme_entity::Model>),
    other: i32,
)
    requires
        other != id,
    ensures
        refreshed(cache, id, Some(rows)).contains_key(id),
        refreshed(cache, id, Some(rows))[id] == loaded_view(rows),
        refreshed(cache, id, Some(rows)).contains_key(other) == cache.contains_key(other),
        cache.contains_key(other) ==> refreshed(cache, id, Some(rows))[other] == cache[other],
{
}

/// When the store has nothing for a character, the loaded characters stay
/// as they were.
pub proof fn lemma_refresh_nothing_unchanged(cache: Map<i32, CharacterView>, id: i32)
    ensures
        refreshed(cache, id, None) == cache,
        loaded_if_absent(cache, id, None) == cache,
{
}

/// Once a character is loaded, loading it again changes nothing, whatever
/// the store gives then: the copy loaded first is the one handed out.
pub proof fn lemma_first_load_stays(
    cache: Map<i32, CharacterView>,
    id: i32,
    first: (character_entity::Model, Vec<theme_entity::Model>),
    later: Option<(character_entity::Model, Vec<theme_entity::Model>)>,
)
    ensures
        loaded_if_absent(cache, id, Some(first)).contains_key(id),
        loaded_if_absent(loaded_if_absent(cache, id, Some(first)), id, later)
            == loaded_if_absent(cache, id, Some(first)),
        !cache.contains_key(id) ==> loaded_if_absent(cache, id, Some(first))[id] == loaded_view(first),
{
}

/// The rows that link a newly stored character to each of its newly
/// stored themes, in order.
pub fn theme_links(character_id: i32, theme_ids: &Vec<i32>) -> (r: Vec<character_theme_entity::ActiveModel>)
    ensures
        r@.len() == theme_ids@.len(),
        forall|i: int| 0 <= i < theme_ids@.len() ==> #[trigger] r@[i] == (character_theme_entity::ActiveModel {
            character_id: ActiveValue::SetTo(character_id),
            theme_id: ActiveValue::SetTo(theme_ids@[i]),
        }),
{
    let mut r: Vec<character_theme_entity::ActiveModel> = Vec::new();
    let mut i: usize = 0;
    while i < theme_ids.len()
        invariant
            i <= theme_ids.len(),
            r@.len() == i,
            forall|j: int| 0 <= j < i ==> #[trigger] r@[j] == (character_theme_entity::ActiveModel {
                character_id: ActiveValue::SetTo(character_id),
                theme_id: ActiveValue::SetTo(theme_ids@[j]),
            }),
        decreases theme_ids.len() - i,
    {
        r.push(character_theme_entity::ActiveModel {
            character_id: ActiveValue::SetTo(character_id),
            theme_id: ActiveValue::SetTo(theme_ids[i]),
        });
        i = i + 1;
    }
    r
}

/// The writes that change a stored character from the fields a client sent.
#[derive(Debug, PartialEq)]
pub struct CharacterUpdate {
    /// The update of the character row, with the id filled in; `None` when
    /// no character column was sent, and the row is then only read back.
    pub character: Option<character_entity::ActiveModel>,
    /// The update of each theme row that was sent, in order.
    pub themes: Vec<theme_entity::ActiveModel>,
}

/// Plans the writes that change the character `id` from a builder of the
/// fields a client sent. Every themebook name sent must be one of the
/// eighteen.
pub fn plan_character_update(id: i32, builder: CharacterBuilder) -> (r: CharacterUpdate)
    requires
        builder_descriptors_known(builder_theme_order(builder)),
    ensures
        r.themes@ == builder_theme_order(builder).map_values(|b: ThemeBuilder| builder_active(b)),
        (builder.name is Some || builder.mythos is Some || builder.logos is Some
            || builder.id matches Some(Some(_))) <==> r.character is Some,
        r.character matches Some(m) ==> m == (character_entity::ActiveModel {
            id: ActiveValue::SetTo(id),
            name: crate::common::theme::set_or_not_spec(builder.name),
            mythos: crate::common::theme::set_or_not_spec(builder.mythos),
            logos: crate::common::theme::set_or_not_spec(builder.logos),
        }),
{
    let (m_character, m_themes) = builder.into_active_models();
    if m_character.is_changed() {
        let m = character_entity::ActiveModel { id: ActiveValue::SetTo(id), ..m_character };
        CharacterUpdate { character: Some(m), themes: m_themes }
    } else {
        CharacterUpdate { character: None, themes: m_themes }
    }
}

/// Why changing a character failed.
#[derive(Debug, PartialEq)]
pub enum CharacterUpdateError {
    /// The fields sent do not make a character builder; the payload says why.
    ActiveModel(String),
    /// The store refused a write; the payload says why.
    Save(String),
    /// The store refused to read the character; the payload says why.
    Get(String),
    /// There is no character with that id.
    NoSuchCharacter,
    /// The character could not be read back after the change.
    NotReloaded,
}

/// The message of a failed change.
pub open spec fn update_error_message(e: CharacterUpdateError) -> Seq<char> {
    match e {
        CharacterUpdateError::ActiveModel(m) => "Couldn't create active model: "@ + m@,
        CharacterUpdateError::Save(m) => "Couldn't save character: "@ + m@,
        CharacterUpdateError::Get(m) => "Couldn't get character: "@ + m@,
        CharacterUpdateError::NoSuchCharacter => "No such character."@,
        CharacterUpdateError::NotReloaded => "Couldn't get character after save."@,
    }
}

impl CharacterUpdateError {
    /// The message of a failed change.
    pub fn message(&self) -> (r: String)
        ensures
            r@ == update_error_message(*self),
    {
        match self {
            CharacterUpdateError::ActiveModel(m) => join2("Couldn't create active model: ", m.as_str()),
            CharacterUpdateError::Save(m) => join2("Couldn't save character: ", m.as_str()),
            CharacterUpdateError::Get(m) => join2("Couldn't get character: ", m.as_str()),
            CharacterUpdateError::NoSuchCharacter => String::from_str("No such character."),
            CharacterUpdateError::NotReloaded => String::from_str("Couldn't get character after save."),
        }
    }
}

/// Where a change of a stored character stands.
#[derive(Debug, PartialEq)]
pub enum UpdateState {
    /// The writes of the character with this id are planned, nothing is
    /// done yet.
    Planned(i32, CharacterUpdate),
    /// The character row is being written, or read where the plan writes
    /// none of its columns; these theme rows are to be written next.
    AwaitingRow(Vec<theme_entity::ActiveModel>),
    /// The theme rows of the character with this id are being written.
    WritingThemes(i32),
    /// The character with this id is being read back.
    Reloading(i32),
    /// The change is over.
    Finished,
}

/// What the store is asked to do next, or how the change ended.
#[derive(Debug, PartialEq)]
pub enum UpdateAction {
    /// Write the character row.
    SaveCharacter(character_entity::ActiveModel),
    /// Read the character row with this id.
    GetCharacter(i32),
    /// Write these theme rows.
    SaveThemes(Vec<theme_entity::ActiveModel>),
    /// Read the character with this id and its themes back into the cache.
    Reload(i32),
    /// The change is over: the id of the changed character, now loaded, or
    /// why it failed.
    Done(Result<i32, CharacterUpdateError>),
}

/// What the store answered.
#[derive(Debug, PartialEq)]
pub enum UpdateEvent {
    /// Start the change.
    Begin,
    /// Writing the character row gave the row's id, or the store's
    /// complaint.
    CharacterSaved(Result<i32, String>),
    /// Reading the character row gave its id, nothing where there is no
    /// such row, or the store's complaint.
    CharacterFound(Result<Option<i32>, String>),
    /// Writing the theme rows succeeded, or gave the store's complaint.
    ThemesSaved(Result<(), String>),
    /// Whether reading the character back loaded it.
    Reloaded(bool),
}

/// Whether an answer is one that the state waits for.
pub open spec fn update_event_fits(state: UpdateState, event: UpdateEvent) -> bool {
    match state {
        UpdateState::Planned(_, _) => event is Begin,
        UpdateState::AwaitingRow(_) => event is CharacterSaved || event is CharacterFound,
        UpdateState::WritingThemes(_) => event is ThemesSaved,
        UpdateState::Reloading(_) => event is Reloaded,
        UpdateState::Finished => false,
    }
}

impl UpdateState {
    /// Whether the state waits for this answer.
    pub fn waits_for(&self, event: &UpdateEvent) -> (r: bool)
        ensures
            r == update_event_fits(*self, *event),
    {
        match self {
            UpdateState::Planned(_, _) => match event {
                UpdateEvent::Begin => true,
                _ => false,
            },
            UpdateState::AwaitingRow(_) => match event {
                UpdateEvent::CharacterSaved(_) => true,
                UpdateEvent::CharacterFound(_) => true,
                _ => false,
            },
            UpdateState::WritingThemes(_) => match event {
                UpdateEvent::ThemesSaved(_) => true,
                _ => false,
            },
            UpdateState::Reloading(_) => match event {
                UpdateEvent::Reloaded(_) => true,
                _ => false,
            },
            UpdateState::Finished => false,
        }
    }
}

/// The first state of a change of the character `id` from a builder of the
/// fields a client sent. Every themebook name sent must be one of the
/// eighteen.
pub fn start_update(id: i32, builder: CharacterBuilder) -> (r: UpdateState)
    requires
        builder_descriptors_known(builder_theme_order(builder)),
    ensures
        r matches UpdateState::Planned(rid, plan) && rid == id
            && plan.themes@ == builder_theme_order(builder).map_values(|b: ThemeBuilder| builder_active(b))
            && ((builder.name is Some || builder.mythos is Some || builder.logos is Some
                || builder.id matches Some(Some(_))) <==> plan.character is Some)
            && (plan.character matches Some(m) ==> m == (character_entity::ActiveModel {
                id: ActiveValue::SetTo(id),
                name: crate::common::theme::set_or_not_spec(builder.name),
                mythos: crate::common::theme::set_or_not_spec(builder.mythos),
                logos: crate::common::theme::set_or_not_spec(builder.logos),
            })),
{
    UpdateState::Planned(id, plan_character_update(id, builder))
}

/// One step of a change: from where it stands and what the store answered,
/// where it stands next and what to ask of the store. The character row
/// is written where the plan writes any of its columns, and read
/// otherwise, a missing row ending the change with `NoSuchCharacter`;
/// then the theme rows are written; then the character is read back, and
/// the change ends with its id, or with `NotReloaded` where it could not
/// be read. A failed write or read ends the change with the store's
/// complaint.
pub fn update_step(state: UpdateState, event: UpdateEvent) -> (r: (UpdateState, UpdateAction))
    requires
        update_event_fits(state, event),
    ensures
        state matches UpdateState::Planned(id, plan) ==> match plan.character {
            Some(m) => r.0 == UpdateState::AwaitingRow(plan.themes) && r.1 == UpdateAction::SaveCharacter(m),
            None => r.0 == UpdateState::AwaitingRow(plan.themes) && r.1 == UpdateAction::GetCharacter(id),
        },
        state matches UpdateState::AwaitingRow(themes) ==> match event {
            UpdateEvent::CharacterSaved(Ok(nid)) => r.0 == UpdateState::WritingThemes(nid)
                && r.1 == UpdateAction::SaveThemes(themes),
            UpdateEvent::CharacterSaved(Err(e)) => r.0 == UpdateState::Finished
                && r.1 == UpdateAction::Done(Err(CharacterUpdateError::Save(e))),
            UpdateEvent::CharacterFound(Ok(Some(nid))) => r.0 == UpdateState::WritingThemes(nid)
                && r.1 == UpdateAction::SaveThemes(themes),
            UpdateEvent::CharacterFound(Ok(None)) => r.0 == UpdateState::Finished
                && r.1 == UpdateAction::Done(Err(CharacterUpdateError::NoSuchCharacter)),
            UpdateEvent::CharacterFound(Err(e)) => r.0 == UpdateState::Finished
                && r.1 == UpdateAction::Done(Err(CharacterUpdateError::Get(e))),
            _ => false,
        },
        state matches UpdateState::WritingThemes(nid) ==> match event {
            UpdateEvent::ThemesSaved(Ok(())) => r.0 == UpdateState::Reloading(nid) && r.1 == UpdateAction::Reload(nid),
            UpdateEvent::ThemesSaved(Err(e)) => r.0 == UpdateState::Finished
                && r.1 == UpdateAction::Done(Err(CharacterUpdateError::Save(e))),
            _ => false,
        },
        state matches UpdateState::Reloading(nid) ==> match event {
            UpdateEvent::Reloaded(true) => r.0 == UpdateState::Finished && r.1 == UpdateAction::Done(Ok(nid)),
            UpdateEvent::Reloaded(false) => r.0 == UpdateState::Finished
                && r.1 == UpdateAction::Done(Err(CharacterUpdateError::NotReloaded)),
            _ => false,
        },
{
    match state {
        UpdateState::Planned(id, plan) => match plan.character {
            Some(m) => (UpdateState::AwaitingRow(plan.themes), UpdateAction::SaveCharacter(m)),
            None => (UpdateState::AwaitingRow(plan.themes), UpdateAction::GetCharacter(id)),
        },
        UpdateState::AwaitingRow(themes) => match event {
            UpdateEvent::CharacterSaved(Ok(nid)) => (UpdateState::WritingThemes(nid), UpdateAction::SaveThemes(themes)),
            UpdateEvent::CharacterSaved(Err(e)) => (
                UpdateState::Finished,
                UpdateAction::Done(Err(CharacterUpdateError::Save(e))),
            ),
            UpdateEvent::CharacterFound(Ok(Some(nid))) => (UpdateState::WritingThemes(nid), UpdateAction::SaveThemes(themes)),
            UpdateEvent::CharacterFound(Ok(None)) => (
                UpdateState::Finished,
                UpdateAction::Done(Err(CharacterUpdateError::NoSuchCharacter)),
            ),
            UpdateEvent::CharacterFound(Err(e)) => (
                UpdateState::Finished,
                UpdateAction::Done(Err(CharacterUpdateError::Get(e))),
            ),
            _ => unreached(),
        },
        UpdateState::WritingThemes(nid) => match event {
            UpdateEvent::ThemesSaved(Ok(())) => (UpdateState::Reloading(nid), UpdateAction::Reload(nid)),
            UpdateEvent::ThemesSaved(Err(e)) => (
                UpdateState::Finished,
                UpdateAction::Done(Err(CharacterUpdateError::Save(e))),
            ),
            _ => unreached(),
        },
        UpdateState::Reloading(nid) => match event {
            UpdateEvent::Reloaded(true) => (UpdateState::Finished, UpdateAction::Done(Ok(nid))),
            UpdateEvent::Reloaded(false) => (
                UpdateState::Finished,
                UpdateAction::Done(Err(CharacterUpdateError::NotReloaded)),
            ),
            _ => unreached(),
        },
        UpdateState::Finished => unreached(),
    }
}

} // verus!
