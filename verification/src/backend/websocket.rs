//! What each websocket event does: the rooms a socket joins and the
//! events sent back, to whom, with what payload.

use crate::backend::character::CharacterCache;
use crate::backend::rooms::{room_recipients, RoomsImpl, SocketRooms};
use crate::common::character::Character;
use crate::text::{decimal, i32_to_decimal, join2, str_eq};
use vstd::prelude::*;
use vstd::string::*;

verus! {

/// One argument of an event, as the event's JSON arguments hold it.
#[derive(Debug, PartialEq)]
pub enum Arg {
    /// The arguments have no such field.
    Absent,
    /// A string.
    Str(String),
    /// A number that is an integer in the range of `i64`.
    Int(i64),
    /// Anything else.
    Other,
}

/// Who an event is sent to.
#[derive(Debug, PartialEq)]
pub enum Target {
    /// The socket that sent the event being handled.
    Caller,
    /// Every socket in a room.
    Room(String),
    /// Every socket in a room but the one that sent the event being handled.
    RoomExceptCaller(String),
}

/// What an event carries.
#[derive(Debug, PartialEq)]
pub enum Payload {
    /// `{}`
    Empty,
    /// `{"id": id}`
    Id(u64),
    /// `{"content": content}`, where the content is the text sent or the
    /// complaint that it was not text.
    Content(Result<String, String>),
    /// `{"seed": seed}`
    Seed(u64),
    /// `{"character": character}`
    Character(Character),
}

/// An event to send.
#[derive(Debug, PartialEq)]
pub struct Emit {
    pub target: Target,
    pub event: String,
    pub payload: Payload,
}

/// What handling an event does, step by step.
#[derive(Debug, PartialEq)]
pub enum Action {
    /// The socket joins a room.
    Join(String),
    /// An event is sent.
    Emit(Emit),
}

/// The value of a target.
pub enum TargetView {
    Caller,
    Room(Seq<char>),
    RoomExceptCaller(Seq<char>),
}

/// The value of a payload.
pub enum PayloadView {
    Empty,
    Id(u64),
    Content(Result<Seq<char>, Seq<char>>),
    Seed(u64),
    Character(Character),
}

/// The value of an action.
pub enum ActionView {
    Join(Seq<char>),
    Emit(TargetView, Seq<char>, PayloadView),
}

impl View for Target {
    type V = TargetView;

    open spec fn view(&self) -> TargetView {
        match self {
            Target::Caller => TargetView::Caller,
            Target::Room(r) => TargetView::Room(r@),
            Target::RoomExceptCaller(r) => TargetView::RoomExceptCaller(r@),
        }
    }
}

impl View for Payload {
    type V = PayloadView;

    open spec fn view(&self) -> PayloadView {
        match self {
            Payload::Empty => PayloadView::Empty,
            Payload::Id(id) => PayloadView::Id(*id),
            Payload::Content(Ok(s)) => PayloadView::Content(Ok(s@)),
            Payload::Content(Err(s)) => PayloadView::Content(Err(s@)),
            Payload::Seed(s) => PayloadView::Seed(*s),
            Payload::Character(c) => PayloadView::Character(*c),
        }
    }
}

impl View for Action {
    type V = ActionView;

    open spec fn view(&self) -> ActionView {
        match self {
            Action::Join(r) => ActionView::Join(r@),
            Action::Emit(e) => ActionView::Emit(e.target@, e.event@, e.payload@),
        }
    }
}

/// The values of a list of actions.
pub open spec fn action_views(actions: Seq<Action>) -> Seq<ActionView> {
    actions.map_values(|a: Action| a@)
}

fn emit(target: Target, event: &str, payload: Payload) -> (r: Action)
    ensures
        r@ == ActionView::Emit(target@, event@, payload@),
{
    Action::Emit(Emit { target, event: event.to_owned(), payload })
}

/// The room of a character's sheet.
pub open spec fn character_room(id: i32) -> Seq<char> {
    "character/"@ + decimal(id as int)
}

/// The room of a character's sheet: `character/` and its id in decimal.
pub fn room_name(id: i32) -> (r: String)
    ensures
        r@ == character_room(id),
{
    let digits = i32_to_decimal(id);
    join2("character/", digits.as_str())
}

/// What a newly connected socket does: it joins the dice room, is told its
/// id, and an empty `asdf` event goes to the room `client_1`.
pub fn connect_actions(socket_id: u64) -> (r: Vec<Action>)
    ensures
        action_views(r@) == seq![
            ActionView::Join("dice"@),
            ActionView::Emit(TargetView::Caller, "connect"@, PayloadView::Id(socket_id)),
            ActionView::Emit(TargetView::Room("client_1"@), "asdf"@, PayloadView::Empty),
        ],
{
    let mut r: Vec<Action> = Vec::new();
    r.push(Action::Join("dice".to_owned()));
    r.push(emit(Target::Caller, "connect", Payload::Id(socket_id)));
    r.push(emit(Target::Room("client_1".to_owned()), "asdf", Payload::Empty));
    assert(action_views(r@) =~= seq![
        ActionView::Join("dice"@),
        ActionView::Emit(TargetView::Caller, "connect"@, PayloadView::Id(socket_id)),
        ActionView::Emit(TargetView::Room("client_1"@), "asdf"@, PayloadView::Empty),
    ]);
    r
}

/// The answer to `ping`: an empty `pong` back to the caller.
pub fn ping_actions() -> (r: Vec<Action>)
    ensures
        action_views(r@) == seq![ActionView::Emit(TargetView::Caller, "pong"@, PayloadView::Empty)],
{
    let mut r: Vec<Action> = Vec::new();
    r.push(emit(Target::Caller, "pong", Payload::Empty));
    assert(action_views(r@) =~= seq![ActionView::Emit(TargetView::Caller, "pong"@, PayloadView::Empty)]);
    r
}

/// What `msg` does with its `to` and `content` arguments: the content goes
/// to everyone else in the room `to`, or the complaint about the first
/// argument that is wrong. A content that is not text is passed on as the
/// complaint that it is not.
pub open spec fn msg_result(to: Arg, content: Arg) -> Result<Seq<ActionView>, Seq<char>> {
    match to {
        Arg::Absent => Err("No `to` argument."@),
        Arg::Str(room) => match content {
            Arg::Absent => Err("No `content` argument."@),
            Arg::Str(text) => Ok(seq![ActionView::Emit(
                TargetView::RoomExceptCaller(room@),
                "msg"@,
                PayloadView::Content(Ok(text@)),
            )]),
            _ => Ok(seq![ActionView::Emit(
                TargetView::RoomExceptCaller(room@),
                "msg"@,
                PayloadView::Content(Err("Argument `content` is not of type String"@)),
            )]),
        },
        _ => Err("Argument `to` is not of type String"@),
    }
}

/// Handles `msg`: see `msg_result`.
pub fn msg_actions(to: Arg, content: Arg) -> (r: Result<Vec<Action>, String>)
    ensures
        match msg_result(to, content) {
            Ok(v) => r matches Ok(a) && action_views(a@) == v,
            Err(m) => r matches Err(e) && e@ == m,
        },
{
    let room = match to {
        Arg::Absent => return Err(String::from_str("No `to` argument.")),
        Arg::Str(room) => room,
        _ => return Err(String::from_str("Argument `to` is not of type String")),
    };
    let text = match content {
        Arg::Absent => return Err(String::from_str("No `content` argument.")),
        Arg::Str(text) => Ok(text),
        _ => Err(String::from_str("Argument `content` is not of type String")),
    };
    let mut r: Vec<Action> = Vec::new();
    r.push(emit(Target::RoomExceptCaller(room), "msg", Payload::Content(text)));
    assert(action_views(r@) =~= msg_result(to, content)->Ok_0);
    Ok(r)
}

/// The answer to `dice`: the seed of a roll goes to the dice room.
pub fn dice_actions(seed: u64) -> (r: Vec<Action>)
    ensures
        action_views(r@) == seq![ActionView::Emit(TargetView::Room("dice"@), "dice"@, PayloadView::Seed(seed))],
{
    let mut r: Vec<Action> = Vec::new();
    r.push(emit(Target::Room("dice".to_owned()), "dice", Payload::Seed(seed)));
    assert(action_views(r@) =~= seq![ActionView::Emit(TargetView::Room("dice"@), "dice"@, PayloadView::Seed(seed))]);
    r
}

/// A random seed for a dice roll, from `rand::random`. Nothing is claimed
/// of it: it is random.
#[verifier::external_body]
fn random_seed() -> u64 {
    rand::random::<u64>()
}

/// Handles `dice`: rolls a fresh random seed and sends it to the dice room.
pub fn roll_dice() -> (r: Vec<Action>)
    ensures
        exists|seed: u64| action_views(r@) == seq![ActionView::Emit(TargetView::Room("dice"@), "dice"@, PayloadView::Seed(seed))],
{
    let seed = random_seed();
    dice_actions(seed)
}

/// The character id that `character` asks for: its `cid` argument, cut to
/// 32 bits, or the complaint that it is not an integer.
pub fn character_id(cid: &Arg) -> (r: Result<i32, String>)
    requires
        !(cid is Absent),
    ensures
        match cid {
            Arg::Int(n) => r == Ok::<i32, String>(*n as i32),
            _ => r matches Err(e) && e@ == "No `cid` parameter specified."@,
        },
{
    match cid {
        Arg::Int(n) => Ok(*n as i32),
        _ => Err(String::from_str("No `cid` parameter specified.")),
    }
}

/// What showing a character to a socket does: the socket joins the
/// character's room, and the character goes to everyone in it.
pub open spec fn show_character(id: i32, c: Character) -> Seq<ActionView> {
    seq![
        ActionView::Join(character_room(id)),
        ActionView::Emit(TargetView::Room(character_room(id)), "character/update"@, PayloadView::Character(c)),
    ]
}

fn show_character_actions(id: i32, c: Character) -> (r: Vec<Action>)
    ensures
        action_views(r@) == show_character(id, c),
{
    let room = room_name(id);
    let room2 = room_name(id);
    let mut r: Vec<Action> = Vec::new();
    r.push(Action::Join(room));
    r.push(emit(Target::Room(room2), "character/update", Payload::Character(c)));
    assert(action_views(r@) =~= show_character(id, c));
    r
}

/// Handles `character` once the character `cid` was looked up: shows it,
/// or complains that there is none.
pub fn character_actions(cid: i32, loaded: Option<Character>) -> (r: Result<Vec<Action>, String>)
    ensures
        match loaded {
            Some(c) => r matches Ok(a) && action_views(a@) == show_character(cid, c),
            None => r matches Err(e) && e@ == "No such character found."@,
        },
{
    match loaded {
        Some(c) => Ok(show_character_actions(cid, c)),
        None => Err(String::from_str("No such character found.")),
    }
}

/// Handles `character/new` once the new character was stored: shows it in
/// its room; `created` is `None` when storing failed.
pub fn new_character_actions(created: Option<Character>) -> (r: Result<Vec<Action>, String>)
    ensures
        match created {
            None => r matches Err(e) && e@ == "Couldn't create new character."@,
            Some(c) => match c.id {
                None => r matches Err(e) && e@ == "New character doesn't have ID."@,
                Some(id) => r matches Ok(a) && action_views(a@) == show_character(id, c),
            },
        },
{
    match created {
        None => Err(String::from_str("Couldn't create new character.")),
        Some(c) => match c.id {
            None => Err(String::from_str("New character doesn't have ID.")),
            Some(id) => Ok(show_character_actions(id, c)),
        },
    }
}

/// The character id that `character/modify` changes: its `cid` argument,
/// cut to 32 bits; or the complaint about the first argument that is
/// missing or wrong. `has_character` tells whether the `character`
/// argument is present.
pub fn modify_request(cid: &Arg, has_character: bool) -> (r: Result<i32, String>)
    ensures
        match cid {
            Arg::Absent => r matches Err(e) && e@ == "No `cid` parameter specified."@,
            Arg::Int(n) => if has_character {
                r == Ok::<i32, String>(*n as i32)
            } else {
                r matches Err(e) && e@ == "No `character` parameter specified."@
            },
            _ => r matches Err(e) && e@ == "Argument `cid` is not an integer"@,
        },
{
    let id = match cid {
        Arg::Absent => return Err(String::from_str("No `cid` parameter specified.")),
        Arg::Int(n) => *n as i32,
        _ => return Err(String::from_str("Argument `cid` is not an integer")),
    };
    if !has_character {
        return Err(String::from_str("No `character` parameter specified."));
    }
    Ok(id)
}

/// Handles `character/modify` once the change was made: shows the changed
/// character in its room, or passes the failure on. A changed character
/// has an id.
pub fn modified_actions(result: Result<Character, String>) -> (r: Result<Vec<Action>, String>)
    requires
        result matches Ok(c) ==> c.id is Some,
    ensures
        match result {
            Ok(c) => r matches Ok(a) && action_views(a@) == show_character(c.id->0, c),
            Err(m) => r == Err::<Vec<Action>, String>(m),
        },
{
    match result {
        Ok(c) => match c.id {
            Some(id) => Ok(show_character_actions(id, c)),
            None => Err(String::from_str("")),
        },
        Err(m) => Err(m),
    }
}

/// What handling an incoming event takes next.
#[derive(Debug, PartialEq)]
pub enum EventStep {
    /// Carry out these actions, or answer with this complaint.
    Act(Result<Vec<Action>, String>),
    /// Look up the character with this id, and hand what was found to
    /// `character_actions`.
    LoadCharacter(i32),
    /// Store the example character, and hand it to `new_character_actions`.
    CreateCharacter,
    /// Change the character with this id from the event's `character`
    /// argument, and hand the outcome to `modified_actions`.
    ModifyCharacter(i32),
    /// No handler is registered for the event.
    Unhandled,
}

/// Whether an event has a handler: `ping`, `msg`, `dice`, `character`,
/// `character/new` and `character/modify` have.
pub open spec fn handled_event(event: Seq<char>) -> bool {
    event == "ping"@ || event == "msg"@ || event == "dice"@ || event == "character"@
        || event == "character/new"@ || event == "character/modify"@
}

/// Handles an event by its name and its `to`, `content` and `cid`
/// arguments; `has_character` tells whether it has a `character`
/// argument. A `character` event must have a `cid` argument.
pub fn handle_event(event: &str, to: Arg, content: Arg, cid: Arg, has_character: bool) -> (r: EventStep)
    requires
        event@ == "character"@ ==> !(cid is Absent),
    ensures
        event@ == "ping"@ ==> (r matches EventStep::Act(Ok(a))
            && action_views(a@) == seq![ActionView::Emit(TargetView::Caller, "pong"@, PayloadView::Empty)]),
        event@ == "msg"@ ==> match msg_result(to, content) {
            Ok(v) => r matches EventStep::Act(Ok(a)) && action_views(a@) == v,
            Err(m) => r matches EventStep::Act(Err(e)) && e@ == m,
        },
        event@ == "dice"@ ==> (r matches EventStep::Act(Ok(a)) && exists|seed: u64|
            action_views(a@) == seq![ActionView::Emit(TargetView::Room("dice"@), "dice"@, PayloadView::Seed(seed))]),
        event@ == "character"@ ==> match cid {
            Arg::Int(n) => r == EventStep::LoadCharacter(n as i32),
            _ => r matches EventStep::Act(Err(e)) && e@ == "No `cid` parameter specified."@,
        },
        event@ == "character/new"@ ==> r == EventStep::CreateCharacter,
        event@ == "character/modify"@ ==> match cid {
            Arg::Absent => r matches EventStep::Act(Err(e)) && e@ == "No `cid` parameter specified."@,
            Arg::Int(n) => if has_character {
                r == EventStep::ModifyCharacter(n as i32)
            } else {
                r matches EventStep::Act(Err(e)) && e@ == "No `character` parameter specified."@
            },
            _ => r matches EventStep::Act(Err(e)) && e@ == "Argument `cid` is not an integer"@,
        },
        !handled_event(event@) ==> r == EventStep::Unhandled,
{
    proof {
        reveal_strlit("ping");
        reveal_strlit("msg");
        reveal_strlit("dice");
        reveal_strlit("character");
        reveal_strlit("character/new");
        reveal_strlit("character/modify");
        assert("msg"@.len() != "ping"@.len());
        assert("dice"@[0] != "ping"@[0]);
        assert("character"@.len() != "ping"@.len() && "character"@.len() != "msg"@.len()
            && "character"@.len() != "dice"@.len());
        assert("character/new"@.len() != "ping"@.len() && "character/new"@.len() != "msg"@.len()
            && "character/new"@.len() != "dice"@.len() && "character/new"@.len() != "character"@.len());
        assert("character/modify"@.len() != "ping"@.len() && "character/modify"@.len() != "msg"@.len()
            && "character/modify"@.len() != "dice"@.len() && "character/modify"@.len() != "character"@.len()
            && "character/modify"@.len() != "character/new"@.len());
    }
    if str_eq(event, "ping") {
        EventStep::Act(Ok(ping_actions()))
    } else if str_eq(event, "msg") {
        EventStep::Act(msg_actions(to, content))
    } else if str_eq(event, "dice") {
        EventStep::Act(Ok(roll_dice()))
    } else if str_eq(event, "character") {
        match character_id(&cid) {
            Ok(id) => EventStep::LoadCharacter(id),
            Err(e) => EventStep::Act(Err(e)),
        }
    } else if str_eq(event, "character/new") {
        EventStep::CreateCharacter
    } else if str_eq(event, "character/modify") {
        match modify_request(&cid, has_character) {
            Ok(id) => EventStep::ModifyCharacter(id),
            Err(e) => EventStep::Act(Err(e)),
        }
    } else {
        EventStep::Unhandled
    }
}

/// An event going out to a set of sockets.
#[derive(Debug, PartialEq)]
pub struct Delivery {
    pub sockets: Vec<u64>,
    pub event: String,
    pub payload: Payload,
}

/// The value of a delivery: who it reaches, the event and the payload.
pub open spec fn delivery_view(d: Delivery) -> (Set<u64>, Seq<char>, PayloadView) {
    (d.sockets@.to_set(), d.event@, d.payload@)
}

/// Who an event for `target` reaches, given the rooms and the caller.
pub open spec fn target_sockets(rooms: Set<(Seq<char>, u64)>, caller: u64, target: TargetView) -> Set<u64> {
    match target {
        TargetView::Caller => set![caller],
        TargetView::Room(r) => room_recipients(rooms, r, None),
        TargetView::RoomExceptCaller(r) => room_recipients(rooms, r, Some(caller)),
    }
}

/// Carrying out actions for a caller, in order: the rooms afterwards, and
/// each event sent with who it reached, given the rooms at that moment.
pub open spec fn run_actions(
    rooms: Set<(Seq<char>, u64)>,
    caller: u64,
    actions: Seq<ActionView>,
) -> (Set<(Seq<char>, u64)>, Seq<(Set<u64>, Seq<char>, PayloadView)>)
    decreases actions.len(),
{
    if actions.len() == 0 {
        (rooms, Seq::empty())
    } else {
        match actions[0] {
            ActionView::Join(r) => run_actions(rooms.insert((r, caller)), caller, actions.drop_first()),
            ActionView::Emit(t, e, p) => {
                let rest = run_actions(rooms, caller, actions.drop_first());
                (rest.0, seq![(target_sockets(rooms, caller, t), e, p)] + rest.1)
            },
        }
    }
}

/// A socket shown a character joins the character's room and is among
/// those the character is sent to; nothing else changes.
pub proof fn lemma_shown_character_reaches_caller(rooms: Set<(Seq<char>, u64)>, caller: u64, id: i32, c: Character)
    ensures
        run_actions(rooms, caller, show_character(id, c)).0 == rooms.insert((character_room(id), caller)),
        run_actions(rooms, caller, show_character(id, c)).1.len() == 1,
        run_actions(rooms, caller, show_character(id, c)).1[0] == (
            room_recipients(rooms.insert((character_room(id), caller)), character_room(id), None),
            "character/update"@,
            PayloadView::Character(c),
        ),
        run_actions(rooms, caller, show_character(id, c)).1[0].0.contains(caller),
{
    reveal_with_fuel(run_actions, 3);
    let s = show_character(id, c);
    assert(s.drop_first().drop_first() =~= Seq::<ActionView>::empty());
    assert(seq![(
        room_recipients(rooms.insert((character_room(id), caller)), character_room(id), None),
        "character/update"@,
        PayloadView::Character(c),
    )] + Seq::<(Set<u64>, Seq<char>, PayloadView)>::empty() =~= seq![(
        room_recipients(rooms.insert((character_room(id), caller)), character_room(id), None),
        "character/update"@,
        PayloadView::Character(c),
    )]);
}

/// A message sent with `msg` reaches every other socket in the room and
/// never the socket that sent it; no socket changes rooms.
pub proof fn lemma_msg_not_echoed(rooms: Set<(Seq<char>, u64)>, caller: u64, to: Arg, content: Arg)
    requires
        msg_result(to, content) is Ok,
    ensures
        run_actions(rooms, caller, msg_result(to, content)->Ok_0).0 == rooms,
        run_actions(rooms, caller, msg_result(to, content)->Ok_0).1.len() == 1,
        run_actions(rooms, caller, msg_result(to, content)->Ok_0).1[0].0
            == room_recipients(rooms, to->Str_0@, Some(caller)),
        !run_actions(rooms, caller, msg_result(to, content)->Ok_0).1[0].0.contains(caller),
{
    reveal_with_fuel(run_actions, 2);
    let v = msg_result(to, content)->Ok_0;
    assert(v.drop_first() =~= Seq::<ActionView>::empty());
    let d = (room_recipients(rooms, to->Str_0@, Some(caller)), "msg"@, v[0]->Emit_2);
    assert(seq![d] + Seq::<(Set<u64>, Seq<char>, PayloadView)>::empty() =~= seq![d]);
}

/// A newly connected socket joins the dice room, is the only one told its
/// id, and so gets every dice roll sent to that room afterwards.
pub proof fn lemma_connect_joins_dice(rooms: Set<(Seq<char>, u64)>, caller: u64)
    ensures
        ({
            let run = run_actions(
                rooms,
                caller,
                seq![
                    ActionView::Join("dice"@),
                    ActionView::Emit(TargetView::Caller, "connect"@, PayloadView::Id(caller)),
                    ActionView::Emit(TargetView::Room("client_1"@), "asdf"@, PayloadView::Empty),
                ],
            );
            &&& run.0 == rooms.insert(("dice"@, caller))
            &&& run.1.len() == 2
            &&& run.1[0] == (set![caller], "connect"@, PayloadView::Id(caller))
            &&& room_recipients(run.0, "dice"@, None).contains(caller)
        }),
{
    reveal_with_fuel(run_actions, 4);
    let acts = seq![
        ActionView::Join("dice"@),
        ActionView::Emit(TargetView::Caller, "connect"@, PayloadView::Id(caller)),
        ActionView::Emit(TargetView::Room("client_1"@), "asdf"@, PayloadView::Empty),
    ];
    let r1 = rooms.insert(("dice"@, caller));
    assert(acts.drop_first().drop_first().drop_first() =~= Seq::<ActionView>::empty());
    let d2 = (target_sockets(r1, caller, TargetView::Room("client_1"@)), "asdf"@, PayloadView::Empty);
    assert(seq![d2] + Seq::<(Set<u64>, Seq<char>, PayloadView)>::empty() =~= seq![d2]);
}

/// The state the websocket handlers share: the loaded characters and the
/// rooms.
pub struct WsHandlerImpl {
    pub character_mgr: CharacterCache,
    pub rooms: RoomsImpl,
}

impl WsHandlerImpl {
    /// No character loaded and no socket in any room.
    pub fn new() -> (r: Self)
        ensures
            r.character_mgr@ == Map::<i32, crate::common::character::CharacterView>::empty(),
            r.rooms.rooms@ == Set::<(Seq<char>, u64)>::empty(),
    {
        WsHandlerImpl { character_mgr: CharacterCache::new(), rooms: RoomsImpl::new() }
    }

    /// Carries out the actions of a handled event for the socket `caller`:
    /// joins rooms, and works out who each event sent reaches, each socket
    /// once. See `run_actions`.
    pub fn deliver(&mut self, caller: u64, actions: Vec<Action>) -> (r: Vec<Delivery>)
        ensures
            final(self).character_mgr == old(self).character_mgr,
            final(self).rooms.rooms@ == run_actions(old(self).rooms.rooms@, caller, action_views(actions@)).0,
            r@.map_values(|d: Delivery| delivery_view(d))
                == run_actions(old(self).rooms.rooms@, caller, action_views(actions@)).1,
            forall|i: int| 0 <= i < r@.len() ==> (#[trigger] r@[i]).sockets@.no_duplicates(),
    {
        let ghost start = self.rooms.rooms@;
        let ghost all = action_views(actions@);
        let mut actions = actions;
        let mut out: Vec<Delivery> = Vec::new();
        while actions.len() > 0
            invariant
                self.character_mgr == old(self).character_mgr,
                run_actions(start, caller, all).0 == run_actions(self.rooms.rooms@, caller, action_views(actions@)).0,
                run_actions(start, caller, all).1 == out@.map_values(|d: Delivery| delivery_view(d))
                    + run_actions(self.rooms.rooms@, caller, action_views(actions@)).1,
                forall|i: int| 0 <= i < out@.len() ==> (#[trigger] out@[i]).sockets@.no_duplicates(),
            decreases actions.len(),
        {
            let ghost before = action_views(actions@);
            let ghost rooms_before = self.rooms.rooms@;
            let a = actions.remove(0);
            proof {
                assert(action_views(actions@) =~= before.drop_first());
                assert(before[0] == a@);
            }
            match a {
                Action::Join(room) => {
                    self.rooms.rooms.join(room.as_str(), caller);
                },
                Action::Emit(e) => {
                    let sockets = match &e.target {
                        Target::Caller => {
                            let mut v: Vec<u64> = Vec::new();
                            v.push(caller);
                            proof {
                                assert(v@[0] == caller);
                                assert forall|x: u64| #[trigger] v@.to_set().contains(x) == set![caller].contains(x) by {
                                    if x == caller {
                                        assert(v@.contains(x));
                                    }
                                }
                                assert(v@.to_set() =~= set![caller]);
                            }
                            v
                        },
                        Target::Room(room) => self.rooms.rooms.recipients(room.as_str(), None),
                        Target::RoomExceptCaller(room) => self.rooms.rooms.recipients(room.as_str(), Some(caller)),
                    };
                    let ghost old_out = out@;
                    let d = Delivery { sockets, event: e.event, payload: e.payload };
                    out.push(d);
                    proof {
                        let f = |d: Delivery| delivery_view(d);
                        assert(out@.map_values(f) =~= old_out.map_values(f).push(delivery_view(d)));
                        assert(delivery_view(d) == (target_sockets(rooms_before, caller, e.target@), e.event@, e.payload@));
                        let rest = run_actions(rooms_before, caller, before.drop_first());
                        assert(old_out.map_values(f).push(delivery_view(d)) + rest.1
                            =~= old_out.map_values(f) + (seq![delivery_view(d)] + rest.1));
                    }
                },
            }
        }
        proof {
            let f = |d: Delivery| delivery_view(d);
            assert(action_views(actions@) =~= Seq::<ActionView>::empty());
            assert(out@.map_values(f) + Seq::<(Set<u64>, Seq<char>, PayloadView)>::empty() =~= out@.map_values(f));
        }
        out
    }

    /// Takes a socket out of every room, as when it disconnects.
    pub fn disconnect(&mut self, caller: u64)
        ensures
            final(self).character_mgr == old(self).character_mgr,
            final(self).rooms.rooms@ == old(self).rooms.rooms@.filter(|p: (Seq<char>, u64)| p.1 != caller),
    {
        self.rooms.rooms.leave_all(caller);
    }
}

} // verus!
