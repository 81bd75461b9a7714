//! Websocket rooms: which connected socket is in which room, and who an
//! event sent to a room reaches.

use crate::text::str_eq;
use vstd::prelude::*;

verus! {

/// Room memberships: pairs of a room name and a socket id, none twice.
#[derive(Debug)]
pub struct SocketRooms {
    memberships: Vec<(String, u64)>,
}

/// Whether the membership at `i` is of `socket` in `room`.
pub open spec fn membership_at(ms: Seq<(String, u64)>, i: int, room: Seq<char>, socket: u64) -> bool {
    0 <= i < ms.len() && ms[i].0@ == room && ms[i].1 == socket
}

/// Whether the membership at `i` is the pair `p` of a room and a socket.
pub open spec fn pair_at(ms: Seq<(String, u64)>, i: int, p: (Seq<char>, u64)) -> bool {
    membership_at(ms, i, p.0, p.1)
}

/// No membership occurs twice.
pub open spec fn memberships_distinct(ms: Seq<(String, u64)>) -> bool {
    forall|i: int, j: int|
        0 <= i < ms.len() && 0 <= j < ms.len() && i != j
            ==> !(#[trigger] ms[i].0@ == #[trigger] ms[j].0@ && ms[i].1 == ms[j].1)
}

impl View for SocketRooms {
    type V = Set<(Seq<char>, u64)>;

    closed spec fn view(&self) -> Set<(Seq<char>, u64)> {
        Set::new(|p: (Seq<char>, u64)| exists|i: int| #[trigger] pair_at(self.memberships@, i, p))
    }
}

/// The sockets in a room.
pub open spec fn room_members(rooms: Set<(Seq<char>, u64)>, room: Seq<char>) -> Set<u64> {
    Set::new(|s: u64| rooms.contains((room, s)))
}

/// The sockets an event sent to a room reaches: its members, but for the
/// one excluded, if any.
pub open spec fn room_recipients(rooms: Set<(Seq<char>, u64)>, room: Seq<char>, except: Option<u64>) -> Set<u64> {
    Set::new(|s: u64| rooms.contains((room, s)) && except != Some(s))
}

impl SocketRooms {
    #[verifier::type_invariant]
    closed spec fn no_repeats(&self) -> bool {
        memberships_distinct(self.memberships@)
    }

    /// No socket in any room.
    pub fn new() -> (r: Self)
        ensures
            r@ == Set::<(Seq<char>, u64)>::empty(),
    {
        let r = SocketRooms { memberships: Vec::new() };
        assert(r@ =~= Set::<(Seq<char>, u64)>::empty());
        r
    }

    /// Whether a socket is in a room.
    pub fn is_member(&self, room: &str, socket: u64) -> (r: bool)
        ensures
            r == self@.contains((room@, socket)),
    {
        let mut i: usize = 0;
        while i < self.memberships.len()
            invariant
                i <= self.memberships.len(),
                forall|j: int| 0 <= j < i ==> !#[trigger] membership_at(self.memberships@, j, room@, socket),
            decreases self.memberships.len() - i,
        {
            if self.memberships[i].1 == socket && str_eq(self.memberships[i].0.as_str(), room) {
                assert(pair_at(self.memberships@, i as int, (room@, socket)));
                return true;
            }
            i = i + 1;
        }
        proof {
            if self@.contains((room@, socket)) {
                let j = choose|j: int| pair_at(self.memberships@, j, (room@, socket));
                assert(membership_at(self.memberships@, j, room@, socket));
            }
        }
        false
    }

    /// Puts a socket in a room; nothing changes if it is there already.
    pub fn join(&mut self, room: &str, socket: u64)
        ensures
            final(self)@ == old(self)@.insert((room@, socket)),
    {
        proof {
            use_type_invariant(&*self);
        }
        if self.is_member(room, socket) {
            assert(self@ =~= old(self)@.insert((room@, socket)));
            return;
        }
        let ghost before = self.memberships@;
        let mut ms: Vec<(String, u64)> = Vec::new();
        std::mem::swap(&mut ms, &mut self.memberships);
        ms.push((room.to_owned(), socket));
        proof {
            let n = before.len() as int;
            assert(ms@[n].0@ == room@);
            assert forall|i: int, j: int|
                0 <= i < ms@.len() && 0 <= j < ms@.len() && i != j
                    implies !(#[trigger] ms@[i].0@ == #[trigger] ms@[j].0@ && ms@[i].1 == ms@[j].1) by {
                if i == n {
                    if membership_at(before, j, room@, socket) {
                        assert(pair_at(before, j, (room@, socket)));
                    }
                } else if j == n {
                    if membership_at(before, i, room@, socket) {
                        assert(pair_at(before, i, (room@, socket)));
                    }
                } else {
                    assert(ms@[i] == before[i] && ms@[j] == before[j]);
                }
            }
        }
        self.memberships = ms;
        proof {
            let n = before.len() as int;
            assert forall|p: (Seq<char>, u64)| #[trigger] self@.contains(p) == old(self)@.insert((room@, socket)).contains(p) by {
                if p == (room@, socket) {
                    assert(pair_at(self.memberships@, n, p));
                } else if old(self)@.contains(p) {
                    let i = choose|i: int| pair_at(before, i, p);
                    assert(pair_at(self.memberships@, i, p));
                } else if self@.contains(p) {
                    let i = choose|i: int| pair_at(self.memberships@, i, p);
                    assert(pair_at(before, i, p));
                }
            }
            assert(self@ =~= old(self)@.insert((room@, socket)));
        }
    }

    /// Takes a socket out of every room, as when it disconnects.
    pub fn leave_all(&mut self, socket: u64)
        ensures
            final(self)@ == old(self)@.filter(|p: (Seq<char>, u64)| p.1 != socket),
    {
        proof {
            use_type_invariant(&*self);
        }
        let ghost before = self.memberships@;
        let mut ms: Vec<(String, u64)> = Vec::new();
        std::mem::swap(&mut ms, &mut self.memberships);
        let mut kept: Vec<(String, u64)> = Vec::new();
        let ghost mut idx: Seq<int> = Seq::empty();
        let ghost mut i: int = 0;
        while ms.len() > 0
            invariant
                0 <= i <= before.len(),
                ms@ == before.skip(i),
                memberships_distinct(before),
                kept@.len() == idx.len(),
                forall|k: int| 0 <= k < idx.len() ==> 0 <= #[trigger] idx[k] < i && kept@[k] == before[idx[k]],
                forall|k: int, l: int| 0 <= k < l < idx.len() ==> #[trigger] idx[k] < #[trigger] idx[l],
                forall|k: int| 0 <= k < kept@.len() ==> (#[trigger] kept@[k]).1 != socket,
                forall|j: int| 0 <= j < i && before[j].1 != socket ==> exists|k: int| 0 <= k < idx.len() && #[trigger] idx[k] == j,
            decreases ms.len(),
        {
            let ghost here = ms@;
            proof {
                assert(here[0] == before[i]);
            }
            let m = ms.remove(0);
            proof {
                assert(ms@ =~= before.skip(i + 1));
            }
            if m.1 != socket {
                kept.push(m);
                proof {
                    let old_idx = idx;
                    idx = idx.push(i);
                    assert forall|j: int| 0 <= j < i + 1 && before[j].1 != socket implies exists|k: int| 0 <= k < idx.len() && #[trigger] idx[k] == j by {
                        if j == i {
                            assert(idx[old_idx.len() as int] == j);
                        } else {
                            let k = choose|k: int| 0 <= k < old_idx.len() && #[trigger] old_idx[k] == j;
                            assert(idx[k] == j);
                        }
                    }
                }
            }
            proof {
                i = i + 1;
            }
        }
        proof {
            assert forall|a: int, b: int|
                0 <= a < kept@.len() && 0 <= b < kept@.len() && a != b
                    implies !(#[trigger] kept@[a].0@ == #[trigger] kept@[b].0@ && kept@[a].1 == kept@[b].1) by {
                if a < b {
                    assert(idx[a] < idx[b]);
                } else {
                    assert(idx[b] < idx[a]);
                }
            }
        }
        self.memberships = kept;
        proof {
            let target = old(self)@.filter(|p: (Seq<char>, u64)| p.1 != socket);
            assert forall|p: (Seq<char>, u64)| #[trigger] self@.contains(p) == target.contains(p) by {
                if self@.contains(p) {
                    let k = choose|k: int| pair_at(self.memberships@, k, p);
                    assert(pair_at(before, idx[k], p));
                }
                if target.contains(p) {
                    let j = choose|j: int| pair_at(before, j, p);
                    let k = choose|k: int| 0 <= k < idx.len() && #[trigger] idx[k] == j;
                    assert(pair_at(self.memberships@, k, p));
                }
            }
            assert(self@ =~= target);
        }
    }

    /// The sockets an event sent to a room reaches, each once: the room's
    /// members, but for `except` if given.
    pub fn recipients(&self, room: &str, except: Option<u64>) -> (r: Vec<u64>)
        ensures
            r@.to_set() == room_recipients(self@, room@, except),
            r@.no_duplicates(),
    {
        proof {
            use_type_invariant(self);
        }
        let ghost ms = self.memberships@;
        let mut r: Vec<u64> = Vec::new();
        let ghost mut pos: Seq<int> = Seq::empty();
        let mut i: usize = 0;
        while i < self.memberships.len()
            invariant
                i <= self.memberships.len(),
                ms == self.memberships@,
                memberships_distinct(ms),
                r@.len() == pos.len(),
                forall|k: int| 0 <= k < pos.len() ==> 0 <= #[trigger] pos[k] < i
                    && membership_at(ms, pos[k], room@, r@[k]) && except != Some(r@[k]),
                forall|k: int, l: int| 0 <= k < l < pos.len() ==> #[trigger] pos[k] < #[trigger] pos[l],
                forall|j: int| 0 <= j < i && ms[j].0@ == room@ && except != Some(ms[j].1)
                    ==> exists|k: int| 0 <= k < pos.len() && #[trigger] pos[k] == j,
            decreases self.memberships.len() - i,
        {
            let s = self.memberships[i].1;
            let skip = match except {
                Some(e) => e == s,
                None => false,
            };
            if !skip && str_eq(self.memberships[i].0.as_str(), room) {
                let ghost old_r = r@;
                r.push(s);
                proof {
                    let old_pos = pos;
                    pos = pos.push(i as int);
                    assert(membership_at(ms, i as int, room@, s));
                    assert forall|k: int| 0 <= k < pos.len() implies 0 <= #[trigger] pos[k] < i + 1
                        && membership_at(ms, pos[k], room@, r@[k]) && except != Some(r@[k]) by {
                        if k < old_pos.len() {
                            assert(r@[k] == old_r[k]);
                            assert(pos[k] == old_pos[k]);
                        } else {
                            assert(r@[k] == s);
                        }
                    }
                    assert forall|j: int| 0 <= j < i + 1 && ms[j].0@ == room@ && except != Some(ms[j].1)
                        implies exists|k: int| 0 <= k < pos.len() && #[trigger] pos[k] == j by {
                        if j == i {
                            assert(pos[old_pos.len() as int] == j);
                        } else {
                            let k = choose|k: int| 0 <= k < old_pos.len() && #[trigger] old_pos[k] == j;
                            assert(pos[k] == j);
                        }
                    }
                }
            }
            i = i + 1;
        }
        proof {
            assert forall|k: int, l: int| 0 <= k < r@.len() && 0 <= l < r@.len() && k != l implies r@[k] != r@[l] by {
                if r@[k] == r@[l] {
                    if k < l {
                        assert(pos[k] < pos[l]);
                    } else {
                        assert(pos[l] < pos[k]);
                    }
                    assert(ms[pos[k]].0@ == ms[pos[l]].0@ && ms[pos[k]].1 == ms[pos[l]].1);
                }
            }
            let target = room_recipients(self@, room@, except);
            assert forall|t: u64| #[trigger] r@.to_set().contains(t) == target.contains(t) by {
                if r@.to_set().contains(t) {
                    assert(r@.contains(t));
                    let k = choose|k: int| 0 <= k < r@.len() && r@[k] == t;
                    assert(pair_at(ms, pos[k], (room@, t)));
                    assert(self@.contains((room@, t)));
                }
                if target.contains(t) {
                    assert(self@.contains((room@, t)));
                    let j = choose|j: int| pair_at(ms, j, (room@, t));
                    let k = choose|k: int| 0 <= k < pos.len() && #[trigger] pos[k] == j;
                    assert(r@[k] == t);
                    assert(r@.contains(t));
                }
            }
            assert(r@.to_set() =~= target);
        }
        r
    }
}

/// A socket that joined a room is in it and is reached by what is sent to
/// the room, and joining again changes nothing.
pub proof fn lemma_join_then_reached(rooms: Set<(Seq<char>, u64)>, room: Seq<char>, socket: u64)
    ensures
        rooms.insert((room, socket)).contains((room, socket)),
        room_recipients(rooms.insert((room, socket)), room, None).contains(socket),
        room_members(rooms.insert((room, socket)), room) == room_members(rooms, room).insert(socket),
        rooms.insert((room, socket)).insert((room, socket)) == rooms.insert((room, socket)),
{
    assert(room_members(rooms.insert((room, socket)), room) =~= room_members(rooms, room).insert(socket));
    assert(rooms.insert((room, socket)).insert((room, socket)) =~= rooms.insert((room, socket)));
}

/// A socket that left every room is in none, and is reached by nothing
/// sent to a room; every other socket stays in the rooms it was in.
pub proof fn lemma_leave_all_then_unreached(
    rooms: Set<(Seq<char>, u64)>,
    socket: u64,
    room: Seq<char>,
    other: u64,
    except: Option<u64>,
)
    requires
        other != socket,
    ensures
        !rooms.filter(|p: (Seq<char>, u64)| p.1 != socket).contains((room, socket)),
        !room_recipients(rooms.filter(|p: (Seq<char>, u64)| p.1 != socket), room, except).contains(socket),
        rooms.filter(|p: (Seq<char>, u64)| p.1 != socket).contains((room, other)) == rooms.contains((room, other)),
{
}

/// What a socket sends to a room with itself excluded reaches every other
/// member of the room and never the socket itself.
pub proof fn lemma_recipients_except_sender(rooms: Set<(Seq<char>, u64)>, room: Seq<char>, sender: u64)
    ensures
        !room_recipients(rooms, room, Some(sender)).contains(sender),
        room_recipients(rooms, room, Some(sender)) == room_members(rooms, room).remove(sender),
        room_recipients(rooms, room, None) == room_members(rooms, room),
{
    assert(room_recipients(rooms, room, Some(sender)) =~= room_members(rooms, room).remove(sender));
    assert(room_recipients(rooms, room, None) =~= room_members(rooms, room));
}

/// Access to the rooms the server shares between its sockets.
pub trait Rooms {
    /// The rooms.
    fn get(&self) -> &SocketRooms;
}

/// The server's rooms.
#[derive(Debug)]
pub struct RoomsImpl {
    pub rooms: SocketRooms,
}

impl RoomsImpl {
    /// No socket in any room.
    pub fn new() -> (r: Self)
        ensures
            r.rooms@ == Set::<(Seq<char>, u64)>::empty(),
    {
        RoomsImpl { rooms: SocketRooms::new() }
    }
}

impl Rooms for RoomsImpl {
    fn get(&self) -> (r: &SocketRooms)
        ensures
            r == &self.rooms,
    {
        &self.rooms
    }
}

} // verus!
