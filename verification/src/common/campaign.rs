//! Campaigns: a name and the people who take part, one game master and any
//! number of players with their characters.

use crate::common::character::Character;
use crate::common::user::User;
use crate::entity::campaign as campaign_entity;
use crate::entity::campaign_member::MemberType;
use vstd::prelude::*;

verus! {

/// Someone who takes part in a campaign.
#[derive(Debug, PartialEq)]
pub enum Member {
    /// The game master.
    GM(User),
    /// A player and the character they play.
    Player(User, Character),
}

/// A campaign. Its members are `None` until they are loaded.
#[derive(Debug, PartialEq)]
pub struct Campaign {
    pub name: String,
    pub members: Option<Vec<Member>>,
}

/// Whether `i` is the position of the first game master among `ms`.
pub open spec fn is_first_gm(ms: Seq<Member>, i: int) -> bool {
    &&& 0 <= i < ms.len()
    &&& ms[i] is GM
    &&& forall|j: int| 0 <= j < i ==> !(#[trigger] ms[j] is GM)
}

/// Whether `ms` has no game master.
pub open spec fn no_gm(ms: Seq<Member>) -> bool {
    forall|j: int| 0 <= j < ms.len() ==> !(#[trigger] ms[j] is GM)
}

/// The player and character of a member who plays; nothing for the game
/// master.
pub open spec fn player_of(m: Member) -> Option<(User, Character)> {
    match m {
        Member::Player(u, c) => Some((u, c)),
        Member::GM(_) => None,
    }
}

/// The players of a member list and their characters, in order.
pub open spec fn players_of(ms: Seq<Member>) -> Seq<(User, Character)> {
    ms.filter_map(|m: Member| player_of(m))
}

/// The place among the players of the member at `i`: how many players
/// come before it.
pub open spec fn player_index(ms: Seq<Member>, i: int) -> int {
    players_of(ms.take(i)).len() as int
}

proof fn lemma_player_index_bound(ms: Seq<Member>, i: int)
    requires
        0 <= i < ms.len(),
        ms[i] is Player,
    ensures
        player_index(ms, i) < players_of(ms).len(),
    decreases ms.len(),
{
    if i < ms.len() - 1 {
        assert(ms.drop_last().take(i) =~= ms.take(i));
        lemma_player_index_bound(ms.drop_last(), i);
    } else {
        assert(ms.take(i) =~= ms.drop_last());
    }
}

/// The user and character of each player among `ms`, to change in place,
/// in order. Changing them changes the players' entries; the game masters'
/// entries stay as they are.
fn player_refs<'a>(ms: &'a mut [Member]) -> (r: Vec<(&'a mut User, &'a mut Character)>)
    ensures
        r@.len() == players_of(old(ms)@).len(),
        forall|k: int| 0 <= k < r@.len() ==> (*r@[k].0, *r@[k].1) == #[trigger] players_of(old(ms)@)[k],
        final(ms)@.len() == old(ms)@.len(),
        forall|i: int| 0 <= i < old(ms)@.len() ==> (match #[trigger] old(ms)@[i] {
            Member::GM(u) => final(ms)@[i] == Member::GM(u),
            Member::Player(_, _) => final(ms)@[i] == Member::Player(
                *final(r@[player_index(old(ms)@, i)].0),
                *final(r@[player_index(old(ms)@, i)].1),
            ),
        }),
    decreases old(ms)@.len(),
{
    let n = ms.len();
    if n == 0 {
        return Vec::new();
    }
    let ghost old_ms = ms@;
    let ghost fms = final(ms)@;
    let (rest, last) = ms.split_at_mut(n - 1);
    let ghost old_rest = rest@;
    let ghost frest = final(rest)@;
    let ghost flast = final(last)@;
    proof {
        assert(fms == frest + flast);
    }
    let mut out = player_refs(rest);
    let ghost out_rest = out@;
    let first = last.first_mut();
    let ghost ffirst = *final(first->0);
    proof {
        assert(old_ms.drop_last() =~= old_rest);
        assert(old_ms.last() == *first->0);
        assert forall|i: int| 0 <= i <= n - 1 implies #[trigger] old_ms.take(i) == old_rest.take(i) by {
            assert(old_ms.take(i) =~= old_rest.take(i));
        }
        assert(old_ms.take(n - 1) =~= old_rest);
    }
    match first {
        Some(Member::Player(user, character)) => {
            let ghost fu = *final(user);
            let ghost fc = *final(character);
            proof {
                assert(ffirst == Member::Player(fu, fc));
            }
            out.push((user, character));
            proof {
                assert forall|i: int| 0 <= i < old_ms.len() implies (match #[trigger] old_ms[i] {
                    Member::GM(u) => fms[i] == Member::GM(u),
                    Member::Player(_, _) => fms[i] == Member::Player(
                        *final(out@[player_index(old_ms, i)].0),
                        *final(out@[player_index(old_ms, i)].1),
                    ),
                }) by {
                    if i < n - 1 {
                        assert(old_ms[i] == old_rest[i]);
                        assert(fms[i] == frest[i]);
                        if old_ms[i] is Player {
                            lemma_player_index_bound(old_rest, i);
                            assert(out@[player_index(old_ms, i)] == out_rest[player_index(old_rest, i)]);
                        }
                    } else {
                        assert(fms[i] == flast[0]);
                        assert(player_index(old_ms, i) == out_rest.len());
                    }
                }
            }
        },
        _ => {
            proof {
                assert forall|i: int| 0 <= i < old_ms.len() implies (match #[trigger] old_ms[i] {
                    Member::GM(u) => fms[i] == Member::GM(u),
                    Member::Player(_, _) => fms[i] == Member::Player(
                        *final(out@[player_index(old_ms, i)].0),
                        *final(out@[player_index(old_ms, i)].1),
                    ),
                }) by {
                    if i < n - 1 {
                        assert(old_ms[i] == old_rest[i]);
                        assert(fms[i] == frest[i]);
                    } else {
                        assert(fms[i] == flast[0]);
                    }
                }
            }
        },
    }
    out
}

/// The member that a stored membership and its user and character stand
/// for. A player's membership must come with a character.
pub open spec fn member_of(member_type: MemberType, user: User, character: Option<Character>) -> Member {
    match member_type {
        MemberType::GM => Member::GM(user),
        MemberType::Player => Member::Player(user, character->0),
    }
}

impl Member {
    /// The member that a stored membership stands for: the game master, or
    /// a player with their character. A player's membership must come with
    /// a character.
    pub fn from_membership(member_type: MemberType, user: User, character: Option<Character>) -> (r: Member)
        requires
            member_type == MemberType::Player ==> character is Some,
        ensures
            r == member_of(member_type, user, character),
    {
        match member_type {
            MemberType::GM => Member::GM(user),
            MemberType::Player => match character {
                Some(c) => Member::Player(user, c),
                None => {
                    assert(false);
                    Member::GM(user)
                },
            },
        }
    }
}

impl Default for Campaign {
    /// An unnamed campaign whose members are not loaded.
    fn default() -> (r: Self)
        ensures
            r.name@ == Seq::<char>::empty(),
            r.members is None,
    {
        Campaign { name: String::new(), members: None }
    }
}

impl Campaign {
    /// The campaign a stored row stands for; its members are not loaded.
    pub fn from_model(campaign: campaign_entity::Model) -> (r: Campaign)
        ensures
            r.name == campaign.name,
            r.members is None,
    {
        Campaign { name: campaign.name, members: None }
    }

    /// The campaign a stored row and its stored memberships stand for,
    /// members in the order given. Every player's membership must come
    /// with a character.
    pub fn from_model_with_members(
        campaign: campaign_entity::Model,
        members: Vec<(MemberType, User, Option<Character>)>,
    ) -> (r: Campaign)
        requires
            forall|i: int| 0 <= i < members.len() ==> (#[trigger] members@[i]).0 == MemberType::Player ==> members@[i].2 is Some,
        ensures
            r.name == campaign.name,
            r.members matches Some(ms) && ms@ == members@.map_values(
                |m: (MemberType, User, Option<Character>)| member_of(m.0, m.1, m.2),
            ),
    {
        let ghost all = members@;
        let mut members = members;
        let mut out: Vec<Member> = Vec::new();
        let ghost mut i: int = 0;
        while members.len() > 0
            invariant
                0 <= i <= all.len(),
                members@ == all.skip(i),
                forall|k: int| 0 <= k < all.len() ==> (#[trigger] all[k]).0 == MemberType::Player ==> all[k].2 is Some,
                out@ == all.take(i).map_values(
                    |m: (MemberType, User, Option<Character>)| member_of(m.0, m.1, m.2),
                ),
            decreases members.len(),
        {
            let ghost before = members@;
            proof {
                assert(before[0] == all[i]);
            }
            let (member_type, user, character) = members.remove(0);
            proof {
                assert(members@ =~= all.skip(i + 1));
            }
            out.push(Member::from_membership(member_type, user, character));
            proof {
                assert(all.take(i + 1).map_values(
                    |m: (MemberType, User, Option<Character>)| member_of(m.0, m.1, m.2),
                ) =~= all.take(i).map_values(
                    |m: (MemberType, User, Option<Character>)| member_of(m.0, m.1, m.2),
                ).push(member_of(all[i].0, all[i].1, all[i].2)));
                i = i + 1;
            }
        }
        proof {
            assert(all.take(i) =~= all);
        }
        Campaign { name: campaign.name, members: Some(out) }
    }

    /// The members, if they are loaded.
    pub fn members(&self) -> (r: Option<&Vec<Member>>)
        ensures
            r == (match &self.members {
                Some(v) => Some(v),
                None => None::<&Vec<Member>>,
            }),
    {
        self.members.as_ref()
    }

    /// The members, to change in place, if they are loaded.
    pub fn members_mut(&mut self) -> (r: Option<&mut Vec<Member>>)
        ensures
            (match old(self).members {
                None => r is None && final(self).members is None,
                Some(ms) => r is Some && *r->0 == ms && final(self).members == Some(*final(r->0)),
            }),
            final(self).name == old(self).name,
    {
        self.members.as_mut()
    }

    /// The game master, to change in place: the first member who runs the
    /// campaign. `None` when the members are not loaded or none of them is
    /// the game master; the campaign is then left as it was.
    pub fn gm_mut(&mut self) -> (r: Option<&mut User>)
        ensures
            r is Some <==> (old(self).members matches Some(ms) && !no_gm(ms@)),
            r is None ==> *final(self) == *old(self),
            r matches Some(u) ==> exists|i: int| #[trigger] is_first_gm(old(self).members->0@, i)
                && old(self).members->0@[i] == Member::GM(*u)
                && final(self).name == old(self).name
                && final(self).members is Some
                && final(self).members->0@ == old(self).members->0@.update(i, Member::GM(*final(u))),
    {
        let mut index: Option<usize> = None;
        match &self.members {
            Some(members) => {
                let mut i: usize = 0;
                while i < members.len()
                    invariant_except_break
                        index is None,
                    invariant
                        i <= members.len(),
                        forall|j: int| 0 <= j < i ==> !(#[trigger] members@[j] is GM),
                    ensures
                        index matches Some(k) ==> is_first_gm(members@, k as int),
                        index is None ==> no_gm(members@),
                    decreases members.len() - i,
                {
                    if let Member::GM(_) = &members[i] {
                        index = Some(i);
                        break;
                    }
                    i = i + 1;
                }
            },
            None => {},
        }
        match index {
            None => None,
            Some(k) => match &mut self.members {
                Some(members) => match &mut members[k] {
                    Member::GM(user) => Some(user),
                    Member::Player(_, _) => {
                        assert(false);
                        None
                    },
                },
                None => None,
            },
        }
    }

    /// The game master: the first member who runs the campaign. `None`
    /// when the members are not loaded or none of them is the game master.
    pub fn gm(&self) -> (r: Option<&User>)
        ensures
            r is Some <==> (self.members matches Some(ms) && !no_gm(ms@)),
            r matches Some(u) ==> exists|i: int| #[trigger] is_first_gm(self.members->0@, i)
                && self.members->0@[i] == Member::GM(*u),
    {
        let members = match self.members() {
            Some(ms) => ms,
            None => return None,
        };
        let mut i: usize = 0;
        while i < members.len()
            invariant
                i <= members.len(),
                self.members == Some(*members),
                forall|j: int| 0 <= j < i ==> !(#[trigger] members@[j] is GM),
            decreases members.len() - i,
        {
            if let Member::GM(user) = &members[i] {
                assert(is_first_gm(members@, i as int));
                return Some(user);
            }
            i = i + 1;
        }
        None
    }

    /// The players and their characters, in the order they are listed;
    /// `None` when the members are not loaded.
    pub fn players(&self) -> (r: Option<Vec<(&User, &Character)>>)
        ensures
            r is Some <==> self.members is Some,
            r matches Some(ps) ==> ps@.len() == players_of(self.members->0@).len()
                && forall|k: int| 0 <= k < ps@.len() ==> (*ps@[k].0, *ps@[k].1) == #[trigger] players_of(self.members->0@)[k],
    {
        let members = match self.members() {
            Some(ms) => ms,
            None => return None,
        };
        let ghost ms = members@;
        let mut out: Vec<(&User, &Character)> = Vec::new();
        let mut i: usize = 0;
        while i < members.len()
            invariant
                i <= members.len(),
                ms == members@,
                self.members == Some(*members),
                out@.len() == players_of(ms.take(i as int)).len(),
                forall|k: int| 0 <= k < out@.len() ==> (*out@[k].0, *out@[k].1) == #[trigger] players_of(ms.take(i as int))[k],
            decreases members.len() - i,
        {
            proof {
                ms.lemma_filter_map_take_succ(|m: Member| player_of(m), i as int);
            }
            if let Member::Player(user, character) = &members[i] {
                out.push((user, character));
            }
            i = i + 1;
        }
        proof {
            assert(ms.take(i as int) =~= ms);
        }
        Some(out)
    }

    /// The players and their characters, to change in place, in the order
    /// they are listed; `None` when the members are not loaded, and the
    /// campaign is then left as it was. Changing a player or a character
    /// changes that member; the game master stays as they are.
    pub fn players_mut(&mut self) -> (r: Option<Vec<(&mut User, &mut Character)>>)
        ensures
            r is Some <==> old(self).members is Some,
            r is None ==> *final(self) == *old(self),
            r matches Some(ps) ==> {
                let ms = old(self).members->0@;
                &&& ps@.len() == players_of(ms).len()
                &&& forall|k: int| 0 <= k < ps@.len() ==> (*ps@[k].0, *ps@[k].1) == #[trigger] players_of(ms)[k]
                &&& final(self).name == old(self).name
                &&& final(self).members is Some
                &&& final(self).members->0@.len() == ms.len()
                &&& forall|i: int| 0 <= i < ms.len() ==> (match #[trigger] ms[i] {
                    Member::GM(u) => final(self).members->0@[i] == Member::GM(u),
                    Member::Player(_, _) => final(self).members->0@[i] == Member::Player(
                        *final(ps@[player_index(ms, i)].0),
                        *final(ps@[player_index(ms, i)].1),
                    ),
                })
            },
    {
        match self.members_mut() {
            None => None,
            Some(members) => Some(player_refs(members.as_mut_slice())),
        }
    }
}

} // verus!
