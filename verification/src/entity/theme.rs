//! The `themes` table.

use crate::common::theme::Tag;
use crate::entity::active_value::{holds_written, ActiveValue};
use crate::text::str_eq;
use vstd::prelude::*;
use vstd::string::*;

verus! {

/// The kind of a stored theme.
#[derive(Debug, PartialEq, Eq, Structural, Clone, Copy)]
pub enum ThemeType {
    Mythos,
    Logos,
    Crew,
    Extra,
}

/// The themebook a stored theme was made from.
#[derive(Debug, PartialEq, Eq, Structural, Clone, Copy)]
pub enum ThemeDescriptor {
    Adaptation,
    Ally,
    BaseOfOperations,
    Bastion,
    Crew,
    DefiningEvent,
    DefiningRelationship,
    Divination,
    Expression,
    Mission,
    Mobility,
    Personality,
    Possessions,
    Relic,
    Ride,
    Routine,
    Subversion,
    Training,
}

/// The name under which a themebook is stored and looked up.
pub open spec fn descriptor_name(d: ThemeDescriptor) -> Seq<char> {
    if d == ThemeDescriptor::Adaptation {
        "adaptation"@
    } else if d == ThemeDescriptor::Ally {
        "ally"@
    } else if d == ThemeDescriptor::BaseOfOperations {
        "base_of_operations"@
    } else if d == ThemeDescriptor::Bastion {
        "bastion"@
    } else if d == ThemeDescriptor::Crew {
        "crew"@
    } else if d == ThemeDescriptor::DefiningEvent {
        "defining_event"@
    } else if d == ThemeDescriptor::DefiningRelationship {
        "defining_relationship"@
    } else if d == ThemeDescriptor::Divination {
        "divination"@
    } else if d == ThemeDescriptor::Expression {
        "expression"@
    } else if d == ThemeDescriptor::Mission {
        "mission"@
    } else if d == ThemeDescriptor::Mobility {
        "mobility"@
    } else if d == ThemeDescriptor::Personality {
        "personality"@
    } else if d == ThemeDescriptor::Possessions {
        "possessions"@
    } else if d == ThemeDescriptor::Relic {
        "relic"@
    } else if d == ThemeDescriptor::Ride {
        "ride"@
    } else if d == ThemeDescriptor::Routine {
        "routine"@
    } else if d == ThemeDescriptor::Subversion {
        "subversion"@
    } else {
        "training"@
    }
}

/// The themebook with the given name, if there is one: the first, in
/// alphabetical order of names, whose name it is.
pub open spec fn descriptor_named(s: Seq<char>) -> Option<ThemeDescriptor> {
    descriptor_named_from(s, 0)
}

/// Every themebook, in alphabetical order of names.
pub open spec fn all_descriptors() -> Seq<ThemeDescriptor> {
    seq![
        ThemeDescriptor::Adaptation,
        ThemeDescriptor::Ally,
        ThemeDescriptor::BaseOfOperations,
        ThemeDescriptor::Bastion,
        ThemeDescriptor::Crew,
        ThemeDescriptor::DefiningEvent,
        ThemeDescriptor::DefiningRelationship,
        ThemeDescriptor::Divination,
        ThemeDescriptor::Expression,
        ThemeDescriptor::Mission,
        ThemeDescriptor::Mobility,
        ThemeDescriptor::Personality,
        ThemeDescriptor::Possessions,
        ThemeDescriptor::Relic,
        ThemeDescriptor::Ride,
        ThemeDescriptor::Routine,
        ThemeDescriptor::Subversion,
        ThemeDescriptor::Training,
    ]
}

/// The first themebook from position `i` on in `all_descriptors` whose
/// name is `s`.
pub open spec fn descriptor_named_from(s: Seq<char>, i: int) -> Option<ThemeDescriptor>
    decreases 18 - i,
{
    if i < 0 || i >= 18 {
        None
    } else if descriptor_name(all_descriptors()[i]) == s {
        Some(all_descriptors()[i])
    } else {
        descriptor_named_from(s, i + 1)
    }
}

impl ThemeDescriptor {
    /// The themebook's name.
    pub fn name(self) -> (s: &'static str)
        ensures
            s@ == descriptor_name(self),
    {
        if self == ThemeDescriptor::Adaptation {
            "adaptation"
        } else if self == ThemeDescriptor::Ally {
            "ally"
        } else if self == ThemeDescriptor::BaseOfOperations {
            "base_of_operations"
        } else if self == ThemeDescriptor::Bastion {
            "bastion"
        } else if self == ThemeDescriptor::Crew {
            "crew"
        } else if self == ThemeDescriptor::DefiningEvent {
            "defining_event"
        } else if self == ThemeDescriptor::DefiningRelationship {
            "defining_relationship"
        } else if self == ThemeDescriptor::Divination {
            "divination"
        } else if self == ThemeDescriptor::Expression {
            "expression"
        } else if self == ThemeDescriptor::Mission {
            "mission"
        } else if self == ThemeDescriptor::Mobility {
            "mobility"
        } else if self == ThemeDescriptor::Personality {
            "personality"
        } else if self == ThemeDescriptor::Possessions {
            "possessions"
        } else if self == ThemeDescriptor::Relic {
            "relic"
        } else if self == ThemeDescriptor::Ride {
            "ride"
        } else if self == ThemeDescriptor::Routine {
            "routine"
        } else if self == ThemeDescriptor::Subversion {
            "subversion"
        } else {
            "training"
        }
    }

    /// The themebook's name as an owned string.
    pub fn into_string(self) -> (s: String)
        ensures
            s@ == descriptor_name(self),
    {
        self.name().to_owned()
    }

    /// The themebook with the given name, or `None` for a name that is not
    /// one of the eighteen.
    pub fn from_name(s: &str) -> (r: Option<ThemeDescriptor>)
        ensures
            r == descriptor_named(s@),
    {
        let all = [
            ThemeDescriptor::Adaptation,
            ThemeDescriptor::Ally,
            ThemeDescriptor::BaseOfOperations,
            ThemeDescriptor::Bastion,
            ThemeDescriptor::Crew,
            ThemeDescriptor::DefiningEvent,
            ThemeDescriptor::DefiningRelationship,
            ThemeDescriptor::Divination,
            ThemeDescriptor::Expression,
            ThemeDescriptor::Mission,
            ThemeDescriptor::Mobility,
            ThemeDescriptor::Personality,
            ThemeDescriptor::Possessions,
            ThemeDescriptor::Relic,
            ThemeDescriptor::Ride,
            ThemeDescriptor::Routine,
            ThemeDescriptor::Subversion,
            ThemeDescriptor::Training,
        ];
        assert(all@ == all_descriptors());
        let mut i: usize = 0;
        while i < 18
            invariant
                i <= 18,
                all@ == all_descriptors(),
                descriptor_named(s@) == descriptor_named_from(s@, i as int),
            decreases 18 - i,
        {
            let d = all[i];
            if str_eq(d.name(), s) {
                return Some(d);
            }
            i = i + 1;
        }
        None
    }

    /// The themebook with the given name; the name must be one of the
    /// eighteen.
    pub fn from_string(s: String) -> (r: ThemeDescriptor)
        requires
            descriptor_named(s@) is Some,
        ensures
            Some(r) == descriptor_named(s@),
    {
        match ThemeDescriptor::from_name(s.as_str()) {
            Some(d) => d,
            None => { assert(false); ThemeDescriptor::Ride },
        }
    }
}

/// Every themebook name reads back as the themebook it names.
pub proof fn lemma_descriptor_name_round_trip(d: ThemeDescriptor)
    ensures
        descriptor_named(descriptor_name(d)) == Some(d),
{
    reveal_strlit("adaptation");
    reveal_strlit("ally");
    reveal_strlit("base_of_operations");
    reveal_strlit("bastion");
    reveal_strlit("crew");
    reveal_strlit("defining_event");
    reveal_strlit("defining_relationship");
    reveal_strlit("divination");
    reveal_strlit("expression");
    reveal_strlit("mission");
    reveal_strlit("mobility");
    reveal_strlit("personality");
    reveal_strlit("possessions");
    reveal_strlit("relic");
    reveal_strlit("ride");
    reveal_strlit("routine");
    reveal_strlit("subversion");
    reveal_strlit("training");
    let all = all_descriptors();
    match d {
        ThemeDescriptor::Adaptation => {
            assert(all[0] == d);
            reveal_with_fuel(descriptor_named_from, 2);
        },
        ThemeDescriptor::Ally => {
            assert("ally"@.len() != "adaptation"@.len());
            assert(all[1] == d);
            reveal_with_fuel(descriptor_named_from, 3);
        },
        ThemeDescriptor::BaseOfOperations => {
            assert("base_of_operations"@.len() != "adaptation"@.len());
            assert("base_of_operations"@.len() != "ally"@.len());
            assert(all[2] == d);
            reveal_with_fuel(descriptor_named_from, 4);
        },
        ThemeDescriptor::Bastion => {
            assert("bastion"@.len() != "adaptation"@.len());
            assert("bastion"@.len() != "ally"@.len());
            assert("bastion"@.len() != "base_of_operations"@.len());
            assert(all[3] == d);
            reveal_with_fuel(descriptor_named_from, 5);
        },
        ThemeDescriptor::Crew => {
            assert("crew"@.len() != "adaptation"@.len());
            assert("crew"@[0] != "ally"@[0]);
            assert("crew"@.len() != "base_of_operations"@.len());
            assert("crew"@.len() != "bastion"@.len());
            assert(all[4] == d);
            reveal_with_fuel(descriptor_named_from, 6);
        },
        ThemeDescriptor::DefiningEvent => {
            assert("defining_event"@.len() != "adaptation"@.len());
            assert("defining_event"@.len() != "ally"@.len());
            assert("defining_event"@.len() != "base_of_operations"@.len());
            assert("defining_event"@.len() != "bastion"@.len());
            assert("defining_event"@.len() != "crew"@.len());
            assert(all[5] == d);
            reveal_with_fuel(descriptor_named_from, 7);
        },
        ThemeDescriptor::DefiningRelationship => {
            assert("defining_relationship"@.len() != "adaptation"@.len());
            assert("defining_relationship"@.len() != "ally"@.len());
            assert("defining_relationship"@.len() != "base_of_operations"@.len());
            assert("defining_relationship"@.len() != "bastion"@.len());
            assert("defining_relationship"@.len() != "crew"@.len());
            assert("defining_relationship"@.len() != "defining_event"@.len());
            assert(all[6] == d);
            reveal_with_fuel(descriptor_named_from, 8);
        },
        ThemeDescriptor::Divination => {
            assert("divination"@[0] != "adaptation"@[0]);
            assert("divination"@.len() != "ally"@.len());
            assert("divination"@.len() != "base_of_operations"@.len());
            assert("divination"@.len() != "bastion"@.len());
            assert("divination"@.len() != "crew"@.len());
            assert("divination"@.len() != "defining_event"@.len());
            assert("divination"@.len() != "defining_relationship"@.len());
            assert(all[7] == d);
            reveal_with_fuel(descriptor_named_from, 9);
        },
        ThemeDescriptor::Expression => {
            assert("expression"@[0] != "adaptation"@[0]);
            assert("expression"@.len() != "ally"@.len());
            assert("expression"@.len() != "base_of_operations"@.len());
            assert("expression"@.len() != "bastion"@.len());
            assert("expression"@.len() != "crew"@.len());
            assert("expression"@.len() != "defining_event"@.len());
            assert("expression"@.len() != "defining_relationship"@.len());
            assert("expression"@[0] != "divination"@[0]);
            assert(all[8] == d);
            reveal_with_fuel(descriptor_named_from, 10);
        },
        ThemeDescriptor::Mission => {
            assert("mission"@.len() != "adaptation"@.len());
            assert("mission"@.len() != "ally"@.len());
            assert("mission"@.len() != "base_of_operations"@.len());
            assert("mission"@[0] != "bastion"@[0]);
            assert("mission"@.len() != "crew"@.len());
            assert("mission"@.len() != "defining_event"@.len());
            assert("mission"@.len() != "defining_relationship"@.len());
            assert("mission"@.len() != "divination"@.len());
            assert("mission"@.len() != "expression"@.len());
            assert(all[9] == d);
            reveal_with_fuel(descriptor_named_from, 11);
        },
        ThemeDescriptor::Mobility => {
            assert("mobility"@.len() != "adaptation"@.len());
            assert("mobility"@.len() != "ally"@.len());
            assert("mobility"@.len() != "base_of_operations"@.len());
            assert("mobility"@.len() != "bastion"@.len());
            assert("mobility"@.len() != "crew"@.len());
            assert("mobility"@.len() != "defining_event"@.len());
            assert("mobility"@.len() != "defining_relationship"@.len());
            assert("mobility"@.len() != "divination"@.len());
            assert("mobility"@.len() != "expression"@.len());
            assert("mobility"@.len() != "mission"@.len());
            assert(all[10] == d);
            reveal_with_fuel(descriptor_named_from, 12);
        },
        ThemeDescriptor::Personality => {
            assert("personality"@.len() != "adaptation"@.len());
            assert("personality"@.len() != "ally"@.len());
            assert("personality"@.len() != "base_of_operations"@.len());
            assert("personality"@.len() != "bastion"@.len());
            assert("personality"@.len() != "crew"@.len());
            assert("personality"@.len() != "defining_event"@.len());
            assert("personality"@.len() != "defining_relationship"@.len());
            assert("personality"@.len() != "divination"@.len());
            assert("personality"@.len() != "expression"@.len());
            assert("personality"@.len() != "mission"@.len());
            assert("personality"@.len() != "mobility"@.len());
            assert(all[11] == d);
            reveal_with_fuel(descriptor_named_from, 13);
        },
        ThemeDescriptor::Possessions => {
            assert("possessions"@.len() != "adaptation"@.len());
            assert("possessions"@.len() != "ally"@.len());
            assert("possessions"@.len() != "base_of_operations"@.len());
            assert("possessions"@.len() != "bastion"@.len());
            assert("possessions"@.len() != "crew"@.len());
            assert("possessions"@.len() != "defining_event"@.len());
            assert("possessions"@.len() != "defining_relationship"@.len());
            assert("possessions"@.len() != "divination"@.len());
            assert("possessions"@.len() != "expression"@.len());
            assert("possessions"@.len() != "mission"@.len());
            assert("possessions"@.len() != "mobility"@.len());
            assert("possessions"@[1] != "personality"@[1]);
            assert(all[12] == d);
            reveal_with_fuel(descriptor_named_from, 14);
        },
        ThemeDescriptor::Relic => {
            assert("relic"@.len() != "adaptation"@.len());
            assert("relic"@.len() != "ally"@.len());
            assert("relic"@.len() != "base_of_operations"@.len());
            assert("relic"@.len() != "bastion"@.len());
            assert("relic"@.len() != "crew"@.len());
            assert("relic"@.len() != "defining_event"@.len());
            assert("relic"@.len() != "defining_relationship"@.len());
            assert("relic"@.len() != "divination"@.len());
            assert("relic"@.len() != "expression"@.len());
            assert("relic"@.len() != "mission"@.len());
            assert("relic"@.len() != "mobility"@.len());
            assert("relic"@.len() != "personality"@.len());
            assert("relic"@.len() != "possessions"@.len());
            assert(all[13] == d);
            reveal_with_fuel(descriptor_named_from, 15);
        },
        ThemeDescriptor::Ride => {
            assert("ride"@.len() != "adaptation"@.len());
            assert("ride"@[0] != "ally"@[0]);
            assert("ride"@.len() != "base_of_operations"@.len());
            assert("ride"@.len() != "bastion"@.len());
            assert("ride"@[0] != "crew"@[0]);
            assert("ride"@.len() != "defining_event"@.len());
            assert("ride"@.len() != "defining_relationship"@.len());
            assert("ride"@.len() != "divination"@.len());
            assert("ride"@.len() != "expression"@.len());
            assert("ride"@.len() != "mission"@.len());
            assert("ride"@.len() != "mobility"@.len());
            assert("ride"@.len() != "personality"@.len());
            assert("ride"@.len() != "possessions"@.len());
            assert("ride"@.len() != "relic"@.len());
            assert(all[14] == d);
            reveal_with_fuel(descriptor_named_from, 16);
        },
        ThemeDescriptor::Routine => {
            assert("routine"@.len() != "adaptation"@.len());
            assert("routine"@.len() != "ally"@.len());
            assert("routine"@.len() != "base_of_operations"@.len());
            assert("routine"@[0] != "bastion"@[0]);
            assert("routine"@.len() != "crew"@.len());
            assert("routine"@.len() != "defining_event"@.len());
            assert("routine"@.len() != "defining_relationship"@.len());
            assert("routine"@.len() != "divination"@.len());
            assert("routine"@.len() != "expression"@.len());
            assert("routine"@[0] != "mission"@[0]);
            assert("routine"@.len() != "mobility"@.len());
            assert("routine"@.len() != "personality"@.len());
            assert("routine"@.len() != "possessions"@.len());
            assert("routine"@.len() != "relic"@.len());
            assert("routine"@.len() != "ride"@.len());
            assert(all[15] == d);
            reveal_with_fuel(descriptor_named_from, 17);
        },
        ThemeDescriptor::Subversion => {
            assert("subversion"@[0] != "adaptation"@[0]);
            assert("subversion"@.len() != "ally"@.len());
            assert("subversion"@.len() != "base_of_operations"@.len());
            assert("subversion"@.len() != "bastion"@.len());
            assert("subversion"@.len() != "crew"@.len());
            assert("subversion"@.len() != "defining_event"@.len());
            assert("subversion"@.len() != "defining_relationship"@.len());
            assert("subversion"@[0] != "divination"@[0]);
            assert("subversion"@[0] != "expression"@[0]);
            assert("subversion"@.len() != "mission"@.len());
            assert("subversion"@.len() != "mobility"@.len());
            assert("subversion"@.len() != "personality"@.len());
            assert("subversion"@.len() != "possessions"@.len());
            assert("subversion"@.len() != "relic"@.len());
            assert("subversion"@.len() != "ride"@.len());
            assert("subversion"@.len() != "routine"@.len());
            assert(all[16] == d);
            reveal_with_fuel(descriptor_named_from, 18);
        },
        ThemeDescriptor::Training => {
            assert("training"@.len() != "adaptation"@.len());
            assert("training"@.len() != "ally"@.len());
            assert("training"@.len() != "base_of_operations"@.len());
            assert("training"@.len() != "bastion"@.len());
            assert("training"@.len() != "crew"@.len());
            assert("training"@.len() != "defining_event"@.len());
            assert("training"@.len() != "defining_relationship"@.len());
            assert("training"@.len() != "divination"@.len());
            assert("training"@.len() != "expression"@.len());
            assert("training"@.len() != "mission"@.len());
            assert("training"@[0] != "mobility"@[0]);
            assert("training"@.len() != "personality"@.len());
            assert("training"@.len() != "possessions"@.len());
            assert("training"@.len() != "relic"@.len());
            assert("training"@.len() != "ride"@.len());
            assert("training"@.len() != "routine"@.len());
            assert("training"@.len() != "subversion"@.len());
            assert(all[17] == d);
            reveal_with_fuel(descriptor_named_from, 19);
        },
    }
}

/// A name that reads as a themebook is that themebook's name.
pub proof fn lemma_descriptor_named_inverse(s: Seq<char>)
    ensures
        descriptor_named(s) matches Some(d) ==> descriptor_name(d) == s,
{
    lemma_descriptor_named_from_inverse(s, 0);
}

proof fn lemma_descriptor_named_from_inverse(s: Seq<char>, i: int)
    ensures
        descriptor_named_from(s, i) matches Some(d) ==> descriptor_name(d) == s,
    decreases 18 - i,
{
    if 0 <= i < 18 {
        lemma_descriptor_named_from_inverse(s, i + 1);
    }
}

/// A stored theme. The tags column holds JSON; here it is already decoded.
#[derive(Debug, PartialEq)]
pub struct Model {
    pub id: i32,
    pub theme_descriptor: ThemeDescriptor,
    pub title: String,
    pub mystery_or_identity: String,
    pub theme_type: ThemeType,
    pub attention: i8,
    pub fade_or_crack: i8,
    pub tags: Vec<Tag>,
}

/// The columns an insert or update of a theme writes.
#[derive(Debug, PartialEq)]
pub struct ActiveModel {
    pub id: ActiveValue<i32>,
    pub theme_descriptor: ActiveValue<ThemeDescriptor>,
    pub title: ActiveValue<String>,
    pub mystery_or_identity: ActiveValue<String>,
    pub theme_type: ActiveValue<ThemeType>,
    pub attention: ActiveValue<i8>,
    pub fade_or_crack: ActiveValue<i8>,
    pub tags: ActiveValue<Vec<Tag>>,
}

impl ActiveModel {
    /// Whether the insert or update writes any column.
    pub fn is_changed(&self) -> (r: bool)
        ensures
            r == (self.id is SetTo || self.theme_descriptor is SetTo || self.title is SetTo
                || self.mystery_or_identity is SetTo || self.theme_type is SetTo
                || self.attention is SetTo || self.fade_or_crack is SetTo || self.tags is SetTo),
    {
        self.id.is_set() || self.theme_descriptor.is_set() || self.title.is_set()
            || self.mystery_or_identity.is_set() || self.theme_type.is_set()
            || self.attention.is_set() || self.fade_or_crack.is_set() || self.tags.is_set()
    }
}

/// Whether a stored row holds every column that an insert or update wrote.
pub open spec fn written_by(a: ActiveModel, m: Model) -> bool {
    &&& holds_written(a.id, m.id)
    &&& holds_written(a.theme_descriptor, m.theme_descriptor)
    &&& holds_written(a.title, m.title)
    &&& holds_written(a.mystery_or_identity, m.mystery_or_identity)
    &&& holds_written(a.theme_type, m.theme_type)
    &&& holds_written(a.attention, m.attention)
    &&& holds_written(a.fade_or_crack, m.fade_or_crack)
    &&& holds_written(a.tags, m.tags)
}

} // verus!
