//! The entities that can own and look after the assets of a utility.
use vstd::prelude::*;

verus! {

/// Who can own or look after an asset of a utility. Which of them can own a
/// given kind of asset differs from kind to kind.
#[derive(Debug, Clone, Copy, PartialEq, Eq, PartialOrd, Ord, Hash, Structural)]
pub enum Entity {
    /// City of Grants Pass.
    City,
    /// Josephine County.
    County,
    /// State of Oregon.
    State,
    /// United States of America.
    Federal,
    /// Privately owned and maintained.
    Private,
    /// Grants Pass Irrigation District
    Gpid,
    /// COGP Parks Dept.
    Parks,
    /// Unknown
    Unknown,
}

impl Default for Entity {
    fn default() -> (r: Self)
        ensures
            r == Entity::City,
    {
        Entity::City
    }
}

impl Entity {
    /// The entity that a code stands for; a code that stands for none is `Unknown`.
    pub open spec fn of_code(value: i8) -> Entity {
        if value == 1 {
            Entity::City
        } else if value == 2 {
            Entity::Gpid
        } else if value == 3 {
            Entity::State
        } else if value == 4 {
            Entity::County
        } else if value == 5 {
            Entity::Federal
        } else if value == 6 {
            Entity::Private
        } else if value == 7 {
            Entity::Unknown
        } else if value == 8 {
            Entity::Parks
        } else if value == 100 {
            Entity::Unknown
        } else {
            Entity::Unknown
        }
    }
}

impl From<i8> for Entity {
    fn from(value: i8) -> (r: Self) {
        match value {
            1 => Entity::City,
            2 => Entity::Gpid,
            3 => Entity::State,
            4 => Entity::County,
            5 => Entity::Federal,
            6 => Entity::Private,
            7 => Entity::Unknown,
            8 => Entity::Parks,
            100 => Entity::Unknown,
            _ => Entity::Unknown,
        }
    }
}

impl vstd::std_specs::convert::FromSpecImpl<i8> for Entity {
    open spec fn obeys_from_spec() -> bool {
        true
    }

    open spec fn from_spec(value: i8) -> Self {
        Entity::of_code(value)
    }
}

} // verus!
