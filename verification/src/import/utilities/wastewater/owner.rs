//! The owners of wastewater assets.
use crate::import::utilities::entity::Entity;
use vstd::prelude::*;

verus! {

/// Who can own a wastewater asset.
#[derive(Debug, Clone, Copy, PartialEq, Eq, PartialOrd, Ord, Hash, Structural)]
pub enum Owner {
    /// City of Grants Pass.
    City,
    /// Josephine County.
    County,
    /// State of Oregon.
    State,
    /// United States of America.
    Federal,
    /// Privately owned and maintained.
    Private,
    /// Unknown
    Unknown,
}

impl Default for Owner {
    fn default() -> (r: Self)
        ensures
            r == Owner::City,
    {
        Owner::City
    }
}

impl Owner {
    /// The name of the owner.
    pub open spec fn label(self) -> Seq<char> {
        match self {
            Owner::City => "City"@,
            Owner::County => "County"@,
            Owner::State => "State"@,
            Owner::Federal => "Federal"@,
            Owner::Private => "Private"@,
            Owner::Unknown => "Unknown"@,
        }
    }

    /// The name of the owner.
    pub fn to_string(&self) -> (r: String)
        ensures
            r@ == self.label(),
    {
        match self {
            Owner::City => "City".to_owned(),
            Owner::County => "County".to_owned(),
            Owner::State => "State".to_owned(),
            Owner::Federal => "Federal".to_owned(),
            Owner::Private => "Private".to_owned(),
            Owner::Unknown => "Unknown".to_owned(),
        }
    }
}

impl Owner {
    /// The owner that a code stands for; a code that stands for none is `Unknown`.
    pub open spec fn of_code(value: i8) -> Owner {
        if value == 1 {
            Owner::City
        } else if value == 3 {
            Owner::State
        } else if value == 4 {
            Owner::County
        } else if value == 5 {
            Owner::Federal
        } else if value == 6 {
            Owner::Private
        } else if value == 7 {
            Owner::Unknown
        } else if value == 100 {
            Owner::Unknown
        } else {
            Owner::Unknown
        }
    }
}

impl From<i8> for Owner {
    fn from(value: i8) -> (r: Self) {
        match value {
            1 => Owner::City,
            3 => Owner::State,
            4 => Owner::County,
            5 => Owner::Federal,
            6 => Owner::Private,
            7 => Owner::Unknown,
            100 => Owner::Unknown,
            _ => Owner::Unknown,
        }
    }
}

impl vstd::std_specs::convert::FromSpecImpl<i8> for Owner {
    open spec fn obeys_from_spec() -> bool {
        true
    }

    open spec fn from_spec(value: i8) -> Self {
        Owner::of_code(value)
    }
}

impl Owner {
    /// The owner that an entity is; an entity that cannot own a wastewater
    /// asset is `Unknown`.
    pub open spec fn of_entity(value: Entity) -> Owner {
        match value {
            Entity::City => Owner::City,
            Entity::State => Owner::State,
            Entity::County => Owner::County,
            Entity::Federal => Owner::Federal,
            Entity::Private => Owner::Private,
            Entity::Unknown => Owner::Unknown,
            Entity::Gpid => Owner::Unknown,
            Entity::Parks => Owner::Unknown,
        }
    }
}

impl<'a> From<&'a Entity> for Owner {
    fn from(value: &'a Entity) -> (r: Self) {
        match *value {
            Entity::City => Owner::City,
            Entity::State => Owner::State,
            Entity::County => Owner::County,
            Entity::Federal => Owner::Federal,
            Entity::Private => Owner::Private,
            Entity::Unknown => Owner::Unknown,
            Entity::Gpid => Owner::Unknown,
            Entity::Parks => Owner::Unknown,
        }
    }
}

impl<'a> vstd::std_specs::convert::FromSpecImpl<&'a Entity> for Owner {
    open spec fn obeys_from_spec() -> bool {
        true
    }

    open spec fn from_spec(value: &'a Entity) -> Self {
        Owner::of_entity(*value)
    }
}


} // verus!
