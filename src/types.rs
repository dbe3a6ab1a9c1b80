//! The updates that one batch carries.
use vstd::prelude::*;

verus! {

/// A property's group-type reference: a name still to look up, or the index
/// that the store assigned to it.
#[derive(Clone, Debug, PartialEq, Eq)]
pub enum GroupType {
    Unresolved(String),
    Resolved(i32),
}

impl GroupType {
    /// The one legal transition: the reference now carries its index.
    pub fn resolve(self, index: i32) -> (r: GroupType)
        ensures
            r == GroupType::Resolved(index),
    {
        GroupType::Resolved(index)
    }
}

/// What kind of entity a property belongs to.
#[derive(Clone, Copy, Debug, PartialEq, Eq)]
pub enum PropertyParentType {
    Event,
    Person,
    Group,
    Session,
}

#[derive(Clone, Debug, PartialEq, Eq)]
pub struct PropertyUpdate {
    pub team_id: i32,
    pub name: String,
    pub is_numerical: bool,
    pub property_type: Option<String>,
    pub event_type: PropertyParentType,
    pub group_type_index: Option<GroupType>,
}

#[derive(Clone, Debug, PartialEq, Eq)]
pub struct EventUpdate {
    pub team_id: i32,
    pub name: String,
    /// Seconds since the Unix epoch.
    pub last_seen_at: i64,
}

#[derive(Clone, Debug, PartialEq, Eq)]
pub struct EventPropertyUpdate {
    pub team_id: i32,
    pub event: String,
    pub property: String,
}

/// One pending write. Only property definitions carry a group type.
#[derive(Clone, Debug, PartialEq, Eq)]
pub enum Update {
    Event(EventUpdate),
    Property(PropertyUpdate),
    EventProperty(EventPropertyUpdate),
}

/// The update still holds a group-type name to look up.
pub open spec fn needs_lookup(u: Update) -> bool {
    match u {
        Update::Property(p) => p.group_type_index matches Some(GroupType::Unresolved(_)),
        _ => false,
    }
}

/// The cache key of an update that needs a lookup: its team and the name.
pub open spec fn lookup_key(u: Update) -> (int, Seq<char>) {
    match u {
        Update::Property(p) => match p.group_type_index {
            Some(GroupType::Unresolved(name)) => (p.team_id as int, name@),
            _ => (p.team_id as int, Seq::empty()),
        },
        _ => (0, Seq::empty()),
    }
}

/// The update with its group-type reference replaced; other kinds unchanged.
pub open spec fn with_group_type(u: Update, g: Option<GroupType>) -> Update {
    match u {
        Update::Property(p) => Update::Property(PropertyUpdate { group_type_index: g, ..p }),
        _ => u,
    }
}

/// The update after a lookup that found `found`: resolved when a row matched,
/// the reference dropped when none did; an update needing no lookup is kept.
pub open spec fn after_lookup(u: Update, found: Option<i32>) -> Update {
    if needs_lookup(u) {
        match found {
            Some(index) => with_group_type(u, Some(GroupType::Resolved(index))),
            None => with_group_type(u, None),
        }
    } else {
        u
    }
}

impl Update {
    /// Replaces the group-type reference of a property update.
    pub fn set_group_type(&mut self, g: Option<GroupType>)
        ensures
            *final(self) == with_group_type(*old(self), g),
    {
        match self {
            Update::Property(p) => {
                p.group_type_index = g;
            },
            _ => {},
        }
    }
}

} // verus!
