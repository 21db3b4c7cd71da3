use vstd::prelude::*;

use crate::identity::Identity;

verus! {

/// The global record: the sole administrator and the pause switch.
#[derive(Clone, Copy, Debug)]
pub struct State {
    /// Set once, when the record is created; never reassigned.
    pub admin: Identity,
    pub paused: bool,
}

/// The claim record of one destination.
#[derive(Clone, Copy, Debug)]
pub struct Migration {
    /// Reserved space in the record's layout; no operation reads or writes it.
    pub current_index: u64,
    /// Whether the destination has received its migration. Once set, it stays set.
    pub claimed: bool,
}

impl State {
    /// The record that `initialize` creates for `admin`.
    pub fn new(admin: Identity) -> (r: State)
        ensures
            r == (State { admin, paused: false }),
    {
        State { admin, paused: false }
    }
}

impl Migration {
    /// A freshly created, unclaimed record.
    pub fn new() -> (r: Migration)
        ensures
            r == fresh_migration(),
    {
        Migration { current_index: 0, claimed: false }
    }
}

/// The record of a destination that has no migration yet.
pub open spec fn fresh_migration() -> Migration {
    Migration { current_index: 0, claimed: false }
}

} // verus!
