use vstd::prelude::*;

use crate::error::VIOPMigrationError;
use crate::identity::Identity;
use crate::instructions::{
    initialize_step, is_claimed, migrate_step, pause_step, settled_record, settled_result,
    un_pause_step,
};
use crate::state::{Migration, State};

verus! {

/// The slot of the global record after `initialize` was called by each of
/// `callers` in turn.
pub open spec fn slot_after(slot: Option<State>, callers: Seq<Identity>) -> Option<State>
    decreases callers.len(),
{
    if callers.len() == 0 {
        slot
    } else {
        initialize_step(slot_after(slot, callers.drop_last()), callers.last()).1
    }
}

/// The result of the `i`-th of those calls.
pub open spec fn initialize_result_at(slot: Option<State>, callers: Seq<Identity>, i: int) -> Result<(), VIOPMigrationError> {
    initialize_step(slot_after(slot, callers.take(i)), callers[i]).0
}

proof fn slot_stays_filled(slot: Option<State>, callers: Seq<Identity>, i: int, j: int)
    requires
        0 <= i <= j <= callers.len(),
        slot_after(slot, callers.take(i)) is Some,
    ensures
        slot_after(slot, callers.take(j)) is Some,
    decreases j - i,
{
    if i < j {
        slot_stays_filled(slot, callers, i, j - 1);
        assert(callers.take(j).drop_last() =~= callers.take(j - 1));
    }
}

/// Over any sequence of `initialize` calls, by any callers, at most one
/// succeeds: every call after a successful one fails with `AlreadyInitialized`.
pub proof fn initialize_succeeds_at_most_once(slot: Option<State>, callers: Seq<Identity>, i: int, j: int)
    requires
        0 <= i < j < callers.len(),
        initialize_result_at(slot, callers, i) is Ok,
    ensures
        initialize_result_at(slot, callers, j) == Err::<(), VIOPMigrationError>(VIOPMigrationError::AlreadyInitialized),
{
    assert(callers.take(i + 1).drop_last() =~= callers.take(i));
    assert(callers.take(i + 1).last() == callers[i]);
    slot_stays_filled(slot, callers, i + 1, j);
}

/// One attempt to migrate a destination: the caller, whether the contract is
/// paused at that moment, and how the transfer ends where one is made.
pub struct Attempt {
    pub caller: Identity,
    pub paused: bool,
    pub outcome: Result<(), u64>,
}

/// What one attempt does to the destination's claim record under the
/// administrator `admin`: `migrate`, then, where it went ahead,
/// `settle_migration` with the transfer's outcome.
pub open spec fn attempt_step(record: Option<Migration>, admin: Identity, a: Attempt) -> (Result<(), VIOPMigrationError>, Option<Migration>) {
    let (r, claimed) = migrate_step(record, State { admin, paused: a.paused }, a.caller);
    if r is Ok {
        (
            settled_result(a.outcome),
            settled_record(claimed, record, a.outcome),
        )
    } else {
        (r, claimed)
    }
}

/// The claim record after each of `attempts` in turn.
pub open spec fn record_after(record: Option<Migration>, admin: Identity, attempts: Seq<Attempt>) -> Option<Migration>
    decreases attempts.len(),
{
    if attempts.len() == 0 {
        record
    } else {
        attempt_step(record_after(record, admin, attempts.drop_last()), admin, attempts.last()).1
    }
}

/// The record that the `i`-th attempt meets.
pub open spec fn record_before(record: Option<Migration>, admin: Identity, attempts: Seq<Attempt>, i: int) -> Option<Migration> {
    record_after(record, admin, attempts.take(i))
}

proof fn claim_stays(record: Option<Migration>, admin: Identity, attempts: Seq<Attempt>, i: int, j: int)
    requires
        0 <= i <= j <= attempts.len(),
        is_claimed(record_before(record, admin, attempts, i)),
    ensures
        is_claimed(record_before(record, admin, attempts, j)),
    decreases j - i,
{
    if i < j {
        claim_stays(record, admin, attempts, i, j - 1);
        assert(attempts.take(j).drop_last() =~= attempts.take(j - 1));
    }
}

/// Over any sequence of migration attempts for one destination, at most one
/// moves value: after an attempt whose transfer went through, no later attempt
/// is handed a transfer, and each later one that passes the pause and caller
/// checks fails with `AccountAlreadyClaimed`.
pub proof fn destination_is_credited_at_most_once(
    record: Option<Migration>,
    admin: Identity,
    attempts: Seq<Attempt>,
    i: int,
    j: int,
)
    requires
        0 <= i < j < attempts.len(),
        attempt_step(record_before(record, admin, attempts, i), admin, attempts[i]).0 is Ok,
    ensures
        !(migrate_step(
            record_before(record, admin, attempts, j),
            State { admin, paused: attempts[j].paused },
            attempts[j].caller,
        ).0 is Ok),
        !attempts[j].paused && attempts[j].caller@ == admin@ ==> migrate_step(
            record_before(record, admin, attempts, j),
            State { admin, paused: attempts[j].paused },
            attempts[j].caller,
        ).0 == Err::<(), VIOPMigrationError>(VIOPMigrationError::AccountAlreadyClaimed),
{
    assert(attempts.take(i + 1).drop_last() =~= attempts.take(i));
    assert(attempts.take(i + 1).last() == attempts[i]);
    claim_stays(record, admin, attempts, i + 1, j);
}

/// Pausing twice fails the second time with `ContractPaused`, resuming twice
/// fails the second time with `ContractNotPaused`, and the administrator of a
/// running contract can pause, resume and pause again.
pub proof fn pause_switch_is_strict(state: State, caller: Identity)
    ensures
        pause_step(state, caller).0 is Ok ==> pause_step(pause_step(state, caller).1, caller).0
            == Err::<(), VIOPMigrationError>(VIOPMigrationError::ContractPaused),
        un_pause_step(state, caller).0 is Ok ==> un_pause_step(un_pause_step(state, caller).1, caller).0
            == Err::<(), VIOPMigrationError>(VIOPMigrationError::ContractNotPaused),
        !state.paused && caller@ == state.admin@ ==> {
            let s1 = pause_step(state, caller);
            let s2 = un_pause_step(s1.1, caller);
            let s3 = pause_step(s2.1, caller);
            &&& s1.0 is Ok
            &&& s2.0 is Ok
            &&& s3.0 is Ok
            &&& s3.1 == State { paused: true, ..state }
        },
{
}

/// A privileged operation by anyone but the administrator fails with
/// `Unauthorized` and changes nothing, wherever the pause check does not
/// reject it first.
pub proof fn non_admin_is_refused(state: State, record: Option<Migration>, caller: Identity)
    requires
        caller@ != state.admin@,
    ensures
        !state.paused ==> pause_step(state, caller) == (
            Err::<(), VIOPMigrationError>(VIOPMigrationError::Unauthorized),
            state,
        ),
        state.paused ==> un_pause_step(state, caller) == (
            Err::<(), VIOPMigrationError>(VIOPMigrationError::Unauthorized),
            state,
        ),
        !state.paused ==> migrate_step(record, state, caller) == (
            Err::<(), VIOPMigrationError>(VIOPMigrationError::Unauthorized),
            record,
        ),
{
}

/// `migrate` while the contract is paused fails with `ContractPaused` and
/// leaves the claim record, or its absence, as it was.
pub proof fn paused_migrate_changes_nothing(state: State, record: Option<Migration>, caller: Identity)
    requires
        state.paused,
    ensures
        migrate_step(record, state, caller) == (
            Err::<(), VIOPMigrationError>(VIOPMigrationError::ContractPaused),
            record,
        ),
{
}

/// A migration whose transfer does not go through leaves the claim record
/// exactly as it was before `migrate`, absent where it was absent, and fails
/// with `TransferFailed` holding the transfer service's error code.
pub proof fn failed_transfer_leaves_no_trace(record: Option<Migration>, state: State, caller: Identity, code: u64)
    requires
        migrate_step(record, state, caller).0 is Ok,
    ensures
        settled_record(migrate_step(record, state, caller).1, record, Err(code)) == record,
        settled_result(Err(code)) == Err::<(), VIOPMigrationError>(VIOPMigrationError::TransferFailed(code)),
{
}

} // verus!
