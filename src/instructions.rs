use vstd::prelude::*;

use crate::error::VIOPMigrationError;
use crate::identity::{verify, Identity};
use crate::state::{fresh_migration, Migration, State};

verus! {

/// The records and caller of `initialize`. `state` is the slot of the global
/// record: `None` until the first successful `initialize`.
#[derive(Clone, Copy, Debug)]
pub struct Initialize {
    pub state: Option<State>,
    pub admin: Identity,
}

/// The records and caller of `pause`.
#[derive(Clone, Copy, Debug)]
pub struct Pause {
    pub state: State,
    pub admin: Identity,
}

/// The records and caller of `un_pause`.
#[derive(Clone, Copy, Debug)]
pub struct UnPause {
    pub state: State,
    pub admin: Identity,
}

/// The records and accounts of `migrate`. `migration` is the claim record of
/// `destination`: `None` until a migration to it is first attempted.
#[derive(Clone, Copy, Debug)]
pub struct Migrate {
    pub migration: Option<Migration>,
    pub state: State,
    /// The value-holding account of the destination.
    pub destination_ata: Identity,
    /// The value-holding account of the administrator.
    pub admin_ata: Identity,
    /// The caller.
    pub admin: Identity,
    pub destination: Identity,
}

/// The value movement that a successful `migrate` asks of the transfer service.
#[derive(Clone, Copy, Debug)]
pub struct TransferOrder {
    pub from: Identity,
    pub to: Identity,
    pub authority: Identity,
    pub amount: u64,
    /// The destination's claim record as it was before the claim, to be put
    /// back where the transfer does not go through.
    pub prior: Option<Migration>,
}

/// What `initialize` does to the slot of the global record, called by `caller`:
/// its result and the slot afterwards.
pub open spec fn initialize_step(slot: Option<State>, caller: Identity) -> (Result<(), VIOPMigrationError>, Option<State>) {
    match slot {
        Some(_) => (Err(VIOPMigrationError::AlreadyInitialized), slot),
        None => (Ok(()), Some(State { admin: caller, paused: false })),
    }
}

/// The result of `pause` on `state`, called by `caller`.
pub open spec fn pause_result(state: State, caller: Identity) -> Result<(), VIOPMigrationError> {
    if state.paused {
        Err(VIOPMigrationError::ContractPaused)
    } else if caller@ != state.admin@ {
        Err(VIOPMigrationError::Unauthorized)
    } else {
        Ok(())
    }
}

/// The result of `un_pause` on `state`, called by `caller`.
pub open spec fn un_pause_result(state: State, caller: Identity) -> Result<(), VIOPMigrationError> {
    if !state.paused {
        Err(VIOPMigrationError::ContractNotPaused)
    } else if caller@ != state.admin@ {
        Err(VIOPMigrationError::Unauthorized)
    } else {
        Ok(())
    }
}

/// Whether a claim record shows its destination as migrated already.
pub open spec fn is_claimed(record: Option<Migration>) -> bool {
    match record {
        Some(m) => m.claimed,
        None => false,
    }
}

/// Whether `migrate` by `caller` may go ahead, and which error stops it
/// otherwise: the pause check first, then the caller, then the claim.
pub open spec fn migrate_result(record: Option<Migration>, state: State, caller: Identity) -> Result<(), VIOPMigrationError> {
    if state.paused {
        Err(VIOPMigrationError::ContractPaused)
    } else if caller@ != state.admin@ {
        Err(VIOPMigrationError::Unauthorized)
    } else if is_claimed(record) {
        Err(VIOPMigrationError::AccountAlreadyClaimed)
    } else {
        Ok(())
    }
}

/// The claim record after a successful `migrate`: created if absent, and claimed.
pub open spec fn claimed_record(record: Option<Migration>) -> Migration {
    match record {
        Some(m) => Migration { claimed: true, ..m },
        None => Migration { claimed: true, ..fresh_migration() },
    }
}

/// What `pause` does to `state`, called by `caller`: its result and the
/// record afterwards.
pub open spec fn pause_step(state: State, caller: Identity) -> (Result<(), VIOPMigrationError>, State) {
    match pause_result(state, caller) {
        Ok(u) => (Ok(u), State { paused: true, ..state }),
        Err(e) => (Err(e), state),
    }
}

/// What `un_pause` does to `state`, called by `caller`: its result and the
/// record afterwards.
pub open spec fn un_pause_step(state: State, caller: Identity) -> (Result<(), VIOPMigrationError>, State) {
    match un_pause_result(state, caller) {
        Ok(u) => (Ok(u), State { paused: false, ..state }),
        Err(e) => (Err(e), state),
    }
}

/// What `migrate` by `caller` does to the claim record `record`: whether it
/// goes ahead, and the record afterwards.
pub open spec fn migrate_step(record: Option<Migration>, state: State, caller: Identity) -> (Result<(), VIOPMigrationError>, Option<Migration>) {
    match migrate_result(record, state, caller) {
        Ok(u) => (Ok(u), Some(claimed_record(record))),
        Err(e) => (Err(e), record),
    }
}

/// The claim record after the transfer of a migration was reported: the
/// claimed `record` where the value moved, else the record as it was before
/// the claim, `prior`, absent where it was absent.
pub open spec fn settled_record(record: Option<Migration>, prior: Option<Migration>, outcome: Result<(), u64>) -> Option<Migration> {
    if outcome is Ok {
        record
    } else {
        prior
    }
}

/// The result of a migration whose transfer ended with `outcome`.
pub open spec fn settled_result(outcome: Result<(), u64>) -> Result<(), VIOPMigrationError> {
    match outcome {
        Ok(u) => Ok(u),
        Err(code) => Err(VIOPMigrationError::TransferFailed(code)),
    }
}

/// Creates the global record with the caller as its permanent administrator and
/// the contract running. Fails with `AlreadyInitialized`, changing nothing,
/// where the record exists already.
pub fn initialize(ctx: &mut Initialize) -> (r: Result<(), VIOPMigrationError>)
    ensures
        (r, final(ctx).state) == initialize_step(old(ctx).state, old(ctx).admin),
        final(ctx).admin == old(ctx).admin,
{
    if ctx.state.is_some() {
        return Err(VIOPMigrationError::AlreadyInitialized);
    }
    ctx.state = Some(State::new(ctx.admin));
    Ok(())
}

/// Pauses the contract. Fails with `ContractPaused` where it is paused already,
/// and with `Unauthorized` where the caller is not the administrator; a failure
/// changes nothing.
pub fn pause(ctx: &mut Pause) -> (r: Result<(), VIOPMigrationError>)
    ensures
        (r, final(ctx).state) == pause_step(old(ctx).state, old(ctx).admin),
        final(ctx).admin == old(ctx).admin,
{
    if ctx.state.paused {
        return Err(VIOPMigrationError::ContractPaused);
    }
    verify(&ctx.admin, &ctx.state.admin)?;
    ctx.state.paused = true;
    Ok(())
}

/// Resumes the contract. Fails with `ContractNotPaused` where it is running,
/// and with `Unauthorized` where the caller is not the administrator; a failure
/// changes nothing.
pub fn un_pause(ctx: &mut UnPause) -> (r: Result<(), VIOPMigrationError>)
    ensures
        (r, final(ctx).state) == un_pause_step(old(ctx).state, old(ctx).admin),
        final(ctx).admin == old(ctx).admin,
{
    if !ctx.state.paused {
        return Err(VIOPMigrationError::ContractNotPaused);
    }
    verify(&ctx.admin, &ctx.state.admin)?;
    ctx.state.paused = false;
    Ok(())
}

/// Claims the destination's migration and returns the transfer that moves
/// `amount` from the administrator's account to the destination's, with the
/// administrator as authority. Checks, in this order, that the contract is
/// running, that the caller is the administrator and that the destination is
/// unclaimed; a failure changes nothing. The claim is recorded before the
/// transfer is made; `settle_migration` reports how the transfer went.
pub fn migrate(ctx: &mut Migrate, amount: u64) -> (r: Result<TransferOrder, VIOPMigrationError>)
    ensures
        r is Ok <==> migrate_step(old(ctx).migration, old(ctx).state, old(ctx).admin).0 is Ok,
        r is Err ==> r->Err_0 == migrate_step(old(ctx).migration, old(ctx).state, old(ctx).admin).0->Err_0,
        *final(ctx) == (Migrate {
            migration: migrate_step(old(ctx).migration, old(ctx).state, old(ctx).admin).1,
            ..*old(ctx)
        }),
        r is Ok ==> r->Ok_0 == (TransferOrder {
            from: old(ctx).admin_ata,
            to: old(ctx).destination_ata,
            authority: old(ctx).admin,
            amount,
            prior: old(ctx).migration,
        }),
{
    if ctx.state.paused {
        return Err(VIOPMigrationError::ContractPaused);
    }
    verify(&ctx.admin, &ctx.state.admin)?;
    let prior = ctx.migration;
    let mut record = match ctx.migration {
        Some(m) => {
            if m.claimed {
                return Err(VIOPMigrationError::AccountAlreadyClaimed);
            }
            m
        },
        None => Migration::new(),
    };
    record.claimed = true;
    ctx.migration = Some(record);
    Ok(TransferOrder { from: ctx.admin_ata, to: ctx.destination_ata, authority: ctx.admin, amount, prior })
}

/// Records how the transfer of `order` went. Where the value moved the claim
/// stays. Where it did not, the claim record is put back as it was before
/// `migrate` (absent where it was absent), so the migration leaves no trace
/// and can be attempted again, and it fails with `TransferFailed`, which holds
/// the transfer service's error code.
pub fn settle_migration(ctx: &mut Migrate, order: &TransferOrder, outcome: Result<(), u64>) -> (r: Result<(), VIOPMigrationError>)
    ensures
        r == settled_result(outcome),
        *final(ctx) == (Migrate { migration: settled_record(old(ctx).migration, order.prior, outcome), ..*old(ctx) }),
{
    match outcome {
        Ok(()) => Ok(()),
        Err(code) => {
            ctx.migration = order.prior;
            Err(VIOPMigrationError::TransferFailed(code))
        },
    }
}

} // verus!
