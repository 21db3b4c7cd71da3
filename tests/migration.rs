use voip_migration::{
    initialize, migrate, pause, settle_migration, un_pause, verify, Identity, Initialize, Migrate,
    Migration, Pause, State, UnPause, VIOPMigrationError,
};

fn id(b: u8) -> Identity {
    Identity::new([b; 32])
}

fn running(admin: Identity) -> State {
    let mut ctx = Initialize { state: None, admin };
    initialize(&mut ctx).unwrap();
    ctx.state.unwrap()
}

fn migrate_ctx(migration: Option<Migration>, state: State, caller: Identity, destination: Identity) -> Migrate {
    Migrate {
        migration,
        state,
        destination_ata: id(200),
        admin_ata: id(100),
        admin: caller,
        destination,
    }
}

fn do_pause(state: &mut State, caller: Identity) -> Result<(), VIOPMigrationError> {
    let mut ctx = Pause { state: *state, admin: caller };
    let r = pause(&mut ctx);
    *state = ctx.state;
    r
}

fn do_un_pause(state: &mut State, caller: Identity) -> Result<(), VIOPMigrationError> {
    let mut ctx = UnPause { state: *state, admin: caller };
    let r = un_pause(&mut ctx);
    *state = ctx.state;
    r
}

#[test]
fn initialize_makes_caller_admin() {
    let a = id(1);
    let state = running(a);
    assert_eq!(state.admin.to_bytes(), [1u8; 32]);
    assert!(!state.paused);
}

#[test]
fn second_initialize_fails() {
    let mut ctx = Initialize { state: None, admin: id(1) };
    assert_eq!(initialize(&mut ctx), Ok(()));
    ctx.admin = id(2);
    assert_eq!(initialize(&mut ctx), Err(VIOPMigrationError::AlreadyInitialized));
    assert_eq!(ctx.state.unwrap().admin.to_bytes(), [1u8; 32]);
    ctx.admin = id(1);
    assert_eq!(initialize(&mut ctx), Err(VIOPMigrationError::AlreadyInitialized));
}

#[test]
fn verify_compares_all_bytes() {
    let a = id(7);
    let mut b_bytes = [7u8; 32];
    assert_eq!(verify(&a, &Identity::new(b_bytes)), Ok(()));
    b_bytes[31] = 8;
    assert_eq!(verify(&a, &Identity::new(b_bytes)), Err(VIOPMigrationError::Unauthorized));
    let mut c_bytes = [7u8; 32];
    c_bytes[0] = 0;
    assert_eq!(verify(&a, &Identity::new(c_bytes)), Err(VIOPMigrationError::Unauthorized));
    assert!(a.same_as(&id(7)));
    assert!(!a.same_as(&id(6)));
}

#[test]
fn pause_twice_fails() {
    let a = id(1);
    let mut state = running(a);
    assert_eq!(do_pause(&mut state, a), Ok(()));
    assert!(state.paused);
    assert_eq!(do_pause(&mut state, a), Err(VIOPMigrationError::ContractPaused));
    assert!(state.paused);
}

#[test]
fn un_pause_twice_fails() {
    let a = id(1);
    let mut state = running(a);
    assert_eq!(do_un_pause(&mut state, a), Err(VIOPMigrationError::ContractNotPaused));
    assert_eq!(do_pause(&mut state, a), Ok(()));
    assert_eq!(do_un_pause(&mut state, a), Ok(()));
    assert!(!state.paused);
    assert_eq!(do_un_pause(&mut state, a), Err(VIOPMigrationError::ContractNotPaused));
}

#[test]
fn pause_un_pause_pause_all_succeed() {
    let a = id(1);
    let mut state = running(a);
    assert_eq!(do_pause(&mut state, a), Ok(()));
    assert_eq!(do_un_pause(&mut state, a), Ok(()));
    assert_eq!(do_pause(&mut state, a), Ok(()));
    assert!(state.paused);
    assert_eq!(state.admin.to_bytes(), [1u8; 32]);
}

#[test]
fn non_admin_is_unauthorized_everywhere() {
    let a = id(1);
    let b = id(2);
    let mut state = running(a);
    assert_eq!(do_pause(&mut state, b), Err(VIOPMigrationError::Unauthorized));
    assert!(!state.paused);

    let mut ctx = migrate_ctx(None, state, b, id(9));
    assert_eq!(migrate(&mut ctx, 10).err(), Some(VIOPMigrationError::Unauthorized));
    assert!(ctx.migration.is_none());

    let record = Some(Migration { current_index: 3, claimed: false });
    let mut ctx = migrate_ctx(record, state, b, id(9));
    assert_eq!(migrate(&mut ctx, 10).err(), Some(VIOPMigrationError::Unauthorized));
    assert!(!ctx.migration.unwrap().claimed);

    assert_eq!(do_pause(&mut state, a), Ok(()));
    assert_eq!(do_un_pause(&mut state, b), Err(VIOPMigrationError::Unauthorized));
    assert!(state.paused);
}

#[test]
fn paused_check_comes_before_caller_check() {
    let a = id(1);
    let b = id(2);
    let mut state = running(a);
    assert_eq!(do_pause(&mut state, a), Ok(()));
    assert_eq!(do_pause(&mut state, b), Err(VIOPMigrationError::ContractPaused));
    let mut ctx = migrate_ctx(None, state, b, id(9));
    assert_eq!(migrate(&mut ctx, 1).err(), Some(VIOPMigrationError::ContractPaused));
}

#[test]
fn paused_migrate_leaves_record_unchanged() {
    let a = id(1);
    let mut state = running(a);
    assert_eq!(do_pause(&mut state, a), Ok(()));
    let record = Some(Migration { current_index: 5, claimed: false });
    let mut ctx = migrate_ctx(record, state, a, id(9));
    assert_eq!(migrate(&mut ctx, 10).err(), Some(VIOPMigrationError::ContractPaused));
    let m = ctx.migration.unwrap();
    assert!(!m.claimed);
    assert_eq!(m.current_index, 5);
}

#[test]
fn scenario_migrate_once_per_destination() {
    let a = id(1);
    let b = id(2);
    let x = id(10);
    let y = id(11);
    let state = running(a);

    let mut ctx = migrate_ctx(None, state, a, x);
    let order = migrate(&mut ctx, 100).unwrap();
    assert_eq!(order.amount, 100);
    assert_eq!(order.from.to_bytes(), [100u8; 32]);
    assert_eq!(order.to.to_bytes(), [200u8; 32]);
    assert_eq!(order.authority.to_bytes(), [1u8; 32]);
    assert_eq!(settle_migration(&mut ctx, &order, Ok(())), Ok(()));
    assert!(ctx.migration.unwrap().claimed);

    assert_eq!(migrate(&mut ctx, 50).err(), Some(VIOPMigrationError::AccountAlreadyClaimed));
    assert!(ctx.migration.unwrap().claimed);

    let mut other = migrate_ctx(None, state, b, y);
    assert_eq!(migrate(&mut other, 10).err(), Some(VIOPMigrationError::Unauthorized));
    assert!(other.migration.is_none());
}

#[test]
fn scenario_pause_blocks_migration() {
    let a = id(1);
    let z = id(12);
    let mut state = running(a);
    assert_eq!(do_pause(&mut state, a), Ok(()));
    assert!(state.paused);

    let mut ctx = migrate_ctx(None, state, a, z);
    assert_eq!(migrate(&mut ctx, 10).err(), Some(VIOPMigrationError::ContractPaused));
    assert!(ctx.migration.is_none());

    assert_eq!(do_un_pause(&mut state, a), Ok(()));
    ctx.state = state;
    let order = migrate(&mut ctx, 10).unwrap();
    assert_eq!(order.amount, 10);
    assert!(ctx.migration.unwrap().claimed);
}

#[test]
fn zero_amount_still_consumes_claim() {
    let a = id(1);
    let state = running(a);
    let mut ctx = migrate_ctx(None, state, a, id(3));
    let order = migrate(&mut ctx, 0).unwrap();
    assert_eq!(order.amount, 0);
    assert_eq!(settle_migration(&mut ctx, &order, Ok(())), Ok(()));
    assert_eq!(migrate(&mut ctx, 5).err(), Some(VIOPMigrationError::AccountAlreadyClaimed));
}

#[test]
fn largest_amount_passes_through() {
    let a = id(1);
    let state = running(a);
    let mut ctx = migrate_ctx(None, state, a, id(3));
    assert_eq!(migrate(&mut ctx, u64::MAX).unwrap().amount, u64::MAX);
}

#[test]
fn existing_unclaimed_record_keeps_reserved_field() {
    let a = id(1);
    let state = running(a);
    let record = Some(Migration { current_index: 42, claimed: false });
    let mut ctx = migrate_ctx(record, state, a, id(3));
    assert!(migrate(&mut ctx, 1).is_ok());
    let m = ctx.migration.unwrap();
    assert!(m.claimed);
    assert_eq!(m.current_index, 42);
}

#[test]
fn failed_transfer_removes_new_record() {
    let a = id(1);
    let state = running(a);
    let mut ctx = migrate_ctx(None, state, a, id(3));
    let order = migrate(&mut ctx, 7).unwrap();
    assert!(order.prior.is_none());
    assert!(ctx.migration.unwrap().claimed);
    assert_eq!(
        settle_migration(&mut ctx, &order, Err(17)),
        Err(VIOPMigrationError::TransferFailed(17))
    );
    assert!(ctx.migration.is_none());
    let order = migrate(&mut ctx, 7).unwrap();
    assert_eq!(settle_migration(&mut ctx, &order, Ok(())), Ok(()));
    assert!(ctx.migration.unwrap().claimed);
    assert_eq!(migrate(&mut ctx, 7).err(), Some(VIOPMigrationError::AccountAlreadyClaimed));
}

#[test]
fn failed_transfer_restores_existing_record() {
    let a = id(1);
    let state = running(a);
    let record = Some(Migration { current_index: 9, claimed: false });
    let mut ctx = migrate_ctx(record, state, a, id(3));
    let order = migrate(&mut ctx, 7).unwrap();
    assert_eq!(
        settle_migration(&mut ctx, &order, Err(4)),
        Err(VIOPMigrationError::TransferFailed(4))
    );
    let m = ctx.migration.unwrap();
    assert!(!m.claimed);
    assert_eq!(m.current_index, 9);
}

#[test]
fn fresh_record_is_unclaimed() {
    let m = Migration::new();
    assert!(!m.claimed);
    assert_eq!(m.current_index, 0);
    let s = State::new(id(4));
    assert!(!s.paused);
    assert_eq!(s.admin.to_bytes(), [4u8; 32]);
}

#[test]
fn error_messages() {
    assert_eq!(VIOPMigrationError::ContractPaused.message(), "Contract is paused");
    assert_eq!(VIOPMigrationError::ContractNotPaused.message(), "Contract is not paused");
    assert_eq!(VIOPMigrationError::Unauthorized.message(), "Unauthorized access");
    assert_eq!(
        VIOPMigrationError::AccountAlreadyClaimed.message(),
        "Account already used to migrate token"
    );
    assert_eq!(VIOPMigrationError::AlreadyInitialized.message(), "Contract is already initialized");
    assert_eq!(VIOPMigrationError::TransferFailed(3).message(), "Token transfer failed");
}
