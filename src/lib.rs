//! A small on-chain state machine that migrates balances from an
//! administrator-controlled source to per-user destinations, each destination
//! at most once, behind a global pause switch.
//!
//! The library holds the decisions: who may act, in which state, and what
//! each record becomes. Moving the value itself is left to the caller, who is
//! handed a [`TransferOrder`] and reports back whether the transfer went through.
pub mod error;
pub mod identity;
pub mod state;
pub mod instructions;
pub mod laws;

pub use error::VIOPMigrationError;
pub use identity::{verify, Identity};
pub use instructions::{
    initialize, migrate, pause, settle_migration, un_pause, Initialize, Migrate, Pause,
    TransferOrder, UnPause,
};
pub use state::{Migration, State};
