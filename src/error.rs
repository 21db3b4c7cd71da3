use vstd::prelude::*;

verus! {

/// Every way an operation can be rejected. Each rejection is terminal: no
/// operation retries or recovers on its own.
#[derive(Clone, Copy, Debug, PartialEq, Eq, Structural)]
pub enum VIOPMigrationError {
    /// The operation needs the contract running, and it is paused.
    ContractPaused,
    /// The operation needs the contract paused, and it is running.
    ContractNotPaused,
    /// The caller is not the administrator.
    Unauthorized,
    /// The destination has already received its migration.
    AccountAlreadyClaimed,
    /// The global record exists already.
    AlreadyInitialized,
    /// The value transfer for a migration did not go through; holds the
    /// transfer service's own error code.
    TransferFailed(u64),
}

/// The human-readable message of each error.
pub open spec fn error_message(e: VIOPMigrationError) -> Seq<char> {
    match e {
        VIOPMigrationError::ContractPaused => "Contract is paused"@,
        VIOPMigrationError::ContractNotPaused => "Contract is not paused"@,
        VIOPMigrationError::Unauthorized => "Unauthorized access"@,
        VIOPMigrationError::AccountAlreadyClaimed => "Account already used to migrate token"@,
        VIOPMigrationError::AlreadyInitialized => "Contract is already initialized"@,
        VIOPMigrationError::TransferFailed(_) => "Token transfer failed"@,
    }
}

impl VIOPMigrationError {
    /// The human-readable message of the error.
    pub fn message(&self) -> (r: &'static str)
        ensures
            r@ == error_message(*self),
    {
        match self {
            VIOPMigrationError::ContractPaused => "Contract is paused",
            VIOPMigrationError::ContractNotPaused => "Contract is not paused",
            VIOPMigrationError::Unauthorized => "Unauthorized access",
            VIOPMigrationError::AccountAlreadyClaimed => "Account already used to migrate token",
            VIOPMigrationError::AlreadyInitialized => "Contract is already initialized",
            VIOPMigrationError::TransferFailed(_) => "Token transfer failed",
        }
    }
}

} // verus!
