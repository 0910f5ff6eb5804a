use vstd::prelude::*;

verus! {

/// Failure conditions of the fast price feed operations.
///
/// Authorization failures (`Forbidden`), validation failures
/// (`InvalidLength`, `InvalidPriceDuration`, the timestamp range errors,
/// `MinblockInterval`), state conflicts (`AlreadyInitialized`,
/// `AlreadyVoted`, `AlreadyEnabled`) and arithmetic failures
/// (`Computation`) are all surfaced synchronously; a failed operation
/// leaves the state exactly as it was.
#[derive(PartialEq, Eq, Debug)]
pub enum ContractError {
    Std,
    CannotMigrate { previous_contract: String },
    CannotMigrateVersion { previous_version: String },
    InvalidLength,
    Forbidden,
    InvalidPriceDuration,
    AlreadyInitialized,
    AlreadyVoted,
    AlreadyEnabled,
    TimestampBelowAllowedRange,
    TimestamExceedsAllowedRange,
    MinblockInterval,
    Computation,
}

impl ContractError {
    /// A short description of the error, usable by hosts for display.
    pub fn describe(&self) -> (r: String) {
        match self {
            ContractError::Std => "generic error".to_owned(),
            ContractError::CannotMigrate { .. } => "cannot migrate from contract".to_owned(),
            ContractError::CannotMigrateVersion { .. } => "cannot migrate from version".to_owned(),
            ContractError::InvalidLength => "invalid lengths".to_owned(),
            ContractError::Forbidden => "forbidden".to_owned(),
            ContractError::InvalidPriceDuration => "invalid priceDuration".to_owned(),
            ContractError::AlreadyInitialized => "already initialized".to_owned(),
            ContractError::AlreadyVoted => "already voted".to_owned(),
            ContractError::AlreadyEnabled => "already enabled".to_owned(),
            ContractError::TimestampBelowAllowedRange => "timestamp below allowed range".to_owned(),
            ContractError::TimestamExceedsAllowedRange => {
                "timestamp exceeds allowed range".to_owned()
            },
            ContractError::MinblockInterval => "minBlockInterval not yet passed".to_owned(),
            ContractError::Computation => "arithmetic failure".to_owned(),
        }
    }
}

} // verus!
