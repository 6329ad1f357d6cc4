use vstd::prelude::*;

verus! {

/// Errors of the deployment pipeline.
///
/// Failures that originate in outside code (the wallet client's transport,
/// the template loader, the file read) are carried as their rendered
/// diagnostic messages; the enum's shape is what callers dispatch on.
#[derive(Debug, PartialEq, Eq)]
pub enum Error {
    /// The wallet daemon could not be reached or its transport failed.
    WalletDaemonClient { message: String },
    /// The module bytes were rejected by the template loader.
    InvalidTemplate { message: String },
    /// Reading the template binary from its file path failed.
    Io { message: String },
    /// The paying account's balance cannot cover the estimated fee.
    InsufficientBalance { current: i64, fee: u64 },
    /// Waiting for the transaction to finalize timed out; the outcome is
    /// unknown, the transaction may still land later.
    WaitForTransactionTimeout { transaction_id: String },
    /// The network rejected the transaction, in whole or after taking the fee.
    InvalidTransaction { transaction_id: String, status: String, reason: String },
    /// The wait response was final but carried no result payload.
    MissingTransactionResult { transaction_id: String },
    /// The accepted state diff created no template substate.
    MissingPublishedTemplate,
    /// The service answered in a way that violates its protocol contract.
    InvalidResponse { message: String },
}

} // verus!
