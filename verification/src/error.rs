//! The typed errors that every ledger operation can return.

use vstd::prelude::*;

verus! {

/// Why the storage layer rejected a statement.
#[derive(Clone, Copy, Debug, PartialEq, Eq, Structural)]
pub enum StorageFailure {
    /// The table named by the statement does not exist yet.
    MissingTable,
    /// A referential constraint was violated.
    ForeignKey,
    /// Any other rejection.
    Other,
}

/// The one error type of the ledger operations.
#[derive(Clone, Copy, Debug, PartialEq, Eq, Structural)]
pub enum LedgerError {
    /// The referenced account or transaction does not exist.
    NotFound,
    /// Malformed or out-of-range input; nothing was persisted.
    Validation,
    /// An outgoing transaction exceeds the available funds and was not forced.
    InsufficientFunds,
    /// A statement touched zero or several rows where exactly one was expected.
    Consistency,
    /// The storage layer rejected a statement.
    SchemaOrIntegrity(StorageFailure),
    /// A transaction was recorded but the balances of its account were not updated.
    PartialApplication,
}

/// Holds a statement that was meant for one row to the number of rows it
/// touched: any other number than one is a `Consistency` error.
pub fn check_rows_affected(rows: usize) -> (checked: Result<(), LedgerError>)
    ensures
        checked == if rows == 1 {
            Ok::<(), LedgerError>(())
        } else {
            Err::<(), LedgerError>(LedgerError::Consistency)
        },
{
    if rows == 1 {
        Ok(())
    } else {
        Err(LedgerError::Consistency)
    }
}

/// The error of a posting that the storage layer interrupted. Before the
/// transaction was recorded nothing has happened and the storage failure
/// itself is reported; once it was recorded, the balances are behind it and
/// the posting is reported as partially applied.
pub fn posting_failure(transaction_recorded: bool, failure: StorageFailure) -> (error: LedgerError)
    ensures
        error == if transaction_recorded {
            LedgerError::PartialApplication
        } else {
            LedgerError::SchemaOrIntegrity(failure)
        },
{
    if transaction_recorded {
        LedgerError::PartialApplication
    } else {
        LedgerError::SchemaOrIntegrity(failure)
    }
}

} // verus!
