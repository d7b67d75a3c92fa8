//! What the user is told about the outcome of an operation.

use vstd::prelude::*;
use vstd::string::*;
use crate::account::Account;
use crate::accounts::{DefaultOutcome, Removal};
use crate::decimal::{digits_of, push_digits};
use crate::error::LedgerError;
use crate::ledger::EditOutcome;
use crate::money::{render_spec, Money};
use crate::utils::{hint_spec, validate_tables};

verus! {

/// The summary of a created account: its name and its balance.
pub open spec fn created_spec(name: Seq<char>, balance: int) -> Seq<char> {
    "New account "@ + name + " - $"@ + render_spec(balance)
}

/// What the user is told after an account was created.
pub fn created_summary(account: &Account) -> (summary: String)
    ensures
        summary@ == created_spec(account@.name, account@.balance),
{
    let mut summary = String::from_str("New account ");
    summary.append(account.name.as_str());
    summary.append(" - $");
    let balance = account.balance.render();
    summary.append(balance.as_str());
    summary
}

/// The summary of a choice of the default account.
pub open spec fn default_spec(outcome: DefaultOutcome, name: Seq<char>) -> Seq<char> {
    match outcome {
        DefaultOutcome::Changed => "Success! The account '"@ + name + "' is now default!"@,
        DefaultOutcome::AlreadyDefault => "This is already the default account!"@,
    }
}

/// What the user is told after the default account was chosen; `name` is
/// the name of the chosen account.
pub fn default_summary(outcome: DefaultOutcome, name: &str) -> (summary: String)
    ensures
        summary@ == default_spec(outcome, name@),
{
    match outcome {
        DefaultOutcome::Changed => {
            let mut summary = String::from_str("Success! The account '");
            summary.append(name);
            summary.append("' is now default!");
            summary
        },
        DefaultOutcome::AlreadyDefault => String::from_str("This is already the default account!"),
    }
}

/// The summary of a deletion.
pub open spec fn removal_spec(removal: Removal) -> Seq<char> {
    match removal {
        Removal::DefaultProtected =>
            "You can't delete the default account unless you delete all."@,
        Removal::Removed(rows) => if rows == 0 {
            "Zero rows deleted!"@
        } else {
            "Successfully deleted "@ + digits_of(rows as nat) + " rows!"@
        },
    }
}

/// What the user is told after a deletion.
pub fn removal_summary(removal: Removal) -> (summary: String)
    ensures
        summary@ == removal_spec(removal),
{
    match removal {
        Removal::DefaultProtected => String::from_str(
            "You can't delete the default account unless you delete all.",
        ),
        Removal::Removed(rows) => {
            if rows == 0 {
                String::from_str("Zero rows deleted!")
            } else {
                let mut summary = String::from_str("Successfully deleted ");
                push_digits(&mut summary, rows as u64);
                summary.append(" rows!");
                summary
            }
        },
    }
}

/// The summary of an edit.
pub open spec fn edit_spec(updated: bool) -> Seq<char> {
    if updated {
        "Successfully updated account data!"@
    } else {
        "You must provide at least one valid argument to update! The account will keep its values."@
    }
}

/// What the user is told after an edit.
pub fn edit_summary(outcome: &EditOutcome) -> (summary: String)
    ensures
        summary@ == edit_spec(outcome is Updated),
{
    match outcome {
        EditOutcome::Updated(_) => String::from_str("Successfully updated account data!"),
        EditOutcome::NothingToUpdate => String::from_str(
            "You must provide at least one valid argument to update! The account will keep its values.",
        ),
    }
}

/// The summary of an expense that the available funds do not cover.
pub open spec fn uncovered_spec(name: Seq<char>, available: int, value: int) -> Seq<char> {
    "The account '"@ + name + "' has no money enough for this purchase! Available balance is "@
        + render_spec(available) + " and the purchase price is "@ + render_spec(value) + "."@
}

/// What the user is told about an expense of `value` that the available
/// funds of `account` do not cover.
pub fn uncovered_summary(account: &Account, value: Money) -> (summary: String)
    ensures
        summary@ == uncovered_spec(account@.name, account@.available, value@),
{
    let mut summary = String::from_str("The account '");
    summary.append(account.name.as_str());
    summary.append("' has no money enough for this purchase! Available balance is ");
    let available = account.available.render();
    summary.append(available.as_str());
    summary.append(" and the purchase price is ");
    let price = value.render();
    summary.append(price.as_str());
    summary.append(".");
    summary
}

/// The message for each error. A storage failure on `table_name` gets the
/// hint of `validate_tables`.
pub open spec fn error_spec(error: LedgerError, table_name: Seq<char>) -> Seq<char> {
    match error {
        LedgerError::NotFound => "The ID was not found or is invalid!"@,
        LedgerError::Validation => "The values given are not valid!"@,
        LedgerError::InsufficientFunds => "The account has no money enough for this purchase!"@,
        LedgerError::Consistency =>
            "Not exactly one row was updated! Please check the consistency of IDs..."@,
        LedgerError::SchemaOrIntegrity(failure) => hint_spec(failure, table_name),
        LedgerError::PartialApplication =>
            "The transaction was recorded, but the balances of its account were not updated!"@,
    }
}

/// What the user is told about an error of an operation on `table_name`.
pub fn error_summary(error: LedgerError, table_name: &str) -> (summary: String)
    ensures
        summary@ == error_spec(error, table_name@),
{
    match error {
        LedgerError::NotFound => String::from_str("The ID was not found or is invalid!"),
        LedgerError::Validation => String::from_str("The values given are not valid!"),
        LedgerError::InsufficientFunds => String::from_str(
            "The account has no money enough for this purchase!",
        ),
        LedgerError::Consistency => String::from_str(
            "Not exactly one row was updated! Please check the consistency of IDs...",
        ),
        LedgerError::SchemaOrIntegrity(failure) => validate_tables(failure, table_name),
        LedgerError::PartialApplication => String::from_str(
            "The transaction was recorded, but the balances of its account were not updated!",
        ),
    }
}

} // verus!
