//! The ledger and its operations: create, edit and delete accounts, choose
//! the default account, post transactions, list what is recorded.
//!
//! Every operation takes a well-formed ledger to a well-formed ledger and
//! either succeeds or leaves the ledger exactly as it was.

use vstd::prelude::*;
use vstd::string::*;
use crate::account::{holdable, posted, rebalanced, Account, AccountView, FlowType, Posting};
use crate::accounts::{
    default_outcome, default_row, default_state, has_id, inserted_row, lemma_row_of, next_id,
    removal_outcome, removal_state, row_of, updated, views, well_formed, AccountRepository,
    DefaultOutcome, Removal,
};
use crate::calendar::{day_of_stamp_spec, julian_day_of_stamp};
use crate::error::{LedgerError, StorageFailure};
use crate::money::Money;
use crate::transaction::{Transaction, TransactionView};
use crate::transactions::{
    entry_views, next_entry_id, well_formed_entries, without_entry, TransactionRepository,
};
use crate::utils::str_equals;

verus! {

/// The accounts and the transactions recorded against them.
pub struct Ledger {
    /// The accounts, one of which is the default while there is any.
    pub accounts: AccountRepository,
    /// The transactions, in the order in which they were recorded.
    pub transactions: TransactionRepository,
}

/// What a ledger holds, as plain mathematical values: the account rows and
/// the transaction rows, each in ascending order of their ids.
pub struct LedgerView {
    pub accounts: Seq<AccountView>,
    pub entries: Seq<TransactionView>,
}

impl View for Ledger {
    type V = LedgerView;

    open spec fn view(&self) -> LedgerView {
        LedgerView { accounts: self.accounts@, entries: self.transactions@ }
    }
}

/// What `account_edit` did.
#[derive(Debug)]
pub enum EditOutcome {
    /// The account was updated and is now as given.
    Updated(Account),
    /// Neither a name nor a balance was supplied; nothing was changed.
    NothingToUpdate,
}

/// What `list` returns: the rows of the table that was asked for.
#[derive(Debug)]
pub enum Listing {
    /// Rows of the table `accounts`.
    Accounts(Vec<Account>),
    /// Rows of the table `transactions`.
    Transactions(Vec<Transaction>),
}

/// The row of the account that an operation targets: the one with the given
/// id, or the default account where no id is given.
pub open spec fn target_row(rows: Seq<AccountView>, opt_id: Option<i64>) -> Option<int> {
    match opt_id {
        Some(id) => if has_id(rows, id as int) {
            Some(row_of(rows, id as int))
        } else {
            None
        },
        None => if rows.len() > 0 {
            Some(default_row(rows))
        } else {
            None
        },
    }
}

/// The characters of an optional text.
pub open spec fn text_view(text: Option<&str>) -> Option<Seq<char>> {
    match text {
        Some(t) => Some(t@),
        None => None,
    }
}

/// The minor units of an optional amount.
pub open spec fn amount_view(amount: Option<Money>) -> Option<int> {
    match amount {
        Some(a) => Some(a@),
        None => None,
    }
}

/// Whether an account may be created: it needs a name, a balance that is
/// not negative, and an id that is left.
pub open spec fn create_verdict(rows: Seq<AccountView>, name: Seq<char>, balance: int) -> Result<
    (),
    LedgerError,
> {
    if name.len() == 0 || balance < 0 {
        Err(LedgerError::Validation)
    } else if next_id(rows) > i64::MAX {
        Err(LedgerError::SchemaOrIntegrity(StorageFailure::Other))
    } else {
        Ok(())
    }
}

/// The account after an edit: the new name where one is given, and where a
/// new balance is given, `available` moved by the same difference as `balance`.
pub open spec fn edited(
    account: AccountView,
    name: Option<Seq<char>>,
    balance: Option<int>,
) -> AccountView {
    let renamed = match name {
        Some(n) => AccountView { name: n, ..account },
        None => account,
    };
    match balance {
        Some(b) => rebalanced(renamed, b),
        None => renamed,
    }
}

/// Whether an edit goes through, and on which row: `Ok(Some(row))` where
/// the account in that row is updated, `Ok(None)` where neither a name nor
/// a balance was supplied, else the error. A missing account comes before
/// everything else.
pub open spec fn edit_verdict(
    rows: Seq<AccountView>,
    id: int,
    name: Option<Seq<char>>,
    balance: Option<int>,
) -> Result<Option<int>, LedgerError> {
    if !has_id(rows, id) {
        Err(LedgerError::NotFound)
    } else if name is None && balance is None {
        Ok(None)
    } else if name matches Some(n) && n.len() == 0 {
        Err(LedgerError::Validation)
    } else if !holdable(edited(rows[row_of(rows, id)], name, balance)) {
        Err(LedgerError::Validation)
    } else {
        Ok(Some(row_of(rows, id)))
    }
}

/// What a deletion of accounts reports: all accounts go where that is asked
/// for; else the account with the given id goes unless it is the default;
/// no target at all is invalid.
pub open spec fn delete_verdict(rows: Seq<AccountView>, opt_id: Option<i64>, delete_all: bool) -> Result<
    Removal,
    LedgerError,
> {
    if delete_all {
        Ok(Removal::Removed(rows.len() as usize))
    } else {
        match opt_id {
            Some(id) => Ok(removal_outcome(rows, id as int)),
            None => Err(LedgerError::Validation),
        }
    }
}

/// The account rows after a deletion of accounts.
pub open spec fn delete_state(rows: Seq<AccountView>, opt_id: Option<i64>, delete_all: bool) -> Seq<
    AccountView,
> {
    if delete_all {
        Seq::empty()
    } else {
        match opt_id {
            Some(id) => removal_state(rows, id as int),
            None => rows,
        }
    }
}

/// The transaction rows after a deletion of transactions.
pub open spec fn entries_after_delete(
    entries: Seq<TransactionView>,
    opt_id: Option<i64>,
    delete_all: bool,
) -> Seq<TransactionView> {
    if delete_all {
        Seq::empty()
    } else {
        match opt_id {
            Some(id) => without_entry(entries, id as int),
            None => entries,
        }
    }
}

/// Whether a posting goes through, and against which row. The checks come
/// in this order: the account must exist, the value must be at least one
/// minor unit, an outgoing value must be covered by the available funds
/// unless forced, the new balances must be holdable, and an id must be left.
pub open spec fn post_verdict(
    ledger: LedgerView,
    posting: Posting,
    force_price: bool,
    opt_id_account: Option<i64>,
) -> Result<int, LedgerError> {
    match target_row(ledger.accounts, opt_id_account) {
        None => Err(LedgerError::NotFound),
        Some(row) => if posting.value < 1 {
            Err(LedgerError::Validation)
        } else if posting.flow == FlowType::Outgoing && posting.value
            > ledger.accounts[row].available && !force_price {
            Err(LedgerError::InsufficientFunds)
        } else if !holdable(posted(ledger.accounts[row], posting)) {
            Err(LedgerError::Validation)
        } else if next_entry_id(ledger.entries) > i64::MAX {
            Err(LedgerError::SchemaOrIntegrity(StorageFailure::Other))
        } else {
            Ok(row)
        },
    }
}

/// The transaction that a posting against the account in row `row` records.
pub open spec fn posted_entry(
    ledger: LedgerView,
    row: int,
    message: Seq<char>,
    posting: Posting,
    date: int,
) -> TransactionView {
    TransactionView {
        id: next_entry_id(ledger.entries),
        message,
        value: posting.value,
        date,
        charged: posting.charged,
        flow_type: posting.flow,
        id_account: ledger.accounts[row].id,
    }
}

/// The ledger after a posting against the account in row `row`: the
/// transaction is recorded and the balances of that account follow it.
pub open spec fn post_state(
    ledger: LedgerView,
    row: int,
    message: Seq<char>,
    posting: Posting,
    date: int,
) -> LedgerView {
    LedgerView {
        accounts: ledger.accounts.update(row, posted(ledger.accounts[row], posting)),
        entries: ledger.entries.push(posted_entry(ledger, row, message, posting, date)),
    }
}

/// How many rows a listing with the requested count shows: a negative
/// count asks for all rows.
pub open spec fn listed_len(count: i64, len: nat) -> int {
    if count < 0 || count > len {
        len as int
    } else {
        count as int
    }
}

impl Ledger {
    /// The invariant of the ledger: both repositories are well-formed.
    pub open spec fn wf(&self) -> bool {
        self.accounts.wf() && self.transactions.wf()
    }

    /// A ledger without accounts and transactions.
    pub fn new() -> (ledger: Ledger)
        ensures
            ledger.wf(),
            ledger@.accounts == Seq::<AccountView>::empty(),
            ledger@.entries == Seq::<TransactionView>::empty(),
    {
        Ledger { accounts: AccountRepository::new(), transactions: TransactionRepository::new() }
    }

    /// The ledger that holds the stored rows, or `Consistency` where the
    /// rows break the invariant of their table.
    pub fn from_rows(accounts: Vec<Account>, transactions: Vec<Transaction>) -> (ledger: Result<
        Ledger,
        LedgerError,
    >)
        ensures
            ledger is Ok <==> well_formed(views(accounts@)) && well_formed_entries(
                entry_views(transactions@),
            ),
            ledger matches Ok(l) ==> l.wf() && l@.accounts == views(accounts@) && l@.entries
                == entry_views(transactions@),
            ledger matches Err(e) ==> e == LedgerError::Consistency,
    {
        let accounts = match AccountRepository::from_rows(accounts) {
            Ok(accounts) => accounts,
            Err(e) => {
                return Err(e);
            },
        };
        let transactions = match TransactionRepository::from_rows(transactions) {
            Ok(transactions) => transactions,
            Err(e) => {
                return Err(e);
            },
        };
        Ok(Ledger { accounts, transactions })
    }
}

/// The account that an operation targets: the one with the given id, or the
/// default account where no id is given. `NotFound` where there is none.
pub fn select_account(ledger: &Ledger, opt_id: Option<i64>) -> (selected: Result<
    Account,
    LedgerError,
>)
    requires
        ledger.wf(),
    ensures
        match selected {
            Ok(account) => {
                &&& target_row(ledger@.accounts, opt_id) matches Some(row)
                &&& 0 <= row < ledger@.accounts.len()
                &&& account@ == ledger@.accounts[row]
            },
            Err(e) => e == LedgerError::NotFound && target_row(ledger@.accounts, opt_id) is None,
        },
{
    match opt_id {
        Some(id) => ledger.accounts.find_by_id(id),
        None => ledger.accounts.find_default(),
    }
}

/// Overwrites name, balance and available funds of the stored account with
/// the id of `account`; `Consistency` where no account has that id.
pub fn update_account(ledger: &mut Ledger, account: &Account) -> (done: Result<(), LedgerError>)
    requires
        old(ledger).wf(),
    ensures
        final(ledger).wf(),
        final(ledger)@.entries == old(ledger)@.entries,
        match done {
            Ok(_) => has_id(old(ledger)@.accounts, account@.id) && final(ledger)@.accounts
                == updated(old(ledger)@.accounts, account@),
            Err(e) => !has_id(old(ledger)@.accounts, account@.id) && e == LedgerError::Consistency
                && final(ledger)@.accounts == old(ledger)@.accounts,
        },
{
    ledger.accounts.update(account)
}

/// Creates an account with both balances at `balance`. The name must not be
/// empty and the balance not negative. The first account of a ledger becomes
/// its default account.
pub fn new_account(ledger: &mut Ledger, name: &str, balance: Money) -> (created: Result<
    Account,
    LedgerError,
>)
    requires
        old(ledger).wf(),
    ensures
        final(ledger).wf(),
        final(ledger)@.entries == old(ledger)@.entries,
        match created {
            Ok(account) => {
                &&& create_verdict(old(ledger)@.accounts, name@, balance@) is Ok
                &&& account@ == inserted_row(old(ledger)@.accounts, name@, balance@)
                &&& final(ledger)@.accounts == old(ledger)@.accounts.push(account@)
            },
            Err(e) => {
                &&& create_verdict(old(ledger)@.accounts, name@, balance@) == Err::<
                    (),
                    LedgerError,
                >(e)
                &&& final(ledger)@.accounts == old(ledger)@.accounts
            },
        },
{
    if name.unicode_len() == 0 || balance.cents() < 0 {
        return Err(LedgerError::Validation);
    }
    ledger.accounts.insert(name, balance)
}

/// Makes the account with the id the default account. Doing so for the
/// account that is the default already changes nothing and says so.
pub fn account_default(ledger: &mut Ledger, id: i64) -> (outcome: Result<
    DefaultOutcome,
    LedgerError,
>)
    requires
        old(ledger).wf(),
    ensures
        final(ledger).wf(),
        final(ledger)@.entries == old(ledger)@.entries,
        outcome == default_outcome(old(ledger)@.accounts, id as int),
        final(ledger)@.accounts == default_state(old(ledger)@.accounts, id as int),
{
    ledger.accounts.set_default(id)
}

/// Edits the account with the id: a new name, a corrected balance, or both.
/// A corrected balance moves `available` by the same difference. An empty
/// name and balances that cannot be held are refused.
pub fn account_edit(
    ledger: &mut Ledger,
    id: i64,
    opt_name: Option<&str>,
    opt_balance: Option<Money>,
) -> (outcome: Result<EditOutcome, LedgerError>)
    requires
        old(ledger).wf(),
    ensures
        final(ledger).wf(),
        final(ledger)@.entries == old(ledger)@.entries,
        ({
            let rows = old(ledger)@.accounts;
            let name = text_view(opt_name);
            let balance = amount_view(opt_balance);
            match outcome {
                Ok(EditOutcome::Updated(account)) => {
                    &&& edit_verdict(rows, id as int, name, balance) matches Ok(Some(row))
                    &&& account@ == edited(rows[row], name, balance)
                    &&& final(ledger)@.accounts == rows.update(row, account@)
                },
                Ok(EditOutcome::NothingToUpdate) => {
                    &&& edit_verdict(rows, id as int, name, balance) == Ok::<
                        Option<int>,
                        LedgerError,
                    >(None)
                    &&& final(ledger)@.accounts == rows
                },
                Err(e) => {
                    &&& edit_verdict(rows, id as int, name, balance) == Err::<
                        Option<int>,
                        LedgerError,
                    >(e)
                    &&& final(ledger)@.accounts == rows
                },
            }
        }),
{
    let found = match ledger.accounts.find_by_id(id) {
        Ok(account) => account,
        Err(e) => {
            return Err(e);
        },
    };
    if opt_name.is_none() && opt_balance.is_none() {
        return Ok(EditOutcome::NothingToUpdate);
    }
    let renamed = match opt_name {
        Some(name) => {
            if name.unicode_len() == 0 {
                return Err(LedgerError::Validation);
            }
            Account {
                id: found.id,
                name: String::from_str(name),
                balance: found.balance,
                available: found.available,
                default: found.default,
            }
        },
        None => found,
    };
    let account = match opt_balance {
        Some(balance) => match renamed.rebalance(balance) {
            Ok(account) => account,
            Err(e) => {
                return Err(e);
            },
        },
        None => renamed,
    };
    let done = ledger.accounts.update(&account);
    match done {
        Ok(()) => Ok(EditOutcome::Updated(account)),
        Err(e) => Err(e),
    }
}

/// Deletes the account with the id, or all accounts. The default account is
/// protected unless all accounts are deleted together. Asking for neither an
/// id nor all accounts is invalid.
pub fn account_delete(ledger: &mut Ledger, opt_id: Option<i64>, delete_all: bool) -> (outcome:
    Result<Removal, LedgerError>)
    requires
        old(ledger).wf(),
    ensures
        final(ledger).wf(),
        final(ledger)@.entries == old(ledger)@.entries,
        outcome == delete_verdict(old(ledger)@.accounts, opt_id, delete_all),
        final(ledger)@.accounts == delete_state(old(ledger)@.accounts, opt_id, delete_all),
{
    if delete_all {
        Ok(Removal::Removed(ledger.accounts.delete_all()))
    } else {
        match opt_id {
            Some(id) => Ok(ledger.accounts.delete(id)),
            None => Err(LedgerError::Validation),
        }
    }
}

/// Deletes the transaction with the id, or all transactions, and says how
/// many rows were removed. Asking for neither is invalid.
pub fn transaction_delete(ledger: &mut Ledger, opt_id: Option<i64>, delete_all: bool) -> (outcome:
    Result<usize, LedgerError>)
    requires
        old(ledger).wf(),
    ensures
        final(ledger).wf(),
        final(ledger)@.accounts == old(ledger)@.accounts,
        final(ledger)@.entries == entries_after_delete(old(ledger)@.entries, opt_id, delete_all),
        match outcome {
            Ok(removed) => (delete_all || opt_id is Some) && removed == old(ledger)@.entries.len()
                - final(ledger)@.entries.len(),
            Err(e) => !delete_all && opt_id is None && e == LedgerError::Validation,
        },
{
    if delete_all {
        Ok(ledger.transactions.delete_all())
    } else {
        match opt_id {
            Some(id) => Ok(ledger.transactions.delete(id)),
            None => Err(LedgerError::Validation),
        }
    }
}

/// Checks a posting against the ledger without changing anything: whether
/// it would go through, in the order of `post_verdict`, and how its account
/// would stand afterwards.
pub fn check_posting(
    ledger: &Ledger,
    value: Money,
    flow_type: FlowType,
    charged: bool,
    force_price: bool,
    opt_id_account: Option<i64>,
) -> (checked: Result<Account, LedgerError>)
    requires
        ledger.wf(),
    ensures
        ({
            let posting = Posting { value: value@, flow: flow_type, charged };
            match checked {
                Ok(after) => {
                    &&& post_verdict(ledger@, posting, force_price, opt_id_account) matches Ok(row)
                    &&& 0 <= row < ledger@.accounts.len()
                    &&& after@ == posted(ledger@.accounts[row], posting)
                },
                Err(e) => post_verdict(ledger@, posting, force_price, opt_id_account) == Err::<
                    int,
                    LedgerError,
                >(e),
            }
        }),
{
    let account = match select_account(ledger, opt_id_account) {
        Ok(account) => account,
        Err(e) => {
            return Err(e);
        },
    };
    if value.cents() < 1 {
        return Err(LedgerError::Validation);
    }
    match flow_type {
        FlowType::Outgoing => {
            if value.cents() > account.available.cents() && !force_price {
                return Err(LedgerError::InsufficientFunds);
            }
        },
        FlowType::Incoming => {},
    }
    let after = match account.post(flow_type, value, charged) {
        Ok(after) => after,
        Err(e) => {
            return Err(e);
        },
    };
    match ledger.transactions.next_id() {
        Some(_) => Ok(after),
        None => Err(LedgerError::SchemaOrIntegrity(StorageFailure::Other)),
    }
}

/// Posts a transaction dated `date` against the account with the given id,
/// or against the default account where no id is given. On success the
/// transaction is recorded and the balances of the account follow it; on
/// any error the ledger is left as it was.
pub fn post_transaction(
    ledger: &mut Ledger,
    message: &str,
    value: Money,
    flow_type: FlowType,
    charged: bool,
    force_price: bool,
    opt_id_account: Option<i64>,
    date: i32,
) -> (outcome: Result<Transaction, LedgerError>)
    requires
        old(ledger).wf(),
    ensures
        final(ledger).wf(),
        ({
            let before = old(ledger)@;
            let posting = Posting { value: value@, flow: flow_type, charged };
            match outcome {
                Ok(entry) => {
                    &&& post_verdict(before, posting, force_price, opt_id_account) matches Ok(row)
                    &&& entry@ == posted_entry(before, row, message@, posting, date as int)
                    &&& final(ledger)@ == post_state(before, row, message@, posting, date as int)
                },
                Err(e) => {
                    &&& post_verdict(before, posting, force_price, opt_id_account) == Err::<
                        int,
                        LedgerError,
                    >(e)
                    &&& final(ledger)@ == before
                },
            }
        }),
{
    let after = match check_posting(
        ledger,
        value,
        flow_type,
        charged,
        force_price,
        opt_id_account,
    ) {
        Ok(after) => after,
        Err(e) => {
            return Err(e);
        },
    };
    let ghost rows = ledger@.accounts;
    let ghost row = target_row(rows, opt_id_account)->0;
    proof {
        lemma_row_of(rows, row);
    }
    let entry = match ledger.transactions.insert(
        &ledger.accounts,
        message,
        value,
        date,
        charged,
        flow_type,
        after.id,
    ) {
        Ok(entry) => entry,
        Err(e) => {
            return Err(e);
        },
    };
    let done = ledger.accounts.update(&after);
    assert(updated(rows, after@) =~= rows.update(row, after@));
    match done {
        Ok(()) => Ok(entry),
        Err(_) => Err(LedgerError::PartialApplication),
    }
}

/// What a posting that is dated by a time stamp reports. The posting is
/// checked first, in the order of `post_verdict`; only a posting that passes
/// has its date read from the stamp, and a stamp that does not start with a
/// date of the calendar is then invalid input.
pub open spec fn dated_verdict(
    ledger: LedgerView,
    posting: Posting,
    force_price: bool,
    opt_id_account: Option<i64>,
    stamp: Seq<char>,
) -> Result<(int, int), LedgerError> {
    match post_verdict(ledger, posting, force_price, opt_id_account) {
        Err(e) => Err(e),
        Ok(row) => match day_of_stamp_spec(stamp) {
            Some(date) => Ok((row, date as int)),
            None => Err(LedgerError::Validation),
        },
    }
}

/// Posts a transaction dated by the day that the time stamp `stamp` starts
/// with, such as the local clock's `2022-03-05T10:00:00+01:00`. The posting
/// is checked before the stamp is read, so a missing account, a value below
/// one minor unit and an uncovered expense are reported whatever the stamp
/// holds. On any error the ledger is left as it was.
pub fn new_transaction(
    ledger: &mut Ledger,
    message: &str,
    value: Money,
    flow_type: FlowType,
    charged: bool,
    force_price: bool,
    opt_id_account: Option<i64>,
    stamp: &str,
) -> (outcome: Result<Transaction, LedgerError>)
    requires
        old(ledger).wf(),
    ensures
        final(ledger).wf(),
        ({
            let before = old(ledger)@;
            let posting = Posting { value: value@, flow: flow_type, charged };
            match dated_verdict(before, posting, force_price, opt_id_account, stamp@) {
                Ok((row, date)) => {
                    &&& outcome matches Ok(entry)
                    &&& entry@ == posted_entry(before, row, message@, posting, date)
                    &&& final(ledger)@ == post_state(before, row, message@, posting, date)
                },
                Err(e) => {
                    &&& outcome matches Err(reported)
                    &&& reported == e
                    &&& final(ledger)@ == before
                },
            }
        }),
{
    match check_posting(ledger, value, flow_type, charged, force_price, opt_id_account) {
        Ok(_) => {},
        Err(e) => {
            return Err(e);
        },
    }
    let date = match julian_day_of_stamp(stamp) {
        Some(date) => date,
        None => {
            return Err(LedgerError::Validation);
        },
    };
    post_transaction(
        ledger,
        message,
        value,
        flow_type,
        charged,
        force_price,
        opt_id_account,
        date,
    )
}

/// The number of rows that a listing with the requested count shows.
fn row_limit(count: i64, len: usize) -> (limit: usize)
    ensures
        limit == listed_len(count, len as nat),
{
    if count < 0 || count as u64 > len as u64 {
        len
    } else {
        count as usize
    }
}

/// Lists up to `count` rows of the table `table_name`, in ascending order
/// of their ids; a negative count lists all rows. The ledger has the tables
/// `accounts` and `transactions`; any other name is a missing table.
pub fn list(ledger: &Ledger, table_name: &str, count: i64) -> (listing: Result<Listing, LedgerError>)
    ensures
        match listing {
            Ok(Listing::Accounts(rows)) => {
                &&& table_name@ == "accounts"@
                &&& views(rows@) == ledger@.accounts.take(
                    listed_len(count, ledger@.accounts.len()),
                )
            },
            Ok(Listing::Transactions(rows)) => {
                &&& table_name@ != "accounts"@
                &&& table_name@ == "transactions"@
                &&& entry_views(rows@) == ledger@.entries.take(
                    listed_len(count, ledger@.entries.len()),
                )
            },
            Err(e) => {
                &&& table_name@ != "accounts"@
                &&& table_name@ != "transactions"@
                &&& e == LedgerError::SchemaOrIntegrity(StorageFailure::MissingTable)
            },
        },
{
    if str_equals(table_name, "accounts") {
        let limit = row_limit(count, ledger.accounts.len());
        Ok(Listing::Accounts(ledger.accounts.list(limit)))
    } else if str_equals(table_name, "transactions") {
        let limit = row_limit(count, ledger.transactions.len());
        Ok(Listing::Transactions(ledger.transactions.list(limit)))
    } else {
        Err(LedgerError::SchemaOrIntegrity(StorageFailure::MissingTable))
    }
}

} // verus!
