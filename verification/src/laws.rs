//! Laws of the ledger: what holds of every state and of every sequence of
//! operations, stated over the same models as the contracts of the
//! operations themselves.

use vstd::prelude::*;
use crate::account::{
    charged_outgoing_total, holdable, incoming_total, law_balances_follow_postings,
    outgoing_total, posted, replayed, AccountView, FlowType, Posting,
};
use crate::accounts::{
    default_count, default_outcome, default_state, has_id, inserted_row, is_default_id,
    lemma_default_count_bounds, lemma_default_count_push, lemma_default_count_remove,
    lemma_default_count_same_flags, lemma_default_count_with_default, lemma_row_of, next_id,
    removal_outcome, removal_state, row_of, updated, well_formed, DefaultOutcome, Removal,
};
use crate::error::LedgerError;
use crate::ledger::{edit_verdict, edited, post_verdict, target_row, LedgerView};

verus! {

/// In every well-formed account table the number of default accounts is
/// the smaller of 1 and the number of accounts.
pub proof fn law_single_default(rows: Seq<AccountView>)
    requires
        well_formed(rows),
    ensures
        default_count(rows) == vstd::math::min(1, rows.len() as int),
{
}

/// Every account operation takes a well-formed table to a well-formed
/// table: inserting an account, overwriting one, choosing the default and
/// deleting one all keep exactly one default account while any exists.
/// Balances that are written must be such as can be held.
pub proof fn law_operations_keep_single_default(
    rows: Seq<AccountView>,
    id: int,
    name: Seq<char>,
    initial: int,
    account: AccountView,
)
    requires
        well_formed(rows),
    ensures
        next_id(rows) <= i64::MAX && i64::MIN <= initial <= i64::MAX ==> well_formed(
            rows.push(inserted_row(rows, name, initial)),
        ),
        holdable(account) ==> well_formed(updated(rows, account)),
        well_formed(default_state(rows, id)),
        well_formed(removal_state(rows, id)),
        well_formed(Seq::<AccountView>::empty()),
{
    lemma_default_count_push(rows, inserted_row(rows, name, initial));
    lemma_default_count_same_flags(rows, updated(rows, account));
    lemma_default_count_with_default(rows, id);
    if has_id(rows, id) && !is_default_id(rows, id) {
        let at = row_of(rows, id);
        lemma_default_count_remove(rows, at);
        lemma_default_count_bounds(rows.remove(at));
    }
}

/// The account table after a sequence of postings against the account in
/// row `row`, applied in order as `post_transaction` applies each.
pub open spec fn table_after(rows: Seq<AccountView>, row: int, postings: Seq<Posting>) -> Seq<
    AccountView,
>
    decreases postings.len(),
{
    if postings.len() == 0 {
        rows
    } else {
        let before = table_after(rows, row, postings.drop_last());
        before.update(row, posted(before[row], postings.last()))
    }
}

/// Any sequence of postings against one account changes that account alone:
/// its available funds become what they were plus all incoming minus all
/// outgoing money, its balance what it was plus all incoming minus the
/// charged outgoing money, and every other account stays as it was.
pub proof fn law_postings_against_one_account(
    rows: Seq<AccountView>,
    row: int,
    postings: Seq<Posting>,
)
    requires
        0 <= row < rows.len(),
    ensures
        table_after(rows, row, postings) == rows.update(row, replayed(rows[row], postings)),
        table_after(rows, row, postings)[row].available == rows[row].available + incoming_total(
            postings,
        ) - outgoing_total(postings),
        table_after(rows, row, postings)[row].balance == rows[row].balance + incoming_total(
            postings,
        ) - charged_outgoing_total(postings),
    decreases postings.len(),
{
    law_balances_follow_postings(rows[row], postings);
    if postings.len() > 0 {
        law_postings_against_one_account(rows, row, postings.drop_last());
        assert(table_after(rows, row, postings) =~= rows.update(
            row,
            replayed(rows[row], postings),
        ));
    }
}

/// Postings and edits change the balances and the name of one account and
/// nothing else that the invariant of the table speaks of: where the new
/// balances can be held, the table stays well-formed, with its one default
/// account.
pub proof fn law_postings_and_edits_keep_single_default(
    rows: Seq<AccountView>,
    row: int,
    posting: Posting,
    name: Option<Seq<char>>,
    balance: Option<int>,
)
    requires
        well_formed(rows),
        0 <= row < rows.len(),
    ensures
        holdable(posted(rows[row], posting)) ==> well_formed(
            rows.update(row, posted(rows[row], posting)),
        ),
        holdable(edited(rows[row], name, balance)) ==> well_formed(
            rows.update(row, edited(rows[row], name, balance)),
        ),
{
    lemma_default_count_same_flags(rows, rows.update(row, posted(rows[row], posting)));
    lemma_default_count_same_flags(rows, rows.update(row, edited(rows[row], name, balance)));
}

/// Choosing the default account is idempotent: a second call with the same
/// id leaves the state of the first call as it is, and where the account
/// exists it reports that the account is the default already.
pub proof fn law_set_default_idempotent(rows: Seq<AccountView>, id: int)
    requires
        well_formed(rows),
    ensures
        default_state(default_state(rows, id), id) == default_state(rows, id),
        has_id(rows, id) ==> default_outcome(default_state(rows, id), id) == Ok::<
            DefaultOutcome,
            LedgerError,
        >(DefaultOutcome::AlreadyDefault),
        !has_id(rows, id) ==> default_outcome(default_state(rows, id), id) == Err::<
            DefaultOutcome,
            LedgerError,
        >(LedgerError::NotFound),
{
    if has_id(rows, id) {
        assert(default_state(rows, id)[row_of(rows, id)].id == id);
    }
}

/// An edit that corrects the balance of the account with `id` goes through
/// and stores an account with the new balance whose available funds have
/// moved by the difference between the new and the old balance, whether or
/// not the edit renames the account as well. No other account changes. This
/// holds of every edit that is not refused: the account exists, a new name,
/// where one is given, is not empty, and the moved funds can be held.
pub proof fn law_edit_moves_available(
    rows: Seq<AccountView>,
    id: int,
    name: Option<Seq<char>>,
    balance: int,
)
    requires
        well_formed(rows),
        has_id(rows, id),
        name matches Some(n) ==> n.len() > 0,
        i64::MIN <= balance <= i64::MAX,
        i64::MIN <= rows[row_of(rows, id)].available + (balance - rows[row_of(rows, id)].balance)
            <= i64::MAX,
    ensures
        ({
            let row = row_of(rows, id);
            let stored = rows.update(row, edited(rows[row], name, Some(balance)));
            &&& edit_verdict(rows, id, name, Some(balance)) == Ok::<Option<int>, LedgerError>(
                Some(row),
            )
            &&& stored[row].balance == balance
            &&& stored[row].available == rows[row].available + (balance - rows[row].balance)
            &&& forall|i: int| 0 <= i < rows.len() && i != row ==> stored[i] == rows[i]
        }),
{
}

/// An edit that only renames an existing account to a name that is not
/// empty goes through and leaves both balances of the account as they were.
pub proof fn law_rename_keeps_balances(rows: Seq<AccountView>, id: int, name: Seq<char>)
    requires
        well_formed(rows),
        has_id(rows, id),
        name.len() > 0,
    ensures
        ({
            let row = row_of(rows, id);
            &&& edit_verdict(rows, id, Some(name), None) == Ok::<Option<int>, LedgerError>(
                Some(row),
            )
            &&& edited(rows[row], Some(name), None).balance == rows[row].balance
            &&& edited(rows[row], Some(name), None).available == rows[row].available
            &&& edited(rows[row], Some(name), None).name == name
        }),
{
}

/// An outgoing posting of at least one minor unit that exceeds the
/// available funds of its account and is not forced is refused with
/// `InsufficientFunds`.
pub proof fn law_uncovered_expense_refused(
    ledger: LedgerView,
    value: int,
    charged: bool,
    opt_id_account: Option<i64>,
)
    requires
        target_row(ledger.accounts, opt_id_account) matches Some(row) && value
            > ledger.accounts[row].available,
        value >= 1,
    ensures
        post_verdict(
            ledger,
            Posting { value, flow: FlowType::Outgoing, charged },
            false,
            opt_id_account,
        ) == Err::<int, LedgerError>(LedgerError::InsufficientFunds),
{
}

/// A posting whose value is zero or negative is refused, whatever its
/// direction and whether or not it is forced.
pub proof fn law_non_positive_value_refused(
    ledger: LedgerView,
    posting: Posting,
    force_price: bool,
    opt_id_account: Option<i64>,
)
    requires
        posting.value <= 0,
    ensures
        post_verdict(ledger, posting, force_price, opt_id_account) is Err,
        target_row(ledger.accounts, opt_id_account) is Some ==> post_verdict(
            ledger,
            posting,
            force_price,
            opt_id_account,
        ) == Err::<int, LedgerError>(LedgerError::Validation),
{
}

/// An expense that is covered by the available funds leaves them, and the
/// balance of an account whose available funds do not exceed it, at zero or
/// above. Incoming money keeps both at zero or above.
pub proof fn law_balances_stay_non_negative(account: AccountView, value: int, charged: bool)
    requires
        1 <= value,
        account.available <= account.balance,
    ensures
        value <= account.available ==> posted(
            account,
            Posting { value, flow: FlowType::Outgoing, charged },
        ).available >= 0 && posted(
            account,
            Posting { value, flow: FlowType::Outgoing, charged },
        ).balance >= 0,
        0 <= account.available ==> posted(
            account,
            Posting { value, flow: FlowType::Incoming, charged },
        ).available >= 0 && posted(
            account,
            Posting { value, flow: FlowType::Incoming, charged },
        ).balance >= 0,
{
}

/// Deleting the default account by its id is refused and changes nothing.
/// Any other account that exists is removed.
pub proof fn law_default_account_protected(rows: Seq<AccountView>, id: int)
    requires
        well_formed(rows),
    ensures
        is_default_id(rows, id) ==> removal_outcome(rows, id) == Removal::DefaultProtected
            && removal_state(rows, id) == rows,
        has_id(rows, id) && !is_default_id(rows, id) ==> removal_outcome(rows, id)
            == Removal::Removed(1) && removal_state(rows, id).len() == rows.len() - 1 && !has_id(
            removal_state(rows, id),
            id,
        ),
{
    if has_id(rows, id) && !is_default_id(rows, id) {
        let at = row_of(rows, id);
        let rest = rows.remove(at);
        if has_id(rest, id) {
            let k = row_of(rest, id);
            let bk = if k < at { k } else { k + 1 };
            lemma_row_of(rows, bk);
        }
    }
}

} // verus!
