//! The account repository: the accounts in ascending order of their ids,
//! of which exactly one is the default while there is any.

use vstd::prelude::*;
use vstd::string::*;
use crate::account::{holdable, Account, AccountView};
use crate::error::{LedgerError, StorageFailure};
use crate::money::Money;

verus! {

/// What `set_default` did.
#[derive(Clone, Copy, Debug, PartialEq, Eq, Structural)]
pub enum DefaultOutcome {
    /// The account is the default now, and no other is.
    Changed,
    /// The account was the default already; nothing was changed.
    AlreadyDefault,
}

/// What a deletion did.
#[derive(Clone, Copy, Debug, PartialEq, Eq, Structural)]
pub enum Removal {
    /// So many rows were removed; none is a regular outcome.
    Removed(usize),
    /// The target is the default account, which is only deleted together with all others.
    DefaultProtected,
}

/// The views of a sequence of accounts, in the same order.
pub open spec fn views(accounts: Seq<Account>) -> Seq<AccountView> {
    Seq::new(accounts.len(), |i: int| accounts[i]@)
}

/// Ids are positive and strictly ascending, so no id occurs twice.
pub open spec fn ascending_ids(rows: Seq<AccountView>) -> bool {
    &&& forall|i: int| 0 <= i < rows.len() ==> 1 <= (#[trigger] rows[i]).id <= i64::MAX
    &&& forall|i: int, j: int|
        0 <= i < j < rows.len() ==> (#[trigger] rows[i]).id < (#[trigger] rows[j]).id
}

/// 1 for a default account, else 0.
pub open spec fn default_flag(row: AccountView) -> int {
    if row.is_default {
        1
    } else {
        0
    }
}

/// How many of the rows are marked as the default account.
pub open spec fn default_count(rows: Seq<AccountView>) -> int
    decreases rows.len(),
{
    if rows.len() == 0 {
        0
    } else {
        default_count(rows.drop_last()) + default_flag(rows.last())
    }
}

/// Every stored balance fits the machine's range.
pub open spec fn holdable_rows(rows: Seq<AccountView>) -> bool {
    forall|i: int| 0 <= i < rows.len() ==> holdable(#[trigger] rows[i])
}

/// The invariant of the account table: ascending positive ids, balances
/// that can be held, and the number of default accounts is the smaller of 1
/// and the number of accounts.
pub open spec fn well_formed(rows: Seq<AccountView>) -> bool {
    &&& ascending_ids(rows)
    &&& holdable_rows(rows)
    &&& default_count(rows) == if rows.len() == 0 {
        0int
    } else {
        1int
    }
}

/// Whether some row has the id.
pub open spec fn has_id(rows: Seq<AccountView>, id: int) -> bool {
    exists|i: int| 0 <= i < rows.len() && (#[trigger] rows[i]).id == id
}

/// The position of the row with the id, where there is one.
pub open spec fn row_of(rows: Seq<AccountView>, id: int) -> int {
    choose|i: int| 0 <= i < rows.len() && (#[trigger] rows[i]).id == id
}

/// Whether the row with the id exists and is the default account.
pub open spec fn is_default_id(rows: Seq<AccountView>, id: int) -> bool {
    has_id(rows, id) && rows[row_of(rows, id)].is_default
}

/// The id that the next inserted account gets: one above the largest.
pub open spec fn next_id(rows: Seq<AccountView>) -> int {
    if rows.len() == 0 {
        1
    } else {
        rows.last().id + 1
    }
}

/// The row that `insert` adds: both balances are the initial balance, and
/// the account is the default exactly when the table was empty.
pub open spec fn inserted_row(rows: Seq<AccountView>, name: Seq<char>, initial: int) -> AccountView {
    AccountView {
        id: next_id(rows),
        name: name,
        balance: initial,
        available: initial,
        is_default: rows.len() == 0,
    }
}

/// The rows after name and balances of the row with `account.id` were
/// overwritten. The default flag is no part of an update.
pub open spec fn updated(rows: Seq<AccountView>, account: AccountView) -> Seq<AccountView> {
    Seq::new(
        rows.len(),
        |i: int|
            if rows[i].id == account.id {
                AccountView { is_default: rows[i].is_default, ..account }
            } else {
                rows[i]
            },
    )
}

/// The rows after the account with `id` became the default: it is marked,
/// and no other row is.
pub open spec fn with_default(rows: Seq<AccountView>, id: int) -> Seq<AccountView> {
    Seq::new(rows.len(), |i: int| AccountView { is_default: rows[i].id == id, ..rows[i] })
}

/// The position of a default account, where there is one.
pub open spec fn default_row(rows: Seq<AccountView>) -> int {
    choose|i: int| 0 <= i < rows.len() && (#[trigger] rows[i]).is_default
}

/// What making the account with `id` the default reports: `NotFound`
/// without such an account, otherwise whether anything had to change.
pub open spec fn default_outcome(rows: Seq<AccountView>, id: int) -> Result<
    DefaultOutcome,
    LedgerError,
> {
    if !has_id(rows, id) {
        Err(LedgerError::NotFound)
    } else if is_default_id(rows, id) {
        Ok(DefaultOutcome::AlreadyDefault)
    } else {
        Ok(DefaultOutcome::Changed)
    }
}

/// The rows after the account with `id` was made the default: changed only
/// where that account exists and was not the default before.
pub open spec fn default_state(rows: Seq<AccountView>, id: int) -> Seq<AccountView> {
    if default_outcome(rows, id) == Ok::<DefaultOutcome, LedgerError>(DefaultOutcome::Changed) {
        with_default(rows, id)
    } else {
        rows
    }
}

/// What deleting the account with `id` reports: the default account is
/// protected, any other account is removed, and an unknown id removes nothing.
pub open spec fn removal_outcome(rows: Seq<AccountView>, id: int) -> Removal {
    if is_default_id(rows, id) {
        Removal::DefaultProtected
    } else if has_id(rows, id) {
        Removal::Removed(1)
    } else {
        Removal::Removed(0)
    }
}

/// The rows after the deletion of the account with `id`.
pub open spec fn removal_state(rows: Seq<AccountView>, id: int) -> Seq<AccountView> {
    if is_default_id(rows, id) {
        rows
    } else {
        without_id(rows, id)
    }
}

/// The rows without the row that has the id.
pub open spec fn without_id(rows: Seq<AccountView>, id: int) -> Seq<AccountView> {
    if has_id(rows, id) {
        rows.remove(row_of(rows, id))
    } else {
        rows
    }
}

/// In a table of ascending ids a row is found by its id alone.
pub proof fn lemma_row_of(rows: Seq<AccountView>, i: int)
    requires
        ascending_ids(rows),
        0 <= i < rows.len(),
    ensures
        has_id(rows, rows[i].id),
        row_of(rows, rows[i].id) == i,
{
    let j = row_of(rows, rows[i].id);
    if j < i {
        assert(rows[j].id < rows[i].id);
    } else if i < j {
        assert(rows[i].id < rows[j].id);
    }
}

/// Appending a row adds its flag to the number of default accounts.
pub proof fn lemma_default_count_push(rows: Seq<AccountView>, row: AccountView)
    ensures
        default_count(rows.push(row)) == default_count(rows) + default_flag(row),
{
    assert(rows.push(row).drop_last() =~= rows);
}

/// The number of default accounts lies between 0 and the number of rows,
/// and is 0 where no row is marked.
pub proof fn lemma_default_count_bounds(rows: Seq<AccountView>)
    ensures
        0 <= default_count(rows) <= rows.len(),
        (forall|i: int| 0 <= i < rows.len() ==> !(#[trigger] rows[i]).is_default)
            ==> default_count(rows) == 0,
        default_count(rows) == 0 ==> forall|i: int|
            0 <= i < rows.len() ==> !(#[trigger] rows[i]).is_default,
    decreases rows.len(),
{
    if rows.len() > 0 {
        let front = rows.drop_last();
        lemma_default_count_bounds(front);
        if default_count(rows) == 0 {
            assert forall|i: int| 0 <= i < rows.len() implies !(#[trigger] rows[i]).is_default by {
                if i < front.len() {
                    assert(front[i] == rows[i]);
                }
            }
        }
    }
}

/// Removing a row takes its flag from the number of default accounts.
pub proof fn lemma_default_count_remove(rows: Seq<AccountView>, i: int)
    requires
        0 <= i < rows.len(),
    ensures
        default_count(rows.remove(i)) == default_count(rows) - default_flag(rows[i]),
    decreases rows.len(),
{
    if i < rows.len() - 1 {
        lemma_default_count_remove(rows.drop_last(), i);
        assert(rows.remove(i).drop_last() =~= rows.drop_last().remove(i));
    }
}

/// Two tables whose rows carry the same flags have as many default accounts.
pub proof fn lemma_default_count_same_flags(a: Seq<AccountView>, b: Seq<AccountView>)
    requires
        a.len() == b.len(),
        forall|i: int| 0 <= i < a.len() ==> (#[trigger] a[i]).is_default == (#[trigger] b[i]).is_default,
    ensures
        default_count(a) == default_count(b),
    decreases a.len(),
{
    if a.len() > 0 {
        lemma_default_count_same_flags(a.drop_last(), b.drop_last());
    }
}

/// A well-formed table has no second default account: the one that is
/// marked is the row that `default_row` names.
pub proof fn lemma_default_row(rows: Seq<AccountView>, i: int)
    requires
        well_formed(rows),
        0 <= i < rows.len(),
        rows[i].is_default,
    ensures
        default_row(rows) == i,
{
    let j = default_row(rows);
    if j != i {
        let rest = rows.remove(i);
        lemma_default_count_remove(rows, i);
        lemma_default_count_bounds(rest);
        let k = if j < i {
            j
        } else {
            j - 1
        };
        assert(rest[k] == rows[j]);
    }
}

/// Marking the account with `id` and no other leaves one default account
/// where the id exists, and none where it does not.
pub proof fn lemma_default_count_with_default(rows: Seq<AccountView>, id: int)
    requires
        ascending_ids(rows),
    ensures
        default_count(with_default(rows, id)) == if has_id(rows, id) {
            1int
        } else {
            0int
        },
    decreases rows.len(),
{
    if rows.len() > 0 {
        let front = rows.drop_last();
        let last = rows.len() - 1;
        lemma_default_count_with_default(front, id);
        assert(with_default(rows, id).drop_last() =~= with_default(front, id));
        if rows[last].id != id && has_id(rows, id) {
            assert(front[row_of(rows, id)].id == id);
        }
    }
}

/// The accounts of a ledger.
pub struct AccountRepository {
    rows: Vec<Account>,
}

impl View for AccountRepository {
    type V = Seq<AccountView>;

    closed spec fn view(&self) -> Seq<AccountView> {
        views(self.rows@)
    }
}

impl AccountRepository {
    /// The invariant that every constructor establishes and every method keeps.
    pub open spec fn wf(&self) -> bool {
        well_formed(self@)
    }

    /// A repository without accounts.
    pub fn new() -> (repository: AccountRepository)
        ensures
            repository.wf(),
            repository@ == Seq::<AccountView>::empty(),
    {
        AccountRepository { rows: Vec::new() }
    }

    /// The repository that holds `rows`, which must be in ascending order of
    /// positive ids with one default account among them, or none where
    /// there are no rows. Other rows give `Consistency`.
    pub fn from_rows(rows: Vec<Account>) -> (repository: Result<AccountRepository, LedgerError>)
        ensures
            repository is Ok <==> well_formed(views(rows@)),
            repository matches Ok(r) ==> r.wf() && r@ == views(rows@),
            repository matches Err(e) ==> e == LedgerError::Consistency,
    {
        let ghost all = views(rows@);
        let mut defaults: usize = 0;
        let mut at: usize = 0;
        while at < rows.len()
            invariant
                all == views(rows@),
                at <= rows.len(),
                ascending_ids(all.take(at as int)),
                defaults == default_count(all.take(at as int)),
                defaults <= at,
            decreases rows.len() - at,
        {
            let ghost seen = all.take(at as int);
            let ghost more = all.take(at + 1);
            proof {
                assert(more =~= seen.push(all[at as int]));
                lemma_default_count_push(seen, all[at as int]);
            }
            let id = rows[at].id;
            if id < 1 || (at > 0 && rows[at - 1].id >= id) {
                return Err(LedgerError::Consistency);
            }
            if rows[at].default {
                defaults = defaults + 1;
            }
            at = at + 1;
        }
        assert(all.take(at as int) =~= all);
        let expected: usize = if rows.len() == 0 {
            0
        } else {
            1
        };
        if defaults != expected {
            return Err(LedgerError::Consistency);
        }
        Ok(AccountRepository { rows })
    }

    /// How many accounts there are.
    pub fn len(&self) -> (count: usize)
        ensures
            count == self@.len(),
    {
        self.rows.len()
    }

    /// Where the row with the id stands.
    fn position(&self, id: i64) -> (at: Option<usize>)
        requires
            self.wf(),
        ensures
            at is Some <==> has_id(self@, id as int),
            at matches Some(i) ==> i < self.rows.len() && self@[i as int].id == id && row_of(
                self@,
                id as int,
            ) == i,
    {
        let mut at: usize = 0;
        while at < self.rows.len()
            invariant
                at <= self.rows.len(),
                self.wf(),
                forall|i: int| 0 <= i < at ==> (#[trigger] self@[i]).id != id,
            decreases self.rows.len() - at,
        {
            if self.rows[at].id == id {
                proof {
                    lemma_row_of(self@, at as int);
                }
                return Some(at);
            }
            at = at + 1;
        }
        None
    }

    /// Where the default account stands.
    fn default_position(&self) -> (at: Option<usize>)
        requires
            self.wf(),
        ensures
            at is Some <==> self@.len() > 0,
            at matches Some(i) ==> i < self.rows.len() && self@[i as int].is_default,
    {
        let mut at: usize = 0;
        while at < self.rows.len()
            invariant
                at <= self.rows.len(),
                forall|i: int| 0 <= i < at ==> !(#[trigger] self@[i]).is_default,
            decreases self.rows.len() - at,
        {
            if self.rows[at].default {
                return Some(at);
            }
            at = at + 1;
        }
        proof {
            lemma_default_count_bounds(self@);
        }
        None
    }

    /// The account with the id, or `NotFound`.
    pub fn find_by_id(&self, id: i64) -> (found: Result<Account, LedgerError>)
        requires
            self.wf(),
        ensures
            found is Ok <==> has_id(self@, id as int),
            found matches Ok(account) ==> 0 <= row_of(self@, id as int) < self@.len() && account@
                == self@[row_of(self@, id as int)],
            found matches Err(e) ==> e == LedgerError::NotFound,
    {
        match self.position(id) {
            Some(at) => Ok(self.rows[at].duplicate()),
            None => Err(LedgerError::NotFound),
        }
    }

    /// The default account, or `NotFound` where there is no account at all.
    pub fn find_default(&self) -> (found: Result<Account, LedgerError>)
        requires
            self.wf(),
        ensures
            found is Ok <==> self@.len() > 0,
            found matches Ok(account) ==> 0 <= default_row(self@) < self@.len() && account@.is_default
                && account@ == self@[default_row(self@)],
            found matches Err(e) ==> e == LedgerError::NotFound,
    {
        match self.default_position() {
            Some(at) => {
                proof {
                    lemma_default_row(self@, at as int);
                }
                Ok(self.rows[at].duplicate())
            },
            None => Err(LedgerError::NotFound),
        }
    }

    /// Adds an account under the next id. The first account of an empty
    /// repository becomes the default. Where the ids are used up, the
    /// repository stays as it is and the storage failure is reported.
    pub fn insert(&mut self, name: &str, initial_balance: Money) -> (inserted: Result<
        Account,
        LedgerError,
    >)
        requires
            old(self).wf(),
        ensures
            final(self).wf(),
            inserted is Ok <==> next_id(old(self)@) <= i64::MAX,
            inserted matches Ok(account) ==> account@ == inserted_row(
                old(self)@,
                name@,
                initial_balance@,
            ) && final(self)@ == old(self)@.push(account@),
            inserted matches Err(e) ==> e == LedgerError::SchemaOrIntegrity(StorageFailure::Other)
                && final(self)@ == old(self)@,
    {
        let count = self.rows.len();
        let id: i64 = if count == 0 {
            1
        } else {
            let last = self.rows[count - 1].id;
            if last == i64::MAX {
                return Err(LedgerError::SchemaOrIntegrity(StorageFailure::Other));
            }
            last + 1
        };
        let account = Account {
            id,
            name: String::from_str(name),
            balance: initial_balance,
            available: initial_balance,
            default: count == 0,
        };
        let copy = account.duplicate();
        proof {
            lemma_default_count_push(self@, account@);
            lemma_default_count_bounds(self@);
        }
        self.rows.push(account);
        assert(self@ =~= old(self)@.push(copy@));
        Ok(copy)
    }

    /// Overwrites name, balance and available funds of the row with the id
    /// of `account`. Without such a row nothing changes and `Consistency` is
    /// reported. The default flag of the row is kept.
    pub fn update(&mut self, account: &Account) -> (done: Result<(), LedgerError>)
        requires
            old(self).wf(),
        ensures
            final(self).wf(),
            done is Ok <==> has_id(old(self)@, account@.id),
            done is Ok ==> final(self)@ == updated(old(self)@, account@),
            done matches Err(e) ==> e == LedgerError::Consistency && final(self)@ == old(self)@,
    {
        let at = match self.position(account.id) {
            Some(at) => at,
            None => {
                return Err(LedgerError::Consistency);
            },
        };
        let row = Account {
            id: account.id,
            name: account.name.clone(),
            balance: account.balance,
            available: account.available,
            default: self.rows[at].default,
        };
        self.rows.set(at, row);
        proof {
            let before = old(self)@;
            assert forall|i: int| 0 <= i < before.len() implies (#[trigger] self@[i]) == updated(
                before,
                account@,
            )[i] by {
                if i != at {
                    lemma_row_of(before, i);
                }
            }
            lemma_default_count_same_flags(before, self@);
        }
        Ok(())
    }

    /// Makes the account with the id the default and clears the mark on
    /// every other account. Nothing changes where the account is the default
    /// already or does not exist.
    pub fn set_default(&mut self, id: i64) -> (outcome: Result<DefaultOutcome, LedgerError>)
        requires
            old(self).wf(),
        ensures
            final(self).wf(),
            outcome == default_outcome(old(self)@, id as int),
            final(self)@ == default_state(old(self)@, id as int),
    {
        let target = match self.position(id) {
            Some(at) => at,
            None => {
                return Err(LedgerError::NotFound);
            },
        };
        if self.rows[target].default {
            return Ok(DefaultOutcome::AlreadyDefault);
        }
        let mut at: usize = 0;
        while at < self.rows.len()
            invariant
                at <= self.rows.len(),
                self.rows.len() == old(self).rows.len(),
                forall|i: int|
                    0 <= i < at ==> (#[trigger] self@[i]) == with_default(old(self)@, id as int)[i],
                forall|i: int| at <= i < self.rows.len() ==> (#[trigger] self@[i]) == old(self)@[i],
            decreases self.rows.len() - at,
        {
            let row = Account {
                id: self.rows[at].id,
                name: self.rows[at].name.clone(),
                balance: self.rows[at].balance,
                available: self.rows[at].available,
                default: self.rows[at].id == id,
            };
            let ghost before = self@;
            self.rows.set(at, row);
            proof {
                assert(before[at as int] == old(self)@[at as int]);
                assert forall|i: int| 0 <= i < self.rows.len() && i != at implies (#[trigger] self@[i])
                    == before[i] by {}
            }
            at = at + 1;
        }
        proof {
            assert(self@ =~= with_default(old(self)@, id as int));
            lemma_default_count_with_default(old(self)@, id as int);
        }
        Ok(DefaultOutcome::Changed)
    }

    /// Removes the account with the id, unless it is the default account,
    /// which is protected. Removing an id that no row has removes nothing.
    pub fn delete(&mut self, id: i64) -> (removal: Removal)
        requires
            old(self).wf(),
        ensures
            final(self).wf(),
            removal == removal_outcome(old(self)@, id as int),
            final(self)@ == removal_state(old(self)@, id as int),
    {
        let at = match self.position(id) {
            Some(at) => at,
            None => {
                return Removal::Removed(0);
            },
        };
        if self.rows[at].default {
            return Removal::DefaultProtected;
        }
        self.rows.remove(at);
        proof {
            let before = old(self)@;
            assert(self@ =~= before.remove(at as int));
            lemma_default_count_remove(before, at as int);
            lemma_default_count_bounds(self@);
        }
        Removal::Removed(1)
    }

    /// Removes every account, the default account included, and says how
    /// many there were.
    pub fn delete_all(&mut self) -> (removed: usize)
        requires
            old(self).wf(),
        ensures
            final(self).wf(),
            final(self)@ == Seq::<AccountView>::empty(),
            removed == old(self)@.len(),
    {
        let removed = self.rows.len();
        self.rows.clear();
        removed
    }

    /// The first `limit` accounts in ascending order of their ids, or all
    /// of them where there are fewer.
    pub fn list(&self, limit: usize) -> (listed: Vec<Account>)
        ensures
            views(listed@) == self@.take(
                if limit <= self@.len() {
                    limit as int
                } else {
                    self@.len() as int
                },
            ),
    {
        let count = if limit <= self.rows.len() {
            limit
        } else {
            self.rows.len()
        };
        let mut listed: Vec<Account> = Vec::new();
        let mut at: usize = 0;
        while at < count
            invariant
                at <= count <= self.rows.len(),
                views(listed@) =~= self@.take(at as int),
            decreases count - at,
        {
            listed.push(self.rows[at].duplicate());
            assert(self@.take(at + 1) =~= self@.take(at as int).push(self@[at as int]));
            at = at + 1;
        }
        listed
    }
}

} // verus!
