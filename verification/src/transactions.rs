//! The transaction repository: an append-only record of money flows, in
//! ascending order of their ids.

use vstd::prelude::*;
use vstd::string::*;
use crate::account::FlowType;
use crate::accounts::{has_id, AccountRepository};
use crate::error::{LedgerError, StorageFailure};
use crate::money::Money;
use crate::transaction::{Transaction, TransactionView};

verus! {

/// The views of a sequence of transactions, in the same order.
pub open spec fn entry_views(entries: Seq<Transaction>) -> Seq<TransactionView> {
    Seq::new(entries.len(), |i: int| entries[i]@)
}

/// The invariant of the transaction table: ids are positive and strictly
/// ascending, and every value is at least one minor unit.
pub open spec fn well_formed_entries(rows: Seq<TransactionView>) -> bool {
    &&& forall|i: int|
        0 <= i < rows.len() ==> 1 <= (#[trigger] rows[i]).id <= i64::MAX && rows[i].value >= 1
    &&& forall|i: int, j: int|
        0 <= i < j < rows.len() ==> (#[trigger] rows[i]).id < (#[trigger] rows[j]).id
}

/// Whether some transaction has the id.
pub open spec fn has_entry(rows: Seq<TransactionView>, id: int) -> bool {
    exists|i: int| 0 <= i < rows.len() && (#[trigger] rows[i]).id == id
}

/// The position of the transaction with the id, where there is one.
pub open spec fn entry_of(rows: Seq<TransactionView>, id: int) -> int {
    choose|i: int| 0 <= i < rows.len() && (#[trigger] rows[i]).id == id
}

/// The id that the next recorded transaction gets: one above the largest.
pub open spec fn next_entry_id(rows: Seq<TransactionView>) -> int {
    if rows.len() == 0 {
        1
    } else {
        rows.last().id + 1
    }
}

/// The rows without the transaction that has the id.
pub open spec fn without_entry(rows: Seq<TransactionView>, id: int) -> Seq<TransactionView> {
    if has_entry(rows, id) {
        rows.remove(entry_of(rows, id))
    } else {
        rows
    }
}

/// In a table of ascending ids a transaction is found by its id alone.
pub proof fn lemma_entry_of(rows: Seq<TransactionView>, i: int)
    requires
        well_formed_entries(rows),
        0 <= i < rows.len(),
    ensures
        has_entry(rows, rows[i].id),
        entry_of(rows, rows[i].id) == i,
{
    let j = entry_of(rows, rows[i].id);
    if j < i {
        assert(rows[j].id < rows[i].id);
    } else if i < j {
        assert(rows[i].id < rows[j].id);
    }
}

/// The transactions of a ledger.
pub struct TransactionRepository {
    rows: Vec<Transaction>,
}

impl View for TransactionRepository {
    type V = Seq<TransactionView>;

    closed spec fn view(&self) -> Seq<TransactionView> {
        entry_views(self.rows@)
    }
}

impl TransactionRepository {
    /// The invariant that every constructor establishes and every method keeps.
    pub open spec fn wf(&self) -> bool {
        well_formed_entries(self@)
    }

    /// A repository without transactions.
    pub fn new() -> (repository: TransactionRepository)
        ensures
            repository.wf(),
            repository@ == Seq::<TransactionView>::empty(),
    {
        TransactionRepository { rows: Vec::new() }
    }

    /// The repository that holds `rows`, which must be in ascending order of
    /// positive ids and hold values of at least one minor unit. Other rows
    /// give `Consistency`.
    pub fn from_rows(rows: Vec<Transaction>) -> (repository: Result<
        TransactionRepository,
        LedgerError,
    >)
        ensures
            repository is Ok <==> well_formed_entries(entry_views(rows@)),
            repository matches Ok(r) ==> r.wf() && r@ == entry_views(rows@),
            repository matches Err(e) ==> e == LedgerError::Consistency,
    {
        let ghost all = entry_views(rows@);
        let mut at: usize = 0;
        while at < rows.len()
            invariant
                all == entry_views(rows@),
                at <= rows.len(),
                well_formed_entries(all.take(at as int)),
            decreases rows.len() - at,
        {
            let ghost seen = all.take(at as int);
            let ghost more = all.take(at + 1);
            let id = rows[at].id;
            if id < 1 || rows[at].value.cents() < 1 || (at > 0 && rows[at - 1].id >= id) {
                proof {
                    if well_formed_entries(all) {
                        assert(all[at - 1].id < all[at as int].id);
                    }
                }
                return Err(LedgerError::Consistency);
            }
            proof {
                assert forall|i: int, j: int| 0 <= i < j < more.len() implies (#[trigger] more[i]).id
                    < (#[trigger] more[j]).id by {
                    if j == at && i < at - 1 {
                        assert(seen[i].id < seen[at - 1].id);
                    }
                }
            }
            at = at + 1;
        }
        assert(all.take(at as int) =~= all);
        Ok(TransactionRepository { rows })
    }

    /// How many transactions are recorded.
    pub fn len(&self) -> (count: usize)
        ensures
            count == self@.len(),
    {
        self.rows.len()
    }

    /// The id that the next recorded transaction gets, or `None` where the
    /// ids are used up.
    pub fn next_id(&self) -> (id: Option<i64>)
        requires
            self.wf(),
        ensures
            id == if next_entry_id(self@) <= i64::MAX {
                Some(next_entry_id(self@) as i64)
            } else {
                None
            },
    {
        let count = self.rows.len();
        if count == 0 {
            Some(1)
        } else {
            let last = self.rows[count - 1].id;
            if last == i64::MAX {
                None
            } else {
                Some(last + 1)
            }
        }
    }

    /// Records a transaction against an account of `accounts` under the
    /// next id. A value below one minor unit is refused as invalid, an
    /// account that does not exist as a violated reference; in both cases,
    /// and where the ids are used up, nothing is recorded.
    pub fn insert(
        &mut self,
        accounts: &AccountRepository,
        message: &str,
        value: Money,
        date: i32,
        charged: bool,
        flow_type: FlowType,
        id_account: i64,
    ) -> (recorded: Result<Transaction, LedgerError>)
        requires
            old(self).wf(),
            accounts.wf(),
        ensures
            final(self).wf(),
            recorded is Err ==> final(self)@ == old(self)@,
            recorded matches Ok(t) ==> t@ == (TransactionView {
                id: next_entry_id(old(self)@),
                message: message@,
                value: value@,
                date: date as int,
                charged,
                flow_type,
                id_account: id_account as int,
            }) && final(self)@ == old(self)@.push(t@),
            recorded is Ok <==> value@ >= 1 && has_id(accounts@, id_account as int)
                && next_entry_id(old(self)@) <= i64::MAX,
            recorded matches Err(e) ==> e == if value@ < 1 {
                LedgerError::Validation
            } else if !has_id(accounts@, id_account as int) {
                LedgerError::SchemaOrIntegrity(StorageFailure::ForeignKey)
            } else {
                LedgerError::SchemaOrIntegrity(StorageFailure::Other)
            },
    {
        if value.cents() < 1 {
            return Err(LedgerError::Validation);
        }
        if accounts.find_by_id(id_account).is_err() {
            return Err(LedgerError::SchemaOrIntegrity(StorageFailure::ForeignKey));
        }
        let count = self.rows.len();
        let id = match self.next_id() {
            Some(id) => id,
            None => {
                return Err(LedgerError::SchemaOrIntegrity(StorageFailure::Other));
            },
        };
        let entry = Transaction {
            id,
            message: String::from_str(message),
            value,
            date,
            charged,
            flow_type,
            id_account,
        };
        let copy = entry.duplicate();
        self.rows.push(entry);
        proof {
            assert forall|i: int, j: int| 0 <= i < j < self@.len() implies (#[trigger] self@[i]).id
                < (#[trigger] self@[j]).id by {
                if j < count {
                    assert(old(self)@[i].id < old(self)@[j].id);
                }
            }
            assert forall|i: int| 0 <= i < self@.len() implies 1 <= (#[trigger] self@[i]).id
                <= i64::MAX && self@[i].value >= 1 by {
                if i < count {
                    assert(old(self)@[i].id >= 1);
                }
            }
        }
        Ok(copy)
    }

    /// Removes the transaction with the id and says how many rows were
    /// removed: one, or none where no transaction has the id.
    pub fn delete(&mut self, id: i64) -> (removed: usize)
        requires
            old(self).wf(),
        ensures
            final(self).wf(),
            final(self)@ == without_entry(old(self)@, id as int),
            removed == if has_entry(old(self)@, id as int) {
                1usize
            } else {
                0usize
            },
    {
        let mut at: usize = 0;
        while at < self.rows.len()
            invariant
                at <= self.rows.len(),
                self.wf(),
                *self == *old(self),
                forall|i: int| 0 <= i < at ==> (#[trigger] self@[i]).id != id,
            decreases self.rows.len() - at,
        {
            if self.rows[at].id == id {
                proof {
                    lemma_entry_of(self@, at as int);
                }
                self.rows.remove(at);
                proof {
                    let before = old(self)@;
                    assert forall|i: int, j: int| 0 <= i < j < self@.len() implies (
                    #[trigger] self@[i]).id < (#[trigger] self@[j]).id by {
                        let bi = if i < at { i } else { i + 1 };
                        let bj = if j < at { j } else { j + 1 };
                        assert(before[bi].id < before[bj].id);
                    }
                    assert forall|i: int| 0 <= i < self@.len() implies 1 <= (#[trigger] self@[i]).id
                        <= i64::MAX && self@[i].value >= 1 by {
                        let bi = if i < at { i } else { i + 1 };
                        assert(before[bi].id >= 1);
                    }
                }
                return 1;
            }
            at = at + 1;
        }
        0
    }

    /// Removes every transaction and says how many there were.
    pub fn delete_all(&mut self) -> (removed: usize)
        requires
            old(self).wf(),
        ensures
            final(self).wf(),
            final(self)@ == Seq::<TransactionView>::empty(),
            removed == old(self)@.len(),
    {
        let removed = self.rows.len();
        self.rows.clear();
        removed
    }

    /// The first `limit` transactions in the order in which they were
    /// recorded, or all of them where there are fewer.
    pub fn list(&self, limit: usize) -> (listed: Vec<Transaction>)
        ensures
            entry_views(listed@) == self@.take(
                if limit <= self@.len() {
                    limit as int
                } else {
                    self@.len() as int
                },
            ),
    {
        let count = if limit <= self.rows.len() {
            limit
        } else {
            self.rows.len()
        };
        let mut listed: Vec<Transaction> = Vec::new();
        let mut at: usize = 0;
        while at < count
            invariant
                at <= count <= self.rows.len(),
                entry_views(listed@) =~= self@.take(at as int),
            decreases count - at,
        {
            listed.push(self.rows[at].duplicate());
            assert(self@.take(at + 1) =~= self@.take(at as int).push(self@[at as int]));
            at = at + 1;
        }
        listed
    }
}

} // verus!
