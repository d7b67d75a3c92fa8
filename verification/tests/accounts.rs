use wallet::account::{Account, FlowType};
use wallet::accounts::{AccountRepository, DefaultOutcome, Removal};
use wallet::error::{LedgerError, StorageFailure};
use wallet::money::Money;
use wallet::transaction::Transaction;
use wallet::transactions::TransactionRepository;

fn cents(amount: i64) -> Money {
    Money::from_cents(amount)
}

fn default_ids(repository: &AccountRepository) -> Vec<i64> {
    repository
        .list(usize::MAX)
        .iter()
        .filter(|account| account.default)
        .map(|account| account.id)
        .collect()
}

fn ids(repository: &AccountRepository) -> Vec<i64> {
    repository.list(usize::MAX).iter().map(|account| account.id).collect()
}

#[test]
fn the_empty_account_is_the_placeholder() {
    let none = Account::empty();
    assert_eq!(none.id, -1);
    assert_eq!(none.name, "");
    assert_eq!(none.balance.cents(), 0);
    assert_eq!(none.available.cents(), 0);
    assert!(!none.default);
    assert!(!none.is_real());
}

#[test]
fn a_stored_row_becomes_an_account() {
    let account = Account::from_row(3, "Savings".to_string(), 12_345, 10_000, 1);
    assert_eq!(account.id, 3);
    assert_eq!(account.name, "Savings");
    assert_eq!(account.balance.cents(), 12_345);
    assert_eq!(account.available.cents(), 10_000);
    assert!(account.default);
    assert!(account.is_real());
    assert!(!Account::from_row(3, "Savings".to_string(), 0, 0, 0).default);
    assert!(Account::from_row(3, "Savings".to_string(), 0, 0, 7).default);
}

#[test]
fn a_duplicate_holds_the_same_contents() {
    let account = Account::from_row(3, "Savings".to_string(), 12_345, 10_000, 1);
    let copy = account.duplicate();
    assert_eq!(copy.id, 3);
    assert_eq!(copy.name, "Savings");
    assert_eq!(copy.balance, account.balance);
    assert_eq!(copy.available, account.available);
    assert_eq!(copy.default, account.default);
}

#[test]
fn an_uncharged_expense_leaves_the_balance() {
    let account = Account::from_row(1, "Main".to_string(), 10_000, 10_000, 1);
    let after = account.post(FlowType::Outgoing, cents(2_500), false).unwrap();
    assert_eq!(after.available.cents(), 7_500);
    assert_eq!(after.balance.cents(), 10_000);
    assert_eq!(after.id, 1);
    assert_eq!(after.name, "Main");
    assert!(after.default);
}

#[test]
fn a_charged_expense_leaves_both() {
    let account = Account::from_row(1, "Main".to_string(), 10_000, 10_000, 1);
    let after = account.post(FlowType::Outgoing, cents(2_500), true).unwrap();
    assert_eq!(after.available.cents(), 7_500);
    assert_eq!(after.balance.cents(), 7_500);
}

#[test]
fn incoming_money_enters_both_whether_charged_or_not() {
    let account = Account::from_row(1, "Main".to_string(), 10_000, 7_000, 0);
    for charged in [false, true] {
        let after = account.post(FlowType::Incoming, cents(1), charged).unwrap();
        assert_eq!(after.available.cents(), 7_001);
        assert_eq!(after.balance.cents(), 10_001);
    }
}

#[test]
fn a_posting_beyond_the_range_is_invalid() {
    let rich = Account::from_row(1, "Main".to_string(), i64::MAX, i64::MAX - 5, 1);
    assert_eq!(
        rich.post(FlowType::Incoming, cents(1), false).unwrap_err(),
        LedgerError::Validation
    );
    let at_the_edge = rich.post(FlowType::Outgoing, cents(1), true).unwrap();
    assert_eq!(at_the_edge.balance.cents(), i64::MAX - 1);
    let poor = Account::from_row(1, "Main".to_string(), 0, i64::MIN, 1);
    assert_eq!(
        poor.post(FlowType::Outgoing, cents(1), false).unwrap_err(),
        LedgerError::Validation
    );
}

#[test]
fn a_corrected_balance_moves_the_available_funds_along() {
    let account = Account::from_row(1, "Main".to_string(), 10_000, 7_000, 1);
    let raised = account.rebalance(cents(12_500)).unwrap();
    assert_eq!(raised.balance.cents(), 12_500);
    assert_eq!(raised.available.cents(), 9_500);
    let lowered = account.rebalance(cents(1_000)).unwrap();
    assert_eq!(lowered.balance.cents(), 1_000);
    assert_eq!(lowered.available.cents(), -2_000);
    let same = account.rebalance(cents(10_000)).unwrap();
    assert_eq!(same.available.cents(), 7_000);
}

#[test]
fn a_correction_beyond_the_range_is_invalid() {
    let account = Account::from_row(1, "Main".to_string(), 0, 10, 1);
    assert_eq!(account.rebalance(cents(i64::MAX)).unwrap_err(), LedgerError::Validation);
    let low = Account::from_row(1, "Main".to_string(), i64::MIN, i64::MIN, 1);
    let high = low.rebalance(cents(i64::MAX)).unwrap();
    assert_eq!(high.available.cents(), i64::MAX);
}

#[test]
fn the_first_account_becomes_the_default() {
    let mut repository = AccountRepository::new();
    assert_eq!(repository.len(), 0);
    assert_eq!(repository.find_default().unwrap_err(), LedgerError::NotFound);
    let first = repository.insert("Main", cents(10_000)).unwrap();
    assert_eq!(first.id, 1);
    assert_eq!(first.name, "Main");
    assert_eq!(first.balance.cents(), 10_000);
    assert_eq!(first.available.cents(), 10_000);
    assert!(first.default);
    let second = repository.insert("Savings", cents(0)).unwrap();
    assert_eq!(second.id, 2);
    assert!(!second.default);
    assert_eq!(repository.len(), 2);
    assert_eq!(default_ids(&repository), vec![1]);
    assert_eq!(repository.find_default().unwrap().id, 1);
}

#[test]
fn accounts_are_found_by_their_id() {
    let mut repository = AccountRepository::new();
    repository.insert("Main", cents(10_000)).unwrap();
    repository.insert("Savings", cents(5)).unwrap();
    let found = repository.find_by_id(2).unwrap();
    assert_eq!(found.name, "Savings");
    assert_eq!(found.balance.cents(), 5);
    assert_eq!(repository.find_by_id(3).unwrap_err(), LedgerError::NotFound);
    assert_eq!(repository.find_by_id(-1).unwrap_err(), LedgerError::NotFound);
    assert_eq!(repository.find_by_id(0).unwrap_err(), LedgerError::NotFound);
}

#[test]
fn an_update_overwrites_name_and_balances_only() {
    let mut repository = AccountRepository::new();
    repository.insert("Main", cents(10_000)).unwrap();
    repository.insert("Savings", cents(5)).unwrap();
    let changed = Account::from_row(1, "Daily".to_string(), 900, 800, 0);
    assert_eq!(repository.update(&changed), Ok(()));
    let stored = repository.find_by_id(1).unwrap();
    assert_eq!(stored.name, "Daily");
    assert_eq!(stored.balance.cents(), 900);
    assert_eq!(stored.available.cents(), 800);
    assert!(stored.default);
    assert_eq!(repository.find_by_id(2).unwrap().name, "Savings");
}

#[test]
fn an_update_without_a_matching_row_is_inconsistent() {
    let mut repository = AccountRepository::new();
    repository.insert("Main", cents(10_000)).unwrap();
    let stranger = Account::from_row(9, "Nobody".to_string(), 1, 1, 1);
    assert_eq!(repository.update(&stranger), Err(LedgerError::Consistency));
    assert_eq!(repository.len(), 1);
    assert_eq!(repository.find_by_id(1).unwrap().name, "Main");
}

#[test]
fn choosing_the_default_moves_the_mark() {
    let mut repository = AccountRepository::new();
    repository.insert("Main", cents(1)).unwrap();
    repository.insert("Savings", cents(2)).unwrap();
    repository.insert("Travel", cents(3)).unwrap();
    assert_eq!(repository.set_default(3), Ok(DefaultOutcome::Changed));
    assert_eq!(default_ids(&repository), vec![3]);
    assert_eq!(repository.set_default(2), Ok(DefaultOutcome::Changed));
    assert_eq!(default_ids(&repository), vec![2]);
    assert_eq!(repository.find_by_id(2).unwrap().balance.cents(), 2);
}

#[test]
fn choosing_the_default_twice_changes_nothing_the_second_time() {
    let mut repository = AccountRepository::new();
    repository.insert("Main", cents(1)).unwrap();
    repository.insert("Savings", cents(2)).unwrap();
    assert_eq!(repository.set_default(2), Ok(DefaultOutcome::Changed));
    let after_first: Vec<(i64, bool)> =
        repository.list(10).iter().map(|a| (a.id, a.default)).collect();
    assert_eq!(repository.set_default(2), Ok(DefaultOutcome::AlreadyDefault));
    let after_second: Vec<(i64, bool)> =
        repository.list(10).iter().map(|a| (a.id, a.default)).collect();
    assert_eq!(after_first, after_second);
    assert_eq!(after_second, vec![(1, false), (2, true)]);
}

#[test]
fn choosing_an_unknown_account_as_default_is_not_found() {
    let mut repository = AccountRepository::new();
    assert_eq!(repository.set_default(1), Err(LedgerError::NotFound));
    repository.insert("Main", cents(1)).unwrap();
    assert_eq!(repository.set_default(2), Err(LedgerError::NotFound));
    assert_eq!(default_ids(&repository), vec![1]);
}

#[test]
fn the_default_account_is_protected_from_deletion() {
    let mut repository = AccountRepository::new();
    repository.insert("Main", cents(1)).unwrap();
    repository.insert("Savings", cents(2)).unwrap();
    assert_eq!(repository.delete(1), Removal::DefaultProtected);
    assert_eq!(ids(&repository), vec![1, 2]);
    assert_eq!(repository.delete(2), Removal::Removed(1));
    assert_eq!(ids(&repository), vec![1]);
    assert_eq!(repository.delete(2), Removal::Removed(0));
    assert_eq!(repository.delete(1), Removal::DefaultProtected);
    assert_eq!(default_ids(&repository), vec![1]);
}

#[test]
fn deleting_all_accounts_removes_the_default_too() {
    let mut repository = AccountRepository::new();
    repository.insert("Main", cents(1)).unwrap();
    repository.insert("Savings", cents(2)).unwrap();
    assert_eq!(repository.delete_all(), 2);
    assert_eq!(repository.len(), 0);
    assert_eq!(repository.delete_all(), 0);
    let again = repository.insert("Fresh", cents(3)).unwrap();
    assert_eq!(again.id, 1);
    assert!(again.default);
}

#[test]
fn ids_go_on_above_the_largest() {
    let mut repository = AccountRepository::new();
    repository.insert("A", cents(1)).unwrap();
    repository.insert("B", cents(1)).unwrap();
    repository.insert("C", cents(1)).unwrap();
    assert_eq!(repository.delete(2), Removal::Removed(1));
    assert_eq!(repository.insert("D", cents(1)).unwrap().id, 4);
    assert_eq!(repository.delete(4), Removal::Removed(1));
    assert_eq!(repository.insert("E", cents(1)).unwrap().id, 4);
    assert_eq!(ids(&repository), vec![1, 3, 4]);
}

#[test]
fn listing_is_capped_and_in_ascending_order() {
    let mut repository = AccountRepository::new();
    for name in ["A", "B", "C"] {
        repository.insert(name, cents(1)).unwrap();
    }
    let names = |limit: usize| -> Vec<String> {
        repository.list(limit).into_iter().map(|a| a.name).collect()
    };
    assert_eq!(names(0), Vec::<String>::new());
    assert_eq!(names(2), vec!["A", "B"]);
    assert_eq!(names(3), vec!["A", "B", "C"]);
    assert_eq!(names(10), vec!["A", "B", "C"]);
    assert_eq!(names(2), vec!["A", "B"]);
}

#[test]
fn stored_rows_are_held_to_the_invariant() {
    let row = |id: i64, default: i64| Account::from_row(id, "x".to_string(), 1, 1, default);
    assert!(AccountRepository::from_rows(vec![]).is_ok());
    let held = AccountRepository::from_rows(vec![row(2, 0), row(5, 1), row(9, 0)]).unwrap();
    assert_eq!(ids(&held), vec![2, 5, 9]);
    assert_eq!(default_ids(&held), vec![5]);
    let broken = [
        vec![row(1, 0)],
        vec![row(1, 1), row(2, 1)],
        vec![row(2, 1), row(1, 0)],
        vec![row(1, 1), row(1, 0)],
        vec![row(0, 1)],
        vec![row(-1, 1)],
        vec![row(1, 0), row(2, 0)],
    ];
    for rows in broken {
        assert_eq!(AccountRepository::from_rows(rows).err(), Some(LedgerError::Consistency));
    }
}

#[test]
fn used_up_ids_are_a_storage_failure() {
    let last = Account::from_row(i64::MAX, "Last".to_string(), 1, 1, 1);
    let mut repository = AccountRepository::from_rows(vec![last]).unwrap();
    assert_eq!(
        repository.insert("More", cents(1)).unwrap_err(),
        LedgerError::SchemaOrIntegrity(StorageFailure::Other)
    );
    assert_eq!(repository.len(), 1);
}

#[test]
fn a_transaction_needs_an_existing_account() {
    let mut accounts = AccountRepository::new();
    accounts.insert("Main", cents(1)).unwrap();
    let mut entries = TransactionRepository::new();
    assert_eq!(
        entries
            .insert(&accounts, "ghost", cents(5), 2_459_644, false, FlowType::Outgoing, 2)
            .unwrap_err(),
        LedgerError::SchemaOrIntegrity(StorageFailure::ForeignKey)
    );
    assert_eq!(
        entries
            .insert(&accounts, "nothing", cents(0), 2_459_644, false, FlowType::Outgoing, 1)
            .unwrap_err(),
        LedgerError::Validation
    );
    assert_eq!(entries.len(), 0);
    assert_eq!(entries.next_id(), Some(1));
    let first = entries
        .insert(&accounts, "coffee", cents(5), 2_459_644, true, FlowType::Outgoing, 1)
        .unwrap();
    assert_eq!(entries.next_id(), Some(2));
    assert_eq!(first.id, 1);
    assert_eq!(first.message, "coffee");
    assert_eq!(first.value.cents(), 5);
    assert_eq!(first.date, 2_459_644);
    assert!(first.charged);
    assert_eq!(first.flow_type, FlowType::Outgoing);
    assert_eq!(first.id_account, 1);
    let second = entries
        .insert(&accounts, "salary", cents(500), 2_459_645, false, FlowType::Incoming, 1)
        .unwrap();
    assert_eq!(second.id, 2);
    assert_eq!(entries.len(), 2);
}

#[test]
fn transactions_are_listed_in_the_order_of_recording() {
    let mut accounts = AccountRepository::new();
    accounts.insert("Main", cents(1)).unwrap();
    let mut entries = TransactionRepository::new();
    for message in ["a", "b", "c"] {
        entries
            .insert(&accounts, message, cents(1), 2_459_644, false, FlowType::Incoming, 1)
            .unwrap();
    }
    let messages = |limit: usize, entries: &TransactionRepository| -> Vec<String> {
        entries.list(limit).into_iter().map(|t| t.message).collect()
    };
    assert_eq!(messages(2, &entries), vec!["a", "b"]);
    assert_eq!(messages(9, &entries), vec!["a", "b", "c"]);
    assert_eq!(entries.delete(2), 1);
    assert_eq!(entries.delete(2), 0);
    assert_eq!(messages(9, &entries), vec!["a", "c"]);
    assert_eq!(entries.delete_all(), 2);
    assert_eq!(entries.len(), 0);
}

#[test]
fn stored_transactions_are_held_to_the_invariant() {
    let row = |id: i64, value: i64| {
        Transaction::from_row(id, "x".to_string(), value, 2_459_644, 0, 0, 1)
            .unwrap()
    };
    assert!(TransactionRepository::from_rows(vec![]).is_ok());
    assert_eq!(TransactionRepository::from_rows(vec![row(1, 5), row(4, 1)]).unwrap().len(), 2);
    let broken = [
        vec![row(0, 5)],
        vec![row(1, 0)],
        vec![row(1, -5)],
        vec![row(2, 5), row(1, 5)],
        vec![row(2, 5), row(2, 5)],
    ];
    for rows in broken {
        assert_eq!(TransactionRepository::from_rows(rows).err(), Some(LedgerError::Consistency));
    }
}

#[test]
fn the_next_transaction_id_is_one_above_the_largest() {
    let row = |id: i64| Transaction::from_row(id, "x".to_string(), 1, 2_459_644, 0, 0, 1).unwrap();
    let held = TransactionRepository::from_rows(vec![row(3), row(8)]).unwrap();
    assert_eq!(held.next_id(), Some(9));
    let full = TransactionRepository::from_rows(vec![row(i64::MAX)]).unwrap();
    assert_eq!(full.next_id(), None);
}
