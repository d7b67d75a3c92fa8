use wallet::account::Account;
use wallet::accounts::{DefaultOutcome, Removal};
use wallet::error::{check_rows_affected, posting_failure, LedgerError, StorageFailure};
use wallet::ledger::EditOutcome;
use wallet::money::Money;
use wallet::summary::{
    created_summary, default_summary, edit_summary, error_summary, removal_summary,
    uncovered_summary,
};
use wallet::utils::{
    is_item_type, item_type_to_table_name, opt_str_to_opt_i64, parse_i64, str_equals,
    validate_tables,
};

#[test]
fn table_names_of_the_plural_items() {
    assert_eq!(item_type_to_table_name("account"), "accounts");
    assert_eq!(item_type_to_table_name("transaction"), "transactions");
    assert_eq!(item_type_to_table_name("payment"), "payments");
    assert_eq!(item_type_to_table_name("saving"), "savings");
}

#[test]
fn table_names_of_the_purchase_items() {
    assert_eq!(item_type_to_table_name("queued"), "queued_purchases");
    assert_eq!(item_type_to_table_name("msi"), "msi_purchases");
}

#[test]
fn item_types_are_recognised() {
    for known in ["account", "transaction", "payment", "saving", "queued", "msi"] {
        assert!(is_item_type(known), "{}", known);
    }
    for unknown in ["", "accounts", "Account", "msi ", "queue", "savings"] {
        assert!(!is_item_type(unknown), "{}", unknown);
    }
}

#[test]
fn identifiers_are_read_from_text() {
    assert_eq!(opt_str_to_opt_i64(Some("42")), Some(42));
    assert_eq!(opt_str_to_opt_i64(Some("-7")), Some(-7));
    assert_eq!(opt_str_to_opt_i64(Some("+7")), Some(7));
    assert_eq!(opt_str_to_opt_i64(Some("0")), Some(0));
    assert_eq!(opt_str_to_opt_i64(None), None);
}

#[test]
fn integers_at_the_limits_of_the_range() {
    assert_eq!(parse_i64("9223372036854775807"), Some(i64::MAX));
    assert_eq!(parse_i64("-9223372036854775808"), Some(i64::MIN));
    assert_eq!(parse_i64("9223372036854775808"), None);
    assert_eq!(parse_i64("-9223372036854775809"), None);
    assert_eq!(parse_i64("100000000000000000000000000000000"), None);
    assert_eq!(parse_i64("0000000000000000000000000000000012"), Some(12));
}

#[test]
fn text_that_is_no_integer_is_refused() {
    for text in ["", "+", "-", "1.0", "12a", " 1", "1 ", "--1", "+-1", "one", "1_000"] {
        assert_eq!(parse_i64(text), None, "{:?}", text);
    }
}

#[test]
fn integer_parsing_agrees_with_the_standard_library() {
    for text in ["0", "-0", "+0", "7", "-12", "+33", "007", "", "-", "x", "9223372036854775807",
        "9223372036854775808", "-9223372036854775808", "-9223372036854775809", "1e3", "٣"] {
        assert_eq!(parse_i64(text), text.parse::<i64>().ok(), "{:?}", text);
    }
}

#[test]
fn texts_are_compared_by_their_characters() {
    assert!(str_equals("", ""));
    assert!(str_equals("accounts", "accounts"));
    assert!(!str_equals("accounts", "account"));
    assert!(!str_equals("account", "accounts"));
    assert!(!str_equals("accounts", "accountz"));
    assert!(str_equals("añb", "añb"));
    assert!(!str_equals("añb", "anb"));
}

#[test]
fn a_missing_table_gets_the_hint_to_initialise() {
    assert_eq!(
        validate_tables(StorageFailure::MissingTable, "accounts"),
        "Table 'accounts' not found! Try 'wallet init' before use it."
    );
}

#[test]
fn other_failures_get_the_general_message() {
    assert_eq!(
        validate_tables(StorageFailure::Other, "accounts"),
        "Something went wrong with the query!"
    );
    assert_eq!(
        validate_tables(StorageFailure::ForeignKey, "transactions"),
        "Something went wrong with the query!"
    );
}

#[test]
fn exactly_one_row_is_expected() {
    assert_eq!(check_rows_affected(1), Ok(()));
    assert_eq!(check_rows_affected(0), Err(LedgerError::Consistency));
    assert_eq!(check_rows_affected(2), Err(LedgerError::Consistency));
}

#[test]
fn an_interrupted_posting_is_partial_once_the_transaction_is_recorded() {
    assert_eq!(
        posting_failure(true, StorageFailure::Other),
        LedgerError::PartialApplication
    );
    assert_eq!(
        posting_failure(true, StorageFailure::MissingTable),
        LedgerError::PartialApplication
    );
    assert_eq!(
        posting_failure(false, StorageFailure::MissingTable),
        LedgerError::SchemaOrIntegrity(StorageFailure::MissingTable)
    );
    assert_eq!(
        posting_failure(false, StorageFailure::ForeignKey),
        LedgerError::SchemaOrIntegrity(StorageFailure::ForeignKey)
    );
}

#[test]
fn summaries_of_outcomes() {
    let account = Account::from_row(1, "Main".to_string(), 10_050, 10_050, 1);
    assert_eq!(created_summary(&account), "New account Main - $100.50");
    assert_eq!(
        default_summary(DefaultOutcome::Changed, "Main"),
        "Success! The account 'Main' is now default!"
    );
    assert_eq!(
        default_summary(DefaultOutcome::AlreadyDefault, "Main"),
        "This is already the default account!"
    );
    assert_eq!(
        removal_summary(Removal::DefaultProtected),
        "You can't delete the default account unless you delete all."
    );
    assert_eq!(removal_summary(Removal::Removed(0)), "Zero rows deleted!");
    assert_eq!(removal_summary(Removal::Removed(1)), "Successfully deleted 1 rows!");
    assert_eq!(removal_summary(Removal::Removed(120)), "Successfully deleted 120 rows!");
    assert_eq!(
        uncovered_summary(&account, Money::from_cents(20_000)),
        "The account 'Main' has no money enough for this purchase! \
         Available balance is 100.50 and the purchase price is 200.00."
    );
    assert_eq!(
        edit_summary(&EditOutcome::Updated(account)),
        "Successfully updated account data!"
    );
    assert_eq!(
        edit_summary(&EditOutcome::NothingToUpdate),
        "You must provide at least one valid argument to update! The account will keep its values."
    );
}

#[test]
fn summaries_of_errors() {
    assert_eq!(error_summary(LedgerError::NotFound, "accounts"), "The ID was not found or is invalid!");
    assert_eq!(error_summary(LedgerError::Validation, "accounts"), "The values given are not valid!");
    assert_eq!(
        error_summary(LedgerError::InsufficientFunds, "accounts"),
        "The account has no money enough for this purchase!"
    );
    assert_eq!(
        error_summary(LedgerError::Consistency, "accounts"),
        "Not exactly one row was updated! Please check the consistency of IDs..."
    );
    assert_eq!(
        error_summary(LedgerError::SchemaOrIntegrity(StorageFailure::MissingTable), "transactions"),
        "Table 'transactions' not found! Try 'wallet init' before use it."
    );
    assert_eq!(
        error_summary(LedgerError::SchemaOrIntegrity(StorageFailure::Other), "transactions"),
        "Something went wrong with the query!"
    );
    assert_eq!(
        error_summary(LedgerError::PartialApplication, "accounts"),
        "The transaction was recorded, but the balances of its account were not updated!"
    );
}
