//! Small text helpers: identifiers written as text, table names, and the
//! hint shown when the storage layer rejects a statement.

use vstd::prelude::*;
use vstd::string::*;
use crate::decimal::{
    decimal_value, digits_end, lemma_decimal_value_bound, lemma_digits_end, read_digits,
};
use crate::error::StorageFailure;

verus! {

/// The length of the sign that `text` starts with: 1 for `+` or `-`, else 0.
pub open spec fn sign_len(text: Seq<char>) -> int {
    if text.len() > 0 && (text[0] == '+' || text[0] == '-') {
        1
    } else {
        0
    }
}

/// Whether `text` starts with a minus sign.
pub open spec fn is_negative(text: Seq<char>) -> bool {
    text.len() > 0 && text[0] == '-'
}

/// The integer that `text` writes: an optional sign and then digits only, at
/// least one. `None` for any other text.
pub open spec fn integer_spec(text: Seq<char>) -> Option<int> {
    let start = sign_len(text);
    if start < text.len() && digits_end(text, start) == text.len() {
        let magnitude = decimal_value(text.subrange(start, text.len() as int));
        Some(
            if is_negative(text) {
                -magnitude
            } else {
                magnitude
            },
        )
    } else {
        None
    }
}

/// The integer that `text` writes, where it fits an `i64`.
pub open spec fn i64_spec(text: Seq<char>) -> Option<i64> {
    match integer_spec(text) {
        Some(v) => if i64::MIN <= v <= i64::MAX {
            Some(v as i64)
        } else {
            None
        },
        None => None,
    }
}

/// Whether two texts hold the same characters.
pub fn str_equals(a: &str, b: &str) -> (same: bool)
    ensures
        same == (a@ == b@),
{
    let len = a.unicode_len();
    if len != b.unicode_len() {
        return false;
    }
    let mut at: usize = 0;
    while at < len
        invariant
            len == a@.len(),
            len == b@.len(),
            at <= len,
            forall|i: int| 0 <= i < at ==> a@[i] == b@[i],
        decreases len - at,
    {
        if a.get_char(at) != b.get_char(at) {
            return false;
        }
        at = at + 1;
    }
    assert(a@ =~= b@);
    true
}

/// Reads a signed decimal integer. The result is `Some` exactly for an
/// optional sign followed by one or more digits whose value fits an `i64`.
pub fn parse_i64(text: &str) -> (value: Option<i64>)
    ensures
        value == i64_spec(text@),
{
    let len = text.unicode_len();
    if len == 0 {
        return None;
    }
    let first = text.get_char(0);
    let negative = first == '-';
    let start: usize = if first == '+' || first == '-' {
        1
    } else {
        0
    };
    let (end, magnitude) = read_digits(text, start);
    proof {
        lemma_digits_end(text@, start as int);
        lemma_decimal_value_bound(text@.subrange(start as int, end as int));
    }
    if start == len || end != len {
        return None;
    }
    if negative {
        if magnitude > 9_223_372_036_854_775_808 {
            None
        } else if magnitude == 9_223_372_036_854_775_808 {
            Some(i64::MIN)
        } else {
            Some(-(magnitude as i64))
        }
    } else if magnitude > 9_223_372_036_854_775_807 {
        None
    } else {
        Some(magnitude as i64)
    }
}

/// Reads an optional identifier. Absent text gives no identifier.
pub fn opt_str_to_opt_i64(opt_str: Option<&str>) -> (id: Option<i64>)
    requires
        opt_str matches Some(text) ==> i64_spec(text@) is Some,
    ensures
        id == match opt_str {
            Some(text) => i64_spec(text@),
            None => None,
        },
{
    match opt_str {
        Some(text) => parse_i64(text),
        None => None,
    }
}

/// The item types whose table is named by adding an `s`.
pub open spec fn is_plural_item(item_type: Seq<char>) -> bool {
    ||| item_type == "account"@
    ||| item_type == "transaction"@
    ||| item_type == "payment"@
    ||| item_type == "saving"@
}

/// The item types whose table is named by adding `_purchases`.
pub open spec fn is_purchase_item(item_type: Seq<char>) -> bool {
    item_type == "queued"@ || item_type == "msi"@
}

/// The table that holds the items of a type.
pub open spec fn table_name_spec(item_type: Seq<char>) -> Seq<char> {
    if is_purchase_item(item_type) {
        item_type + "_purchases"@
    } else {
        item_type + "s"@
    }
}

/// Whether `item_type` names one of the six kinds of item.
pub fn is_item_type(item_type: &str) -> (known: bool)
    ensures
        known == (is_plural_item(item_type@) || is_purchase_item(item_type@)),
{
    str_equals(item_type, "account") || str_equals(item_type, "transaction") || str_equals(
        item_type,
        "payment",
    ) || str_equals(item_type, "saving") || str_equals(item_type, "queued") || str_equals(
        item_type,
        "msi",
    )
}

/// The name of the table that holds the items of type `item_type`.
pub fn item_type_to_table_name(item_type: &str) -> (name: String)
    requires
        is_plural_item(item_type@) || is_purchase_item(item_type@),
    ensures
        name@ == table_name_spec(item_type@),
{
    let mut name = String::from_str(item_type);
    if str_equals(item_type, "queued") || str_equals(item_type, "msi") {
        name.append("_purchases");
    } else {
        name.append("s");
    }
    name
}

/// What the user is told when the storage layer rejects a statement on `table_name`.
pub open spec fn hint_spec(failure: StorageFailure, table_name: Seq<char>) -> Seq<char> {
    if failure == StorageFailure::MissingTable {
        "Table '"@ + table_name + "' not found! Try 'wallet init' before use it."@
    } else {
        "Something went wrong with the query!"@
    }
}

/// The message for a rejected statement: a missing table gets the hint to
/// initialise the database, every other failure the general message.
pub fn validate_tables(failure: StorageFailure, table_name: &str) -> (message: String)
    ensures
        message@ == hint_spec(failure, table_name@),
{
    match failure {
        StorageFailure::MissingTable => {
            let mut message = String::from_str("Table '");
            message.append(table_name);
            message.append("' not found! Try 'wallet init' before use it.");
            message
        },
        _ => String::from_str("Something went wrong with the query!"),
    }
}

} // verus!
