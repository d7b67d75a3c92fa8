//! The transaction entity: one money flow against one account.

use vstd::prelude::*;
use vstd::string::*;
use crate::account::FlowType;
use crate::calendar::{calendar_of_julian, date_text, date_text_spec, is_calendar_day};
use crate::error::LedgerError;
use crate::money::Money;

verus! {

/// A recorded money flow. `value` is the magnitude; the direction is
/// `flow_type`. `date` is the Julian day number of the posting.
#[derive(Clone, Debug)]
pub struct Transaction {
    /// The identifier that the repository gave; -1 for the placeholder.
    pub id: i64,
    /// The free-text description.
    pub message: String,
    /// The magnitude of the money flow.
    pub value: Money,
    /// The day of the posting as a Julian day number.
    pub date: i32,
    /// Whether the flow has cleared against the statement balance.
    pub charged: bool,
    /// The direction of the money flow.
    pub flow_type: FlowType,
    /// The id of the account that the flow belongs to.
    pub id_account: i64,
}

/// What a transaction is, as plain mathematical values.
pub struct TransactionView {
    pub id: int,
    pub message: Seq<char>,
    pub value: int,
    pub date: int,
    pub charged: bool,
    pub flow_type: FlowType,
    pub id_account: int,
}

impl View for Transaction {
    type V = TransactionView;

    open spec fn view(&self) -> TransactionView {
        TransactionView {
            id: self.id as int,
            message: self.message@,
            value: self.value@,
            date: self.date as int,
            charged: self.charged,
            flow_type: self.flow_type,
            id_account: self.id_account as int,
        }
    }
}

impl Transaction {
    /// The placeholder that stands for "no such transaction": its id and
    /// its account are -1.
    pub fn empty() -> (transaction: Transaction)
        ensures
            transaction@ == (TransactionView {
                id: -1,
                message: Seq::<char>::empty(),
                value: 0,
                date: 0,
                charged: false,
                flow_type: FlowType::Outgoing,
                id_account: -1,
            }),
    {
        Transaction {
            id: -1,
            message: String::new(),
            value: Money::zero(),
            date: 0,
            charged: false,
            flow_type: FlowType::Outgoing,
            id_account: -1,
        }
    }

    /// The transaction with the given stored values. The value is stored in
    /// minor units, the date as a Julian day number, the charged flag as a
    /// number that is 1 for "yes", the direction as its code: 0 outgoing,
    /// 1 incoming. Any other code is refused.
    pub fn from_values(
        id: i64,
        message: String,
        value: i64,
        julian_date: i32,
        charged: i64,
        t_type: i64,
        id_account: i64,
    ) -> (transaction: Result<Transaction, LedgerError>)
        ensures
            transaction is Ok <==> t_type == 0 || t_type == 1,
            transaction matches Ok(t) ==> t@ == (TransactionView {
                id: id as int,
                message: message@,
                value: value as int,
                date: julian_date as int,
                charged: charged == 1,
                flow_type: if t_type == 0 {
                    FlowType::Outgoing
                } else {
                    FlowType::Incoming
                },
                id_account: id_account as int,
            }),
            transaction matches Err(e) ==> e == LedgerError::Validation,
    {
        match FlowType::from_code(t_type) {
            Some(flow_type) => Ok(
                Transaction {
                    id,
                    message,
                    value: Money::from_cents(value),
                    date: julian_date,
                    charged: charged == 1,
                    flow_type,
                    id_account,
                },
            ),
            None => Err(LedgerError::Validation),
        }
    }

    /// The transaction held by one stored row: as `from_values`, and a row
    /// whose day number stands for no date of the calendar is refused too.
    pub fn from_row(
        id: i64,
        message: String,
        value: i64,
        julian_date: i32,
        charged: i64,
        t_type: i64,
        id_account: i64,
    ) -> (transaction: Result<Transaction, LedgerError>)
        ensures
            transaction is Ok <==> (t_type == 0 || t_type == 1) && calendar_of_julian(julian_date)
                is Some,
            transaction matches Ok(t) ==> t@ == (TransactionView {
                id: id as int,
                message: message@,
                value: value as int,
                date: julian_date as int,
                charged: charged == 1,
                flow_type: if t_type == 0 {
                    FlowType::Outgoing
                } else {
                    FlowType::Incoming
                },
                id_account: id_account as int,
            }),
            transaction matches Err(e) ==> e == LedgerError::Validation,
    {
        if !is_calendar_day(julian_date) {
            return Err(LedgerError::Validation);
        }
        Transaction::from_values(id, message, value, julian_date, charged, t_type, id_account)
    }

    /// A second transaction with the same contents.
    pub fn duplicate(&self) -> (copy: Transaction)
        ensures
            copy@ == self@,
    {
        Transaction {
            id: self.id,
            message: self.message.clone(),
            value: self.value,
            date: self.date,
            charged: self.charged,
            flow_type: self.flow_type,
            id_account: self.id_account,
        }
    }

    /// The date of the transaction as text, such as `2022-March-5`.
    pub fn date_text(&self) -> (text: Option<String>)
        ensures
            text is Some <==> date_text_spec(self.date) is Some,
            text matches Some(t) ==> Some(t@) == date_text_spec(self.date),
    {
        date_text(self.date)
    }
}

} // verus!
