//! The account entity and the effect of postings and edits on its balances.
//!
//! `balance` is the statement balance: it moves with incoming money and
//! with charged expenses. `available` is what can be spent: it moves with
//! every posting, charged or not.

use vstd::prelude::*;
use vstd::string::*;
use crate::error::LedgerError;
use crate::money::Money;

verus! {

/// The direction of a money flow.
#[derive(Clone, Copy, Debug, PartialEq, Eq, Structural)]
pub enum FlowType {
    /// Money leaves the account.
    Outgoing,
    /// Money enters the account.
    Incoming,
}

impl FlowType {
    /// The code under which the direction is stored: 0 outgoing, 1 incoming.
    pub open spec fn code_spec(self) -> int {
        match self {
            FlowType::Outgoing => 0,
            FlowType::Incoming => 1,
        }
    }

    /// The stored code of the direction.
    pub fn code(self) -> (code: i64)
        ensures
            code == self.code_spec(),
    {
        match self {
            FlowType::Outgoing => 0,
            FlowType::Incoming => 1,
        }
    }

    /// The direction stored under `code`, if there is one.
    pub fn from_code(code: i64) -> (flow: Option<FlowType>)
        ensures
            flow == if code == 0 {
                Some(FlowType::Outgoing)
            } else if code == 1 {
                Some(FlowType::Incoming)
            } else {
                None
            },
    {
        if code == 0 {
            Some(FlowType::Outgoing)
        } else if code == 1 {
            Some(FlowType::Incoming)
        } else {
            None
        }
    }
}

/// An account: where money is held.
#[derive(Clone, Debug)]
pub struct Account {
    /// The identifier that the repository gave; -1 for the placeholder.
    pub id: i64,
    /// The display name.
    pub name: String,
    /// The statement balance: what incoming and charged outgoing money add up to.
    pub balance: Money,
    /// The spendable funds: what all money flows add up to, charged or not.
    pub available: Money,
    /// Whether this is the account that is used where none is named.
    pub default: bool,
}

/// What an account is, as plain mathematical values.
pub struct AccountView {
    pub id: int,
    pub name: Seq<char>,
    pub balance: int,
    pub available: int,
    pub is_default: bool,
}

impl View for Account {
    type V = AccountView;

    open spec fn view(&self) -> AccountView {
        AccountView {
            id: self.id as int,
            name: self.name@,
            balance: self.balance@,
            available: self.available@,
            is_default: self.default,
        }
    }
}

/// One posting against an account, as plain values.
pub struct Posting {
    /// The magnitude of the money flow in minor units.
    pub value: int,
    /// The direction of the money flow.
    pub flow: FlowType,
    /// Whether an outgoing flow has cleared against the statement balance.
    pub charged: bool,
}

/// The account after a posting. Outgoing money always leaves `available`
/// and leaves `balance` only when charged; incoming money enters both.
pub open spec fn posted(account: AccountView, posting: Posting) -> AccountView {
    match posting.flow {
        FlowType::Outgoing => AccountView {
            available: account.available - posting.value,
            balance: if posting.charged {
                account.balance - posting.value
            } else {
                account.balance
            },
            ..account
        },
        FlowType::Incoming => AccountView {
            available: account.available + posting.value,
            balance: account.balance + posting.value,
            ..account
        },
    }
}

/// The account after its statement balance was corrected to `balance`:
/// `available` moves by the same difference.
pub open spec fn rebalanced(account: AccountView, balance: int) -> AccountView {
    AccountView {
        balance: balance,
        available: account.available + (balance - account.balance),
        ..account
    }
}

/// Whether both balances of the account fit the machine's range.
pub open spec fn holdable(account: AccountView) -> bool {
    &&& i64::MIN <= account.balance <= i64::MAX
    &&& i64::MIN <= account.available <= i64::MAX
}

/// The account after a sequence of postings, applied in order.
pub open spec fn replayed(account: AccountView, postings: Seq<Posting>) -> AccountView
    decreases postings.len(),
{
    if postings.len() == 0 {
        account
    } else {
        posted(replayed(account, postings.drop_last()), postings.last())
    }
}

/// The sum of the incoming postings.
pub open spec fn incoming_total(postings: Seq<Posting>) -> int
    decreases postings.len(),
{
    if postings.len() == 0 {
        0
    } else {
        incoming_total(postings.drop_last()) + if postings.last().flow == FlowType::Incoming {
            postings.last().value
        } else {
            0
        }
    }
}

/// The sum of the outgoing postings, charged or not.
pub open spec fn outgoing_total(postings: Seq<Posting>) -> int
    decreases postings.len(),
{
    if postings.len() == 0 {
        0
    } else {
        outgoing_total(postings.drop_last()) + if postings.last().flow == FlowType::Outgoing {
            postings.last().value
        } else {
            0
        }
    }
}

/// The sum of the outgoing postings that were charged.
pub open spec fn charged_outgoing_total(postings: Seq<Posting>) -> int
    decreases postings.len(),
{
    if postings.len() == 0 {
        0
    } else {
        charged_outgoing_total(postings.drop_last()) + if postings.last().flow
            == FlowType::Outgoing && postings.last().charged {
            postings.last().value
        } else {
            0
        }
    }
}

/// After any sequence of postings against one account, `available` is what
/// it was plus all incoming minus all outgoing money, and `balance` is what
/// it was plus all incoming minus the charged outgoing money. Nothing else
/// of the account changes.
pub proof fn law_balances_follow_postings(account: AccountView, postings: Seq<Posting>)
    ensures
        replayed(account, postings).available == account.available + incoming_total(postings)
            - outgoing_total(postings),
        replayed(account, postings).balance == account.balance + incoming_total(postings)
            - charged_outgoing_total(postings),
        replayed(account, postings).id == account.id,
        replayed(account, postings).name == account.name,
        replayed(account, postings).is_default == account.is_default,
    decreases postings.len(),
{
    if postings.len() > 0 {
        law_balances_follow_postings(account, postings.drop_last());
    }
}

/// What is spendable never exceeds the statement balance once that holds:
/// postings of amounts that are not negative keep `available <= balance`,
/// and so does a correction of the balance.
pub proof fn law_available_within_balance(account: AccountView, posting: Posting, balance: int)
    requires
        account.available <= account.balance,
        posting.value >= 0,
    ensures
        posted(account, posting).available <= posted(account, posting).balance,
        rebalanced(account, balance).available <= rebalanced(account, balance).balance,
{
}

impl Account {
    /// The placeholder that stands for "no such account": its id is -1.
    pub fn empty() -> (account: Account)
        ensures
            account@ == (AccountView {
                id: -1,
                name: Seq::<char>::empty(),
                balance: 0,
                available: 0,
                is_default: false,
            }),
    {
        Account {
            id: -1,
            name: String::new(),
            balance: Money::zero(),
            available: Money::zero(),
            default: false,
        }
    }

    /// Whether this is a real account and not the placeholder.
    pub fn is_real(&self) -> (present: bool)
        ensures
            present == (self@.id != -1),
    {
        self.id != -1
    }

    /// The account held by one stored row. Balances are stored in minor
    /// units, the default flag as a number that is 0 for "no".
    pub fn from_row(id: i64, name: String, balance: i64, available: i64, is_default: i64) -> (account:
        Account)
        ensures
            account@ == (AccountView {
                id: id as int,
                name: name@,
                balance: balance as int,
                available: available as int,
                is_default: is_default != 0,
            }),
    {
        Account {
            id,
            name,
            balance: Money::from_cents(balance),
            available: Money::from_cents(available),
            default: is_default != 0,
        }
    }

    /// A second account with the same contents.
    pub fn duplicate(&self) -> (copy: Account)
        ensures
            copy@ == self@,
    {
        Account {
            id: self.id,
            name: self.name.clone(),
            balance: self.balance,
            available: self.available,
            default: self.default,
        }
    }

    /// The account after a posting of `value`, or `Validation` where a
    /// balance would leave the machine's range.
    pub fn post(&self, flow: FlowType, value: Money, charged: bool) -> (after: Result<
        Account,
        LedgerError,
    >)
        ensures
            after is Ok <==> holdable(posted(self@, Posting { value: value@, flow, charged })),
            after matches Ok(account) ==> account@ == posted(
                self@,
                Posting { value: value@, flow, charged },
            ),
            after matches Err(e) ==> e == LedgerError::Validation,
    {
        let (available, balance) = match flow {
            FlowType::Outgoing => (
                self.available.checked_sub(value),
                if charged {
                    self.balance.checked_sub(value)
                } else {
                    Some(self.balance)
                },
            ),
            FlowType::Incoming => (
                self.available.checked_add(value),
                self.balance.checked_add(value),
            ),
        };
        match (available, balance) {
            (Some(available), Some(balance)) => Ok(
                Account {
                    id: self.id,
                    name: self.name.clone(),
                    balance,
                    available,
                    default: self.default,
                },
            ),
            _ => Err(LedgerError::Validation),
        }
    }

    /// The account with its statement balance corrected to `balance`, or
    /// `Validation` where `available` would leave the machine's range.
    pub fn rebalance(&self, balance: Money) -> (after: Result<Account, LedgerError>)
        ensures
            after is Ok <==> holdable(rebalanced(self@, balance@)),
            after matches Ok(account) ==> account@ == rebalanced(self@, balance@),
            after matches Err(e) ==> e == LedgerError::Validation,
    {
        let wide: i128 = self.available.cents as i128 + (balance.cents as i128
            - self.balance.cents as i128);
        if wide < i64::MIN as i128 || wide > i64::MAX as i128 {
            Err(LedgerError::Validation)
        } else {
            Ok(
                Account {
                    id: self.id,
                    name: self.name.clone(),
                    balance,
                    available: Money::from_cents(wide as i64),
                    default: self.default,
                },
            )
        }
    }
}

} // verus!
