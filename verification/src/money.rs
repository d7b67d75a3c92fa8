//! Fixed-point currency amounts, stored as a count of minor units.
//!
//! An amount is written as an optional sign, digits, and optionally a point
//! and more digits. Reading it multiplies by one hundred and rounds half away
//! from zero, so only the third digit behind the point decides the rounding.

use vstd::prelude::*;
use vstd::string::*;
use crate::decimal::{
    decimal_value, digit_char, digit_of_char, digit_text, digit_value, digits_end, digits_of,
    is_digit, lemma_decimal_value_bound, lemma_decimal_value_concat, lemma_digits_end,
    lemma_digits_end_of_run, lemma_digits_of, lemma_pow10_sum, pow10, push_digits, read_digits,
    DIGIT_CAP,
};
use crate::error::LedgerError;
use crate::utils::{is_negative, sign_len};

verus! {

/// An amount of money in minor units (cents). The view is the signed count.
#[derive(Clone, Copy, Debug, PartialEq, Eq, Structural)]
pub struct Money {
    /// The signed count of minor units.
    pub cents: i64,
}

impl View for Money {
    type V = int;

    open spec fn view(&self) -> int {
        self.cents as int
    }
}

/// The digit at place `i` behind the point, 0 where the writing has ended.
pub open spec fn digit_at(fraction: Seq<char>, i: int) -> int {
    if 0 <= i < fraction.len() {
        digit_value(fraction[i])
    } else {
        0
    }
}

/// The minor units that the digits behind the point stand for: the first two
/// digits, and one more unit where the third digit is 5 or above.
pub open spec fn minor_units(fraction: Seq<char>) -> int {
    digit_at(fraction, 0) * 10 + digit_at(fraction, 1) + if digit_at(fraction, 2) >= 5 {
        1int
    } else {
        0int
    }
}

/// Where the whole units of a decimal amount end: behind the digits that
/// follow the sign.
pub open spec fn point_position(text: Seq<char>) -> int {
    digits_end(text, sign_len(text))
}

/// Where the digits behind the point start: behind the point where the
/// whole units are followed by one, else where the whole units end.
pub open spec fn fraction_start(text: Seq<char>) -> int {
    let point = point_position(text);
    if point < text.len() && text[point] == '.' {
        point + 1
    } else {
        point
    }
}

/// The digits of the whole units.
pub open spec fn whole_digits(text: Seq<char>) -> Seq<char> {
    text.subrange(sign_len(text), point_position(text))
}

/// The digits behind the point.
pub open spec fn fraction_digits(text: Seq<char>) -> Seq<char> {
    text.subrange(fraction_start(text), digits_end(text, fraction_start(text)))
}

/// Whether the text is a decimal amount: an optional sign, digits,
/// optionally a point and digits, with a digit on at least one side of the
/// point, and nothing else.
pub open spec fn is_decimal_text(text: Seq<char>) -> bool {
    &&& digits_end(text, fraction_start(text)) == text.len()
    &&& whole_digits(text).len() + fraction_digits(text).len() > 0
}

/// The minor units that a decimal amount stands for, or `None` where the
/// text is no decimal amount.
pub open spec fn amount_spec(text: Seq<char>) -> Option<int> {
    if is_decimal_text(text) {
        let magnitude = decimal_value(whole_digits(text)) * 100 + minor_units(
            fraction_digits(text),
        );
        Some(
            if is_negative(text) {
                -magnitude
            } else {
                magnitude
            },
        )
    } else {
        None
    }
}

/// The amount that `text` writes, where it can be held.
pub open spec fn money_spec(text: Seq<char>) -> Option<Money> {
    match amount_spec(text) {
        Some(v) => if i64::MIN <= v <= i64::MAX {
            Some(Money { cents: v as i64 })
        } else {
            None
        },
        None => None,
    }
}

/// How an amount is written: the sign where it is negative, the whole units,
/// a point, and two digits of minor units.
pub open spec fn render_spec(cents: int) -> Seq<char> {
    let magnitude = if cents < 0 {
        -cents
    } else {
        cents
    };
    let sign = if cents < 0 {
        seq!['-']
    } else {
        Seq::<char>::empty()
    };
    sign + digits_of((magnitude / 100) as nat) + seq![
        '.',
        digit_char(magnitude % 100 / 10),
        digit_char(magnitude % 10),
    ]
}

/// The minor units of the digits behind the point are the hundredfold of the
/// fraction they write, rounded to the nearest integer, half way going up.
pub proof fn lemma_minor_units_rounded(fraction: Seq<char>)
    requires
        forall|i: int| 0 <= i < fraction.len() ==> is_digit(#[trigger] fraction[i]),
    ensures
        (2 * minor_units(fraction) - 1) * pow10(fraction.len()) <= 200 * decimal_value(fraction),
        200 * decimal_value(fraction) < (2 * minor_units(fraction) + 1) * pow10(fraction.len()),
{
    let places = fraction.len();
    let value = decimal_value(fraction);
    let minor = minor_units(fraction);
    if places == 0 {
        assert(value == 0 && minor == 0 && pow10(places) == 1);
    } else if places == 1 {
        assert(fraction.drop_last().len() == 0);
        assert(decimal_value(fraction.drop_last()) == 0);
        assert(value == digit_value(fraction[0]));
        assert(minor == 10 * digit_value(fraction[0]));
        assert(pow10(places) == 10) by {
            reveal_with_fuel(pow10, 2);
        }
    } else if places == 2 {
        assert(value == 10 * digit_value(fraction[0]) + digit_value(fraction[1])) by {
            reveal_with_fuel(decimal_value, 3);
            assert(fraction.drop_last()[0] == fraction[0]);
        }
        assert(minor == value);
        assert(pow10(places) == 100) by {
            reveal_with_fuel(pow10, 3);
        }
    } else {
        let head = fraction.take(3);
        let tail = fraction.skip(3);
        let tens = digit_value(fraction[0]);
        let ones = digit_value(fraction[1]);
        let third = digit_value(fraction[2]);
        assert(fraction =~= head + tail);
        assert(decimal_value(head) == 100 * tens + 10 * ones + third) by {
            reveal_with_fuel(decimal_value, 4);
            assert(head.drop_last() =~= fraction.take(2));
            assert(head.drop_last().drop_last() =~= fraction.take(1));
        }
        assert(pow10(3) == 1000) by {
            reveal_with_fuel(pow10, 4);
        }
        lemma_decimal_value_concat(head, tail);
        lemma_decimal_value_bound(tail);
        lemma_pow10_sum(3, tail.len());
        let unit = pow10(tail.len());
        let rest = decimal_value(tail);
        assert(is_digit(fraction[2]));
        assert(value == (100 * tens + 10 * ones + third) * unit + rest);
        assert(pow10(places) == 1000 * unit);
        assert((2 * minor - 1) * (1000 * unit) <= 200 * ((100 * tens + 10 * ones + third) * unit
            + rest) < (2 * minor + 1) * (1000 * unit)) by (nonlinear_arith)
            requires
                0 <= rest < unit,
                0 <= third <= 9,
                minor == 10 * tens + ones + if third >= 5 {
                    1int
                } else {
                    0int
                },
        ;
    }
}

/// Reading an amount rounds the decimal that the text writes to the nearest
/// minor unit, and a decimal half way between two minor units goes away
/// from zero. The decimal is the whole units plus the digits behind the
/// point, taken as a fraction of the power of ten with as many places.
pub proof fn law_amount_rounds_half_away_from_zero(text: Seq<char>)
    requires
        amount_spec(text) is Some,
    ensures
        ({
            let cents = amount_spec(text)->0;
            let magnitude = if is_negative(text) {
                -cents
            } else {
                cents
            };
            let scale = pow10(fraction_digits(text).len());
            let scaled = decimal_value(whole_digits(text)) * scale + decimal_value(
                fraction_digits(text),
            );
            &&& magnitude >= 0
            &&& (2 * magnitude - 1) * scale <= 200 * scaled
            &&& 200 * scaled < (2 * magnitude + 1) * scale
        }),
{
    let whole = whole_digits(text);
    let fraction = fraction_digits(text);
    lemma_digits_end(text, sign_len(text));
    lemma_digits_end(text, fraction_start(text));
    lemma_decimal_value_bound(whole);
    lemma_decimal_value_bound(fraction);
    lemma_minor_units_rounded(fraction);
    let scale = pow10(fraction.len());
    let units = decimal_value(whole);
    let minor = minor_units(fraction);
    let part = decimal_value(fraction);
    assert((2 * (units * 100 + minor) - 1) * scale <= 200 * (units * scale + part) < (2 * (units
        * 100 + minor) + 1) * scale) by (nonlinear_arith)
        requires
            (2 * minor - 1) * scale <= 200 * part < (2 * minor + 1) * scale,
    ;
}

/// Writing an amount and reading the text back gives the amount again.
pub proof fn law_render_parse_round_trip(cents: int)
    ensures
        amount_spec(render_spec(cents)) == Some(cents),
{
    let magnitude = if cents < 0 {
        -cents
    } else {
        cents
    };
    let whole = digits_of((magnitude / 100) as nat);
    let text = render_spec(cents);
    let start: int = if cents < 0 {
        1
    } else {
        0
    };
    let point = start + whole.len();
    lemma_digits_of((magnitude / 100) as nat);
    // The text is the sign, the digits of the whole units, the point and two digits.
    assert(text[0] == if cents < 0 {
        '-'
    } else {
        whole[0]
    });
    lemma_digits_end_of_run(text, start, whole.len());
    lemma_digits_end_of_run(text, point + 1, 2);
    assert(text.subrange(start, point) =~= whole);
}

/// The digit at place `place` of the run of digits from `from` to `end`, or 0 behind it.
fn fraction_digit(text: &str, from: usize, place: usize, end: usize) -> (digit: u8)
    requires
        from <= end <= text@.len(),
        forall|i: int| from <= i < end ==> is_digit(#[trigger] text@[i]),
    ensures
        digit < 10,
        digit == digit_at(text@.subrange(from as int, end as int), place as int),
{
    if place < end - from {
        match digit_of_char(text.get_char(from + place)) {
            Some(d) => d,
            None => 0,
        }
    } else {
        0
    }
}

impl Money {
    /// The amount of `cents` minor units.
    pub fn from_cents(cents: i64) -> (amount: Money)
        ensures
            amount@ == cents,
    {
        Money { cents }
    }

    /// The count of minor units.
    pub fn cents(&self) -> (cents: i64)
        ensures
            cents == self@,
    {
        self.cents
    }

    /// No money at all.
    pub fn zero() -> (amount: Money)
        ensures
            amount@ == 0,
    {
        Money { cents: 0 }
    }

    /// The sum, where it can be held.
    pub fn checked_add(self, other: Money) -> (sum: Option<Money>)
        ensures
            sum matches Some(s) ==> s@ == self@ + other@,
            sum is Some <==> i64::MIN <= self@ + other@ <= i64::MAX,
    {
        match self.cents.checked_add(other.cents) {
            Some(cents) => Some(Money { cents }),
            None => None,
        }
    }

    /// The difference, where it can be held.
    pub fn checked_sub(self, other: Money) -> (difference: Option<Money>)
        ensures
            difference matches Some(d) ==> d@ == self@ - other@,
            difference is Some <==> i64::MIN <= self@ - other@ <= i64::MAX,
    {
        match self.cents.checked_sub(other.cents) {
            Some(cents) => Some(Money { cents }),
            None => None,
        }
    }

    /// Reads a decimal amount. Succeeds exactly on the texts that
    /// `amount_spec` accepts and whose minor units fit an `i64`.
    pub fn parse(text: &str) -> (amount: Result<Money, LedgerError>)
        ensures
            amount == match money_spec(text@) {
                Some(m) => Ok::<Money, LedgerError>(m),
                None => Err::<Money, LedgerError>(LedgerError::Validation),
            },
    {
        let len = text.unicode_len();
        if len == 0 {
            return Err(LedgerError::Validation);
        }
        let first = text.get_char(0);
        let negative = first == '-';
        let start: usize = if first == '+' || first == '-' {
            1
        } else {
            0
        };
        let (point, whole) = read_digits(text, start);
        proof {
            lemma_digits_end(text@, start as int);
            lemma_decimal_value_bound(text@.subrange(start as int, point as int));
        }
        let after_point: usize = if point < len && text.get_char(point) == '.' {
            point + 1
        } else {
            point
        };
        let (end, _) = read_digits(text, after_point);
        proof {
            lemma_digits_end(text@, after_point as int);
        }
        if end != len || (point - start) + (end - after_point) == 0 {
            return Err(LedgerError::Validation);
        }
        let tens = fraction_digit(text, after_point, 0, end);
        let units = fraction_digit(text, after_point, 1, end);
        let third = fraction_digit(text, after_point, 2, end);
        let carry: u128 = if third >= 5 {
            1
        } else {
            0
        };
        let minor: u128 = tens as u128 * 10 + units as u128 + carry;
        if whole >= DIGIT_CAP {
            return Err(LedgerError::Validation);
        }
        let magnitude: u128 = whole * 100 + minor;
        if negative {
            if magnitude > 9_223_372_036_854_775_808 {
                Err(LedgerError::Validation)
            } else if magnitude == 9_223_372_036_854_775_808 {
                Ok(Money { cents: i64::MIN })
            } else {
                Ok(Money { cents: -(magnitude as i64) })
            }
        } else if magnitude > 9_223_372_036_854_775_807 {
            Err(LedgerError::Validation)
        } else {
            Ok(Money { cents: magnitude as i64 })
        }
    }

    /// Writes the amount with two decimals.
    pub fn render(&self) -> (text: String)
        ensures
            text@ == render_spec(self@),
    {
        let magnitude: u64 = if self.cents < 0 {
            (-(self.cents + 1)) as u64 + 1
        } else {
            self.cents as u64
        };
        let mut text = String::new();
        if self.cents < 0 {
            text.append("-");
            proof {
                reveal_strlit("-");
            }
        }
        push_digits(&mut text, magnitude / 100);
        text.append(".");
        text.append(digit_text((magnitude % 100 / 10) as u8));
        text.append(digit_text((magnitude % 10) as u8));
        proof {
            reveal_strlit(".");
        }
        text
    }
}

} // verus!
