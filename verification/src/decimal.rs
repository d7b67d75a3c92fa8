//! Decimal digit strings: what they denote, and how to read and write them.

use vstd::prelude::*;
use vstd::string::*;

verus! {

/// Whether `c` is one of the ten ASCII decimal digits.
pub open spec fn is_digit(c: char) -> bool {
    '0' <= c && c <= '9'
}

/// The number a decimal digit stands for.
pub open spec fn digit_value(c: char) -> int {
    c as int - '0' as int
}

/// The character that writes the digit `d`.
pub open spec fn digit_char(d: int) -> char {
    if d == 0 {
        '0'
    } else if d == 1 {
        '1'
    } else if d == 2 {
        '2'
    } else if d == 3 {
        '3'
    } else if d == 4 {
        '4'
    } else if d == 5 {
        '5'
    } else if d == 6 {
        '6'
    } else if d == 7 {
        '7'
    } else if d == 8 {
        '8'
    } else {
        '9'
    }
}

/// The number written by a string of digits, most significant first; 0 for the empty string.
pub open spec fn decimal_value(digits: Seq<char>) -> int
    decreases digits.len(),
{
    if digits.len() == 0 {
        0
    } else {
        decimal_value(digits.drop_last()) * 10 + digit_value(digits.last())
    }
}

/// The position just behind the run of digits that starts at `from`.
pub open spec fn digits_end(text: Seq<char>, from: int) -> int
    decreases text.len() - from,
{
    if 0 <= from < text.len() && is_digit(text[from]) {
        digits_end(text, from + 1)
    } else {
        from
    }
}

/// The shortest decimal writing of `n`.
pub open spec fn digits_of(n: nat) -> Seq<char>
    decreases n,
{
    if n < 10 {
        seq![digit_char(n as int)]
    } else {
        digits_of(n / 10).push(digit_char((n % 10) as int))
    }
}

/// Reads one character as a decimal digit.
pub fn digit_of_char(c: char) -> (digit: Option<u8>)
    ensures
        digit is Some <==> is_digit(c),
        digit matches Some(d) ==> d == digit_value(c) && d < 10,
{
    if '0' <= c && c <= '9' {
        Some((c as u32 - '0' as u32) as u8)
    } else {
        None
    }
}

/// The one-character text of a digit.
pub fn digit_text(d: u8) -> (text: &'static str)
    requires
        d < 10,
    ensures
        text@ == seq![digit_char(d as int)],
{
    proof {
        reveal_strlit("0");
        reveal_strlit("1");
        reveal_strlit("2");
        reveal_strlit("3");
        reveal_strlit("4");
        reveal_strlit("5");
        reveal_strlit("6");
        reveal_strlit("7");
        reveal_strlit("8");
        reveal_strlit("9");
    }
    let text = if d == 0 {
        "0"
    } else if d == 1 {
        "1"
    } else if d == 2 {
        "2"
    } else if d == 3 {
        "3"
    } else if d == 4 {
        "4"
    } else if d == 5 {
        "5"
    } else if d == 6 {
        "6"
    } else if d == 7 {
        "7"
    } else if d == 8 {
        "8"
    } else {
        "9"
    };
    text
}

/// Appends the shortest decimal writing of `n` to `out`.
pub fn push_digits(out: &mut String, n: u64)
    ensures
        final(out)@ == old(out)@ + digits_of(n as nat),
    decreases n,
{
    if n >= 10 {
        push_digits(out, n / 10);
    }
    out.append(digit_text((n % 10) as u8));
}

/// Digit runs are read exactly below this bound and reported as the bound from it on.
pub const DIGIT_CAP: u128 = 100_000_000_000_000_000_000;

/// `v`, or `DIGIT_CAP` where `v` has reached it.
pub open spec fn capped(v: int) -> int {
    if v < DIGIT_CAP {
        v
    } else {
        DIGIT_CAP as int
    }
}

/// The run of digits that starts at `from` holds digits only and stops at the
/// end of the text or before a character that is no digit.
pub proof fn lemma_digits_end(text: Seq<char>, from: int)
    requires
        0 <= from <= text.len(),
    ensures
        from <= digits_end(text, from) <= text.len(),
        forall|i: int| from <= i < digits_end(text, from) ==> is_digit(#[trigger] text[i]),
        digits_end(text, from) < text.len() ==> !is_digit(text[digits_end(text, from)]),
    decreases text.len() - from,
{
    if from < text.len() && is_digit(text[from]) {
        lemma_digits_end(text, from + 1);
    }
}

/// Reads the run of digits that starts at `from`: where it ends, and the
/// number it writes, capped at `DIGIT_CAP`.
pub fn read_digits(text: &str, from: usize) -> (run: (usize, u128))
    requires
        from <= text@.len(),
    ensures
        run.0 == digits_end(text@, from as int),
        run.1 == capped(decimal_value(text@.subrange(from as int, run.0 as int))),
{
    let len = text.unicode_len();
    let mut at: usize = from;
    let mut value: u128 = 0;
    while at < len
        invariant
            len == text@.len(),
            from <= at <= len,
            digits_end(text@, from as int) == digits_end(text@, at as int),
            value == capped(decimal_value(text@.subrange(from as int, at as int))),
            decimal_value(text@.subrange(from as int, at as int)) >= 0,
        decreases len - at,
    {
        let digit = match digit_of_char(text.get_char(at)) {
            Some(d) => d,
            None => {
                return (at, value);
            },
        };
        proof {
            let longer = text@.subrange(from as int, at + 1);
            assert(longer.drop_last() =~= text@.subrange(from as int, at as int));
        }
        value = if value >= DIGIT_CAP {
            DIGIT_CAP
        } else {
            let next: u128 = value * 10 + digit as u128;
            if next >= DIGIT_CAP {
                DIGIT_CAP
            } else {
                next
            }
        };
        at = at + 1;
    }
    (at, value)
}


/// The decimal writing of an integer: a minus sign where it is negative,
/// then the shortest writing of its magnitude.
pub open spec fn integer_text(v: int) -> Seq<char> {
    if v < 0 {
        seq!['-'] + digits_of((-v) as nat)
    } else {
        digits_of(v as nat)
    }
}

/// Appends the decimal writing of `v` to `out`.
pub fn push_integer(out: &mut String, v: i64)
    ensures
        final(out)@ == old(out)@ + integer_text(v as int),
{
    if v < 0 {
        out.append("-");
        proof {
            reveal_strlit("-");
        }
        push_digits(out, (-(v + 1)) as u64 + 1);
    } else {
        push_digits(out, v as u64);
    }
}

/// The character that writes a digit is a digit and stands for it.
pub proof fn lemma_digit_char(d: int)
    requires
        0 <= d <= 9,
    ensures
        is_digit(digit_char(d)),
        digit_value(digit_char(d)) == d,
{
}

/// The shortest writing of a number holds digits only, at least one, and
/// writes that number.
pub proof fn lemma_digits_of(n: nat)
    ensures
        digits_of(n).len() >= 1,
        forall|i: int| 0 <= i < digits_of(n).len() ==> is_digit(#[trigger] digits_of(n)[i]),
        decimal_value(digits_of(n)) == n,
    decreases n,
{
    if n >= 10 {
        lemma_digits_of(n / 10);
        lemma_digit_char((n % 10) as int);
        let front = digits_of(n / 10);
        let all = digits_of(n);
        assert(all.drop_last() =~= front);
    } else {
        lemma_digit_char(n as int);
        assert(decimal_value(digits_of(n).drop_last()) == 0);
    }
}

/// A run of digits that starts at `from` and is `count` long ends where a
/// character that is no digit, or the end of the text, follows it.
pub proof fn lemma_digits_end_of_run(text: Seq<char>, from: int, count: nat)
    requires
        0 <= from,
        from + count <= text.len(),
        forall|i: int| from <= i < from + count ==> is_digit(#[trigger] text[i]),
        from + count == text.len() || !is_digit(text[from + count]),
    ensures
        digits_end(text, from) == from + count,
    decreases count,
{
    if count > 0 {
        lemma_digits_end_of_run(text, from + 1, (count - 1) as nat);
    }
}

/// The power of ten with exponent `n`.
pub open spec fn pow10(n: nat) -> int
    decreases n,
{
    if n == 0 {
        1
    } else {
        10 * pow10((n - 1) as nat)
    }
}

/// A string of `n` digits writes a number below the `n`th power of ten.
pub proof fn lemma_decimal_value_bound(digits: Seq<char>)
    requires
        forall|i: int| 0 <= i < digits.len() ==> is_digit(#[trigger] digits[i]),
    ensures
        0 <= decimal_value(digits) < pow10(digits.len()),
    decreases digits.len(),
{
    if digits.len() > 0 {
        lemma_decimal_value_bound(digits.drop_last());
        assert(is_digit(digits[digits.len() - 1]));
    }
}

/// Writing one string of digits behind another shifts the first by as many
/// places as the second is long.
pub proof fn lemma_decimal_value_concat(front: Seq<char>, back: Seq<char>)
    ensures
        decimal_value(front + back) == decimal_value(front) * pow10(back.len()) + decimal_value(
            back,
        ),
    decreases back.len(),
{
    if back.len() == 0 {
        assert(front + back =~= front);
    } else {
        lemma_decimal_value_concat(front, back.drop_last());
        assert((front + back).drop_last() =~= front + back.drop_last());
        assert((front + back).last() == back.last());
        let shorter = pow10((back.len() - 1) as nat);
        assert(decimal_value(front) * (10 * shorter) == decimal_value(front) * shorter * 10)
            by (nonlinear_arith);
    }
}

/// The power of ten of a sum is the product of the powers.
pub proof fn lemma_pow10_sum(a: nat, b: nat)
    ensures
        pow10(a + b) == pow10(a) * pow10(b),
        pow10(b) >= 1,
    decreases a,
{
    if a == 0 {
        lemma_pow10_positive(b);
    } else {
        lemma_pow10_sum((a - 1) as nat, b);
        assert(10 * (pow10((a - 1) as nat) * pow10(b)) == (10 * pow10((a - 1) as nat)) * pow10(b))
            by (nonlinear_arith);
    }
}

/// Every power of ten is at least 1.
pub proof fn lemma_pow10_positive(n: nat)
    ensures
        pow10(n) >= 1,
    decreases n,
{
    if n > 0 {
        lemma_pow10_positive((n - 1) as nat);
    }
}

} // verus!
