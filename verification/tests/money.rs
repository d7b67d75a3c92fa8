use wallet::error::LedgerError;
use wallet::money::Money;

#[test]
fn parse_round_trip_of_twelve_thirty_four() {
    let amount = Money::parse("12.34").unwrap();
    assert_eq!(amount.cents(), 1234);
    assert_eq!(amount.render(), "12.34");
}

#[test]
fn parse_whole_units_only() {
    assert_eq!(Money::parse("100"), Ok(Money::from_cents(10000)));
    assert_eq!(Money::parse("100."), Ok(Money::from_cents(10000)));
    assert_eq!(Money::parse("0"), Ok(Money::from_cents(0)));
}

#[test]
fn parse_fraction_only() {
    assert_eq!(Money::parse(".5"), Ok(Money::from_cents(50)));
    assert_eq!(Money::parse(".05"), Ok(Money::from_cents(5)));
    assert_eq!(Money::parse("0.01"), Ok(Money::from_cents(1)));
}

#[test]
fn parse_rounds_half_away_from_zero() {
    assert_eq!(Money::parse("1.005"), Ok(Money::from_cents(101)));
    assert_eq!(Money::parse("1.0049"), Ok(Money::from_cents(100)));
    assert_eq!(Money::parse("-1.005"), Ok(Money::from_cents(-101)));
    assert_eq!(Money::parse("-1.004"), Ok(Money::from_cents(-100)));
    assert_eq!(Money::parse("0.999"), Ok(Money::from_cents(100)));
    assert_eq!(Money::parse("2.675"), Ok(Money::from_cents(268)));
}

#[test]
fn parse_signs() {
    assert_eq!(Money::parse("+3.20"), Ok(Money::from_cents(320)));
    assert_eq!(Money::parse("-3.2"), Ok(Money::from_cents(-320)));
    assert_eq!(Money::parse("-0"), Ok(Money::from_cents(0)));
}

#[test]
fn parse_rejects_what_is_no_decimal_amount() {
    for text in ["", "+", "-", ".", "-.", "abc", "1,5", "1.2.3", "1e3", " 1", "1 ", "12a", "--1", "inf", "NaN"] {
        assert_eq!(Money::parse(text), Err(LedgerError::Validation), "{:?}", text);
    }
}

#[test]
fn parse_at_the_limits_of_the_range() {
    assert_eq!(Money::parse("92233720368547758.07"), Ok(Money::from_cents(i64::MAX)));
    assert_eq!(Money::parse("-92233720368547758.08"), Ok(Money::from_cents(i64::MIN)));
    assert_eq!(Money::parse("92233720368547758.08"), Err(LedgerError::Validation));
    assert_eq!(Money::parse("-92233720368547758.09"), Err(LedgerError::Validation));
    assert_eq!(Money::parse("92233720368547758.075"), Err(LedgerError::Validation));
    assert_eq!(Money::parse("99999999999999999999999999999999999999999999"), Err(LedgerError::Validation));
    assert_eq!(Money::parse("000000000000000000000000000000000000000001.5"), Ok(Money::from_cents(150)));
}

#[test]
fn render_writes_two_decimals() {
    assert_eq!(Money::from_cents(0).render(), "0.00");
    assert_eq!(Money::from_cents(5).render(), "0.05");
    assert_eq!(Money::from_cents(50).render(), "0.50");
    assert_eq!(Money::from_cents(10000).render(), "100.00");
    assert_eq!(Money::from_cents(-1).render(), "-0.01");
    assert_eq!(Money::from_cents(-123456).render(), "-1234.56");
    assert_eq!(Money::from_cents(i64::MAX).render(), "92233720368547758.07");
    assert_eq!(Money::from_cents(i64::MIN).render(), "-92233720368547758.08");
}

#[test]
fn render_then_parse_gives_the_amount_back() {
    for cents in [0i64, 1, -1, 9, 10, 99, 100, 101, -100, 1234, 999_999, i64::MAX, i64::MIN] {
        let amount = Money::from_cents(cents);
        assert_eq!(Money::parse(&amount.render()), Ok(amount));
    }
}

#[test]
fn checked_arithmetic() {
    let a = Money::from_cents(700);
    let b = Money::from_cents(300);
    assert_eq!(a.checked_add(b), Some(Money::from_cents(1000)));
    assert_eq!(b.checked_sub(a), Some(Money::from_cents(-400)));
    assert_eq!(Money::from_cents(i64::MAX).checked_add(Money::from_cents(1)), None);
    assert_eq!(Money::from_cents(i64::MIN).checked_sub(Money::from_cents(1)), None);
    assert_eq!(Money::zero().cents(), 0);
}
