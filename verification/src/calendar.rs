//! Calendar dates as Julian day numbers.
//!
//! The calendar arithmetic itself is the `time` crate's, reached through
//! the three trusted functions of this module. What they return is given a
//! name, and the verified functions around them state their results over
//! those names. The clock is read by the caller, who hands its time stamp
//! in as text.

use vstd::prelude::*;
use vstd::string::*;
use crate::decimal::{integer_text, push_integer};

verus! {

/// The year, month and day that `time::Date::parse` reads from `text` under
/// the format description `format`, or `None` where it reports an error or
/// the description itself is invalid.
pub uninterp spec fn parsed_date(text: Seq<char>, format: Seq<char>) -> Option<(i32, u8, u8)>;

/// The Julian day number that `time::Date::to_julian_day` gives for the date
/// of the proleptic Gregorian calendar with this year, month and day, or
/// `None` where `time` has no such date.
pub uninterp spec fn julian_day_number(year: i32, month: u8, day: u8) -> Option<i32>;

/// The year, month and day of the date that `time::Date::from_julian_day`
/// gives for a Julian day number, or `None` where it reports the number as
/// out of range.
pub uninterp spec fn calendar_of_julian(julian_day: i32) -> Option<(i32, u8, u8)>;

/// Trusted: `time::Date::parse(text, ..)` under the format description that
/// `time::format_description::parse(format)` builds. The claim is only that
/// the result is a function of the two texts, named `parsed_date`.
#[allow(deprecated)]
#[verifier::external_body]
fn parse_date(text: &str, format: &str) -> (date: Option<(i32, u8, u8)>)
    ensures
        date == parsed_date(text@, format@),
{
    let description = time::format_description::parse(format).ok()?;
    let date = time::Date::parse(text, &description).ok()?;
    Some((date.year(), u8::from(date.month()), date.day()))
}

/// Trusted: `time::Date::to_julian_day` on the date that
/// `time::Date::from_calendar_date` builds. The claim is only that the result
/// is a function of year, month and day, named `julian_day_number`.
#[verifier::external_body]
fn to_julian_day(year: i32, month: u8, day: u8) -> (julian_day: Option<i32>)
    ensures
        julian_day == julian_day_number(year, month, day),
{
    let month = time::Month::try_from(month).ok()?;
    let date = time::Date::from_calendar_date(year, month, day).ok()?;
    Some(date.to_julian_day())
}

/// Trusted: `time::Date::from_julian_day`, read back as year, month and day.
/// The claim is only that the result is a function of the day number, named
/// `calendar_of_julian`.
#[verifier::external_body]
fn from_julian_day(julian_day: i32) -> (date: Option<(i32, u8, u8)>)
    ensures
        date == calendar_of_julian(julian_day),
{
    let date = time::Date::from_julian_day(julian_day).ok()?;
    Some((date.year(), u8::from(date.month()), date.day()))
}

/// The Julian day of a time stamp that starts with a date written as year,
/// month and day, such as `2022-03-05T10:00:00+01:00`. Only the first ten
/// characters are read.
pub open spec fn day_of_stamp_spec(stamp: Seq<char>) -> Option<i32> {
    if stamp.len() < 10 {
        None
    } else {
        match parsed_date(stamp.take(10), "[year]-[month]-[day]"@) {
            Some((year, month, day)) => julian_day_number(year, month, day),
            None => None,
        }
    }
}

/// The Julian day of the date that a time stamp starts with.
pub fn julian_day_of_stamp(stamp: &str) -> (julian_day: Option<i32>)
    ensures
        julian_day == day_of_stamp_spec(stamp@),
{
    if stamp.unicode_len() < 10 {
        return None;
    }
    let date_part = stamp.substring_char(0, 10);
    match parse_date(date_part, "[year]-[month]-[day]") {
        Some((year, month, day)) => to_julian_day(year, month, day),
        None => None,
    }
}

/// The English name of a month by its number, empty for a number that is
/// no month.
pub open spec fn month_name_spec(month: int) -> Seq<char> {
    if month == 1 {
        "January"@
    } else if month == 2 {
        "February"@
    } else if month == 3 {
        "March"@
    } else if month == 4 {
        "April"@
    } else if month == 5 {
        "May"@
    } else if month == 6 {
        "June"@
    } else if month == 7 {
        "July"@
    } else if month == 8 {
        "August"@
    } else if month == 9 {
        "September"@
    } else if month == 10 {
        "October"@
    } else if month == 11 {
        "November"@
    } else if month == 12 {
        "December"@
    } else {
        Seq::<char>::empty()
    }
}

/// The English name of a month, empty for a number that is no month.
pub fn month_name(month: u8) -> (name: &'static str)
    ensures
        name@ == month_name_spec(month as int),
{
    proof {
        reveal_strlit("");
    }
    match month {
        1 => "January",
        2 => "February",
        3 => "March",
        4 => "April",
        5 => "May",
        6 => "June",
        7 => "July",
        8 => "August",
        9 => "September",
        10 => "October",
        11 => "November",
        12 => "December",
        _ => "",
    }
}

/// How a date is shown: year, month name and day, joined by hyphens.
pub open spec fn calendar_text_spec(year: i32, month: u8, day: u8) -> Seq<char> {
    integer_text(year as int) + "-"@ + month_name_spec(month as int) + "-"@ + integer_text(
        day as int,
    )
}

/// How the date of a Julian day number is shown, where the number stands
/// for a date.
pub open spec fn date_text_spec(julian_day: i32) -> Option<Seq<char>> {
    match calendar_of_julian(julian_day) {
        Some((year, month, day)) => Some(calendar_text_spec(year, month, day)),
        None => None,
    }
}

/// The text that shows a date given by year, month and day, such as
/// `2022-March-5`.
pub fn calendar_text(year: i32, month: u8, day: u8) -> (text: String)
    ensures
        text@ == calendar_text_spec(year, month, day),
{
    let mut text = String::new();
    push_integer(&mut text, year as i64);
    text.append("-");
    text.append(month_name(month));
    text.append("-");
    push_integer(&mut text, day as i64);
    text
}

/// Whether the Julian day number stands for a date of the calendar.
pub fn is_calendar_day(julian_day: i32) -> (known: bool)
    ensures
        known == calendar_of_julian(julian_day) is Some,
{
    from_julian_day(julian_day).is_some()
}

/// The text that shows the date of a Julian day number, such as
/// `2022-March-5`, or `None` where the number stands for no date.
pub fn date_text(julian_day: i32) -> (text: Option<String>)
    ensures
        text is Some <==> date_text_spec(julian_day) is Some,
        text matches Some(t) ==> Some(t@) == date_text_spec(julian_day),
{
    match from_julian_day(julian_day) {
        Some((year, month, day)) => Some(calendar_text(year, month, day)),
        None => None,
    }
}

} // verus!
