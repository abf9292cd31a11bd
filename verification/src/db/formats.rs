//! The texts of moments, dates, times of day and UUIDs. They are written by
//! the `chrono` and `uuid` crates; this module says what is relied on of
//! them.
//!
//! A moment and a date are written by way of the calendar, and their text is
//! only named here. The text of a time of day and of a UUID is stated in
//! full.

use vstd::prelude::*;
use crate::text::{digit_char, text_of};

verus! {

/// The RFC 3339 text of a moment in UTC, as `chrono` writes it, or `None`
/// where `chrono` cannot hold the moment.
pub uninterp spec fn rfc3339_utc(secs: i64, nanos: u32) -> Option<Seq<char>>;

/// The text of a date and time without a zone, as `chrono` displays it, or
/// `None` where `chrono` cannot hold it.
pub uninterp spec fn naive_datetime_text(secs: i64, nanos: u32) -> Option<Seq<char>>;

/// The text of a calendar date, as `chrono` displays it, or `None` where
/// `chrono` cannot hold the date.
pub uninterp spec fn naive_date_text(days: i32) -> Option<Seq<char>>;

/// A number written with exactly `width` decimal digits, zeros in front.
pub open spec fn padded(n: nat, width: nat) -> Seq<char>
    decreases width,
{
    if width == 0 {
        Seq::empty()
    } else {
        padded(n / 10, (width - 1) as nat).push(digit_char((n % 10) as int))
    }
}

/// Whether two numbers are a time of day: seconds since midnight, and
/// nanoseconds that may run into a second billion only to write a leap
/// second, which follows second 59 of a minute.
pub open spec fn is_time_of_day(secs: u32, nanos: u32) -> bool {
    &&& secs < 86_400
    &&& nanos < 2_000_000_000
    &&& (nanos >= 1_000_000_000 ==> secs % 60 == 59)
}

/// The fraction of a second as it is written: nothing for none, else a dot
/// and 3, 6 or 9 digits, as few as hold it.
pub open spec fn fraction_text(nano: nat) -> Seq<char> {
    if nano == 0 {
        Seq::empty()
    } else if nano % 1_000_000 == 0 {
        seq!['.'] + padded(nano / 1_000_000, 3)
    } else if nano % 1_000 == 0 {
        seq!['.'] + padded(nano / 1_000, 6)
    } else {
        seq!['.'] + padded(nano, 9)
    }
}

/// The text of a time of day: `HH:MM:SS` and the fraction of the second. A
/// leap second is written as second 60.
pub open spec fn time_text(secs: u32, nanos: u32) -> Seq<char> {
    let leap: nat = if nanos >= 1_000_000_000 {
        1
    } else {
        0
    };
    let second = (secs % 60) as nat + leap;
    let nano = (nanos - leap * 1_000_000_000) as nat;
    padded((secs / 3600) as nat, 2) + seq![':'] + padded((secs / 60 % 60) as nat, 2) + seq![':']
        + padded(second, 2) + fraction_text(nano)
}

/// The text of a time of day, or `None` where the numbers are no time of
/// day.
pub open spec fn naive_time_text(secs: u32, nanos: u32) -> Option<Seq<char>> {
    if is_time_of_day(secs, nanos) {
        Some(time_text(secs, nanos))
    } else {
        None
    }
}

/// The character of a hexadecimal digit, in lower case.
pub open spec fn hex_char(d: int) -> char {
    if d < 10 {
        digit_char(d)
    } else if d == 10 {
        'a'
    } else if d == 11 {
        'b'
    } else if d == 12 {
        'c'
    } else if d == 13 {
        'd'
    } else if d == 14 {
        'e'
    } else {
        'f'
    }
}

/// Sixteen to a power.
pub open spec fn pow16(n: nat) -> nat
    decreases n,
{
    if n == 0 {
        1
    } else {
        16 * pow16((n - 1) as nat)
    }
}

/// The hexadecimal digit of a 128-bit number at place `k` of 32, counted
/// from the most significant.
pub open spec fn hex_digit_of(value: u128, k: int) -> int {
    (value as int / pow16((31 - k) as nat) as int) % 16
}

/// The hyphens that stand before place `i` of the text of a UUID.
pub open spec fn hyphens_before(i: int) -> int {
    (if i > 8 {
        1int
    } else {
        0int
    }) + (if i > 13 {
        1int
    } else {
        0int
    }) + (if i > 18 {
        1int
    } else {
        0int
    }) + (if i > 23 {
        1int
    } else {
        0int
    })
}

/// The text of a UUID: its 32 hexadecimal digits in lower case, in groups of
/// 8, 4, 4, 4 and 12 with a hyphen between each two.
pub open spec fn uuid_text(value: u128) -> Seq<char> {
    Seq::new(
        36,
        |i: int|
            if i == 8 || i == 13 || i == 18 || i == 23 {
                '-'
            } else {
                hex_char(hex_digit_of(value, i - hyphens_before(i)))
            },
    )
}

/// `chrono::DateTime::from_timestamp`, then `DateTime::<Utc>::to_rfc3339`.
/// The first makes the moment in UTC from the two numbers and gives nothing
/// when they are out of its range; the second writes the moment. Claimed
/// here: whether there is a text, and which, depends on the two numbers
/// alone.
#[verifier::external_body]
pub(crate) fn format_timestamptz(secs: i64, nanos: u32) -> (text: Option<String>)
    ensures
        text_of(text) == rfc3339_utc(secs, nanos),
{
    chrono::DateTime::from_timestamp(secs, nanos).map(|moment| moment.to_rfc3339())
}

/// `chrono::DateTime::from_timestamp`, then the `Display` text of its
/// `naive_utc()`. The first gives nothing when the numbers are out of its
/// range. Claimed here: whether there is a text, and which, depends on the
/// two numbers alone.
#[verifier::external_body]
pub(crate) fn format_timestamp(secs: i64, nanos: u32) -> (text: Option<String>)
    ensures
        text_of(text) == naive_datetime_text(secs, nanos),
{
    chrono::DateTime::from_timestamp(secs, nanos).map(|moment| moment.naive_utc().to_string())
}

/// `chrono::NaiveDate::from_num_days_from_ce_opt`, then the `Display` text of
/// the date. The first gives nothing when the day is out of its range.
/// Claimed here: whether there is a text, and which, depends on the number
/// alone.
#[verifier::external_body]
pub(crate) fn format_date(days: i32) -> (text: Option<String>)
    ensures
        text_of(text) == naive_date_text(days),
{
    chrono::NaiveDate::from_num_days_from_ce_opt(days).map(|date| date.to_string())
}

/// `chrono::NaiveTime::from_num_seconds_from_midnight_opt`, then the
/// `Display` text of the time. The first gives nothing unless the seconds
/// are below 86 400 and the nanoseconds below two billion, and at or above
/// one billion only in second 59 of a minute. The second writes hour, minute
/// and second with two digits each and colons between, a leap second as
/// second 60, and then the fraction: none if it is zero, else 3, 6 or 9
/// digits, as few as hold it.
#[verifier::external_body]
pub(crate) fn format_time(secs: u32, nanos: u32) -> (text: Option<String>)
    ensures
        text_of(text) == naive_time_text(secs, nanos),
{
    chrono::NaiveTime::from_num_seconds_from_midnight_opt(secs, nanos).map(|time| time.to_string())
}

/// `uuid::Uuid::from_u128`, then the `Display` text of the UUID. The first
/// takes the number most significant byte first; the second writes the 32
/// hexadecimal digits in lower case, in groups of 8, 4, 4, 4 and 12 with
/// hyphens between.
#[verifier::external_body]
pub(crate) fn format_uuid(value: u128) -> (text: String)
    ensures
        text@ == uuid_text(value),
{
    uuid::Uuid::from_u128(value).to_string()
}

} // verus!
