//! The day of publication: from the text of a line to an instant in UTC.

use crate::song::Skip;
use crate::text::{chars_of, text_of};
use chrono::Datelike;
use vstd::prelude::*;

verus! {

/// Form in which the page writes a day: year, month and day between slashes.
pub const DATE_FORMAT: &'static str = "%Y/%m/%d";

/// Number of characters of a day written in that form.
pub const DATE_LENGTH: usize = 10;

/// Hour of the local day at which a recording counts as published.
pub const PUBLICATION_HOUR: u32 = 12;

/// Offset of the local time from UTC in seconds: nine hours to the east.
pub const LOCAL_OFFSET: i32 = 32_400;

/// Year, month and day that `chrono::NaiveDate::parse_from_str` reads from
/// `text` under `format`; `None` where it reports an error.
pub uninterp spec fn parsed_date(text: Seq<char>, format: Seq<char>) -> Option<(i32, u32, u32)>;

/// Seconds since 1970-01-01T00:00:00Z of the instant that chrono gives for the
/// local date and time of day at `offset` seconds east of UTC; `None` where
/// chrono has no such date, time of day, offset or instant.
pub uninterp spec fn utc_seconds(
    year: i32,
    month: u32,
    day: u32,
    hour: u32,
    minute: u32,
    second: u32,
    offset: i32,
) -> Option<i64>;

/// Calls `chrono::NaiveDate::parse_from_str` and hands out the year, month and
/// day of the date it returns. The contract only gives that result its name:
/// the same text and format always parse alike.
#[verifier::external_body]
pub(crate) fn parse_date(text: &str, format: &str) -> (r: Option<(i32, u32, u32)>)
    ensures
        r == parsed_date(text@, format@),
{
    match chrono::NaiveDate::parse_from_str(text, format) {
        Ok(date) => Some((date.year(), date.month(), date.day())),
        Err(_) => None,
    }
}

/// Calls `chrono::NaiveDateTime::and_local_timezone` on the given local date
/// and time with a `chrono::FixedOffset`, and hands out the Unix timestamp of
/// the single instant it maps to. The contract only gives that result its
/// name: it depends on the seven numbers alone.
#[verifier::external_body]
pub(crate) fn local_to_utc(
    year: i32,
    month: u32,
    day: u32,
    hour: u32,
    minute: u32,
    second: u32,
    offset: i32,
) -> (r: Option<i64>)
    ensures
        r == utc_seconds(year, month, day, hour, minute, second, offset),
{
    let local = chrono::NaiveDate::from_ymd_opt(year, month, day)?.and_hms_opt(
        hour,
        minute,
        second,
    )?;
    let zone = chrono::FixedOffset::east_opt(offset)?;
    Some(local.and_local_timezone(zone).single()?.to_utc().timestamp())
}

/// The part of a publication value that is read as a day: its first ten
/// characters, or all of it where it has no more.
pub open spec fn date_part(value: Seq<char>) -> Seq<char> {
    if value.len() > DATE_LENGTH {
        value.take(DATE_LENGTH as int)
    } else {
        value
    }
}

/// The instant of publication for the day that was read from a publication
/// line: noon of that day, nine hours east of UTC.
pub open spec fn instant_of_day(parsed: Option<(i32, u32, u32)>) -> Result<i64, Skip> {
    match parsed {
        None => Err(Skip::UnparsableDate),
        Some((year, month, day)) => match utc_seconds(
            year,
            month,
            day,
            PUBLICATION_HOUR,
            0,
            0,
            LOCAL_OFFSET,
        ) {
            None => Err(Skip::InvalidLocalTime),
            Some(seconds) => Ok(seconds),
        },
    }
}

/// The instant of publication that the value of a publication line stands
/// for.
pub open spec fn published_of(value: Seq<char>) -> Result<i64, Skip> {
    instant_of_day(parsed_date(date_part(value), DATE_FORMAT@))
}

/// The part of a publication value that is read as a day: its first ten
/// characters, or all of it where it has no more.
pub fn date_text(value: &str) -> (r: String)
    ensures
        r@ == date_part(value@),
{
    let chars = chars_of(value);
    let end = if chars.len() > DATE_LENGTH {
        DATE_LENGTH
    } else {
        chars.len()
    };
    proof {
        assert(chars@.subrange(0, end as int) =~= date_part(value@));
    }
    text_of(&chars, 0, end)
}

/// The instant of publication for the day that was read from a publication
/// line, or the reason why there is none.
pub fn day_to_instant(parsed: Option<(i32, u32, u32)>) -> (r: Result<i64, Skip>)
    ensures
        r == instant_of_day(parsed),
{
    match parsed {
        None => Err(Skip::UnparsableDate),
        Some((year, month, day)) => {
            match local_to_utc(year, month, day, PUBLICATION_HOUR, 0, 0, LOCAL_OFFSET) {
                None => Err(Skip::InvalidLocalTime),
                Some(seconds) => Ok(seconds),
            }
        },
    }
}

/// The instant of publication that the value of a publication line stands
/// for, or the reason why it stands for none.
pub fn published_at(value: &str) -> (r: Result<i64, Skip>)
    ensures
        r == published_of(value@),
{
    let text = date_text(value);
    day_to_instant(parse_date(text.as_str(), DATE_FORMAT))
}

} // verus!
