//! Reading a publication date out of free text.

use chrono::{DateTime, Datelike, NaiveDate, NaiveDateTime};
use vstd::prelude::*;
use crate::text::{trim, trimmed};
use crate::time::Timestamp;

verus! {

/// The instant that `DateTime::parse_from_str` makes of `text` under the
/// pattern `format`, the offset that the text carries taken into account;
/// nothing when it rejects the text, as it does when the text carries no offset.
pub uninterp spec fn zoned_parse(text: Seq<char>, format: Seq<char>) -> Option<Timestamp>;

/// What `NaiveDateTime::parse_from_str` makes of `text` under the pattern
/// `format`, read as a time in UTC; nothing when it rejects the text.
pub uninterp spec fn datetime_parse(text: Seq<char>, format: Seq<char>) -> Option<Timestamp>;

/// The day that `NaiveDate::parse_from_str` makes of `text` under the pattern
/// `format`, as a day number with 0001-01-01 as day 1; nothing when it rejects
/// the text.
pub uninterp spec fn date_parse(text: Seq<char>, format: Seq<char>) -> Option<int>;

/// `DateTime::parse_from_str`, the result as its instant on the UTC time line.
#[verifier::external_body]
pub(crate) fn parse_zoned(text: &str, format: &str) -> (parsed: Option<Timestamp>)
    ensures
        parsed == zoned_parse(text@, format@),
{
    match DateTime::parse_from_str(text, format) {
        Ok(dt) => Some(Timestamp { secs: dt.timestamp(), nanos: dt.timestamp_subsec_nanos() }),
        Err(_) => None,
    }
}

/// `NaiveDateTime::parse_from_str`, the result taken as UTC.
#[verifier::external_body]
pub(crate) fn parse_datetime(text: &str, format: &str) -> (parsed: Option<Timestamp>)
    ensures
        parsed == datetime_parse(text@, format@),
{
    match NaiveDateTime::parse_from_str(text, format) {
        Ok(dt) => Some(
            Timestamp { secs: dt.and_utc().timestamp(), nanos: dt.and_utc().timestamp_subsec_nanos() },
        ),
        Err(_) => None,
    }
}

/// `NaiveDate::parse_from_str`, the result as its day number from 0001-01-01.
#[verifier::external_body]
pub(crate) fn parse_day(text: &str, format: &str) -> (parsed: Option<i32>)
    ensures
        match parsed {
            Some(day) => date_parse(text@, format@) == Some(day as int),
            None => date_parse(text@, format@) is None,
        },
{
    match NaiveDate::parse_from_str(text, format) {
        Ok(date) => Some(date.num_days_from_ce()),
        Err(_) => None,
    }
}

/// The instant of one attempt to read a date: the instant of the date and time
/// with its offset where the text carries one, else the date and time taken as
/// UTC where there is one, else midnight UTC of the parsed day, else nothing.
pub open spec fn instant_from(
    zoned: Option<Timestamp>,
    datetime: Option<Timestamp>,
    day: Option<int>,
) -> Option<Timestamp> {
    match zoned {
        Some(instant) => Some(instant),
        None => match datetime {
            Some(instant) => Some(instant),
            None => match day {
                Some(d) => Some(Timestamp::spec_midnight(d)),
                None => None,
            },
        },
    }
}

/// What `text` means under the pattern `format`: read first as a date and
/// time with an offset from UTC, which is applied; then as a date and time
/// without one, taken as UTC; then as a date alone, taken at midnight UTC.
pub open spec fn parse_with(text: Seq<char>, format: Seq<char>) -> Option<Timestamp> {
    instant_from(zoned_parse(text, format), datetime_parse(text, format), date_parse(text, format))
}

/// The patterns tried on a date, in the order in which they are tried.
pub open spec fn known_formats() -> Seq<Seq<char>> {
    seq![
        "%B %d, %Y"@,
        "%Y-%m-%d"@,
        "%Y-%m-%dT%H:%M:%S%z"@,
        "%Y-%m-%dT%H:%M:%SZ"@,
        "%Y-%m-%dT%H:%M:%S"@,
        "%a, %d %b %Y %H:%M:%S %z"@,
        "%a, %d %b %Y %H:%M:%S GMT"@,
        "%d %b %Y"@,
        "%d/%m/%Y"@,
        "%m/%d/%Y"@,
    ]
}

/// What the first of `formats` that accepts `text` makes of it.
pub open spec fn first_parse(text: Seq<char>, formats: Seq<Seq<char>>) -> Option<Timestamp>
    decreases formats.len(),
{
    if formats.len() == 0 {
        None
    } else {
        match parse_with(text, formats[0]) {
            Some(instant) => Some(instant),
            None => first_parse(text, formats.drop_first()),
        }
    }
}

/// The date that `text` stands for: none when `text` is blank; else what the
/// configured pattern `hint` makes of it; else, or without a hint, what the
/// first accepting pattern of [`known_formats`] makes of it; else none.
pub open spec fn parse_date_spec(text: Seq<char>, hint: Option<Seq<char>>) -> Option<Timestamp> {
    if trimmed(text).len() == 0 {
        None
    } else {
        match hint {
            Some(format) => match parse_with(text, format) {
                Some(instant) => Some(instant),
                None => first_parse(text, known_formats()),
            },
            None => first_parse(text, known_formats()),
        }
    }
}

/// The characters of an optional string slice.
pub open spec fn str_option_view(text: Option<&str>) -> Option<Seq<char>> {
    match text {
        Some(s) => Some(s@),
        None => None,
    }
}

/// A day number as a mathematical integer.
pub open spec fn day_number(day: Option<i32>) -> Option<int> {
    match day {
        Some(d) => Some(d as int),
        None => None,
    }
}

/// The instant of one attempt to read a date, from what the three readings
/// gave: `zoned` where it is present, else `datetime`, else midnight UTC of
/// day `day`.
pub fn instant_of(zoned: Option<Timestamp>, datetime: Option<Timestamp>, day: Option<i32>) -> (instant:
    Option<Timestamp>)
    ensures
        instant == instant_from(zoned, datetime, day_number(day)),
{
    match zoned {
        Some(instant) => Some(instant),
        None => match datetime {
            Some(instant) => Some(instant),
            None => match day {
                Some(d) => Some(Timestamp::midnight(d)),
                None => None,
            },
        },
    }
}

/// Reads `text` under one pattern. A later reading is made only where the
/// earlier ones gave nothing.
fn parse_under(text: &str, format: &str) -> (instant: Option<Timestamp>)
    ensures
        instant == parse_with(text@, format@),
{
    let zoned = parse_zoned(text, format);
    if zoned.is_some() {
        return instant_of(zoned, None, None);
    }
    let datetime = parse_datetime(text, format);
    if datetime.is_some() {
        return instant_of(None, datetime, None);
    }
    instant_of(None, None, parse_day(text, format))
}

/// The pattern at position `index` of [`known_formats`].
fn known_format(index: usize) -> (format: &'static str)
    requires
        index < 10,
    ensures
        format@ == known_formats()[index as int],
{
    if index == 0 {
        "%B %d, %Y"
    } else if index == 1 {
        "%Y-%m-%d"
    } else if index == 2 {
        "%Y-%m-%dT%H:%M:%S%z"
    } else if index == 3 {
        "%Y-%m-%dT%H:%M:%SZ"
    } else if index == 4 {
        "%Y-%m-%dT%H:%M:%S"
    } else if index == 5 {
        "%a, %d %b %Y %H:%M:%S %z"
    } else if index == 6 {
        "%a, %d %b %Y %H:%M:%S GMT"
    } else if index == 7 {
        "%d %b %Y"
    } else if index == 8 {
        "%d/%m/%Y"
    } else {
        "%m/%d/%Y"
    }
}

/// Reads the date that `text` stands for. A configured pattern is tried first;
/// the fixed patterns follow in their order. Text that no pattern accepts has no
/// date: that is no error.
pub fn parse_date(text: &str, format: Option<&str>) -> (date: Option<Timestamp>)
    ensures
        date == parse_date_spec(text@, str_option_view(format)),
{
    if trim(text).is_empty() {
        return None;
    }
    match format {
        Some(hint) => {
            let hinted = parse_under(text, hint);
            if hinted.is_some() {
                return hinted;
            }
        },
        None => {},
    }
    proof {
        assert(known_formats().skip(0) =~= known_formats());
    }
    let mut index: usize = 0;
    while index < 10
        invariant
            0 <= index <= 10,
            known_formats().len() == 10,
            parse_date_spec(text@, str_option_view(format)) == first_parse(
                text@,
                known_formats().skip(index as int),
            ),
        decreases 10 - index,
    {
        let attempt = parse_under(text, known_format(index));
        proof {
            let rest = known_formats().skip(index as int);
            assert(rest[0] == known_formats()[index as int]);
            assert(rest.drop_first() == known_formats().skip(index + 1));
        }
        if attempt.is_some() {
            return attempt;
        }
        index += 1;
    }
    proof {
        assert(known_formats().skip(10).len() == 0);
    }
    None
}

} // verus!
