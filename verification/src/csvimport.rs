use vstd::prelude::*;
use vstd::string::StringExecFns;

use crate::graphql::{remove_all, remove_all_of};
use crate::miner::TimestampedInt;
use crate::text::{owned, str_equal};

verus! {

/// The date format of exported solar data: `31.12.2019 23:55:00`.
pub open spec fn csv_date_format() -> Seq<char> {
    "%d.%m.%Y %H:%M:%S"@
}

/// What chrono's `NaiveDateTime::parse_from_str(s, fmt)` gives, read as UTC
/// and counted in seconds since the epoch, or the text of its error.
pub uninterp spec fn utc_datetime_seconds(s: Seq<char>, fmt: Seq<char>) -> Result<i64, Seq<char>>;

/// The `Display` text of the error that std's `str::parse::<u32>` gives for
/// a text it does not accept.
pub uninterp spec fn u32_parse_error_text(s: Seq<char>) -> Seq<char>;

/// A decimal digit.
pub open spec fn is_decimal_digit(c: char) -> bool {
    '0' <= c && c <= '9'
}

/// The number written by a sequence of decimal digits.
pub open spec fn digits_value(d: Seq<char>) -> nat
    decreases d.len(),
{
    if d.len() == 0 {
        0
    } else {
        digits_value(d.drop_last()) * 10 + ((d.last() as int) - ('0' as int)) as nat
    }
}

/// The digits of an unsigned decimal number: the text without an optional
/// leading `+`.
pub open spec fn unsigned_digits(s: Seq<char>) -> Seq<char> {
    if s.len() > 0 && s[0] == '+' {
        s.skip(1)
    } else {
        s
    }
}

/// The `u32` a text stands for as std documents `u32::from_str`: an
/// optional `+` followed by one or more decimal digits and nothing else,
/// of a value that fits in 32 bits.
pub open spec fn u32_decimal(s: Seq<char>) -> Option<u32> {
    let d = unsigned_digits(s);
    if d.len() > 0 && (forall|i: int| 0 <= i < d.len() ==> is_decimal_digit(#[trigger] d[i]))
        && digits_value(d) <= u32::MAX {
        Some(digits_value(d) as u32)
    } else {
        None
    }
}

/// Parses a date and time with chrono's `NaiveDateTime::parse_from_str`,
/// takes it as UTC and returns its UNIX timestamp.  The outcome is named
/// [`utc_datetime_seconds`].
#[verifier::external_body]
fn parse_utc_datetime(s: &str, fmt: &str) -> (r: Result<i64, String>)
    ensures
        r is Ok <==> utc_datetime_seconds(s@, fmt@) is Ok,
        r is Ok ==> r->Ok_0 == utc_datetime_seconds(s@, fmt@)->Ok_0,
        r is Err ==> r->Err_0@ == utc_datetime_seconds(s@, fmt@)->Err_0,
{
    match chrono::NaiveDateTime::parse_from_str(s, fmt) {
        Ok(x) => Ok(x.and_utc().timestamp()),
        Err(e) => Err(e.to_string()),
    }
}

/// Parses an unsigned decimal number with std's `str::parse::<u32>`, which
/// accepts exactly the texts of [`u32_decimal`] (an optional `+`, then
/// digits, of a value below 2^32).  The error's text is named
/// [`u32_parse_error_text`].
#[verifier::external_body]
fn parse_u32(s: &str) -> (r: Result<u32, String>)
    ensures
        r is Ok <==> u32_decimal(s@) is Some,
        r is Ok ==> r->Ok_0 == u32_decimal(s@)->0,
        r is Err ==> r->Err_0@ == u32_parse_error_text(s@),
{
    match s.parse::<u32>() {
        Ok(v) => Ok(v),
        Err(e) => Err(e.to_string()),
    }
}

/// The solar data point of an exported CSV record with the given date and
/// energy columns, or the error message for the record.  The energy column
/// may hold thousands separators (`,`), which are dropped; the timestamp is
/// truncated to 32 bits.
pub open spec fn solar_record(date_time: Seq<char>, energy: Seq<char>) -> Result<
    (u32, u32),
    Seq<char>,
> {
    match utc_datetime_seconds(date_time, csv_date_format()) {
        Err(e) => Err("Can't parse timestamp "@ + date_time + ", "@ + e),
        Ok(t) => match u32_decimal(remove_all(energy, ","@)) {
            None => Err(
                "Can't parse energy "@ + energy + ", "@ + u32_parse_error_text(
                    remove_all(energy, ","@),
                ),
            ),
            Some(v) => Ok((t as u32, v)),
        },
    }
}

/// Parses the date column of an exported record (`31.12.2019 23:55:00`,
/// read as UTC) into its UNIX timestamp, or gives the error message for the
/// record.
pub fn parse_record_timestamp(date_time: &str) -> (r: Result<i64, String>)
    ensures
        r matches Ok(t) ==> utc_datetime_seconds(date_time@, csv_date_format()) == Ok::<
            i64,
            Seq<char>,
        >(t),
        r matches Err(e) ==> (utc_datetime_seconds(date_time@, csv_date_format()) matches Err(m)
            && e@ == "Can't parse timestamp "@ + date_time@ + ", "@ + m),
{
    match parse_utc_datetime(date_time, "%d.%m.%Y %H:%M:%S") {
        Ok(x) => Ok(x),
        Err(e) => {
            let mut m = owned("Can't parse timestamp ");
            m.append(date_time);
            m.append(", ");
            m.append(e.as_str());
            Err(m)
        },
    }
}

/// The reset column of exported water and gas records: the counter was
/// reset exactly when the column reads `true`.
pub fn parse_reset_flag(reset: &str) -> (r: bool)
    ensures
        r == (reset@ == "true"@),
{
    str_equal(reset, "true")
}

/// Parses one record of exported solar data.
pub fn parse_solar_record(date_time: &str, energy: &str) -> (r: Result<TimestampedInt, String>)
    ensures
        r matches Ok(p) ==> solar_record(date_time@, energy@) == Ok::<(u32, u32), Seq<char>>(
            (p.timestamp, p.value),
        ),
        r matches Err(e) ==> solar_record(date_time@, energy@) == Err::<(u32, u32), Seq<char>>(
            e@,
        ),
{
    let timestamp: u32 = match parse_record_timestamp(date_time) {
        Ok(x) => x as u32,
        Err(m) => {
            return Err(m);
        },
    };
    let cleaned = remove_all_of(energy, ",");
    let value: u32 = match parse_u32(cleaned.as_str()) {
        Ok(x) => x,
        Err(e) => {
            let mut m = owned("Can't parse energy ");
            m.append(energy);
            m.append(", ");
            m.append(e.as_str());
            return Err(m);
        },
    };
    Ok(TimestampedInt { timestamp, value })
}

} // verus!
