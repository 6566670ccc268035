//! Schedule Expression Builder: maps a future timestamp plus an offset to a
//! one-shot recurrence expression over that instant's UTC calendar fields,
//! `"0 <minute> <hour> <day> <month-name> * <year>"`, so the trigger fires
//! once, in that minute of that hour, day, month and year.

use vstd::prelude::*;
use vstd::string::StringExecFns;

use crate::error::ErrorCode;

verus! {

/// Smallest Unix timestamp that is a valid calendar instant (midnight of the
/// first day of year -9999, the earliest date the calendar library accepts).
pub const MIN_VALID_UNIX_TS: i64 = -377705116800;

/// Largest Unix timestamp that is a valid calendar instant (the last second
/// of year 9999, the latest date the calendar library accepts).
pub const MAX_VALID_UNIX_TS: i64 = 253402300799;

/// A timestamp is representable as a calendar instant exactly within the
/// calendar library's year range.
pub open spec fn valid_cron_ts(t: int) -> bool {
    MIN_VALID_UNIX_TS <= t <= MAX_VALID_UNIX_TS
}

/// The UTC calendar decomposition of a valid timestamp:
/// `(minute, hour, day, month, year)`. A pure function of the timestamp,
/// computed by the external calendar library.
pub uninterp spec fn utc_fields_of(ts: i64) -> (u8, u8, u8, u8, i32);

/// Relies on `time::OffsetDateTime::from_unix_timestamp` and its UTC
/// component getters `minute`, `hour`, `day`, `month` and `year`: the
/// decomposition depends on the timestamp alone, succeeds exactly on
/// timestamps within the supported calendar years, and the fields lie in the
/// documented calendar ranges (minutes `0..60`, hours `0..24`, days
/// `1..=31`, months `1..=12`).
#[verifier::external_body]
fn utc_calendar_fields(ts: i64) -> (r: Option<(u8, u8, u8, u8, i32)>)
    ensures
        r is Some <==> valid_cron_ts(ts as int),
        r matches Some(f) ==> f == utc_fields_of(ts) && f.0 < 60 && f.1 < 24 && 1 <= f.2 <= 31
            && 1 <= f.3 <= 12,
{
    match time::OffsetDateTime::from_unix_timestamp(ts) {
        Ok(dt) => Some((dt.minute(), dt.hour(), dt.day(), u8::from(dt.month()), dt.year())),
        Err(_) => None,
    }
}

/// The decimal digit character of a value below ten.
pub open spec fn spec_digit(d: int) -> char {
    if d == 0 {
        '0'
    } else if d == 1 {
        '1'
    } else if d == 2 {
        '2'
    } else if d == 3 {
        '3'
    } else if d == 4 {
        '4'
    } else if d == 5 {
        '5'
    } else if d == 6 {
        '6'
    } else if d == 7 {
        '7'
    } else if d == 8 {
        '8'
    } else {
        '9'
    }
}

/// The decimal rendering of a natural number, without a sign and without
/// leading zeros.
pub open spec fn spec_dec_digits(n: nat) -> Seq<char>
    decreases n,
{
    if n < 10 {
        seq![spec_digit(n as int)]
    } else {
        spec_dec_digits(n / 10).push(spec_digit((n % 10) as int))
    }
}

/// The decimal rendering of an integer: a leading minus sign when negative.
pub open spec fn spec_int_digits(n: int) -> Seq<char> {
    if n < 0 {
        seq!['-'] + spec_dec_digits((-n) as nat)
    } else {
        spec_dec_digits(n as nat)
    }
}

/// The English name of a calendar month given as a number in `1..=12`.
pub open spec fn spec_month_name(m: u8) -> Seq<char> {
    if m == 1 {
        "January"@
    } else if m == 2 {
        "February"@
    } else if m == 3 {
        "March"@
    } else if m == 4 {
        "April"@
    } else if m == 5 {
        "May"@
    } else if m == 6 {
        "June"@
    } else if m == 7 {
        "July"@
    } else if m == 8 {
        "August"@
    } else if m == 9 {
        "September"@
    } else if m == 10 {
        "October"@
    } else if m == 11 {
        "November"@
    } else {
        "December"@
    }
}

/// The one-shot recurrence expression over a set of calendar fields.
pub open spec fn spec_cron(minute: u8, hour: u8, day: u8, month: u8, year: i32) -> Seq<char> {
    seq!['0', ' '] + spec_dec_digits(minute as nat) + seq![' '] + spec_dec_digits(hour as nat)
        + seq![' '] + spec_dec_digits(day as nat) + seq![' '] + spec_month_name(month) + seq![
        ' ',
        '*',
        ' ',
    ] + spec_int_digits(year as int)
}

/// The one-shot recurrence expression for a valid timestamp, over its UTC
/// calendar fields.
pub open spec fn spec_cron_of_ts(ts: i64) -> Seq<char> {
    let f = utc_fields_of(ts);
    spec_cron(f.0, f.1, f.2, f.3, f.4)
}

/// The decimal digit string of a value below ten.
fn digit_str(d: u64) -> (r: &'static str)
    requires
        d < 10,
    ensures
        r@ == seq![spec_digit(d as int)],
{
    proof {
        reveal_strlit("0");
        reveal_strlit("1");
        reveal_strlit("2");
        reveal_strlit("3");
        reveal_strlit("4");
        reveal_strlit("5");
        reveal_strlit("6");
        reveal_strlit("7");
        reveal_strlit("8");
        reveal_strlit("9");
    }
    let r: &'static str = if d == 0 {
        "0"
    } else if d == 1 {
        "1"
    } else if d == 2 {
        "2"
    } else if d == 3 {
        "3"
    } else if d == 4 {
        "4"
    } else if d == 5 {
        "5"
    } else if d == 6 {
        "6"
    } else if d == 7 {
        "7"
    } else if d == 8 {
        "8"
    } else {
        "9"
    };
    proof {
        assert(r@ =~= seq![spec_digit(d as int)]);
    }
    r
}

/// Renders a number in decimal, without leading zeros.
pub fn u64_to_dec_string(n: u64) -> (s: String)
    ensures
        s@ == spec_dec_digits(n as nat),
    decreases n,
{
    if n < 10 {
        String::from_str(digit_str(n))
    } else {
        let mut s = u64_to_dec_string(n / 10);
        let d = digit_str(n % 10);
        s.append(d);
        proof {
            assert(s@ =~= spec_dec_digits(n as nat));
        }
        s
    }
}

/// Renders a signed number in decimal, with a leading minus when negative.
pub fn i64_to_dec_string(n: i64) -> (s: String)
    ensures
        s@ == spec_int_digits(n as int),
{
    if n >= 0 {
        u64_to_dec_string(n as u64)
    } else {
        let mag: u64 = (-(n as i128)) as u64;
        let mut s = String::from_str("-");
        proof {
            reveal_strlit("-");
            assert(s@ =~= seq!['-']);
        }
        let digits = u64_to_dec_string(mag);
        s.append(digits.as_str());
        proof {
            assert(s@ =~= spec_int_digits(n as int));
        }
        s
    }
}

/// The English name of a calendar month given as a number in `1..=12`.
pub fn month_name(m: u8) -> (r: &'static str)
    requires
        1 <= m <= 12,
    ensures
        r@ == spec_month_name(m),
{
    if m == 1 {
        "January"
    } else if m == 2 {
        "February"
    } else if m == 3 {
        "March"
    } else if m == 4 {
        "April"
    } else if m == 5 {
        "May"
    } else if m == 6 {
        "June"
    } else if m == 7 {
        "July"
    } else if m == 8 {
        "August"
    } else if m == 9 {
        "September"
    } else if m == 10 {
        "October"
    } else if m == 11 {
        "November"
    } else {
        "December"
    }
}

/// Builds the one-shot recurrence expression for the instant `offset`
/// seconds after `execution_ts`, over that instant's UTC calendar fields.
///
/// Fails with `InvalidCalendarInstant`, exactly when `execution_ts + offset`
/// is not representable as a valid calendar instant.
pub fn create_cron(execution_ts: i64, offset: i64) -> (r: Result<String, ErrorCode>)
    ensures
        r is Ok <==> valid_cron_ts(execution_ts + offset),
        r matches Ok(s) ==> s@ == spec_cron_of_ts((execution_ts + offset) as i64),
        r is Err ==> r == Err::<String, ErrorCode>(ErrorCode::InvalidCalendarInstant),
{
    let when = match execution_ts.checked_add(offset) {
        Some(w) => w,
        None => {
            return Err(ErrorCode::InvalidCalendarInstant);
        },
    };
    let f = match utc_calendar_fields(when) {
        Some(f) => f,
        None => {
            return Err(ErrorCode::InvalidCalendarInstant);
        },
    };
    let mut cron = String::from_str("0 ");
    proof {
        reveal_strlit("0 ");
        reveal_strlit(" ");
        reveal_strlit(" * ");
        assert(cron@ =~= seq!['0', ' ']);
        assert(" "@ =~= seq![' ']);
        assert(" * "@ =~= seq![' ', '*', ' ']);
    }
    let minute = u64_to_dec_string(f.0 as u64);
    cron.append(minute.as_str());
    cron.append(" ");
    let hour = u64_to_dec_string(f.1 as u64);
    cron.append(hour.as_str());
    cron.append(" ");
    let day = u64_to_dec_string(f.2 as u64);
    cron.append(day.as_str());
    cron.append(" ");
    cron.append(month_name(f.3));
    cron.append(" * ");
    let year = i64_to_dec_string(f.4 as i64);
    cron.append(year.as_str());
    proof {
        assert(cron@ =~= spec_cron_of_ts(when));
    }
    Ok(cron)
}

} // verus!
