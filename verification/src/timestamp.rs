//! UTC timestamps of log lines: seconds since the Unix epoch as `YYYY-MM-DD HH:MM:SS`.
use crate::text::{decimal, decimal_text};
use vstd::prelude::*;

verus! {

/// The civil date (year, month, day) of a day count since 1970-01-01, by the
/// days-to-civil algorithm over 400-year eras starting in March.
pub open spec fn civil_from_days(days: nat) -> (int, int, int) {
    let z = days + 719468;
    let era = z / 146097;
    let doe = z - era * 146097;
    let yoe = (doe - doe / 1460 + doe / 36524 - doe / 146096) / 365;
    let y = yoe + era * 400;
    let doy = doe - (365 * yoe + yoe / 4 - yoe / 100);
    let mp = (5 * doy + 2) / 153;
    let d = doy - (153 * mp + 2) / 5 + 1;
    let m = if mp < 10 { mp + 3 } else { mp - 9 };
    (if m <= 2 { y + 1 } else { y }, m, d)
}

/// The day count since 1970-01-01 of a civil date (for years from 1 on): whole 400-year
/// eras, whole years of the era, and days of the year counted from March.
pub open spec fn days_from_civil(y: int, m: int, d: int) -> int {
    let yy = if m <= 2 { y - 1 } else { y };
    let era = yy / 400;
    let yoe = yy - era * 400;
    let doy = (153 * (if m > 2 { m - 3 } else { m + 9 }) + 2) / 5 + d - 1;
    let doe = yoe * 365 + yoe / 4 - yoe / 100 + doy;
    era * 146097 + doe - 719468
}

/// A leap year of the Gregorian calendar.
pub open spec fn is_leap(y: int) -> bool {
    y % 4 == 0 && (y % 100 != 0 || y % 400 == 0)
}

/// The number of days of a month of a year.
pub open spec fn days_in_month(y: int, m: int) -> int {
    if m == 2 {
        if is_leap(y) { 29 } else { 28 }
    } else if m == 4 || m == 6 || m == 9 || m == 11 {
        30
    } else {
        31
    }
}

/// The year of its 400-year era that a day of the era falls in (years starting in March).
pub open spec fn year_of_era(doe: int) -> int {
    (doe - doe / 1460 + doe / 36524 - doe / 146096) / 365
}

/// The last day of a March-based year of an era (its day 365) only exists when the
/// following February has a 29th: the calendar year after it is a leap year.
proof fn lemma_long_year_is_leap(yoe: int)
    requires
        0 <= yoe < 400,
        365 * yoe + yoe / 4 - yoe / 100 + 365 < 146097,
        year_of_era(365 * yoe + yoe / 4 - yoe / 100 + 365) == yoe,
    ensures
        is_leap(yoe + 1),
{
}

/// Two decimal digits, with a leading zero below ten.
pub open spec fn two_digits(n: int) -> Seq<char> {
    if n < 10 { seq!['0'] + decimal(n) } else { decimal(n) }
}

/// The year with at least four digits (zero-padded below 1000).
pub open spec fn four_digits(n: int) -> Seq<char> {
    if n < 10 {
        "000"@ + decimal(n)
    } else if n < 100 {
        "00"@ + decimal(n)
    } else if n < 1000 {
        "0"@ + decimal(n)
    } else {
        decimal(n)
    }
}

/// The text of a time `secs` seconds after the Unix epoch, in UTC.
pub open spec fn utc_text(secs: nat) -> Seq<char> {
    let days = secs / 86400;
    let rem = secs % 86400;
    let (y, m, d) = civil_from_days(days);
    four_digits(y) + "-"@ + two_digits(m) + "-"@ + two_digits(d) + " "@ + two_digits((rem / 3600) as int) + ":"@
        + two_digits(((rem % 3600) / 60) as int) + ":"@ + two_digits((rem % 60) as int)
}

/// The bounds of the intermediate values of the days-to-civil algorithm.
proof fn lemma_civil_steps(days: nat)
    ensures
        ({
            let z = days + 719468;
            let era = z / 146097;
            let doe = z - era * 146097;
            let yoe = (doe - doe / 1460 + doe / 36524 - doe / 146096) / 365;
            let doy = doe - (365 * yoe + yoe / 4 - yoe / 100);
            let mp = (5 * doy + 2) / 153;
            &&& 0 <= doe < 146097
            &&& 0 <= yoe < 400
            &&& 0 <= doy < 366
            &&& 0 <= mp < 12
            &&& 1 <= doy - (153 * mp + 2) / 5 + 1 <= 31
            &&& era >= 4
        }),
{
    let z = days + 719468;
    let era = z / 146097;
    let doe = z - era * 146097;
    let a = doe / 1460;
    let b = doe / 36524;
    let c = doe / 146096;
    let n = doe - a + b - c;
    let yoe = n / 365;
    assert(0 <= doe < 146097);
    assert(0 <= n);
    assert(0 <= yoe < 400);
    let doy = doe - (365 * yoe + yoe / 4 - yoe / 100);
    assert(0 <= doy < 366);
    let mp = (5 * doy + 2) / 153;
    assert(0 <= mp < 12);
    assert(1 <= doy - (153 * mp + 2) / 5 + 1 <= 31);
}

/// Reading a day count as a civil date and counting the date's days gives the day count
/// back, the month is in 1..=12, the day in 1..=31 and the year at least 1970: for every
/// number of days since 1970-01-01.
pub proof fn lemma_civil_round_trip(days: nat)
    ensures
        ({
            let (y, m, d) = civil_from_days(days);
            &&& 1 <= m <= 12
            &&& 1 <= d <= 31
            &&& y >= 1970
            &&& days_from_civil(y, m, d) == days
        }),
{
    lemma_civil_steps(days);
    let z = days + 719468;
    let era = z / 146097;
    let doe = z - era * 146097;
    let yoe = (doe - doe / 1460 + doe / 36524 - doe / 146096) / 365;
    let y = yoe + era * 400;
    assert((yoe + era * 400) / 400 == era);
}

/// The date of every day count is a real calendar date: its day exists in its month
/// (the 29th of February only in leap years).
pub proof fn lemma_civil_date_valid(days: nat)
    ensures
        ({
            let (y, m, d) = civil_from_days(days);
            1 <= d <= days_in_month(y, m)
        }),
{
    lemma_civil_steps(days);
    let z = days + 719468;
    let era = z / 146097;
    let doe = z - era * 146097;
    let yoe = (doe - doe / 1460 + doe / 36524 - doe / 146096) / 365;
    let y = yoe + era * 400;
    let doy = doe - (365 * yoe + yoe / 4 - yoe / 100);
    let mp = (5 * doy + 2) / 153;
    let d = doy - (153 * mp + 2) / 5 + 1;
    let m = if mp < 10 { mp + 3 } else { mp - 9 };
    let yy = if m <= 2 { y + 1 } else { y };
    assert(civil_from_days(days) == (yy, m, d));
    if mp == 11 && d == 29 {
        assert(doy == 365);
        assert(doe == 365 * yoe + yoe / 4 - yoe / 100 + 365);
        assert(year_of_era(doe) == yoe);
        lemma_long_year_is_leap(yoe);
        assert(yy == yoe + 1 + era * 400);
        assert(is_leap(yy));
    }
    assert(d <= days_in_month(yy, m));
}

fn pad2(n: u64) -> (s: String)
    requires
        n < 100,
    ensures
        s@ == two_digits(n as int),
{
    let digits = decimal_text(n as i128);
    if n < 10 {
        let mut s = "0".to_owned();
        s.append(digits.as_str());
        assert(s@ =~= seq!['0'] + decimal(n as int)) by {
            reveal_strlit("0");
        }
        s
    } else {
        digits
    }
}

fn pad4(n: u64) -> (s: String)
    ensures
        s@ == four_digits(n as int),
{
    let digits = decimal_text(n as i128);
    let mut s = if n < 10 {
        "000".to_owned()
    } else if n < 100 {
        "00".to_owned()
    } else if n < 1000 {
        "0".to_owned()
    } else {
        String::new()
    };
    s.append(digits.as_str());
    s
}

/// The civil date of a day count since 1970-01-01; see [`civil_from_days`].
#[verifier::spinoff_prover]
#[verifier::rlimit(60)]
fn civil_date(days: u64) -> (r: (u64, u64, u64))
    requires
        days <= u64::MAX / 86400,
    ensures
        r.0 as int == civil_from_days(days as nat).0,
        r.1 as int == civil_from_days(days as nat).1,
        r.2 as int == civil_from_days(days as nat).2,
        1 <= r.1 <= 12,
        1 <= r.2 <= 31,
{
    proof {
        lemma_civil_steps(days as nat);
        lemma_civil_round_trip(days as nat);
    }
    let z: u64 = days + 719468;
    let era: u64 = z / 146097;
    let doe: u64 = z - era * 146097;
    let yoe: u64 = (doe - doe / 1460 + doe / 36524 - doe / 146096) / 365;
    let y: u64 = yoe + era * 400;
    let doy: u64 = doe - (365 * yoe + yoe / 4 - yoe / 100);
    let mp: u64 = (5 * doy + 2) / 153;
    let d: u64 = doy - (153 * mp + 2) / 5 + 1;
    let m: u64 = if mp < 10 { mp + 3 } else { mp - 9 };
    let y: u64 = if m <= 2 { y + 1 } else { y };
    (y, m, d)
}

/// The text of a time `secs` seconds after the Unix epoch, in UTC:
/// `YYYY-MM-DD HH:MM:SS`.
#[verifier::spinoff_prover]
#[verifier::rlimit(40)]
pub fn format_utc_timestamp_from_secs(secs: u64) -> (s: String)
    ensures
        s@ == utc_text(secs as nat),
{
    let days: u64 = secs / 86400;
    let rem: u64 = secs % 86400;
    let hours = rem / 3600;
    let rem2 = rem % 3600;
    let mins = rem2 / 60;
    let secs_part = rem2 % 60;
    let (y, m, d) = civil_date(days);
    assert(hours == (secs as nat % 86400) / 3600);
    assert(mins == ((secs as nat % 86400) % 3600) / 60);
    assert(secs_part == (secs as nat % 86400) % 60);
    let mut s = pad4(y);
    s.append("-");
    s.append(pad2(m).as_str());
    s.append("-");
    s.append(pad2(d).as_str());
    s.append(" ");
    s.append(pad2(hours).as_str());
    s.append(":");
    s.append(pad2(mins).as_str());
    s.append(":");
    s.append(pad2(secs_part).as_str());
    s
}

} // verus!
