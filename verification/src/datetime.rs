//! Conversion of a `u64` nanoseconds-since-Unix-epoch timestamp into an
//! ISO-8601 UTC string with nanosecond precision, infallible for any `u64`.
//! Leap seconds are not represented.

use vstd::prelude::*;
use vstd::arithmetic::div_mod::lemma_div_is_ordered;

verus! {

/// A year divisible by 4 is a leap year, unless it is divisible by 100 and
/// not by 400 (proleptic Gregorian calendar).
pub open spec fn is_leap_year(year: int) -> bool {
    (year % 4 == 0 && year % 100 != 0) || year % 400 == 0
}

/// Number of days in the given year.
pub open spec fn days_in_year(year: int) -> int {
    if is_leap_year(year) {
        366
    } else {
        365
    }
}

/// Number of days in the given month (1-based) of the given year.
pub open spec fn days_in_month(year: int, month: int) -> int {
    if month == 2 {
        if is_leap_year(year) {
            29
        } else {
            28
        }
    } else if month == 4 || month == 6 || month == 9 || month == 11 {
        30
    } else {
        31
    }
}

/// Walks forward from `year`, consuming whole years out of `days`, until
/// fewer than a year's worth of days remains; returns the year reached and
/// the days left over.
pub open spec fn year_split(year: int, days: int) -> (int, int)
    decreases days,
{
    if days < 0 || days < days_in_year(year) {
        (year, days)
    } else {
        year_split(year + 1, days - days_in_year(year))
    }
}

/// Walks forward from `month` (1-based) within `year`, consuming whole
/// months out of `days`; returns the month reached and the days left over.
pub open spec fn month_split(year: int, month: int, days: int) -> (int, int)
    decreases 12 - month,
{
    if month >= 12 || days < 0 || days < days_in_month(year, month) {
        (month, days)
    } else {
        month_split(year, month + 1, days - days_in_month(year, month))
    }
}

/// The calendar date (year, month, day) that lies `days` whole days after
/// 1970-01-01.
pub open spec fn civil_date_of_days(days: int) -> (int, int, int) {
    let yr = year_split(1970, days);
    let mr = month_split(yr.0, 1, yr.1);
    (yr.0, mr.0, mr.1 + 1)
}

/// The decimal digit character for a value in `0 ..= 9`.
pub open spec fn digit_char(d: int) -> char {
    if d == 0 {
        '0'
    } else if d == 1 {
        '1'
    } else if d == 2 {
        '2'
    } else if d == 3 {
        '3'
    } else if d == 4 {
        '4'
    } else if d == 5 {
        '5'
    } else if d == 6 {
        '6'
    } else if d == 7 {
        '7'
    } else if d == 8 {
        '8'
    } else {
        '9'
    }
}

/// Two-digit zero-padded decimal rendering of a value in `0 ..= 99`.
pub open spec fn two_digits(n: int) -> Seq<char> {
    seq![digit_char(n / 10), digit_char(n % 10)]
}

/// Four-digit zero-padded decimal rendering of a value in `0 ..= 9999`.
pub open spec fn four_digits(n: int) -> Seq<char> {
    two_digits(n / 100) + two_digits(n % 100)
}

/// Nine-digit zero-padded decimal rendering of a value in
/// `0 ..= 999_999_999`.
pub open spec fn nine_digits(n: int) -> Seq<char> {
    seq![
        digit_char(n / 100_000_000 % 10),
        digit_char(n / 10_000_000 % 10),
        digit_char(n / 1_000_000 % 10),
        digit_char(n / 100_000 % 10),
        digit_char(n / 10_000 % 10),
        digit_char(n / 1_000 % 10),
        digit_char(n / 100 % 10),
        digit_char(n / 10 % 10),
        digit_char(n % 10),
    ]
}

/// The ISO-8601 UTC rendering, `YYYY-MM-DDThh:mm:ss.nnnnnnnnnZ`, of a
/// number of nanoseconds since the Unix epoch.
pub open spec fn iso8601_of(ns: u64) -> Seq<char> {
    let secs = ns as int / 1_000_000_000;
    let sub = ns as int % 1_000_000_000;
    let days = secs / 86_400;
    let sod = secs % 86_400;
    let date = civil_date_of_days(days);
    four_digits(date.0) + seq!['-'] + two_digits(date.1) + seq!['-'] + two_digits(date.2)
        + seq!['T'] + two_digits(sod / 3_600) + seq![':'] + two_digits((sod % 3_600) / 60)
        + seq![':'] + two_digits(sod % 60) + seq!['.'] + nine_digits(sub) + seq!['Z']
}

/// Total days in the months `month ..= 12` of `year`.
pub open spec fn days_from_month(year: int, month: int) -> int
    decreases 13 - month,
{
    if month > 12 {
        0
    } else {
        days_in_month(year, month) + days_from_month(year, month + 1)
    }
}

/// The months of a year account for exactly its days.
proof fn lemma_year_is_sum_of_months(year: int)
    ensures
        days_from_month(year, 1) == days_in_year(year),
{
    reveal_with_fuel(days_from_month, 14);
}

/// Where fewer days remain than the months ahead hold, the month walk ends
/// on a month with that many days still ahead of the final day.
proof fn lemma_month_split_bounds(year: int, month: int, days: int)
    requires
        1 <= month <= 12,
        0 <= days,
        days < days_from_month(year, month),
    ensures
        ({
            let mr = month_split(year, month, days);
            &&& 1 <= mr.0 <= 12
            &&& 0 <= mr.1 < days_in_month(year, mr.0)
        }),
    decreases 12 - month,
{
    if days < days_in_month(year, month) {
    } else if month == 12 {
        assert(days_from_month(year, 13) == 0);
    } else {
        lemma_month_split_bounds(year, month + 1, days - days_in_month(year, month));
    }
}

fn is_leap_year_x(year: u64) -> (r: bool)
    ensures
        r == is_leap_year(year as int),
{
    (year % 4 == 0 && year % 100 != 0) || year % 400 == 0
}

fn days_in_year_x(year: u64) -> (r: u64)
    ensures
        r as int == days_in_year(year as int),
        365 <= r <= 366,
{
    if is_leap_year_x(year) {
        366
    } else {
        365
    }
}

fn days_in_month_x(year: u64, month: u64) -> (r: u64)
    ensures
        r as int == days_in_month(year as int, month as int),
        28 <= r <= 31,
{
    if month == 2 {
        if is_leap_year_x(year) {
            29
        } else {
            28
        }
    } else if month == 4 || month == 6 || month == 9 || month == 11 {
        30
    } else {
        31
    }
}

fn digit_str(d: u64) -> (r: &'static str)
    requires
        d < 10,
    ensures
        r@ == seq![digit_char(d as int)],
{
    if d == 0 {
        let s = "0";
        proof {
            reveal_strlit("0");
            assert(s@ =~= seq![digit_char(d as int)]);
        }
        s
    } else if d == 1 {
        let s = "1";
        proof {
            reveal_strlit("1");
            assert(s@ =~= seq![digit_char(d as int)]);
        }
        s
    } else if d == 2 {
        let s = "2";
        proof {
            reveal_strlit("2");
            assert(s@ =~= seq![digit_char(d as int)]);
        }
        s
    } else if d == 3 {
        let s = "3";
        proof {
            reveal_strlit("3");
            assert(s@ =~= seq![digit_char(d as int)]);
        }
        s
    } else if d == 4 {
        let s = "4";
        proof {
            reveal_strlit("4");
            assert(s@ =~= seq![digit_char(d as int)]);
        }
        s
    } else if d == 5 {
        let s = "5";
        proof {
            reveal_strlit("5");
            assert(s@ =~= seq![digit_char(d as int)]);
        }
        s
    } else if d == 6 {
        let s = "6";
        proof {
            reveal_strlit("6");
            assert(s@ =~= seq![digit_char(d as int)]);
        }
        s
    } else if d == 7 {
        let s = "7";
        proof {
            reveal_strlit("7");
            assert(s@ =~= seq![digit_char(d as int)]);
        }
        s
    } else if d == 8 {
        let s = "8";
        proof {
            reveal_strlit("8");
            assert(s@ =~= seq![digit_char(d as int)]);
        }
        s
    } else {
        let s = "9";
        proof {
            reveal_strlit("9");
            assert(s@ =~= seq![digit_char(d as int)]);
        }
        s
    }
}

fn two_digit_string(n: u64) -> (r: String)
    requires
        n < 100,
    ensures
        r@ == two_digits(n as int),
{
    let mut s = String::from_str(digit_str(n / 10));
    s.append(digit_str(n % 10));
    proof {
        assert(s@ =~= two_digits(n as int));
    }
    s
}

fn four_digit_string(n: u64) -> (r: String)
    requires
        n < 10_000,
    ensures
        r@ == four_digits(n as int),
{
    let mut s = two_digit_string(n / 100);
    s.append(two_digit_string(n % 100).as_str());
    proof {
        assert(s@ =~= four_digits(n as int));
    }
    s
}

fn nine_digit_string(n: u64) -> (r: String)
    requires
        n < 1_000_000_000,
    ensures
        r@ == nine_digits(n as int),
{
    let mut s = String::from_str(digit_str(n / 100_000_000 % 10));
    s.append(digit_str(n / 10_000_000 % 10));
    s.append(digit_str(n / 1_000_000 % 10));
    s.append(digit_str(n / 100_000 % 10));
    s.append(digit_str(n / 10_000 % 10));
    s.append(digit_str(n / 1_000 % 10));
    s.append(digit_str(n / 100 % 10));
    s.append(digit_str(n / 10 % 10));
    s.append(digit_str(n % 10));
    proof {
        assert(s@ =~= nine_digits(n as int));
    }
    s
}

/// Renders a nanoseconds-since-Unix-epoch timestamp as an ISO-8601 UTC
/// string with nanosecond precision, e.g. `1970-01-01T00:00:00.000000000Z`.
/// Infallible for every `u64` value.
pub fn unix_nanos_to_iso8601(timestamp_ns: u64) -> (r: String)
    ensures
        r@ == iso8601_of(timestamp_ns),
{
    let secs: u64 = timestamp_ns / 1_000_000_000;
    let sub: u64 = timestamp_ns % 1_000_000_000;
    let days: u64 = secs / 86_400;
    let sod: u64 = secs % 86_400;

    proof {
        lemma_div_is_ordered(timestamp_ns as int, u64::MAX as int, 1_000_000_000);
        lemma_div_is_ordered(secs as int, 18_446_744_073, 86_400);
        assert(days <= 213_503);
    }

    let mut year: u64 = 1970;
    let mut yrem: u64 = days;
    loop
        invariant
            1970 <= year,
            yrem <= days,
            days <= 213_503,
            365 * (year - 1970) <= days - yrem,
            year_split(1970, days as int) == year_split(year as int, yrem as int),
        ensures
            1970 <= year <= 2555,
            (yrem as int) < days_in_year(year as int),
            year_split(1970, days as int) == year_split(year as int, yrem as int),
        decreases yrem,
    {
        let diy = days_in_year_x(year);
        if yrem < diy {
            break;
        }
        yrem = yrem - diy;
        year = year + 1;
    }
    // The year walk has ended: fewer than a year's days remain.
    assert(year_split(1970, days as int) == (year as int, yrem as int));
    assert(year <= 2555);

    let yrem_total = yrem;
    let mut month: u64 = 1;
    let mut mrem: u64 = yrem_total;
    loop
        invariant
            1 <= month <= 12,
            mrem <= yrem_total,
            yrem_total < 366,
            month_split(year as int, 1, yrem_total as int) == month_split(
                year as int,
                month as int,
                mrem as int,
            ),
        ensures
            1 <= month <= 12,
            mrem <= yrem_total,
            month as int >= 12 || (mrem as int) < days_in_month(year as int, month as int),
            month_split(year as int, 1, yrem_total as int) == month_split(
                year as int,
                month as int,
                mrem as int,
            ),
        decreases 12 - month,
    {
        if month >= 12 {
            break;
        }
        let dim = days_in_month_x(year, month);
        if mrem < dim {
            break;
        }
        mrem = mrem - dim;
        month = month + 1;
    }
    assert(month_split(year as int, 1, yrem_total as int) == (month as int, mrem as int));
    proof {
        lemma_year_is_sum_of_months(year as int);
        lemma_month_split_bounds(year as int, 1, yrem_total as int);
    }
    assert(mrem < 31);
    let day: u64 = mrem + 1;

    let hour: u64 = sod / 3_600;
    let minute: u64 = (sod % 3_600) / 60;
    let second: u64 = sod % 60;
    proof {
        lemma_div_is_ordered(sod as int, 86_399, 3_600);
        lemma_div_is_ordered((sod % 3_600) as int, 3_599, 60);
    }

    let mut out = four_digit_string(year);
    proof {
        reveal_strlit("-");
        reveal_strlit("T");
        reveal_strlit(":");
        reveal_strlit(".");
        reveal_strlit("Z");
    }
    out.append("-");
    out.append(two_digit_string(month).as_str());
    out.append("-");
    out.append(two_digit_string(day).as_str());
    out.append("T");
    out.append(two_digit_string(hour).as_str());
    out.append(":");
    out.append(two_digit_string(minute).as_str());
    out.append(":");
    out.append(two_digit_string(second).as_str());
    out.append(".");
    out.append(nine_digit_string(sub).as_str());
    out.append("Z");
    proof {
        assert(out@ =~= iso8601_of(timestamp_ns));
    }
    out
}

} // verus!
