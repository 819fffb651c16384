//! Civil-date arithmetic for the limit on recurrence start times.
//!
//! Dates are year, month and day of the Gregorian calendar, extended to all
//! years.

use vstd::prelude::*;

use crate::diagnostic::{findings, Diagnostic, Finding};
use crate::json::{Document, Node};
use crate::shape::report::{report_value, wrong_value};
use crate::shape::time::{
    has_datetime_layout, is_datetime, is_leap, month_length, number_at, parse_digits,
};
use crate::text::chars_of;

verus! {

broadcast use crate::diagnostic::group_findings;

/// A date as mathematical numbers.
pub struct Date {
    pub year: int,
    pub month: int,
    pub day: int,
}

pub open spec fn is_date(date: Date) -> bool {
    1 <= date.month <= 12 && 1 <= date.day <= month_length(date.year, date.month)
}

/// The number of leap years from year 1 up to the year before `year`; years
/// before year 1 count negatively.
pub open spec fn leap_years_before(year: int) -> int {
    (year - 1) / 4 - (year - 1) / 100 + (year - 1) / 400
}

/// The number of days of a year before `month` begins.
pub open spec fn days_before_month(year: int, month: int) -> int
    decreases month,
{
    if month <= 1 {
        0
    } else {
        days_before_month(year, month - 1) + month_length(year, month - 1)
    }
}

/// The number of days from the first of January of 1970.
pub open spec fn day_number(date: Date) -> int {
    365 * (date.year - 1970) + leap_years_before(date.year) - leap_years_before(1970)
        + days_before_month(date.year, date.month) + date.day - 1
}

/// `left` comes after `right`.
pub open spec fn is_after(left: Date, right: Date) -> bool {
    ||| left.year > right.year
    ||| left.year == right.year && left.month > right.month
    ||| left.year == right.year && left.month == right.month && left.day > right.day
}

/// The date that is `days` after the first of January of 1970.
pub open spec fn date_of(days: int) -> Date {
    choose|date: Date| is_date(date) && day_number(date) == days
}

/// A year as it is stored; one that does not fit becomes the largest.
pub open spec fn stored_year(year: int) -> int {
    if i32::MIN <= year <= i32::MAX {
        year
    } else {
        i32::MAX as int
    }
}

/// The number of days of a month; a number that names no month counts as 31.
pub open spec fn longest_day(year: int, month: int) -> int {
    if 1 <= month <= 12 {
        month_length(year, month)
    } else {
        31
    }
}

/// The date `years` later; a day that the month lacks becomes its last day.
pub open spec fn years_later(date: Date, years: int) -> Date {
    let sum = date.year + years;
    let year = if sum > i32::MAX {
        i32::MAX as int
    } else if sum < i32::MIN {
        i32::MIN as int
    } else {
        sum
    };
    let last = longest_day(year, date.month);
    Date {
        year,
        month: date.month,
        day: if date.day <= last {
            date.day
        } else {
            last
        },
    }
}

pub open spec fn date_view(date: (i32, u32, u32)) -> Date {
    Date { year: date.0 as int, month: date.1 as int, day: date.2 as int }
}

/// The date that a datetime text names.
pub open spec fn text_date(text: Seq<char>) -> Date {
    Date { year: number_at(text, 0, 4), month: number_at(text, 5, 2), day: number_at(text, 8, 2) }
}

/// Today's date by the clock of the check.
pub open spec fn today(seconds: u64) -> Date {
    let date = date_of(seconds as int / 86400);
    Date { year: stored_year(date.year), month: date.month, day: date.day }
}

/// What is wrong with a start time: it may be at most 49 years ahead.
pub open spec fn start_time_findings(
    text: Seq<char>,
    base: Seq<char>,
    value: &Node,
    file: &Document,
) -> Seq<Finding> {
    match file.clock {
        Some(seconds) => if is_after(text_date(text), years_later(today(seconds), 49)) {
            wrong_value(
                file,
                base,
                "startTime"@,
                value.span,
                "Recurrence startTime must be at most 49 years in the future"@,
            )
        } else {
            Seq::empty()
        },
        None => Seq::empty(),
    }
}

proof fn lemma_days_before_month(year: int, month: int)
    requires
        1 <= month <= 12,
    ensures
        days_before_month(year, month) == (if month == 1 {
            0int
        } else if month == 2 {
            31
        } else {
            (if is_leap(year) {
                1int
            } else {
                0
            }) + (if month == 3 {
                59int
            } else if month == 4 {
                90
            } else if month == 5 {
                120
            } else if month == 6 {
                151
            } else if month == 7 {
                181
            } else if month == 8 {
                212
            } else if month == 9 {
                243
            } else if month == 10 {
                273
            } else if month == 11 {
                304
            } else {
                334
            })
        }),
    decreases month,
{
    if month > 1 {
        lemma_days_before_month(year, month - 1);
    }
}

/// Leap years follow from the counts at the two ends of a year.
proof fn lemma_leap_step(year: int)
    ensures
        leap_years_before(year + 1) == leap_years_before(year) + (if is_leap(year) {
            1int
        } else {
            0
        }),
{
    lemma_quotient_step(year, 4);
    lemma_quotient_step(year, 100);
    lemma_quotient_step(year, 400);
    if year % 100 == 0 {
        lemma_multiple(year, 4, 25);
    }
    if year % 400 == 0 {
        lemma_multiple(year, 100, 4);
    }
}

/// A quotient grows exactly at the multiples of the divisor.
proof fn lemma_quotient_step(n: int, d: int)
    requires
        d > 1,
    ensures
        n / d == (n - 1) / d + (if n % d == 0 {
            1int
        } else {
            0
        }),
{
    let q = (n - 1) / d;
    let r = (n - 1) % d;
    vstd::arithmetic::div_mod::lemma_fundamental_div_mod(n - 1, d);
    if r == d - 1 {
        assert(n == d * (q + 1)) by (nonlinear_arith)
            requires
                n - 1 == d * q + r,
                r == d - 1,
        ;
        vstd::arithmetic::div_mod::lemma_fundamental_div_mod_converse(n, d, q + 1, 0);
    } else {
        vstd::arithmetic::div_mod::lemma_fundamental_div_mod_converse(n, d, q, r + 1);
    }
}

/// A multiple of a product is a multiple of each factor.
proof fn lemma_multiple(n: int, d: int, k: int)
    requires
        d > 0,
        k > 0,
        n % (d * k) == 0,
    ensures
        n % d == 0,
{
    let q = n / (d * k);
    assert(d * k > 0) by (nonlinear_arith)
        requires
            d > 0,
            k > 0,
    ;
    vstd::arithmetic::div_mod::lemma_fundamental_div_mod(n, d * k);
    assert(n == d * (k * q)) by (nonlinear_arith)
        requires
            n == (d * k) * q,
    ;
    vstd::arithmetic::div_mod::lemma_fundamental_div_mod_converse(n, d, k * q, 0);
}

proof fn lemma_leap_years_order(left: int, right: int)
    requires
        left <= right,
    ensures
        leap_years_before(left) <= leap_years_before(right),
    decreases right - left,
{
    if left < right {
        lemma_leap_years_order(left, right - 1);
        lemma_leap_step(right - 1);
    }
}

/// Later dates have larger day numbers, and no two dates share one.
pub proof fn law_day_number_orders_dates(left: Date, right: Date)
    requires
        is_date(left),
        is_date(right),
    ensures
        is_after(left, right) <==> day_number(left) > day_number(right),
        day_number(left) == day_number(right) ==> left == right,
{
    lemma_days_before_month(left.year, left.month);
    lemma_days_before_month(right.year, right.month);
    if left.year < right.year {
        lemma_earlier_year(left, right);
    } else if left.year > right.year {
        lemma_earlier_year(right, left);
    } else {
        assert(left.month < right.month ==> days_before_month(left.year, left.month) + left.day
            <= days_before_month(left.year, right.month));
        assert(right.month < left.month ==> days_before_month(left.year, right.month) + right.day
            <= days_before_month(left.year, left.month));
    }
}

proof fn lemma_earlier_year(left: Date, right: Date)
    requires
        is_date(left),
        is_date(right),
        left.year < right.year,
    ensures
        day_number(left) < day_number(right),
{
    lemma_days_before_month(left.year, left.month);
    lemma_days_before_month(right.year, right.month);
    lemma_leap_step(left.year);
    lemma_leap_years_order(left.year + 1, right.year);
}

/// A date with the right day number is the date.
proof fn lemma_date_of(date: Date, days: int)
    requires
        is_date(date),
        day_number(date) == days,
    ensures
        date_of(days) == date,
{
    let chosen = date_of(days);
    assert(is_date(chosen) && day_number(chosen) == days);
    law_day_number_orders_dates(chosen, date);
}

/// Counts of a year that begins in March: `y` years and `d` days after the
/// first of March of year 0, in eras of 400 years.
proof fn lemma_march_year(era: int, century: int, group: int, single: int, y: int)
    requires
        y == 400 * era + 100 * century + 4 * group + single,
        0 <= century <= 3,
        0 <= group <= 24,
        0 <= single <= 3,
    ensures
        leap_years_before(y + 1) == 97 * era + 24 * century + group,
        is_leap(y + 1) <==> single == 3 && (group != 24 || century == 3),
{
    assert(y / 4 == 100 * era + 25 * century + group);
    assert(y / 100 == 4 * era + century);
    assert(y / 400 == era);
}

/// The day of a year that begins in March, by month and day.
proof fn lemma_march_month(doy: int)
    requires
        0 <= doy <= 365,
    ensures
        ({
            let mp = (5 * doy + 2) / 153;
            let start = (153 * mp + 2) / 5;
            &&& 0 <= mp <= 11
            &&& start == march_start(mp)
            &&& start <= doy
            &&& mp < 11 ==> doy < march_start(mp + 1)
        }),
{
    let mp = (5 * doy + 2) / 153;
    assert(153 * mp <= 5 * doy + 2 < 153 * mp + 153);
    assert(0 <= mp <= 11);
    if mp == 0 {
    } else if mp == 1 {
    } else if mp == 2 {
    } else if mp == 3 {
    } else if mp == 4 {
    } else if mp == 5 {
    } else if mp == 6 {
    } else if mp == 7 {
    } else if mp == 8 {
    } else if mp == 9 {
    } else if mp == 10 {
    } else {
        assert(mp == 11);
    }
}

/// The days from the first of March to the first of a month, counted from March.
spec fn march_start(mp: int) -> int {
    if mp == 0 {
        0
    } else if mp == 1 {
        31
    } else if mp == 2 {
        61
    } else if mp == 3 {
        92
    } else if mp == 4 {
        122
    } else if mp == 5 {
        153
    } else if mp == 6 {
        184
    } else if mp == 7 {
        214
    } else if mp == 8 {
        245
    } else if mp == 9 {
        275
    } else if mp == 10 {
        306
    } else {
        337
    }
}

/// The date of a day that is given by era, century, four-year group, year and
/// day, all counted from the first of March of year 0.
spec fn march_date(y: int, doy: int) -> Date {
    let mp = (5 * doy + 2) / 153;
    let month = if mp < 10 {
        mp + 3
    } else {
        mp - 9
    };
    Date {
        year: if month <= 2 {
            y + 1
        } else {
            y
        },
        month,
        day: doy - (153 * mp + 2) / 5 + 1,
    }
}

proof fn lemma_march_date(era: int, century: int, group: int, single: int, doy: int, y: int)
    requires
        y == 400 * era + 100 * century + 4 * group + single,
        0 <= century <= 3,
        0 <= group <= 24,
        0 <= single <= 3,
        0 <= doy <= 365,
        doy == 365 ==> single == 3 && (group != 24 || century == 3),
    ensures
        is_date(march_date(y, doy)),
        day_number(march_date(y, doy)) == 146097 * era + 36524 * century + 1461 * group + 365
            * single + doy - 719468,
{
    let date = march_date(y, doy);
    lemma_march_month(doy);
    lemma_march_year(era, century, group, single, y);
    lemma_leap_step(y);
    lemma_days_before_month(date.year, date.month);
    assert(leap_years_before(1970) == 477);
}

/// The date `days` after the first of January of 1970.
pub fn civil_from_days(days: i64) -> (date: (i32, u32, u32))
    ensures
        is_date(date_of(days as int)),
        day_number(date_of(days as int)) == days,
        date_view(date) == (Date {
            year: stored_year(date_of(days as int).year),
            month: date_of(days as int).month,
            day: date_of(days as int).day,
        }),
{
    // Days since the first of March of year 0, moved up by whole eras of 400
    // years so that they are not negative.
    let z: i128 = days as i128 + 719468 + 146097 * 70000000000000;
    let eras: i128 = z / 146097;
    let doe: i128 = z % 146097;
    let century: i128 = if doe / 36524 > 3 {
        3
    } else {
        doe / 36524
    };
    let in_century: i128 = doe - century * 36524;
    let group: i128 = in_century / 1461;
    let in_group: i128 = in_century - group * 1461;
    let single: i128 = if in_group / 365 > 3 {
        3
    } else {
        in_group / 365
    };
    let doy: i128 = in_group - single * 365;
    let era: i128 = eras - 70000000000000;
    let y: i128 = era * 400 + century * 100 + group * 4 + single;
    proof {
        lemma_march_date(
            era as int,
            century as int,
            group as int,
            single as int,
            doy as int,
            y as int,
        );
        lemma_date_of(march_date(y as int, doy as int), days as int);
        lemma_march_month(doy as int);
    }
    // Months counted from March.
    let mp: i128 = (5 * doy + 2) / 153;
    let day: i128 = doy - (153 * mp + 2) / 5 + 1;
    let month: i128 = if mp < 10 {
        mp + 3
    } else {
        mp - 9
    };
    let year: i128 = if month <= 2 {
        y + 1
    } else {
        y
    };
    let stored: i32 = if -2147483648 <= year && year <= 2147483647 {
        year as i32
    } else {
        2147483647
    };
    (stored, month as u32, day as u32)
}

fn leap_year(year: i32) -> (holds: bool)
    ensures
        holds == is_leap(year as int),
{
    // The shift is a multiple of 400, so divisibility is unchanged.
    let y: i64 = year as i64 + 2147484000;
    proof {
        vstd::arithmetic::div_mod::lemma_mod_multiples_vanish(536871000, year as int, 4);
        vstd::arithmetic::div_mod::lemma_mod_multiples_vanish(21474840, year as int, 100);
        vstd::arithmetic::div_mod::lemma_mod_multiples_vanish(5368710, year as int, 400);
    }
    (y % 4 == 0 && y % 100 != 0) || y % 400 == 0
}

fn days_in_month(year: i32, month: u32) -> (days: u32)
    ensures
        days == longest_day(year as int, month as int),
{
    if month == 4 || month == 6 || month == 9 || month == 11 {
        30
    } else if month == 2 {
        if leap_year(year) {
            29
        } else {
            28
        }
    } else {
        31
    }
}

/// The date `years` later, clamped to the last day of its month.
pub fn add_years(date: (i32, u32, u32), years: i32) -> (later: (i32, u32, u32))
    ensures
        date_view(later) == years_later(date_view(date), years as int),
{
    let sum: i64 = date.0 as i64 + years as i64;
    let year: i32 = if sum > 2147483647 {
        2147483647
    } else if sum < -2147483648 {
        -2147483648
    } else {
        sum as i32
    };
    let last = days_in_month(year, date.1);
    let day = if date.2 <= last {
        date.2
    } else {
        last
    };
    (year, date.1, day)
}

fn date_after(left: (i32, u32, u32), right: (i32, u32, u32)) -> (holds: bool)
    ensures
        holds == is_after(date_view(left), date_view(right)),
{
    left.0 > right.0 || (left.0 == right.0 && (left.1 > right.1 || (left.1 == right.1 && left.2
        > right.2)))
}

fn iso8601_date(text: &str) -> (date: (i32, u32, u32))
    requires
        is_datetime(text@),
    ensures
        date_view(date) == text_date(text@),
{
    let chars = chars_of(text);
    let e = chars.as_slice();
    assert(has_datetime_layout(e@));
    (parse_digits(e, 0, 4) as i32, parse_digits(e, 5, 2), parse_digits(e, 8, 2))
}

/// The UTC date at a reading of the clock.
pub fn utc_date(seconds: u64) -> (date: (i32, u32, u32))
    ensures
        date_view(date) == today(seconds),
{
    civil_from_days((seconds / 86400) as i64)
}

/// The scheduler rejects a start time more than 49 years in the future.
pub(crate) fn validate_recurrence_start_time_future_limit(
    text: &str,
    recurrence_pointer: &str,
    value: &Node,
    file: &Document,
    diagnostics: &mut Vec<Diagnostic>,
)
    requires
        is_datetime(text@),
    ensures
        findings(final(diagnostics)@) == findings(old(diagnostics)@) + start_time_findings(
            text@,
            recurrence_pointer@,
            value,
            file,
        ),
{
    if let Some(seconds) = file.clock {
        if date_after(iso8601_date(text), add_years(utc_date(seconds), 49)) {
            report_value(
                file,
                recurrence_pointer,
                "startTime",
                value.span,
                "Recurrence startTime must be at most 49 years in the future",
                diagnostics,
            );
        }
    }
}

/// Some years later there is a date again, and it does not come before.
pub proof fn law_years_later_is_a_later_date(date: Date, years: int)
    requires
        is_date(date),
        i32::MIN <= date.year <= i32::MAX,
        years >= 0,
    ensures
        is_date(years_later(date, years)),
        !is_after(date, years_later(date, years)),
        date.year + years <= i32::MAX ==> years_later(date, years).year == date.year + years,
{
}

} // verus!
