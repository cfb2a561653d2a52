//! Proleptic Gregorian calendar arithmetic on Unix timestamps.
use crate::error::RecurringPaymentsError;
use vstd::prelude::*;

verus! {

/// Seconds in one calendar day.
pub const SECONDS_PER_DAY: i64 = 86400;

/// The Gregorian leap-year rule.
pub open spec fn is_leap(y: int) -> bool {
    (y % 4 == 0 && y % 100 != 0) || y % 400 == 0
}

/// Number of days in year `y`.
pub open spec fn year_length(y: int) -> int {
    if is_leap(y) {
        366
    } else {
        365
    }
}

/// Number of days in month `m` (1 to 12) of year `y`; 0 for any other `m`.
pub open spec fn month_length(y: int, m: int) -> int {
    if m == 2 {
        if is_leap(y) {
            29
        } else {
            28
        }
    } else if m == 4 || m == 6 || m == 9 || m == 11 {
        30
    } else if 1 <= m <= 12 {
        31
    } else {
        0
    }
}

/// Day number (days since 1970-01-01) of January 1st of year `y`.
pub open spec fn year_start(y: int) -> int
    decreases (if y >= 1970 {
        y - 1970
    } else {
        1970 - y
    }),
{
    if y > 1970 {
        year_start(y - 1) + year_length(y - 1)
    } else if y < 1970 {
        year_start(y + 1) - year_length(y)
    } else {
        0
    }
}

/// Days of year `y` that come before the first day of month `m`.
pub open spec fn month_start(y: int, m: int) -> int
    decreases m,
{
    if m <= 1 {
        0
    } else {
        month_start(y, m - 1) + month_length(y, m - 1)
    }
}

/// `(y, m, d)` names a day of the calendar.
pub open spec fn valid_date(y: int, m: int, d: int) -> bool {
    1 <= m <= 12 && 1 <= d <= month_length(y, m)
}

/// Days since 1970-01-01 of the date `(y, m, d)`.
pub open spec fn day_number(y: int, m: int, d: int) -> int {
    year_start(y) + month_start(y, m) + d - 1
}

/// The date `(year, month, day)` of a day number.
pub open spec fn date_of_day(days: int) -> (int, int, int) {
    choose|t: (int, int, int)| valid_date(t.0, t.1, t.2) && day_number(t.0, t.1, t.2) == days
}

/// The date `(y, m, d)` moved `n` months on, its day clamped to the new month's length.
pub open spec fn shift_months(y: int, m: int, d: int, n: int) -> (int, int, int) {
    let k = m - 1 + n;
    let y2 = y + k / 12;
    let m2 = k % 12 + 1;
    (y2, m2, if d > month_length(y2, m2) {
        month_length(y2, m2)
    } else {
        d
    })
}

/// A timestamp moved `n` calendar months on, its time of day kept.
pub open spec fn add_months_spec(ts: int, n: int) -> int {
    let date = date_of_day(ts / 86400);
    let s = shift_months(date.0, date.1, date.2, n);
    day_number(s.0, s.1, s.2) * 86400 + ts % 86400
}

/// The day number of `ts` lies in the range that `add_months` handles.
pub open spec fn months_addable(ts: int) -> bool {
    i32::MIN <= ts / 86400 <= i32::MAX
}

proof fn lemma_year_start_step(y: int)
    ensures
        year_start(y + 1) == year_start(y) + year_length(y),
{
    if y < 1969 {
        assert(year_start(y) == year_start(y + 1) - year_length(y));
    }
}

proof fn lemma_year_start_grows(a: int, b: int)
    requires
        a <= b,
    ensures
        year_start(a) + 365 * (b - a) <= year_start(b),
    decreases b - a,
{
    if a < b {
        lemma_year_start_grows(a, b - 1);
        lemma_year_start_step(b - 1);
    }
}

proof fn lemma_month_start_grows(y: int, a: int, b: int)
    requires
        a <= b,
    ensures
        month_start(y, a) <= month_start(y, b),
    decreases b - a,
{
    if a < b {
        lemma_month_start_grows(y, a, b - 1);
    }
}

proof fn lemma_months_fill_year(y: int)
    ensures
        month_start(y, 13) == year_length(y),
{
    reveal_with_fuel(month_start, 13);
}

proof fn lemma_offset_in_year(y: int, m: int, d: int)
    requires
        valid_date(y, m, d),
    ensures
        0 <= month_start(y, m) + d - 1 < year_length(y),
        0 <= month_start(y, m),
{
    lemma_month_start_grows(y, m + 1, 13);
    lemma_month_start_grows(y, 1, m);
    lemma_months_fill_year(y);
}

/// Distinct dates have distinct day numbers.
pub proof fn lemma_date_unique(y1: int, m1: int, d1: int, y2: int, m2: int, d2: int)
    requires
        valid_date(y1, m1, d1),
        valid_date(y2, m2, d2),
        day_number(y1, m1, d1) == day_number(y2, m2, d2),
    ensures
        y1 == y2 && m1 == m2 && d1 == d2,
{
    lemma_offset_in_year(y1, m1, d1);
    lemma_offset_in_year(y2, m2, d2);
    if y1 < y2 {
        lemma_year_start_step(y1);
        lemma_year_start_grows(y1 + 1, y2);
    } else if y2 < y1 {
        lemma_year_start_step(y2);
        lemma_year_start_grows(y2 + 1, y1);
    } else if m1 < m2 {
        lemma_month_start_grows(y1, m1 + 1, m2);
    } else if m2 < m1 {
        lemma_month_start_grows(y1, m2 + 1, m1);
    }
}

/// Whether `year` is a leap year.
pub fn is_leap_year(year: i64) -> (r: bool)
    ensures
        r == is_leap(year as int),
{
    (year % 4 == 0 && year % 100 != 0) || year % 400 == 0
}

/// Number of days in `month` of `year`; 0 when `month` is not 1 to 12.
pub fn get_days_in_month(year: i64, month: i64) -> (r: i64)
    ensures
        r == month_length(year as int, month as int),
{
    if month == 2 {
        if is_leap_year(year) {
            29
        } else {
            28
        }
    } else if month == 4 || month == 6 || month == 9 || month == 11 {
        30
    } else if 1 <= month && month <= 12 {
        31
    } else {
        0
    }
}

/// Moves `timestamp` on by `months` calendar months, keeping its time of day and
/// clamping its day to the length of the month reached (Jan 31 + 1 month is the
/// last day of February). Fails when the day lies outside the `i32` range of
/// day numbers.
pub fn add_months(timestamp: i64, months: i64) -> (r: Result<i64, RecurringPaymentsError>)
    requires
        1 <= months <= 12,
    ensures
        r is Ok <==> months_addable(timestamp as int),
        r matches Ok(v) ==> v == add_months_spec(timestamp as int, months as int),
        r matches Ok(v) ==> v > timestamp,
        r matches Err(e) ==> e == RecurringPaymentsError::ArithmeticOverflow,
{
    let days: i64 = match timestamp.checked_div_euclid(SECONDS_PER_DAY) {
        Some(d) => d,
        None => return Err(RecurringPaymentsError::ArithmeticOverflow),
    };
    let secs: i64 = match timestamp.checked_rem_euclid(SECONDS_PER_DAY) {
        Some(s) => s,
        None => return Err(RecurringPaymentsError::ArithmeticOverflow),
    };
    if days < i32::MIN as i64 || days > i32::MAX as i64 {
        return Err(RecurringPaymentsError::ArithmeticOverflow);
    }
    proof {
        vstd::arithmetic::div_mod::lemma_fundamental_div_mod(timestamp as int, 86400);
    }
    // Find the year: year_start(year) + rem == days, 0 <= rem < year_length(year).

    let mut year: i64 = 1970;
    let mut rem: i64 = days;
    if days >= 0 {
        let mut len: i64 = if is_leap_year(year) {
            366
        } else {
            365
        };
        while rem >= len
            invariant
                year_start(year as int) + rem == days,
                0 <= rem <= days <= i32::MAX,
                len == year_length(year as int),
                1970 <= year,
                365 * (year - 1970) <= days - rem,
            decreases rem,
        {
            proof {
                lemma_year_start_step(year as int);
            }
            rem = rem - len;
            year = year + 1;
            len = if is_leap_year(year) {
                366
            } else {
                365
            };
        }
    } else {
        while rem < 0
            invariant
                year_start(year as int) + rem == days,
                i32::MIN <= days <= rem < year_length(year as int),
                365 * (1970 - year) <= rem - days,
                year <= 1970,
            decreases year + 6000000,
        {
            year = year - 1;
            proof {
                lemma_year_start_step(year as int);
            }
            let len: i64 = if is_leap_year(year) {
                366
            } else {
                365
            };
            rem = rem + len;
        }
    }
    let offset: i64 = rem;
    let ghost ys = year_start(year as int);
    proof {
        lemma_months_fill_year(year as int);
    }
    // Find the month and the day within it.

    let mut month: i64 = 1;
    let mut mlen: i64 = get_days_in_month(year, 1);
    while rem >= mlen
        invariant
            1 <= month <= 12,
            mlen == month_length(year as int, month as int),
            0 <= rem,
            month_start(year as int, month as int) + rem == offset,
            0 <= offset < year_length(year as int),
            month_start(year as int, 13) == year_length(year as int),
            -6000000 <= year <= 6000000,
        decreases 12 - month,
    {
        if month == 12 {
            assert(month_start(year as int, 13) == month_start(year as int, 12) + mlen);
        }
        rem = rem - mlen;
        month = month + 1;
        mlen = get_days_in_month(year, month);
    }
    let day: i64 = rem + 1;
    assert(valid_date(year as int, month as int, day as int));
    assert(day_number(year as int, month as int, day as int) == days);
    proof {
        let t = date_of_day(days as int);
        let w = (year as int, month as int, day as int);
        assert(valid_date(w.0, w.1, w.2) && day_number(w.0, w.1, w.2) == days);
        lemma_date_unique(t.0, t.1, t.2, w.0, w.1, w.2);
    }
    // Move the month on, carrying into the next year.

    let mut new_month: i64 = month + months;
    let mut new_year: i64 = year;
    let mut new_year_start: i64 = days - offset;
    let ghost k = month - 1 + months;
    if new_month > 12 {
        proof {
            lemma_year_start_step(year as int);
            assert(k / 12 == 1 && k % 12 == k - 12) by (nonlinear_arith)
                requires
                    12 <= k < 24,
            ;
        }
        new_month = new_month - 12;
        new_year_start = new_year_start + if is_leap_year(year) {
            366
        } else {
            365
        };
        new_year = year + 1;
    } else {
        proof {
            assert(k / 12 == 0 && k % 12 == k) by (nonlinear_arith)
                requires
                    0 <= k < 12,
            ;
        }
    }
    let max_day: i64 = get_days_in_month(new_year, new_month);
    let new_day: i64 = if day > max_day {
        max_day
    } else {
        day
    };
    // Re-encode the new date as a day number.

    let mut before: i64 = 0;
    let mut m: i64 = 1;
    proof {
        lemma_months_fill_year(new_year as int);
        lemma_month_start_grows(new_year as int, new_month as int, 13);
        lemma_month_start_grows(new_year as int, 1, new_month as int);
    }
    while m < new_month
        invariant
            1 <= m <= new_month <= 12,
            before == month_start(new_year as int, m as int),
            0 <= month_start(new_year as int, new_month as int) <= 366,
            -6000000 <= new_year <= 6000000,
        decreases new_month - m,
    {
        proof {
            lemma_month_start_grows(new_year as int, m as int + 1, new_month as int);
        }
        before = before + get_days_in_month(new_year, m);
        m = m + 1;
    }
    let new_days: i64 = new_year_start + before + new_day - 1;
    proof {
        lemma_offset_in_year(year as int, month as int, day as int);
        lemma_offset_in_year(new_year as int, new_month as int, new_day as int);
        if new_year == year {
            lemma_month_start_grows(year as int, month as int + 1, new_month as int);
        }
        assert(new_days > days);
        assert(new_days * 86400 + secs > days * 86400 + secs) by (nonlinear_arith)
            requires
                new_days > days,
        ;
    }
    Ok(new_days * SECONDS_PER_DAY + secs)
}

} // verus!
