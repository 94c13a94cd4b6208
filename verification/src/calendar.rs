//! The Gregorian calendar: dates, and their distance in days from 1 January 1970.
use vstd::prelude::*;

verus! {

/// Whether a year has a 29 February.
pub open spec fn is_leap(year: int) -> bool {
    year % 4 == 0 && (year % 100 != 0 || year % 400 == 0)
}

/// The leap years before a year, counted from year 1 on.
pub open spec fn leaps_before(year: int) -> int {
    (year - 1) / 4 - (year - 1) / 100 + (year - 1) / 400
}

/// The days from 1 January 1970 to the start of a year.
pub open spec fn year_start(year: int) -> int {
    365 * (year - 1970) + leaps_before(year) - leaps_before(1970)
}

/// The days of a month.
pub open spec fn month_len(year: int, month: int) -> int {
    if month == 2 {
        if is_leap(year) {
            29
        } else {
            28
        }
    } else if month == 4 || month == 6 || month == 9 || month == 11 {
        30
    } else {
        31
    }
}

/// The days from the start of a year to the start of a month.
pub open spec fn month_start(year: int, month: int) -> int
    decreases month,
{
    if month <= 1 {
        0
    } else {
        month_start(year, month - 1) + month_len(year, month - 1)
    }
}

/// The days from 1 January 1970 to a date.
pub open spec fn day_number(year: int, month: int, day: int) -> int {
    year_start(year) + month_start(year, month) + day - 1
}

/// Whether there is such a date.
pub open spec fn is_date(year: int, month: int, day: int) -> bool {
    1 <= month <= 12 && 1 <= day <= month_len(year, month)
}

pub proof fn lemma_month_starts(year: int)
    ensures
        month_start(year, 1) == 0,
        month_start(year, 2) == 31,
        month_start(year, 3) == 59 + if is_leap(year) {
            1int
        } else {
            0
        },
        month_start(year, 4) == month_start(year, 3) + 31,
        month_start(year, 5) == month_start(year, 3) + 61,
        month_start(year, 6) == month_start(year, 3) + 92,
        month_start(year, 7) == month_start(year, 3) + 122,
        month_start(year, 8) == month_start(year, 3) + 153,
        month_start(year, 9) == month_start(year, 3) + 184,
        month_start(year, 10) == month_start(year, 3) + 214,
        month_start(year, 11) == month_start(year, 3) + 245,
        month_start(year, 12) == month_start(year, 3) + 275,
        month_start(year, 13) == month_start(year, 3) + 306,
{
    reveal_with_fuel(month_start, 14);
}

proof fn lemma_quotient_step(n: int, d: int)
    requires
        d == 4 || d == 100 || d == 400,
    ensures
        n / d == (n - 1) / d + if n % d == 0 {
            1int
        } else {
            0
        },
{
    if d == 4 {
        assert(n / 4 == (n - 1) / 4 + if n % 4 == 0 {
            1int
        } else {
            0
        });
    } else if d == 100 {
        assert(n / 100 == (n - 1) / 100 + if n % 100 == 0 {
            1int
        } else {
            0
        });
    } else {
        assert(n / 400 == (n - 1) / 400 + if n % 400 == 0 {
            1int
        } else {
            0
        });
    }
}

proof fn lemma_leaps_step(year: int)
    ensures
        leaps_before(year + 1) == leaps_before(year) + if is_leap(year) {
            1int
        } else {
            0
        },
{
    lemma_quotient_step(year, 4);
    lemma_quotient_step(year, 100);
    lemma_quotient_step(year, 400);
    assert(year % 400 == 0 ==> year % 100 == 0);
    assert(year % 100 == 0 ==> year % 4 == 0);
}

proof fn lemma_year_len(year: int)
    ensures
        year_start(year + 1) == year_start(year) + if is_leap(year) {
            366int
        } else {
            365
        },
{
    lemma_leaps_step(year);
}

/// The days from 1 March of year 0 to 1 March of a year.
spec fn march_start(year: int) -> int {
    365 * year + year / 4 - year / 100 + year / 400
}

proof fn lemma_march_start(year: int)
    ensures
        march_start(year) - 719_468 == year_start(year) + month_start(year, 3),
{
    lemma_month_starts(year);
    lemma_leaps_step(year);
    assert(leaps_before(1970) == 477);
}

proof fn lemma_march_split(era: int, yoe: int)
    requires
        0 <= yoe < 400,
    ensures
        march_start(400 * era + yoe) == 146_097 * era + 365 * yoe + yoe / 4 - yoe / 100,
{
    assert((400 * era + yoe) / 4 == 100 * era + yoe / 4);
    assert((400 * era + yoe) / 100 == 4 * era + yoe / 100);
    assert((400 * era + yoe) / 400 == era);
}

/// The whole quotient of a number, rounded down.
pub(crate) fn floor_div(n: i64, d: i64) -> (r: i64)
    requires
        0 < d <= 1_000_000,
        n >= i64::MIN + d,
    ensures
        r == n as int / d as int,
{
    if n >= 0 {
        n / d
    } else {
        let up: i64 = (d - 1 - n) / d;
        proof {
            let q = up as int;
            let di = d as int;
            let m = di - 1 - n;
            vstd::arithmetic::div_mod::lemma_fundamental_div_mod(m, di);
            vstd::arithmetic::div_mod::lemma_mod_bound(m, di);
            assert(di * q == q * di) by (nonlinear_arith);
            assert((-q) * di == -(q * di)) by (nonlinear_arith);
            vstd::arithmetic::div_mod::lemma_fundamental_div_mod_converse(
                n as int,
                di,
                -q,
                n - (-q) * di,
            );
        }
        -up
    }
}

/// The days from 1 January 1970 to a date; a day past the end of its month counts on into
/// the next one.
pub fn days_from_civil(year: i64, month: u32, day: u32) -> (r: i64)
    requires
        1 <= month <= 12,
        1 <= day <= 31,
        -25_000_000_000_000_000 <= year <= 25_000_000_000_000_000,
    ensures
        r == day_number(year as int, month as int, day as int),
{
    let y: i64 = if month <= 2 {
        year - 1
    } else {
        year
    };
    let era: i64 = floor_div(y, 400);
    let yoe: i64 = y - era * 400;
    let shifted: i64 = if month > 2 {
        month as i64 - 3
    } else {
        month as i64 + 9
    };
    let doy: i64 = (153 * shifted + 2) / 5 + day as i64 - 1;
    let doe: i64 = yoe * 365 + yoe / 4 - yoe / 100 + doy;
    proof {
        lemma_march_split(era as int, yoe as int);
        lemma_march_start(y as int);
        lemma_month_starts(y as int);
        lemma_month_starts(year as int);
        lemma_year_len(y as int);
    }
    era * 146_097 + doe - 719_468
}

proof fn lemma_year_of_era(doe: int, yoe: int)
    requires
        0 <= doe < 146_097,
        yoe == (doe - doe / 1460 + doe / 36_524 - doe / 146_096) / 365,
    ensures
        0 <= yoe < 400,
        0 <= doe - (365 * yoe + yoe / 4 - yoe / 100) <= 365,
        doe - (365 * yoe + yoe / 4 - yoe / 100) == 365 ==> is_leap(yoe + 1),
{
}

/// The date on a day of a year that is counted from 1 March on.
proof fn lemma_day_of_march_year(y: int, doy: int, mp: int, day: int, month: int, year: int)
    requires
        0 <= doy <= 365,
        doy == 365 ==> is_leap(y + 1),
        mp == (5 * doy + 2) / 153,
        day == doy - (153 * mp + 2) / 5 + 1,
        month == if mp < 10 {
            mp + 3
        } else {
            mp - 9
        },
        year == if month <= 2 {
            y + 1
        } else {
            y
        },
    ensures
        is_date(year, month, day),
        day_number(year, month, day) == march_start(y) - 719_468 + doy,
{
    lemma_march_start(y);
    lemma_month_starts(y);
    lemma_month_starts(y + 1);
    lemma_year_len(y);
    assert(0 <= mp <= 11);
    if mp == 0 {
        assert(month == 3 && day == doy + 1);
    } else if mp == 1 {
        assert(month == 4 && day == doy - 30);
    } else if mp == 2 {
        assert(month == 5 && day == doy - 60);
    } else if mp == 3 {
        assert(month == 6 && day == doy - 91);
    } else if mp == 4 {
        assert(month == 7 && day == doy - 121);
    } else if mp == 5 {
        assert(month == 8 && day == doy - 152);
    } else if mp == 6 {
        assert(month == 9 && day == doy - 183);
    } else if mp == 7 {
        assert(month == 10 && day == doy - 213);
    } else if mp == 8 {
        assert(month == 11 && day == doy - 244);
    } else if mp == 9 {
        assert(month == 12 && day == doy - 274);
    } else if mp == 10 {
        assert(month == 1 && day == doy - 305);
    } else {
        assert(month == 2 && day == doy - 336);
    }
}

proof fn lemma_leap_in_era(era: int, yoe: int)
    ensures
        is_leap(yoe + era * 400 + 1) == is_leap(yoe + 1),
{
    assert((yoe + era * 400 + 1) % 4 == (yoe + 1) % 4);
    assert((yoe + era * 400 + 1) % 100 == (yoe + 1) % 100);
    assert((yoe + era * 400 + 1) % 400 == (yoe + 1) % 400);
}

/// The date that lies so many days after 1 January 1970.
pub fn civil_from_days(days_since_unix_epoch: i64) -> (r: (i64, u64, u64))
    requires
        days_since_unix_epoch <= i64::MAX - 719_468,
    ensures
        is_date(r.0 as int, r.1 as int, r.2 as int),
        day_number(r.0 as int, r.1 as int, r.2 as int) == days_since_unix_epoch,
{
    let z: i64 = days_since_unix_epoch + 719_468;
    let era: i64 = floor_div(z, 146_097);
    let doe: i64 = z - era * 146_097;
    let yoe: i64 = (doe - doe / 1460 + doe / 36_524 - doe / 146_096) / 365;
    proof {
        lemma_year_of_era(doe as int, yoe as int);
    }
    let y: i64 = yoe + era * 400;
    let doy: i64 = doe - (365 * yoe + yoe / 4 - yoe / 100);
    let mp: i64 = (5 * doy + 2) / 153;
    let day: i64 = doy - (153 * mp + 2) / 5 + 1;
    let month: i64 = if mp < 10 {
        mp + 3
    } else {
        mp - 9
    };
    let year: i64 = if month <= 2 {
        y + 1
    } else {
        y
    };
    proof {
        lemma_march_split(era as int, yoe as int);
        lemma_leap_in_era(era as int, yoe as int);
        lemma_day_of_march_year(
            y as int,
            doy as int,
            mp as int,
            day as int,
            month as int,
            year as int,
        );
    }
    (year, month as u64, day as u64)
}

/// No two dates have the same distance from 1 January 1970: a date is found by it.
pub proof fn law_day_number_tells_the_date(y1: int, m1: int, d1: int, y2: int, m2: int, d2: int)
    requires
        is_date(y1, m1, d1),
        is_date(y2, m2, d2),
        day_number(y1, m1, d1) == day_number(y2, m2, d2),
    ensures
        y1 == y2 && m1 == m2 && d1 == d2,
{
    lemma_date_in_year(y1, m1, d1);
    lemma_date_in_year(y2, m2, d2);
    if y1 < y2 {
        lemma_years_grow(y1 + 1, y2);
    } else if y2 < y1 {
        lemma_years_grow(y2 + 1, y1);
    } else {
        if m1 < m2 {
            lemma_months_grow(y1, m1 + 1, m2);
        } else if m2 < m1 {
            lemma_months_grow(y1, m2 + 1, m1);
        }
    }
}

proof fn lemma_years_grow(a: int, b: int)
    requires
        a <= b,
    ensures
        year_start(a) <= year_start(b),
    decreases b - a,
{
    if a < b {
        lemma_years_grow(a, b - 1);
        lemma_year_len(b - 1);
    }
}

proof fn lemma_months_grow(y: int, a: int, b: int)
    requires
        1 <= a <= b,
    ensures
        month_start(y, a) <= month_start(y, b),
    decreases b - a,
{
    if a < b {
        lemma_months_grow(y, a, b - 1);
    }
}

proof fn lemma_date_in_year(y: int, m: int, d: int)
    requires
        is_date(y, m, d),
    ensures
        year_start(y) <= day_number(y, m, d) < year_start(y + 1),
{
    lemma_month_starts(y);
    lemma_year_len(y);
    lemma_months_grow(y, 1, m);
    lemma_months_grow(y, m + 1, 13);
}

/// The date after a date: the next day of the month, or the first of the next month, or the
/// first of the next year.
pub open spec fn next_date(date: (int, int, int)) -> (int, int, int) {
    let (y, m, d) = date;
    if d < month_len(y, m) {
        (y, m, d + 1)
    } else if m < 12 {
        (y, m + 1, 1)
    } else {
        (y + 1, 1, 1)
    }
}

/// Day 0 is 1 January 1970, and the day after a day is that of the next date.
pub proof fn law_days_follow_the_calendar(y: int, m: int, d: int)
    requires
        is_date(y, m, d),
    ensures
        day_number(1970, 1, 1) == 0,
        is_date(next_date((y, m, d)).0, next_date((y, m, d)).1, next_date((y, m, d)).2),
        ({
            let n = next_date((y, m, d));
            day_number(n.0, n.1, n.2) == day_number(y, m, d) + 1
        }),
{
    lemma_month_starts(y);
    lemma_month_starts(y + 1);
    lemma_year_len(y);
    lemma_month_starts(1970);
}

} // verus!
