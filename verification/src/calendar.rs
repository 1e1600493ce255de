//! Days and dates of the Gregorian calendar, and time stamps made of them.
use vstd::prelude::*;

verus! {

/// Whether a year has a leap day.
pub open spec fn is_leap(year: int) -> bool {
    year % 4 == 0 && (year % 100 != 0 || year % 400 == 0)
}

/// The length of a year in days.
pub open spec fn year_len(year: int) -> int {
    if is_leap(year) {
        366
    } else {
        365
    }
}

/// The length of a month in days.
pub open spec fn month_len(year: int, month: int) -> int {
    if month == 2 {
        if is_leap(year) {
            29
        } else {
            28
        }
    } else if month == 4 || month == 6 || month == 9 || month == 11 {
        30
    } else {
        31
    }
}

/// Days from the start of the year zero to the start of a year.
pub open spec fn days_before_year(year: int) -> int
    decreases year,
{
    if year <= 0 {
        0
    } else {
        days_before_year(year - 1) + year_len(year - 1)
    }
}

/// Days from the start of a year to the start of a month.
pub open spec fn days_before_month(year: int, month: int) -> int
    decreases month,
{
    if month <= 1 {
        0
    } else {
        days_before_month(year, month - 1) + month_len(year, month - 1)
    }
}

/// A date.
#[derive(Clone, Copy, Debug, PartialEq, Eq, Structural)]
pub struct CivilDate {
    pub year: u64,
    pub month: u64,
    pub day: u64,
}

impl CivilDate {
    /// Whether the calendar has the date.
    pub open spec fn valid(self) -> bool {
        &&& 1 <= self.month <= 12
        &&& 1 <= self.day <= month_len(self.year as int, self.month as int)
    }

    /// Days from the first day of the year zero to the date.
    pub open spec fn day_number(self) -> int {
        days_before_year(self.year as int) + days_before_month(self.year as int, self.month as int)
            + self.day - 1
    }
}

/// Days from the first day of the year zero to the first of January 1970.
pub open spec fn epoch_day() -> int {
    719_528
}

proof fn days_before_year_closed(year: int)
    requires
        year >= 0,
    ensures
        days_before_year(year) == 365 * year + (year + 3) / 4 - (year + 99) / 100 + (year + 399)
            / 400,
    decreases year,
{
    if year > 0 {
        days_before_year_closed(year - 1);
    }
}

proof fn days_before_month_table(year: int, month: int)
    requires
        1 <= month <= 12,
    ensures
        days_before_month(year, month) == ({
            let leap: int = if is_leap(year) {
                1
            } else {
                0
            };
            if month == 1 {
                0
            } else if month == 2 {
                31
            } else if month == 3 {
                59 + leap
            } else if month == 4 {
                90 + leap
            } else if month == 5 {
                120 + leap
            } else if month == 6 {
                151 + leap
            } else if month == 7 {
                181 + leap
            } else if month == 8 {
                212 + leap
            } else if month == 9 {
                243 + leap
            } else if month == 10 {
                273 + leap
            } else if month == 11 {
                304 + leap
            } else {
                334 + leap
            }
        }),
    decreases month,
{
    if month > 1 {
        days_before_month_table(year, month - 1);
    }
}

/// The first of January 1970 is day zero of the clock.
pub proof fn epoch_is_day_zero()
    ensures
        (CivilDate { year: 1970, month: 1, day: 1 }).day_number() == epoch_day(),
{
    days_before_year_closed(1970);
}

proof fn year_of_era_right(doe: int, yoe: int)
    requires
        0 <= doe < 146_097,
        yoe == (doe - doe / 1460 + doe / 36_524 - doe / 146_096) / 365,
    ensures
        0 <= yoe <= 399,
        0 <= doe - (365 * yoe + yoe / 4 - yoe / 100) <= 365,
        doe - (365 * yoe + yoe / 4 - yoe / 100) == 365 ==> is_leap(yoe + 1),
{
    let c = doe / 36_524;
    let q = doe / 1460;
    assert(0 <= c <= 4);
    assert(0 <= q <= 100);
    assert(0 <= yoe <= 399);
}

/// The date of a day, counted from the first of January 1970.
pub fn civil_from_days(days: u64) -> (r: CivilDate)
    requires
        days <= 0x1_0000_0000_0000,
    ensures
        r.valid(),
        r.day_number() == days + epoch_day(),
        r.year <= days + 1970,
{
    let z: u64 = days + 719_468;
    let era: u64 = z / 146_097;
    let doe: u64 = z - era * 146_097;
    let yoe: u64 = (doe - doe / 1460 + doe / 36_524 - doe / 146_096) / 365;
    proof {
        year_of_era_right(doe as int, yoe as int);
    }
    let doy: u64 = doe - (365 * yoe + yoe / 4 - yoe / 100);
    let mp: u64 = (5 * doy + 2) / 153;
    let day: u64 = doy - (153 * mp + 2) / 5 + 1;
    let month: u64 = if mp < 10 {
        mp + 3
    } else {
        mp - 9
    };
    let year: u64 = yoe + era * 400 + if month <= 2 {
        1
    } else {
        0
    };
    let r = CivilDate { year, month, day };
    proof {
        date_of_march_year(era as int, yoe as int, doy as int, mp as int, r);
    }
    r
}

proof fn date_of_march_year(era: int, yoe: int, doy: int, mp: int, r: CivilDate)
    requires
        era >= 0,
        0 <= yoe <= 399,
        0 <= doy <= 365,
        doy == 365 ==> is_leap(yoe + 1),
        mp == (5 * doy + 2) / 153,
        r.day == doy - (153 * mp + 2) / 5 + 1,
        r.month == (if mp < 10 {
            mp + 3
        } else {
            mp - 9
        }),
        r.year == yoe + era * 400 + (if r.month <= 2 {
            1int
        } else {
            0int
        }),
    ensures
        r.valid(),
        r.day_number() == era * 146_097 + 365 * yoe + yoe / 4 - yoe / 100 + doy + 60,
{
    let y = r.year as int;
    let m = r.month as int;
    assert(mp == 0 || mp == 1 || mp == 2 || mp == 3 || mp == 4 || mp == 5 || mp == 6 || mp == 7
        || mp == 8 || mp == 9 || mp == 10 || mp == 11);
    let base = yoe + era * 400;
    assert(is_leap(base + 1) == is_leap(yoe + 1)) by {
        assert((base + 1) % 400 == (yoe + 1) % 400);
        assert((base + 1) % 100 == (yoe + 1) % 100);
        assert((base + 1) % 4 == (yoe + 1) % 4);
    }
    days_before_month_table(y, m);
    days_before_year_closed(y);
    march_year_start(era, yoe);
    if m <= 2 {
        days_before_year_closed(base);
        assert(days_before_year(y) == days_before_year(base) + year_len(base));
    }
    leap_shift(base);
}

proof fn leap_shift(base: int)
    ensures
        days_before_month(base, 3) == if is_leap(base) {
            60int
        } else {
            59int
        },
{
    days_before_month_table(base, 3);
}

proof fn march_year_start(era: int, yoe: int)
    requires
        era >= 0,
        0 <= yoe <= 399,
    ensures
        days_before_year(yoe + era * 400) + (if is_leap(yoe + era * 400) {
            60int
        } else {
            59int
        }) == era * 146_097 + 365 * yoe + yoe / 4 - yoe / 100 + 60,
{
    let base = yoe + era * 400;
    days_before_year_closed(base);
    assert((base + 3) / 4 == era * 100 + (yoe + 3) / 4);
    assert((base + 99) / 100 == era * 4 + (yoe + 99) / 100);
    assert((base + 399) / 400 == era + (yoe + 399) / 400);
    assert(is_leap(base) == is_leap(yoe)) by {
        assert(base % 400 == yoe % 400);
        assert(base % 100 == yoe % 100);
        assert(base % 4 == yoe % 4);
    }
}

/// Whether one date comes before another, by year, month and day.
pub open spec fn comes_before(a: CivilDate, b: CivilDate) -> bool {
    a.year < b.year || (a.year == b.year && (a.month < b.month || (a.month == b.month && a.day
        < b.day)))
}

proof fn months_grow(year: int, m: int, n: int)
    requires
        1 <= m < n <= 13,
    ensures
        days_before_month(year, m) + month_len(year, m) <= days_before_month(year, n),
    decreases n - m,
{
    if m + 1 < n {
        months_grow(year, m, n - 1);
        assert(days_before_month(year, n) == days_before_month(year, n - 1) + month_len(
            year,
            n - 1,
        ));
    }
}

proof fn years_grow(a: int, b: int)
    requires
        0 <= a < b,
    ensures
        days_before_year(a) + year_len(a) <= days_before_year(b),
    decreases b - a,
{
    if a + 1 < b {
        years_grow(a, b - 1);
    }
}

proof fn year_is_its_months(year: int)
    ensures
        days_before_month(year, 13) == year_len(year),
{
    days_before_month_table(year, 12);
}

/// Of two dates the earlier one has the smaller day number.
pub proof fn earlier_date_smaller_number(a: CivilDate, b: CivilDate)
    requires
        a.valid(),
        b.valid(),
        comes_before(a, b),
    ensures
        a.day_number() < b.day_number(),
{
    let (ya, yb) = (a.year as int, b.year as int);
    let (ma, mb) = (a.month as int, b.month as int);
    if ya < yb {
        years_grow(ya, yb);
        year_is_its_months(ya);
        months_grow(ya, ma, 13);
        days_before_month_table(yb, mb);
    } else if ma < mb {
        months_grow(ya, ma, mb);
    }
}

/// The date of a day, counted from the first of January 1970.
pub open spec fn date_of(days: int) -> CivilDate {
    choose|d: CivilDate| d.valid() && d.day_number() == days + epoch_day()
}

/// A day has one date.
pub proof fn date_of_is(d: CivilDate, days: int)
    requires
        d.valid(),
        d.day_number() == days + epoch_day(),
    ensures
        date_of(days) == d,
{
    let e = date_of(days);
    if comes_before(d, e) {
        earlier_date_smaller_number(d, e);
    } else if comes_before(e, d) {
        earlier_date_smaller_number(e, d);
    }
}

/// Every day has a date.
pub proof fn date_exists(days: int) -> (r: CivilDate)
    requires
        0 <= days <= 0x1_0000_0000_0000,
    ensures
        r.valid(),
        r.day_number() == days + epoch_day(),
        date_of(days) == r,
{
    let z = days + 719_468;
    let era = z / 146_097;
    let doe = z - era * 146_097;
    let yoe = (doe - doe / 1460 + doe / 36_524 - doe / 146_096) / 365;
    year_of_era_right(doe, yoe);
    let doy = doe - (365 * yoe + yoe / 4 - yoe / 100);
    let mp = (5 * doy + 2) / 153;
    let month = if mp < 10 {
        mp + 3
    } else {
        mp - 9
    };
    let year = yoe + era * 400 + if month <= 2 {
        1int
    } else {
        0int
    };
    let r = CivilDate {
        year: year as u64,
        month: month as u64,
        day: (doy - (153 * mp + 2) / 5 + 1) as u64,
    };
    date_of_march_year(era, yoe, doy, mp, r);
    date_of_is(r, days);
    r
}

/// Days before the year 10000 have a year of at most four digits.
pub proof fn year_within_four_digits(days: int)
    requires
        0 <= days < 2_932_897,
    ensures
        date_of(days).valid(),
        date_of(days).day_number() == days + epoch_day(),
        date_of(days).year <= 9999,
{
    let d = date_exists(days);
    if d.year >= 10_000 {
        days_before_year_closed(10_000);
        if d.year > 10_000 {
            years_grow(10_000, d.year as int);
        }
        days_before_month_table(d.year as int, d.month as int);
    }
}

} // verus!
