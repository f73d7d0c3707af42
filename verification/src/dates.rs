//! A plain proleptic-Gregorian calendar model.
//!
//! Dates are held as year, month and day with an explicit validity
//! invariant; all arithmetic on them is checked and returns `None`
//! instead of leaving the supported year range 0..=9999.

use vstd::prelude::*;

verus! {

/// The first year a [`Date`] can hold.
pub const MIN_YEAR: i32 = 0;

/// The last year a [`Date`] can hold.
pub const MAX_YEAR: i32 = 9999;

/// A day of the week.
#[derive(Clone, Copy, Debug, PartialEq, Eq, Structural)]
pub enum Weekday {
    Mon,
    Tue,
    Wed,
    Thu,
    Fri,
    Sat,
    Sun,
}

/// Days between Monday and the given weekday, counting forward from Monday.
pub open spec fn spec_days_from_monday(w: Weekday) -> int {
    match w {
        Weekday::Mon => 0,
        Weekday::Tue => 1,
        Weekday::Wed => 2,
        Weekday::Thu => 3,
        Weekday::Fri => 4,
        Weekday::Sat => 5,
        Weekday::Sun => 6,
    }
}

/// Days between Sunday and the given weekday, counting forward from Sunday.
pub open spec fn spec_days_from_sunday(w: Weekday) -> int {
    match w {
        Weekday::Sun => 0,
        Weekday::Mon => 1,
        Weekday::Tue => 2,
        Weekday::Wed => 3,
        Weekday::Thu => 4,
        Weekday::Fri => 5,
        Weekday::Sat => 6,
    }
}

impl Weekday {
    /// Position of the weekday in a week that starts on Monday.
    pub fn num_days_from_monday(&self) -> (r: u32)
        ensures
            r == spec_days_from_monday(*self),
    {
        match self {
            Weekday::Mon => 0,
            Weekday::Tue => 1,
            Weekday::Wed => 2,
            Weekday::Thu => 3,
            Weekday::Fri => 4,
            Weekday::Sat => 5,
            Weekday::Sun => 6,
        }
    }

    /// Position of the weekday in a week that starts on Sunday.
    pub fn num_days_from_sunday(&self) -> (r: u32)
        ensures
            r == spec_days_from_sunday(*self),
    {
        match self {
            Weekday::Sun => 0,
            Weekday::Mon => 1,
            Weekday::Tue => 2,
            Weekday::Wed => 3,
            Weekday::Thu => 4,
            Weekday::Fri => 5,
            Weekday::Sat => 6,
        }
    }
}

/// A calendar date in the proleptic Gregorian calendar.
#[derive(Clone, Copy, Debug, PartialEq, Eq, Structural)]
pub struct Date {
    pub year: i32,
    pub month: u32,
    pub day: u32,
}

/// Gregorian leap-year rule.
pub open spec fn is_leap_year(y: int) -> bool {
    (y % 4 == 0 && y % 100 != 0) || y % 400 == 0
}

/// Number of days in the given month of the given year.
pub open spec fn days_in_month(y: int, m: int) -> int {
    if m == 2 {
        if is_leap_year(y) {
            29
        } else {
            28
        }
    } else if m == 4 || m == 6 || m == 9 || m == 11 {
        30
    } else {
        31
    }
}

/// Whether year, month and day form a real calendar date in the supported range.
pub open spec fn valid_ymd(y: int, m: int, d: int) -> bool {
    &&& MIN_YEAR <= y <= MAX_YEAR
    &&& 1 <= m <= 12
    &&& 1 <= d <= days_in_month(y, m)
}

/// The date for year, month and day, or `None` when they do not form one.
pub open spec fn spec_from_ymd(y: int, m: int, d: int) -> Option<Date> {
    if valid_ymd(y, m, d) {
        Some(Date { year: y as i32, month: m as u32, day: d as u32 })
    } else {
        None
    }
}

/// The day after the given date, or `None` past the supported range.
pub open spec fn spec_next_day(d: Date) -> Option<Date> {
    if d.day < days_in_month(d.year as int, d.month as int) {
        Some(Date { year: d.year, month: d.month, day: (d.day + 1) as u32 })
    } else if d.month < 12 {
        Some(Date { year: d.year, month: (d.month + 1) as u32, day: 1 })
    } else if d.year < MAX_YEAR {
        Some(Date { year: (d.year + 1) as i32, month: 1, day: 1 })
    } else {
        None
    }
}

/// The day before the given date, or `None` past the supported range.
pub open spec fn spec_prev_day(d: Date) -> Option<Date> {
    if d.day > 1 {
        Some(Date { year: d.year, month: d.month, day: (d.day - 1) as u32 })
    } else if d.month > 1 {
        Some(
            Date {
                year: d.year,
                month: (d.month - 1) as u32,
                day: days_in_month(d.year as int, d.month - 1) as u32,
            },
        )
    } else if d.year > MIN_YEAR {
        Some(
            Date {
                year: (d.year - 1) as i32,
                month: 12,
                day: days_in_month(d.year - 1, 12) as u32,
            },
        )
    } else {
        None
    }
}

/// The date `n` days after `d` (before, for negative `n`), or `None`
/// when the walk leaves the supported range.
pub open spec fn spec_plus_days(d: Date, n: int) -> Option<Date>
    decreases
            if n >= 0 {
                n
            } else {
                -n
            },
{
    if n == 0 {
        Some(d)
    } else if n > 0 {
        match spec_next_day(d) {
            None => None,
            Some(d2) => spec_plus_days(d2, n - 1),
        }
    } else {
        match spec_prev_day(d) {
            None => None,
            Some(d2) => spec_plus_days(d2, n + 1),
        }
    }
}

impl Date {
    /// The date invariant: a real day in the supported year range.
    pub open spec fn wf(self) -> bool {
        valid_ymd(self.year as int, self.month as int, self.day as int)
    }

    /// Builds a date, returning `None` for combinations that are not
    /// real calendar days or whose year is outside the supported range.
    pub fn from_ymd_opt(year: i32, month: u32, day: u32) -> (r: Option<Date>)
        ensures
            r == spec_from_ymd(year as int, month as int, day as int),
            r matches Some(d) ==> d.wf(),
    {
        if MIN_YEAR <= year && year <= MAX_YEAR && 1 <= month && month <= 12 && 1 <= day && day
            <= days_in_month_of(year, month) {
            Some(Date { year, month, day })
        } else {
            None
        }
    }

    /// The day after this date.
    pub fn next_day(&self) -> (r: Option<Date>)
        requires
            self.wf(),
        ensures
            r == spec_next_day(*self),
            r matches Some(d) ==> d.wf(),
    {
        if self.day < days_in_month_of(self.year, self.month) {
            Some(Date { year: self.year, month: self.month, day: self.day + 1 })
        } else if self.month < 12 {
            Some(Date { year: self.year, month: self.month + 1, day: 1 })
        } else if self.year < MAX_YEAR {
            Some(Date { year: self.year + 1, month: 1, day: 1 })
        } else {
            None
        }
    }

    /// The day before this date.
    pub fn prev_day(&self) -> (r: Option<Date>)
        requires
            self.wf(),
        ensures
            r == spec_prev_day(*self),
            r matches Some(d) ==> d.wf(),
    {
        if self.day > 1 {
            Some(Date { year: self.year, month: self.month, day: self.day - 1 })
        } else if self.month > 1 {
            Some(
                Date {
                    year: self.year,
                    month: self.month - 1,
                    day: days_in_month_of(self.year, self.month - 1),
                },
            )
        } else if self.year > MIN_YEAR {
            Some(Date { year: self.year - 1, month: 12, day: days_in_month_of(self.year - 1, 12) })
        } else {
            None
        }
    }

    /// Walks `n` days forward (backward for negative `n`); `None` when
    /// the result would leave the supported range.
    pub fn plus_days(&self, n: i64) -> (r: Option<Date>)
        requires
            self.wf(),
        ensures
            r == spec_plus_days(*self, n as int),
            r matches Some(d) ==> d.wf(),
    {
        let mut cur: Date = *self;
        if n >= 0 {
            let mut k: i64 = n;
            while k > 0
                invariant
                    0 <= k <= n,
                    cur.wf(),
                    spec_plus_days(*self, n as int) == spec_plus_days(cur, k as int),
                decreases k,
            {
                match cur.next_day() {
                    None => {
                        return None;
                    },
                    Some(d2) => {
                        cur = d2;
                    },
                }
                k = k - 1;
            }
            Some(cur)
        } else {
            let mut k: i64 = n;
            while k < 0
                invariant
                    n <= k <= 0,
                    cur.wf(),
                    spec_plus_days(*self, n as int) == spec_plus_days(cur, k as int),
                decreases -k,
            {
                match cur.prev_day() {
                    None => {
                        return None;
                    },
                    Some(d2) => {
                        cur = d2;
                    },
                }
                k = k + 1;
            }
            Some(cur)
        }
    }
}

/// Days in all years before year `y`, counting from year 0.
pub open spec fn days_before_year(y: int) -> int
    decreases y,
{
    if y <= 0 {
        0
    } else {
        days_before_year(y - 1) + if is_leap_year(y - 1) {
            366int
        } else {
            365int
        }
    }
}

/// Days in the months of year `y` before month `m`.
pub open spec fn days_before_month(y: int, m: int) -> int
    decreases m,
{
    if m <= 1 {
        0
    } else {
        days_before_month(y, m - 1) + days_in_month(y, m - 1)
    }
}

/// Position of the date in a day count that starts at the first day of year 0.
pub open spec fn day_index(d: Date) -> int {
    days_before_year(d.year as int) + days_before_month(d.year as int, d.month as int) + d.day - 1
}

/// The weekday of the day with the given position; day 0, the first
/// day of year 0, falls on a Saturday.
pub open spec fn weekday_from_index(n: int) -> Weekday {
    let r = n % 7;
    if r == 0 {
        Weekday::Sat
    } else if r == 1 {
        Weekday::Sun
    } else if r == 2 {
        Weekday::Mon
    } else if r == 3 {
        Weekday::Tue
    } else if r == 4 {
        Weekday::Wed
    } else if r == 5 {
        Weekday::Thu
    } else {
        Weekday::Fri
    }
}

/// The weekday a date falls on.
pub open spec fn spec_weekday(d: Date) -> Weekday {
    weekday_from_index(day_index(d))
}

/// Strict chronological order on dates.
pub open spec fn spec_date_before(a: Date, b: Date) -> bool {
    ||| a.year < b.year
    ||| (a.year == b.year && a.month < b.month)
    ||| (a.year == b.year && a.month == b.month && a.day < b.day)
}

/// The date `n` whole months after `d` with the day of the month kept,
/// or `None` when the day does not exist in the target month or the
/// target month leaves the supported range.
pub open spec fn spec_plus_months(d: Date, n: int) -> Option<Date> {
    let total = d.year * 12 + d.month - 1 + n;
    if total < 0 || total >= 120000 {
        None
    } else {
        let ny = total / 12;
        let nm = total % 12 + 1;
        if d.day <= days_in_month(ny, nm) {
            Some(Date { year: ny as i32, month: nm as u32, day: d.day })
        } else {
            None
        }
    }
}

/// The same month and day one year later, with the day clamped to the
/// length of the target month.
pub open spec fn spec_add_year_clamped(d: Date) -> Option<Date> {
    if d.year >= MAX_YEAR {
        None
    } else {
        let dim = days_in_month(d.year + 1, d.month as int);
        Some(
            Date {
                year: (d.year + 1) as i32,
                month: d.month,
                day: if d.day <= dim {
                    d.day
                } else {
                    dim as u32
                },
            },
        )
    }
}

/// The day count of a year is at most 366 days per year.
pub proof fn lemma_days_before_year_bound(y: int)
    requires
        0 <= y,
    ensures
        0 <= days_before_year(y) <= 366 * y,
    decreases y,
{
    if y > 0 {
        lemma_days_before_year_bound(y - 1);
    }
}

/// The day count of the months before `m` is at most 31 days per month.
pub proof fn lemma_days_before_month_bound(y: int, m: int)
    requires
        1 <= m,
    ensures
        0 <= days_before_month(y, m) <= 31 * (m - 1),
    decreases m,
{
    if m > 1 {
        lemma_days_before_month_bound(y, m - 1);
    }
}

impl Date {
    /// Whether this date falls strictly before the other.
    pub fn is_before(&self, other: &Date) -> (r: bool)
        ensures
            r == spec_date_before(*self, *other),
    {
        self.year < other.year || (self.year == other.year && (self.month < other.month || (
        self.month == other.month && self.day < other.day)))
    }

    /// The weekday this date falls on.
    pub fn weekday(&self) -> (w: Weekday)
        requires
            self.wf(),
        ensures
            w == spec_weekday(*self),
    {
        let mut acc: u64 = 0;
        let mut y: i32 = 0;
        while y < self.year
            invariant
                0 <= y <= self.year <= MAX_YEAR,
                acc == days_before_year(y as int),
                acc <= 366 * y,
            decreases self.year - y,
        {
            let add: u64 = if is_leap(y) {
                366
            } else {
                365
            };
            acc = acc + add;
            y = y + 1;
        }
        let mut m: u32 = 1;
        while m < self.month
            invariant
                1 <= m <= self.month <= 12,
                self.wf(),
                y == self.year,
                acc == days_before_year(self.year as int) + days_before_month(
                    self.year as int,
                    m as int,
                ),
                acc <= 366 * 9999 + 31 * (m - 1),
            decreases self.month - m,
        {
            proof {
                lemma_days_before_year_bound(self.year as int);
            }
            acc = acc + (days_in_month_of(self.year, m) as u64);
            m = m + 1;
        }
        proof {
            lemma_days_before_year_bound(self.year as int);
            lemma_days_before_month_bound(self.year as int, self.month as int);
        }
        acc = acc + ((self.day - 1) as u64);
        let r = acc % 7;
        proof {
            assert(acc as int == day_index(*self));
        }
        if r == 0 {
            Weekday::Sat
        } else if r == 1 {
            Weekday::Sun
        } else if r == 2 {
            Weekday::Mon
        } else if r == 3 {
            Weekday::Tue
        } else if r == 4 {
            Weekday::Wed
        } else if r == 5 {
            Weekday::Thu
        } else {
            Weekday::Fri
        }
    }

    /// Moves `n` whole months, keeping the day of the month; `None`
    /// when the day does not exist there or the range is left.
    pub fn plus_months(&self, n: i32) -> (r: Option<Date>)
        requires
            self.wf(),
        ensures
            r == spec_plus_months(*self, n as int),
            r matches Some(x) ==> x.wf(),
    {
        let total: i64 = (self.year as i64) * 12 + (self.month as i64) - 1 + (n as i64);
        if total < 0 || total >= 120000 {
            return None;
        }
        let ny = (total / 12) as i32;
        let nm = (total % 12 + 1) as u32;
        if self.day <= days_in_month_of(ny, nm) {
            Some(Date { year: ny, month: nm, day: self.day })
        } else {
            None
        }
    }

    /// The same month and day one year later, the day clamped to the
    /// length of the target month.
    pub fn add_year_clamped(&self) -> (r: Option<Date>)
        requires
            self.wf(),
        ensures
            r == spec_add_year_clamped(*self),
            r matches Some(x) ==> x.wf(),
    {
        if self.year >= MAX_YEAR {
            return None;
        }
        let dim = days_in_month_of(self.year + 1, self.month);
        Some(
            Date {
                year: self.year + 1,
                month: self.month,
                day: if self.day <= dim {
                    self.day
                } else {
                    dim
                },
            },
        )
    }
}

/// Leap-year test for a non-negative year.
pub fn is_leap(year: i32) -> (r: bool)
    requires
        year >= 0,
    ensures
        r == is_leap_year(year as int),
{
    (year % 4 == 0 && year % 100 != 0) || year % 400 == 0
}

/// Number of days in the given month.
pub fn days_in_month_of(year: i32, month: u32) -> (r: u32)
    requires
        year >= 0,
        1 <= month <= 12,
    ensures
        r == days_in_month(year as int, month as int),
{
    if month == 2 {
        if is_leap(year) {
            29
        } else {
            28
        }
    } else if month == 4 || month == 6 || month == 9 || month == 11 {
        30
    } else {
        31
    }
}

} // verus!
