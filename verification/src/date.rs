//! Calendar dates of the proleptic Gregorian calendar, and the grid of one year.

use vstd::prelude::*;

verus! {

/// The first year for which the calendar backend can build a date.
pub const MIN_YEAR: i32 = -262143;

/// The last year for which the calendar backend can build a date.
pub const MAX_YEAR: i32 = 262142;

/// Whether `year` has a 29th of February.
pub open spec fn is_leap_year(year: int) -> bool {
    year % 4 == 0 && (year % 100 != 0 || year % 400 == 0)
}

/// The number of days of `month` (1 to 12) in `year`.
pub open spec fn month_days(year: int, month: int) -> int {
    if month == 2 {
        if is_leap_year(year) {
            29
        } else {
            28
        }
    } else if month == 4 || month == 6 || month == 9 || month == 11 {
        30
    } else {
        31
    }
}

/// The number of days of `year`.
pub open spec fn days_in_year(year: int) -> int {
    if is_leap_year(year) {
        366
    } else {
        365
    }
}

/// The number of days of `year` that lie before the first of `month`.
pub open spec fn days_before_month(year: int, month: int) -> int
    decreases month,
{
    if month <= 1 {
        0
    } else {
        days_before_month(year, month - 1) + month_days(year, month - 1)
    }
}

/// The position of a day in its year; the first of January is day 1.
pub open spec fn day_of_year(year: int, month: int, day: int) -> int {
    days_before_month(year, month) + day
}

/// The number of days between the first of January of year 1 and the first
/// of January of `year` (negative for earlier years).
pub open spec fn days_before_year(year: int) -> int {
    let p = year - 1;
    365 * p + p / 4 - p / 100 + p / 400
}

/// The day of the week as a number, 0 for Monday to 6 for Sunday. The first
/// of January of year 1 is a Monday.
pub open spec fn weekday_index(year: int, month: int, day: int) -> int {
    (days_before_year(year) + day_of_year(year, month, day) - 1) % 7
}

/// The number of ISO 8601 weeks of `year`: 53 where the year begins on a
/// Thursday, or is a leap year and begins on a Wednesday; otherwise 52.
pub open spec fn iso_weeks_in_year(year: int) -> int {
    let first = weekday_index(year, 1, 1);
    if first == 3 || (first == 2 && is_leap_year(year)) {
        53
    } else {
        52
    }
}

/// The ISO 8601 week number of a day: weeks begin on Monday and week 1 is
/// the week that holds the year's first Thursday.
pub open spec fn iso_week_number(year: int, month: int, day: int) -> int {
    let w = (day_of_year(year, month, day) - (weekday_index(year, month, day) + 1) + 10) / 7;
    if w < 1 {
        iso_weeks_in_year(year - 1)
    } else if w > iso_weeks_in_year(year) {
        1
    } else {
        w
    }
}

/// Whether year, month and day name a day of the calendar that the backend
/// can represent.
pub open spec fn valid_ymd(year: int, month: int, day: int) -> bool {
    &&& MIN_YEAR <= year <= MAX_YEAR
    &&& 1 <= month <= 12
    &&& 1 <= day <= month_days(year, month)
}

/// A day of the week.
#[derive(Clone, Copy, Debug, PartialEq, Eq, Structural)]
pub enum Weekday {
    Mon,
    Tue,
    Wed,
    Thu,
    Fri,
    Sat,
    Sun,
}

impl Weekday {
    /// The number of days since Monday.
    pub open spec fn index(self) -> int {
        match self {
            Weekday::Mon => 0,
            Weekday::Tue => 1,
            Weekday::Wed => 2,
            Weekday::Thu => 3,
            Weekday::Fri => 4,
            Weekday::Sat => 5,
            Weekday::Sun => 6,
        }
    }

    /// The number of days since Monday.
    pub fn num_days_from_monday(self) -> (r: u32)
        ensures
            r == self.index(),
    {
        match self {
            Weekday::Mon => 0,
            Weekday::Tue => 1,
            Weekday::Wed => 2,
            Weekday::Thu => 3,
            Weekday::Fri => 4,
            Weekday::Sat => 5,
            Weekday::Sun => 6,
        }
    }
}

/// A calendar date as year, month and day.
#[derive(Clone, Copy, Debug, PartialEq, Eq, Structural)]
pub struct Date {
    pub year: i32,
    pub month: u32,
    pub day: u32,
}

/// chrono's `Datelike::num_days_in_month` on the first day of the month,
/// built with `NaiveDate::from_ymd_opt`. The contract claims that it gives
/// the length of the month in the proleptic Gregorian calendar: 30 for
/// April, June, September and November, 28 for February, 29 where the year
/// is divisible by 4 and not by 100, or divisible by 400, and 31 otherwise.
/// The year and month asked of the caller are those for which the first day
/// can be built.
#[verifier::external_body]
fn month_length(year: i32, month: u32) -> (r: u32)
    requires
        MIN_YEAR <= year <= MAX_YEAR,
        1 <= month <= 12,
    ensures
        r == month_days(year as int, month as int),
{
    let first = chrono::NaiveDate::from_ymd_opt(year, month, 1).unwrap();
    u32::from(chrono::Datelike::num_days_in_month(&first))
}

/// chrono's `Datelike::weekday` on the `NaiveDate` of the given day. The
/// contract claims that it gives the weekday of the proleptic Gregorian
/// calendar, in which the first of January of year 1 is a Monday and each
/// day's weekday follows that of the day before: the number of days since
/// that Monday, modulo 7, counted from Monday.
#[verifier::external_body]
fn weekday_of(year: i32, month: u32, day: u32) -> (r: Weekday)
    requires
        valid_ymd(year as int, month as int, day as int),
    ensures
        r.index() == weekday_index(year as int, month as int, day as int),
{
    let date = chrono::NaiveDate::from_ymd_opt(year, month, day).unwrap();
    match chrono::Datelike::weekday(&date) {
        chrono::Weekday::Mon => Weekday::Mon,
        chrono::Weekday::Tue => Weekday::Tue,
        chrono::Weekday::Wed => Weekday::Wed,
        chrono::Weekday::Thu => Weekday::Thu,
        chrono::Weekday::Fri => Weekday::Fri,
        chrono::Weekday::Sat => Weekday::Sat,
        chrono::Weekday::Sun => Weekday::Sun,
    }
}

/// chrono's `Datelike::iso_week` on the `NaiveDate` of the given day, and
/// `IsoWeek::week` on what it gives. The contract claims that the number is
/// the ISO 8601 week number: from the day's position in the year and its
/// weekday, the count of the week to which the day's Thursday belongs; in
/// the last week of the year before where that count is 0, and in week 1 of
/// the next year where it is beyond the year's 52 or 53 weeks.
#[verifier::external_body]
fn iso_week_of(year: i32, month: u32, day: u32) -> (r: u32)
    requires
        valid_ymd(year as int, month as int, day as int),
    ensures
        r == iso_week_number(year as int, month as int, day as int),
{
    let date = chrono::NaiveDate::from_ymd_opt(year, month, day).unwrap();
    chrono::Datelike::iso_week(&date).week()
}

/// The number of days of `month` in `year`.
pub fn days_in_month(year: i32, month: u32) -> (r: u32)
    requires
        MIN_YEAR <= year <= MAX_YEAR,
        1 <= month <= 12,
    ensures
        r == month_days(year as int, month as int),
        28 <= r <= 31,
{
    month_length(year, month)
}

impl Date {
    /// Whether this is a day of the calendar.
    pub open spec fn valid(self) -> bool {
        valid_ymd(self.year as int, self.month as int, self.day as int)
    }

    /// The date of the given day, or `None` if there is no such day: a month
    /// outside 1 to 12, a day outside the month, or a year outside
    /// `MIN_YEAR` to `MAX_YEAR`.
    pub fn from_ymd_opt(year: i32, month: u32, day: u32) -> (r: Option<Date>)
        ensures
            r.is_some() <==> valid_ymd(year as int, month as int, day as int),
            r.is_some() ==> r.unwrap() == (Date { year, month, day }),
    {
        if year < MIN_YEAR || year > MAX_YEAR || month < 1 || month > 12 || day < 1 {
            return None;
        }
        if day > month_length(year, month) {
            return None;
        }
        Some(Date { year, month, day })
    }

    /// Whether this is a day of the calendar.
    pub fn is_valid(&self) -> (r: bool)
        ensures
            r == self.valid(),
    {
        Date::from_ymd_opt(self.year, self.month, self.day).is_some()
    }

    /// The day of the week.
    pub fn weekday(&self) -> (r: Weekday)
        requires
            self.valid(),
        ensures
            r.index() == weekday_index(self.year as int, self.month as int, self.day as int),
    {
        weekday_of(self.year, self.month, self.day)
    }

    /// The ISO 8601 week number, 1 to 53.
    pub fn iso_week(&self) -> (r: u32)
        requires
            self.valid(),
        ensures
            r == iso_week_number(self.year as int, self.month as int, self.day as int),
            1 <= r <= 53,
    {
        proof {
            lemma_iso_week_range(self.year as int, self.month as int, self.day as int);
        }
        iso_week_of(self.year, self.month, self.day)
    }
}

/// The length of every month lies between 28 and 31.
pub proof fn lemma_days_before_month_bounds(year: int, month: int)
    requires
        1 <= month <= 13,
    ensures
        28 * (month - 1) <= days_before_month(year, month) <= 31 * (month - 1),
    decreases month,
{
    if month > 1 {
        lemma_days_before_month_bounds(year, month - 1);
    }
}

/// The twelve months of a year hold 365 days, or 366 in a leap year.
pub proof fn lemma_months_fill_the_year(year: int)
    ensures
        days_before_month(year, 13) == days_in_year(year),
{
    reveal_with_fuel(days_before_month, 14);
}

/// An ISO week number lies between 1 and 53.
pub proof fn lemma_iso_week_range(year: int, month: int, day: int)
    requires
        1 <= month <= 12,
        1 <= day <= month_days(year, month),
    ensures
        1 <= iso_week_number(year, month, day) <= 53,
{
    lemma_days_before_month_bounds(year, month);
}

/// The day after the given day, as year, month and day.
pub open spec fn next_day(year: int, month: int, day: int) -> (int, int, int) {
    if day < month_days(year, month) {
        (year, month, day + 1)
    } else if month < 12 {
        (year, month + 1, 1)
    } else {
        (year + 1, 1, 1)
    }
}

/// A year begins as many days after the one before as that one has days.
pub proof fn lemma_days_before_next_year(year: int)
    ensures
        days_before_year(year + 1) == days_before_year(year) + days_in_year(year),
{
}

/// The first of January of year 1 is a Monday.
pub proof fn lemma_first_day_is_monday()
    ensures
        weekday_index(1, 1, 1) == Weekday::Mon.index(),
{
    reveal_with_fuel(days_before_month, 2);
}

/// The weekday of the next day is the next weekday; after Sunday comes
/// Monday.
pub proof fn lemma_weekday_advances(year: int, month: int, day: int)
    requires
        1 <= month <= 12,
        1 <= day <= month_days(year, month),
    ensures
        ({
            let (y, m, d) = next_day(year, month, day);
            weekday_index(y, m, d) == (weekday_index(year, month, day) + 1) % 7
        }),
{
    lemma_days_before_next_year(year);
    lemma_months_fill_the_year(year);
    if month == 12 {
        assert(days_before_month(year, 13) == days_before_month(year, 12) + 31);
    }
}

/// The first Thursday of a year lies in ISO week 1.
pub proof fn lemma_first_thursday_in_week_one(year: int, day: int)
    requires
        1 <= day <= 7,
        weekday_index(year, 1, day) == 3,
    ensures
        iso_week_number(year, 1, day) == 1,
{
}

/// The week number that belongs to a raw week count: a count below 1 means
/// the last week of the year before, a count beyond the year's weeks means
/// week 1 of the next year.
pub open spec fn week_in_range(raw: int, weeks_before: int, weeks: int) -> int {
    if raw < 1 {
        weeks_before
    } else if raw > weeks {
        1
    } else {
        raw
    }
}

/// Inside a year, the week number steps exactly from Sunday to Monday.
proof fn lemma_week_step_within_year(ord: int, wd: int, weeks_before: int, weeks: int)
    requires
        1 <= ord <= 365,
        0 <= wd <= 6,
        52 <= weeks_before <= 53,
        52 <= weeks <= 53,
    ensures
        (week_in_range((ord - (wd + 1) + 10) / 7, weeks_before, weeks) == week_in_range(
            (ord + 1 - ((wd + 1) % 7 + 1) + 10) / 7,
            weeks_before,
            weeks,
        )) <==> (wd + 1) % 7 != 0,
{
    if wd == 6 {
        assert((ord + 1 - 1 + 10) / 7 == (ord - 7 + 10) / 7 + 1);
    } else {
        assert((wd + 1) % 7 == wd + 1);
    }
}

/// From the last day of a year to the first of the next, the week number
/// steps exactly where the new year begins on a Monday.
proof fn lemma_week_step_over_new_year(first: int, leap: bool, weeks_before: int, weeks_after: int)
    requires
        0 <= first <= 6,
        52 <= weeks_before <= 53,
        52 <= weeks_after <= 53,
    ensures
        ({
            let len: int = if leap {
                366
            } else {
                365
            };
            let last = (first + len - 1) % 7;
            let next = (first + len) % 7;
            let weeks: int = if first == 3 || (first == 2 && leap) {
                53
            } else {
                52
            };
            (week_in_range((len - (last + 1) + 10) / 7, weeks_before, weeks) == week_in_range(
                (1 - (next + 1) + 10) / 7,
                weeks,
                weeks_after,
            )) <==> next != 0
        }),
{
}

/// The position in the year of the day after a day that is not the last of
/// its year, and the bound on the position of such a day.
proof fn lemma_next_day_of_year(year: int, month: int, day: int)
    requires
        1 <= month <= 12,
        1 <= day <= month_days(year, month),
        !(month == 12 && day == 31),
    ensures
        ({
            let (y, m, d) = next_day(year, month, day);
            &&& y == year
            &&& day_of_year(y, m, d) == day_of_year(year, month, day) + 1
            &&& 1 <= day_of_year(year, month, day) <= 365
        }),
{
    lemma_days_before_month_bounds(year, month);
    lemma_months_fill_the_year(year);
    assert(days_before_month(year, month + 1) == days_before_month(year, month) + month_days(
        year,
        month,
    ));
    if month < 12 {
        lemma_days_before_month_bounds(year, month + 1);
    }
}

/// Adding to a number adds to its rest modulo 7.
proof fn lemma_rest_shifts(base: int, shift: int)
    ensures
        (base + shift) % 7 == (base % 7 + shift) % 7,
{
}

/// The last day of a year is as many days after its first as the year has
/// days but one, and the next year begins the day after.
proof fn lemma_year_end_weekdays(year: int)
    ensures
        day_of_year(year, 12, 31) == days_in_year(year),
        weekday_index(year, 12, 31) == (weekday_index(year, 1, 1) + days_in_year(year) - 1) % 7,
        weekday_index(year + 1, 1, 1) == (weekday_index(year, 1, 1) + days_in_year(year)) % 7,
        0 <= weekday_index(year, 1, 1) <= 6,
{
    let base = days_before_year(year);
    let len = days_in_year(year);
    assert(day_of_year(year, 12, 31) == len) by {
        lemma_months_fill_the_year(year);
        assert(days_before_month(year, 13) == days_before_month(year, 12) + 31);
    }
    assert(days_before_year(year + 1) == base + len) by {
        lemma_days_before_next_year(year);
    }
    assert(day_of_year(year, 1, 1) == 1 && day_of_year(year + 1, 1, 1) == 1) by {
        reveal_with_fuel(days_before_month, 2);
    }
    lemma_rest_shifts(base, len - 1);
    lemma_rest_shifts(base, len);
}

/// ISO weeks begin on Monday: the week number of the next day is another
/// one exactly where the next day is a Monday.
pub proof fn lemma_week_changes_on_monday(year: int, month: int, day: int)
    requires
        1 <= month <= 12,
        1 <= day <= month_days(year, month),
    ensures
        ({
            let (y, m, d) = next_day(year, month, day);
            (iso_week_number(y, m, d) == iso_week_number(year, month, day)) <==> weekday_index(
                y,
                m,
                d,
            ) != 0
        }),
{
    let (y, m, d) = next_day(year, month, day);
    let ord = day_of_year(year, month, day);
    let wd = weekday_index(year, month, day);
    let ord1 = day_of_year(y, m, d);
    let wd1 = weekday_index(y, m, d);
    let before = iso_weeks_in_year(year - 1);
    let this = iso_weeks_in_year(year);
    let after = iso_weeks_in_year(year + 1);
    assert(wd1 == (wd + 1) % 7) by {
        lemma_weekday_advances(year, month, day);
    }
    assert(0 <= wd <= 6);
    assert(iso_week_number(year, month, day) == week_in_range(
        (ord - (wd + 1) + 10) / 7,
        before,
        this,
    ));
    if month == 12 && day == 31 {
        assert(y == year + 1 && m == 1 && d == 1);
        assert(iso_week_number(y, m, d) == week_in_range((ord1 - (wd1 + 1) + 10) / 7, this, after));
        assert(ord1 == 1 && ord == days_in_year(year) && wd == (weekday_index(year, 1, 1)
            + days_in_year(year) - 1) % 7 && wd1 == (weekday_index(year, 1, 1) + days_in_year(year))
            % 7 && 0 <= weekday_index(year, 1, 1) <= 6) by {
            lemma_year_end_weekdays(year);
        }
        lemma_week_step_over_new_year(weekday_index(year, 1, 1), is_leap_year(year), before, after);
    } else {
        assert(y == year && ord1 == ord + 1 && 1 <= ord <= 365) by {
            lemma_next_day_of_year(year, month, day);
        }
        assert(iso_week_number(y, m, d) == week_in_range((ord1 - (wd1 + 1) + 10) / 7, before, this));
        lemma_week_step_within_year(ord, wd, before, this);
    }
}

} // verus!