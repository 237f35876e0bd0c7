//! The date grid of one year: twelve months, each with every one of its days.

use vstd::prelude::*;
use crate::date::{
    days_before_month, days_in_month, days_in_year, lemma_months_fill_the_year, month_days, Date,
    MAX_YEAR, MIN_YEAR,
};

verus! {

/// The days of one month in ascending order.
pub open spec fn month_dates(year: i32, month: u32) -> Seq<Date> {
    Seq::new(
        month_days(year as int, month as int) as nat,
        |i: int| Date { year, month, day: (i + 1) as u32 },
    )
}

/// The twelve months of a year, January first.
pub open spec fn year_grid(year: i32) -> Seq<Seq<Date>> {
    Seq::new(12, |m: int| month_dates(year, (m + 1) as u32))
}

/// The number of days that the months of a grid hold together.
pub open spec fn grid_day_count(grid: Seq<Seq<Date>>) -> int
    decreases grid.len(),
{
    if grid.len() == 0 {
        0
    } else {
        grid_day_count(grid.drop_last()) + grid.last().len()
    }
}

/// The months of a grid as sequences of dates.
pub open spec fn grid_of(months: Seq<Vec<Date>>) -> Seq<Seq<Date>> {
    Seq::new(months.len(), |m: int| months[m]@)
}

/// The first `k` months of a year hold the days before month `k + 1`.
proof fn lemma_grid_prefix_count(year: i32, k: int)
    requires
        0 <= k <= 12,
    ensures
        grid_day_count(year_grid(year).take(k)) == days_before_month(year as int, k + 1),
    decreases k,
{
    if k > 0 {
        lemma_grid_prefix_count(year, k - 1);
        assert(year_grid(year).take(k).drop_last() == year_grid(year).take(k - 1));
        assert(year_grid(year).take(k).last() == month_dates(year, k as u32));
    }
}

/// The grid of a year holds 366 days where the year is divisible by 4 and
/// not by 100, or divisible by 400, and 365 days otherwise.
pub proof fn lemma_year_grid_day_count(year: i32)
    ensures
        grid_day_count(year_grid(year)) == days_in_year(year as int),
        grid_day_count(year_grid(year)) == 365 || grid_day_count(year_grid(year)) == 366,
        grid_day_count(year_grid(year)) == 366 <==> (year % 4 == 0 && (year % 100 != 0 || year % 400
            == 0)),
{
    lemma_grid_prefix_count(year, 12);
    lemma_months_fill_the_year(year as int);
    assert(year_grid(year).take(12) == year_grid(year));
}

/// Every day of the year stands in the grid, in its month and at the place
/// of its day number.
pub proof fn lemma_year_grid_holds_each_date(date: Date)
    requires
        date.valid(),
    ensures
        year_grid(date.year)[date.month - 1][date.day - 1] == date,
{
}

/// The grid holds no date twice, and only valid dates of its year.
pub proof fn lemma_year_grid_dates_distinct(year: i32, m1: int, i1: int, m2: int, i2: int)
    requires
        MIN_YEAR <= year <= MAX_YEAR,
        0 <= m1 < 12,
        0 <= m2 < 12,
        0 <= i1 < year_grid(year)[m1].len(),
        0 <= i2 < year_grid(year)[m2].len(),
    ensures
        year_grid(year)[m1][i1].valid(),
        year_grid(year)[m1][i1].year == year,
        year_grid(year)[m1][i1].month == m1 + 1,
        year_grid(year)[m1][i1].day == i1 + 1,
        year_grid(year)[m1][i1] == year_grid(year)[m2][i2] ==> m1 == m2 && i1 == i2,
{
}

/// The days of `month` in `year`, in ascending order.
pub fn build_month_dates(year: i32, month: u32) -> (r: Vec<Date>)
    requires
        MIN_YEAR <= year <= MAX_YEAR,
        1 <= month <= 12,
    ensures
        r@ == month_dates(year, month),
        forall|i: int| 0 <= i < r@.len() ==> (#[trigger] r@[i]).valid(),
{
    let num_days = days_in_month(year, month);
    let mut dates: Vec<Date> = Vec::new();
    let mut day: u32 = 0;
    while day < num_days
        invariant
            0 <= day <= num_days,
            num_days == month_days(year as int, month as int),
            dates@.len() == day,
            forall|i: int| 0 <= i < day ==> #[trigger] dates@[i] == (Date { year, month, day: (i + 1) as u32 }),
        decreases num_days - day,
    {
        day = day + 1;
        dates.push(Date { year, month, day });
    }
    assert(dates@ == month_dates(year, month));
    dates
}

/// The twelve months of `year`, each with every one of its days.
pub fn build_year_dates(year: i32) -> (r: Vec<Vec<Date>>)
    requires
        MIN_YEAR <= year <= MAX_YEAR,
    ensures
        r@.len() == 12,
        grid_of(r@) == year_grid(year),
        grid_day_count(grid_of(r@)) == days_in_year(year as int),
        forall|m: int, i: int|
            0 <= m < 12 && 0 <= i < r@[m]@.len() ==> (#[trigger] r@[m]@[i]).valid(),
{
    let mut months: Vec<Vec<Date>> = Vec::new();
    let mut month: u32 = 0;
    while month < 12
        invariant
            0 <= month <= 12,
            MIN_YEAR <= year <= MAX_YEAR,
            months@.len() == month,
            forall|m: int| 0 <= m < month ==> (#[trigger] months@[m])@ == month_dates(year, (m + 1) as u32),
        decreases 12 - month,
    {
        month = month + 1;
        months.push(build_month_dates(year, month));
    }
    proof {
        assert(grid_of(months@) == year_grid(year));
        lemma_year_grid_day_count(year);
    }
    months
}

} // verus!
