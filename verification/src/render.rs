//! Rendering: the presentation model written out as a page through the
//! bundled templates.

use std::collections::HashMap;
use vstd::prelude::*;
use vstd::string::StringExecFns;
use crate::model::{
    CalendarError, CalendarErrorView, CalendarView, DayData, DayView, HalfData, HalfView,
    MonthData, MonthView, TemplateData,
};
use crate::template::{
    bundled_fault, check_templates, is_bundled, template_fault, templates_compile, DAY_TEMPLATE,
    HALF_TEMPLATE, MONTH_TEMPLATE, TEMPLATE_SRC,
};
use crate::text::{decimal, decimal_string};

verus! {

/// What the template engine writes for a template's source and a list of
/// named values.
pub uninterp spec fn rendered_text(
    source: Seq<char>,
    names: Seq<Seq<char>>,
    values: Seq<Seq<char>>,
) -> Seq<char>;

/// The texts of a list of strings.
pub open spec fn texts(strings: Seq<String>) -> Seq<Seq<char>> {
    Seq::new(strings.len(), |i: int| strings[i]@)
}

/// ramhorns' `Template::render` on the template compiled from `source`,
/// with a map from each name to the value at the same place as its content.
/// The contract claims that the text depends on the source, the names and
/// the values alone, and calls it `rendered_text`. The caller gives one of
/// the bundled templates, which compiles, and as many values as names.
#[verifier::external_body]
fn render_fields(source: &str, names: &Vec<String>, values: &Vec<String>) -> (r: String)
    requires
        is_bundled(source@),
        template_fault(source@).is_none(),
        names@.len() == values@.len(),
    ensures
        r@ == rendered_text(source@, texts(names@), texts(values@)),
{
    let template = ramhorns::Template::new(source).unwrap();
    let content: HashMap<&str, &str> =
        names.iter().map(String::as_str).zip(values.iter().map(String::as_str)).collect();
    template.render(&content)
}

/// The text that stands for a flag: empty where the flag is off.
pub open spec fn flag_text(flag: bool) -> Seq<char> {
    if flag {
        "true"@
    } else {
        Seq::empty()
    }
}

/// The names under which the template of a day finds its values.
pub open spec fn day_field_names() -> Seq<Seq<char>> {
    seq![
        "day_number"@,
        "weekday"@,
        "week_number"@,
        "is_week_start"@,
        "is_weekend"@,
        "is_month_start"@,
        "is_last_day"@,
        "is_holiday"@,
        "holiday_name"@,
    ]
}

/// The values that the template of a day is given, in the order of their
/// names.
pub open spec fn day_field_values(day: DayView) -> Seq<Seq<char>> {
    seq![
        decimal(day.day_number),
        day.weekday,
        decimal(day.week_number),
        flag_text(day.is_week_start),
        flag_text(day.is_weekend),
        flag_text(day.is_month_start),
        flag_text(day.is_last_day),
        flag_text(day.is_holiday),
        day.holiday_name,
    ]
}

/// The markup of one day.
pub open spec fn day_markup(day: DayView) -> Seq<char> {
    rendered_text(DAY_TEMPLATE@, day_field_names(), day_field_values(day))
}

/// The markup of the first `n` days of a month, one after the other.
pub open spec fn days_markup(days: Seq<DayView>, n: int) -> Seq<char>
    decreases n,
{
    if n <= 0 {
        Seq::empty()
    } else {
        days_markup(days, n - 1) + day_markup(days[n - 1])
    }
}

/// The markup of one month: its name, and the markup of its days.
pub open spec fn month_markup(month: MonthView) -> Seq<char> {
    rendered_text(
        MONTH_TEMPLATE@,
        seq!["name"@, "days"@],
        seq![month.name, days_markup(month.days, month.days.len() as int)],
    )
}

/// The markup of the first `n` months of a half, one after the other.
pub open spec fn months_markup(months: Seq<MonthView>, n: int) -> Seq<char>
    decreases n,
{
    if n <= 0 {
        Seq::empty()
    } else {
        months_markup(months, n - 1) + month_markup(months[n - 1])
    }
}

/// The markup of one half of the year.
pub open spec fn half_markup(half: HalfView) -> Seq<char> {
    rendered_text(
        HALF_TEMPLATE@,
        seq!["months"@],
        seq![months_markup(half.months, half.months.len() as int)],
    )
}

/// The markup of the first `n` halves, one after the other.
pub open spec fn halves_markup(halves: Seq<HalfView>, n: int) -> Seq<char>
    decreases n,
{
    if n <= 0 {
        Seq::empty()
    } else {
        halves_markup(halves, n - 1) + half_markup(halves[n - 1])
    }
}

/// The page of a calendar: its year, its theme, and the markup of its
/// halves.
pub open spec fn page_markup(calendar: CalendarView) -> Seq<char> {
    rendered_text(
        TEMPLATE_SRC@,
        seq!["year"@, "theme_css"@, "halves"@],
        seq![
            decimal(calendar.year),
            calendar.theme_css,
            halves_markup(calendar.halves, calendar.halves.len() as int),
        ],
    )
}

/// The text that stands for a flag: `true`, or nothing where it is off.
pub fn flag_string(flag: bool) -> (r: String)
    ensures
        r@ == flag_text(flag),
{
    if flag {
        String::from_str("true")
    } else {
        String::new()
    }
}

/// Writes one day through the template of a day.
pub fn render_day(day: &DayData) -> (r: String)
    requires
        templates_compile(),
    ensures
        r@ == day_markup(day@),
{
    let mut names: Vec<String> = Vec::new();
    names.push(String::from_str("day_number"));
    names.push(String::from_str("weekday"));
    names.push(String::from_str("week_number"));
    names.push(String::from_str("is_week_start"));
    names.push(String::from_str("is_weekend"));
    names.push(String::from_str("is_month_start"));
    names.push(String::from_str("is_last_day"));
    names.push(String::from_str("is_holiday"));
    names.push(String::from_str("holiday_name"));
    let mut values: Vec<String> = Vec::new();
    values.push(decimal_string(day.day_number as i64));
    values.push(day.weekday.clone());
    values.push(decimal_string(day.week_number as i64));
    values.push(flag_string(day.is_week_start));
    values.push(flag_string(day.is_weekend));
    values.push(flag_string(day.is_month_start));
    values.push(flag_string(day.is_last_day));
    values.push(flag_string(day.is_holiday));
    values.push(day.holiday_name.clone());
    assert(texts(names@) == day_field_names());
    assert(texts(values@) == day_field_values(day@));
    render_fields(DAY_TEMPLATE, &names, &values)
}

/// Writes one month through the template of a month.
pub fn render_month(month: &MonthData) -> (r: String)
    requires
        templates_compile(),
    ensures
        r@ == month_markup(month@),
{
    let mut days = String::new();
    let mut i: usize = 0;
    while i < month.days.len()
        invariant
            0 <= i <= month.days.len(),
            templates_compile(),
            days@ == days_markup(month@.days, i as int),
        decreases month.days.len() - i,
    {
        let day = render_day(&month.days[i]);
        days.append(day.as_str());
        i = i + 1;
    }
    let mut names: Vec<String> = Vec::new();
    names.push(String::from_str("name"));
    names.push(String::from_str("days"));
    let mut values: Vec<String> = Vec::new();
    values.push(month.name.clone());
    values.push(days);
    assert(texts(names@) == seq!["name"@, "days"@]);
    assert(texts(values@) == seq![
        month@.name,
        days_markup(month@.days, month@.days.len() as int),
    ]);
    render_fields(MONTH_TEMPLATE, &names, &values)
}

/// Writes one half of the year through the template of a half.
pub fn render_half(half: &HalfData) -> (r: String)
    requires
        templates_compile(),
    ensures
        r@ == half_markup(half@),
{
    let mut months = String::new();
    let mut i: usize = 0;
    while i < half.months.len()
        invariant
            0 <= i <= half.months.len(),
            templates_compile(),
            months@ == months_markup(half@.months, i as int),
        decreases half.months.len() - i,
    {
        let month = render_month(&half.months[i]);
        months.append(month.as_str());
        i = i + 1;
    }
    let mut names: Vec<String> = Vec::new();
    names.push(String::from_str("months"));
    let mut values: Vec<String> = Vec::new();
    values.push(months);
    assert(texts(names@) == seq!["months"@]);
    assert(texts(values@) == seq![months_markup(half@.months, half@.months.len() as int)]);
    render_fields(HALF_TEMPLATE, &names, &values)
}

/// Writes the page of a calendar through the bundled templates.
pub fn render_page(data: &TemplateData) -> (r: String)
    requires
        templates_compile(),
    ensures
        r@ == page_markup(data@),
{
    let mut halves = String::new();
    let mut i: usize = 0;
    while i < data.halves.len()
        invariant
            0 <= i <= data.halves.len(),
            templates_compile(),
            halves@ == halves_markup(data@.halves, i as int),
        decreases data.halves.len() - i,
    {
        let half = render_half(&data.halves[i]);
        halves.append(half.as_str());
        i = i + 1;
    }
    let mut names: Vec<String> = Vec::new();
    names.push(String::from_str("year"));
    names.push(String::from_str("theme_css"));
    names.push(String::from_str("halves"));
    let mut values: Vec<String> = Vec::new();
    values.push(decimal_string(data.year as i64));
    values.push(data.theme_css.clone());
    values.push(halves);
    assert(texts(names@) == seq!["year"@, "theme_css"@, "halves"@]);
    assert(texts(values@) == seq![
        decimal(data@.year),
        data@.theme_css,
        halves_markup(data@.halves, data@.halves.len() as int),
    ]);
    render_fields(TEMPLATE_SRC, &names, &values)
}

/// Writes the page of a calendar, after checking that the bundled
/// templates compile.
pub fn render_calendar(data: &TemplateData) -> (r: Result<String, CalendarError>)
    ensures
        match bundled_fault() {
            Some(text) => r.is_err() && r.unwrap_err()@ == CalendarErrorView::Template(text),
            None => r.is_ok() && r.unwrap()@ == page_markup(data@),
        },
{
    match check_templates() {
        Err(e) => Err(e),
        Ok(_) => Ok(render_page(data)),
    }
}

} // verus!
