//! The presentation model of a calendar: what a template is given to render.

use vstd::prelude::*;
use vstd::string::StringExecFns;
use crate::date::{
    iso_week_number, month_days, valid_ymd, weekday_index, Date, Weekday, MAX_YEAR, MIN_YEAR,
};
use crate::grid::{build_year_dates, grid_of, year_grid};
use crate::locale::{
    locale_known, localized_month_name, localized_weekday_name, normalized_locale, Locale,
};
use crate::special::{
    entries_on, holiday_name_on, is_holiday_on, joined, lemma_same_days_same_holiday, names_of,
    same_special_days, SpecialDay, SpecialDayIndex,
};
use crate::render::{page_markup, render_calendar};
use crate::template::bundled_fault;
use crate::text::{capitalize_first, capitalized, decimal, first_chars, prefix_chars, push_decimal};

verus! {

/// What a calendar is made from.
#[derive(Clone, Debug, PartialEq, Eq)]
pub struct CalendarParams {
    pub year: i32,
    pub locale: String,
    pub day_name_characters: usize,
    pub theme_css: String,
    pub special_days: Vec<SpecialDay>,
}

/// Why no calendar was made.
#[derive(Debug, PartialEq, Eq)]
pub enum CalendarError {
    InvalidYear(i32),
    InvalidLocale(String),
    Template(String),
}

/// The mathematical content of a `CalendarError`.
pub enum CalendarErrorView {
    InvalidYear(int),
    InvalidLocale(Seq<char>),
    Template(Seq<char>),
}

impl View for CalendarError {
    type V = CalendarErrorView;

    open spec fn view(&self) -> CalendarErrorView {
        match self {
            CalendarError::InvalidYear(year) => CalendarErrorView::InvalidYear(*year as int),
            CalendarError::InvalidLocale(code) => CalendarErrorView::InvalidLocale(code@),
            CalendarError::Template(reason) => CalendarErrorView::Template(reason@),
        }
    }
}

impl CalendarError {
    /// What the error says to a reader.
    pub open spec fn message_text(self) -> Seq<char> {
        match self {
            CalendarError::InvalidYear(year) => "year must be between 1 and 9999, got "@ + decimal(
                year as int,
            ),
            CalendarError::InvalidLocale(code) => "unknown locale '"@ + code@
                + "'. Use a locale code like en-GB, sv-SE, de-DE."@,
            CalendarError::Template(reason) => "invalid template: "@ + reason@,
        }
    }

    /// What the error says to a reader.
    pub fn message(&self) -> (r: String)
        ensures
            r@ == self.message_text(),
    {
        match self {
            CalendarError::InvalidYear(year) => {
                let mut text = String::from_str("year must be between 1 and 9999, got ");
                push_decimal(&mut text, *year as i64);
                text
            },
            CalendarError::InvalidLocale(code) => {
                let mut text = String::from_str("unknown locale '");
                text.append(code.as_str());
                text.append("'. Use a locale code like en-GB, sv-SE, de-DE.");
                text
            },
            CalendarError::Template(reason) => {
                let mut text = String::from_str("invalid template: ");
                text.append(reason.as_str());
                text
            },
        }
    }
}

/// One day as it is shown.
#[derive(Debug, PartialEq, Eq)]
pub struct DayData {
    pub day_number: u32,
    pub weekday: String,
    pub week_number: u32,
    pub is_week_start: bool,
    pub is_weekend: bool,
    pub is_month_start: bool,
    pub is_last_day: bool,
    pub is_holiday: bool,
    pub holiday_name: String,
}

/// One month as it is shown: its name and its days.
#[derive(Debug, PartialEq, Eq)]
pub struct MonthData {
    pub name: String,
    pub days: Vec<DayData>,
}

/// Six months that share a column block of the page.
#[derive(Debug, PartialEq, Eq)]
pub struct HalfData {
    pub months: Vec<MonthData>,
}

/// The whole calendar as it is shown.
#[derive(Debug, PartialEq, Eq)]
pub struct TemplateData {
    pub year: i32,
    pub halves: Vec<HalfData>,
    pub theme_css: String,
}

/// The mathematical content of a `DayData`.
pub struct DayView {
    pub day_number: int,
    pub weekday: Seq<char>,
    pub week_number: int,
    pub is_week_start: bool,
    pub is_weekend: bool,
    pub is_month_start: bool,
    pub is_last_day: bool,
    pub is_holiday: bool,
    pub holiday_name: Seq<char>,
}

/// The mathematical content of a `MonthData`.
pub struct MonthView {
    pub name: Seq<char>,
    pub days: Seq<DayView>,
}

/// The mathematical content of a `HalfData`.
pub struct HalfView {
    pub months: Seq<MonthView>,
}

/// The mathematical content of a `TemplateData`.
pub struct CalendarView {
    pub year: int,
    pub halves: Seq<HalfView>,
    pub theme_css: Seq<char>,
}

impl View for DayData {
    type V = DayView;

    open spec fn view(&self) -> DayView {
        DayView {
            day_number: self.day_number as int,
            weekday: self.weekday@,
            week_number: self.week_number as int,
            is_week_start: self.is_week_start,
            is_weekend: self.is_weekend,
            is_month_start: self.is_month_start,
            is_last_day: self.is_last_day,
            is_holiday: self.is_holiday,
            holiday_name: self.holiday_name@,
        }
    }
}

impl View for MonthData {
    type V = MonthView;

    open spec fn view(&self) -> MonthView {
        MonthView { name: self.name@, days: Seq::new(self.days@.len(), |i: int| self.days@[i]@) }
    }
}

impl View for HalfData {
    type V = HalfView;

    open spec fn view(&self) -> HalfView {
        HalfView { months: Seq::new(self.months@.len(), |i: int| self.months@[i]@) }
    }
}

impl View for TemplateData {
    type V = CalendarView;

    open spec fn view(&self) -> CalendarView {
        CalendarView {
            year: self.year as int,
            halves: Seq::new(self.halves@.len(), |i: int| self.halves@[i]@),
            theme_css: self.theme_css@,
        }
    }
}

/// How `date` is shown: its number in the month, the first `chars`
/// characters of its weekday's name in the locale `code`, capitalised, its
/// ISO week, its flags, and the names of its special days.
pub open spec fn day_view(days: Seq<SpecialDay>, code: Seq<char>, chars: nat, date: Date) -> DayView {
    let weekday = weekday_index(date.year as int, date.month as int, date.day as int);
    DayView {
        day_number: date.day as int,
        weekday: capitalized(
            prefix_chars(
                localized_weekday_name(code, date.year as int, date.month as int, date.day as int),
                chars,
            ),
        ),
        week_number: iso_week_number(date.year as int, date.month as int, date.day as int),
        is_week_start: weekday == 0,
        is_weekend: weekday == 5 || weekday == 6,
        is_month_start: date.day == 1,
        is_last_day: date.month == 12 && date.day == 31,
        is_holiday: is_holiday_on(days, date),
        holiday_name: holiday_name_on(days, date),
    }
}

/// How a month is shown: its capitalised name in the locale `code`, and its
/// dates one by one.
pub open spec fn month_view(
    days: Seq<SpecialDay>,
    code: Seq<char>,
    chars: nat,
    year: i32,
    month: int,
    dates: Seq<Date>,
) -> MonthView {
    MonthView {
        name: capitalized(localized_month_name(code, year as int, month)),
        days: Seq::new(dates.len(), |i: int| day_view(days, code, chars, dates[i])),
    }
}

/// How six months are shown: the first half of the year for `half` 0, the
/// second for `half` 1.
pub open spec fn half_view(
    days: Seq<SpecialDay>,
    code: Seq<char>,
    chars: nat,
    year: i32,
    half: int,
    grid: Seq<Seq<Date>>,
) -> HalfView {
    HalfView {
        months: Seq::new(
            6,
            |i: int| month_view(days, code, chars, year, half * 6 + i + 1, grid[half * 6 + i]),
        ),
    }
}

/// How the twelve months of `grid` are shown, in two halves of six.
pub open spec fn template_view(
    year: i32,
    grid: Seq<Seq<Date>>,
    code: Seq<char>,
    chars: nat,
    days: Seq<SpecialDay>,
    theme_css: Seq<char>,
) -> CalendarView {
    CalendarView {
        year: year as int,
        halves: Seq::new(2, |h: int| half_view(days, code, chars, year, h, grid)),
        theme_css,
    }
}

/// The calendar that `params` ask for.
pub open spec fn calendar_view(params: CalendarParams) -> CalendarView {
    template_view(
        params.year,
        year_grid(params.year),
        normalized_locale(params.locale@),
        params.day_name_characters as nat,
        params.special_days@,
        params.theme_css@,
    )
}

/// Whether `year` is a year for which a calendar is made.
pub open spec fn year_in_range(year: int) -> bool {
    1 <= year <= 9999
}

/// The content of what `generate_calendar` gives.
pub open spec fn outcome_view(r: Result<String, CalendarError>) -> Result<
    Seq<char>,
    CalendarErrorView,
> {
    match r {
        Ok(html) => Ok(html@),
        Err(e) => Err(e@),
    }
}

/// The content of what `assemble_calendar` gives.
pub open spec fn model_view(r: Result<TemplateData, CalendarError>) -> Result<
    CalendarView,
    CalendarErrorView,
> {
    match r {
        Ok(data) => Ok(data@),
        Err(e) => Err(e@),
    }
}

/// The presentation model that `params` give: none for a year outside 1 to
/// 9999; after that, none for a locale that the backend does not know;
/// otherwise the calendar that they ask for.
pub open spec fn expected_model(params: CalendarParams) -> Result<CalendarView, CalendarErrorView> {
    if !year_in_range(params.year as int) {
        Err(CalendarErrorView::InvalidYear(params.year as int))
    } else if !locale_known(normalized_locale(params.locale@)) {
        Err(CalendarErrorView::InvalidLocale(params.locale@))
    } else {
        Ok(calendar_view(params))
    }
}

/// What `params` give: no page for a year outside 1 to 9999; after that,
/// none for a locale that the backend does not know; after that, none where
/// a bundled template does not compile; otherwise the page of the calendar
/// that they ask for.
pub open spec fn expected_outcome(params: CalendarParams) -> Result<Seq<char>, CalendarErrorView> {
    if !year_in_range(params.year as int) {
        Err(CalendarErrorView::InvalidYear(params.year as int))
    } else if !locale_known(normalized_locale(params.locale@)) {
        Err(CalendarErrorView::InvalidLocale(params.locale@))
    } else {
        match bundled_fault() {
            Some(text) => Err(CalendarErrorView::Template(text)),
            None => Ok(page_markup(calendar_view(params))),
        }
    }
}

/// In every month of a calendar the days are numbered from 1 to the length
/// of the month in that year, one after the other.
pub proof fn lemma_days_numbered_in_order(params: CalendarParams, m: int, i: int)
    requires
        0 <= m < 12,
        0 <= i < month_days(params.year as int, m + 1),
    ensures
        calendar_view(params).halves.len() == 2,
        calendar_view(params).halves[m / 6].months.len() == 6,
        calendar_view(params).halves[m / 6].months[m % 6].days.len() == month_days(
            params.year as int,
            m + 1,
        ),
        calendar_view(params).halves[m / 6].months[m % 6].days[i].day_number == i + 1,
{
}

/// A day begins a week exactly on a Monday, is a weekend day exactly on a
/// Saturday or Sunday, begins a month exactly where its number is 1, and is
/// the last day exactly on the 31st of December.
pub proof fn lemma_day_flags(days: Seq<SpecialDay>, code: Seq<char>, chars: nat, date: Date)
    ensures
        day_view(days, code, chars, date).is_week_start <==> weekday_index(
            date.year as int,
            date.month as int,
            date.day as int,
        ) == Weekday::Mon.index(),
        day_view(days, code, chars, date).is_weekend <==> (weekday_index(
            date.year as int,
            date.month as int,
            date.day as int,
        ) == Weekday::Sat.index() || weekday_index(
            date.year as int,
            date.month as int,
            date.day as int,
        ) == Weekday::Sun.index()),
        day_view(days, code, chars, date).is_month_start <==> day_view(
            days,
            code,
            chars,
            date,
        ).day_number == 1,
        day_view(days, code, chars, date).is_last_day <==> (date.month == 12 && date.day == 31),
{
}

/// A day is a holiday exactly where one of the special days on its date is
/// one. Its holiday name is the names of the special days on its date, in
/// input order, joined by a comma and a space, and is empty where the date
/// has no special day.
pub proof fn lemma_day_holiday(days: Seq<SpecialDay>, code: Seq<char>, chars: nat, date: Date)
    ensures
        day_view(days, code, chars, date).is_holiday <==> exists|j: int|
            0 <= j < entries_on(days, date).len() && (#[trigger] entries_on(days, date)[j]).is_holiday,
        day_view(days, code, chars, date).holiday_name == joined(
            names_of(entries_on(days, date)),
            seq![',', ' '],
        ),
        entries_on(days, date).len() == 0 ==> day_view(days, code, chars, date).holiday_name.len()
            == 0,
{
}

/// Whether two sets of parameters say the same: the same year, locale,
/// number of characters and theme, and special days that say the same.
pub open spec fn same_params(a: CalendarParams, b: CalendarParams) -> bool {
    &&& a.year == b.year
    &&& a.locale@ == b.locale@
    &&& a.day_name_characters == b.day_name_characters
    &&& a.theme_css@ == b.theme_css@
    &&& same_special_days(a.special_days@, b.special_days@)
}

/// Parameters that say the same ask for the same calendar.
pub proof fn lemma_same_params_same_view(a: CalendarParams, b: CalendarParams)
    requires
        same_params(a, b),
    ensures
        calendar_view(a) == calendar_view(b),
{
    let code = normalized_locale(a.locale@);
    let chars = a.day_name_characters as nat;
    let grid = year_grid(a.year);
    assert forall|date: Date|
        day_view(a.special_days@, code, chars, date) == day_view(
            b.special_days@,
            code,
            chars,
            date,
        ) by {
        lemma_same_days_same_holiday(a.special_days@, b.special_days@, date);
    }
    assert forall|month: int, dates: Seq<Date>|
        month_view(a.special_days@, code, chars, a.year, month, dates) == month_view(
            b.special_days@,
            code,
            chars,
            a.year,
            month,
            dates,
        ) by {
        assert(month_view(a.special_days@, code, chars, a.year, month, dates).days == month_view(
            b.special_days@,
            code,
            chars,
            a.year,
            month,
            dates,
        ).days);
    }
    assert forall|h: int|
        half_view(a.special_days@, code, chars, a.year, h, grid) == half_view(
            b.special_days@,
            code,
            chars,
            a.year,
            h,
            grid,
        ) by {
        assert(half_view(a.special_days@, code, chars, a.year, h, grid).months == half_view(
            b.special_days@,
            code,
            chars,
            a.year,
            h,
            grid,
        ).months);
    }
    assert(calendar_view(a).halves == calendar_view(b).halves);
}

/// Parameters that say the same give the same page, character by
/// character, or the same error.
pub proof fn lemma_same_params_same_outcome(a: CalendarParams, b: CalendarParams)
    requires
        same_params(a, b),
    ensures
        expected_outcome(a) == expected_outcome(b),
        expected_model(a) == expected_model(b),
{
    lemma_same_params_same_view(a, b);
}

/// Two runs on parameters that say the same give the same page, character
/// by character; where none is made, they give the same error.
pub proof fn lemma_same_params_same_page(
    a: CalendarParams,
    b: CalendarParams,
    first: Result<String, CalendarError>,
    second: Result<String, CalendarError>,
)
    requires
        same_params(a, b),
        outcome_view(first) == expected_outcome(a),
        outcome_view(second) == expected_outcome(b),
    ensures
        outcome_view(first) == outcome_view(second),
        first.is_ok() == second.is_ok(),
        first.is_ok() ==> first.unwrap()@ == second.unwrap()@,
        first.is_err() ==> first.unwrap_err()@ == second.unwrap_err()@,
{
    lemma_same_params_same_outcome(a, b);
}

/// The text that stands for a weekday: the first `chars` characters of its
/// full name, with the first of them in uppercase.
pub fn weekday_label(full_name: &str, chars: usize) -> (r: String)
    ensures
        r@ == capitalized(prefix_chars(full_name@, chars as nat)),
{
    let abbreviation = first_chars(full_name, chars);
    capitalize_first(abbreviation.as_str())
}

/// Puts one day together from its date and what was found out about it:
/// its weekday, its ISO week, the full name of its weekday, and what its
/// special days say.
pub fn assemble_day(
    date: Date,
    weekday: Weekday,
    week_number: u32,
    weekday_name: &str,
    day_name_chars: usize,
    is_holiday: bool,
    holiday_name: String,
) -> (r: DayData)
    ensures
        r@ == (DayView {
            day_number: date.day as int,
            weekday: capitalized(prefix_chars(weekday_name@, day_name_chars as nat)),
            week_number: week_number as int,
            is_week_start: weekday == Weekday::Mon,
            is_weekend: weekday == Weekday::Sat || weekday == Weekday::Sun,
            is_month_start: date.day == 1,
            is_last_day: date.month == 12 && date.day == 31,
            is_holiday,
            holiday_name: holiday_name@,
        }),
{
    let day = date.day;
    let is_weekend = weekday == Weekday::Sat || weekday == Weekday::Sun;
    let is_last_day = date.month == 12 && day == 31;
    DayData {
        day_number: day,
        weekday: weekday_label(weekday_name, day_name_chars),
        week_number,
        is_week_start: weekday == Weekday::Mon,
        is_weekend,
        is_month_start: day == 1,
        is_last_day,
        is_holiday,
        holiday_name,
    }
}

/// Shows one day.
pub fn present_day(
    date: Date,
    index: &SpecialDayIndex,
    special_days: &Vec<SpecialDay>,
    locale: &Locale,
    day_name_chars: usize,
) -> (r: DayData)
    requires
        date.valid(),
        locale.known(),
        index.represents(special_days@),
    ensures
        r@ == day_view(special_days@, locale.code@, day_name_chars as nat, date),
{
    let weekday = date.weekday();
    let week_number = date.iso_week();
    let is_holiday = index.is_holiday(special_days, &date);
    let display_name = index.holiday_name(special_days, &date);
    let weekday_name = locale.weekday_name(date);
    assemble_day(
        date,
        weekday,
        week_number,
        weekday_name.as_str(),
        day_name_chars,
        is_holiday,
        display_name,
    )
}

/// Shows one month: its name in the locale, and each of `dates`.
pub fn present_month(
    year: i32,
    month: u32,
    dates: &Vec<Date>,
    index: &SpecialDayIndex,
    special_days: &Vec<SpecialDay>,
    locale: &Locale,
    day_name_chars: usize,
) -> (r: MonthData)
    requires
        valid_ymd(year as int, month as int, 1),
        forall|i: int| 0 <= i < dates@.len() ==> (#[trigger] dates@[i]).valid(),
        locale.known(),
        index.represents(special_days@),
    ensures
        r@ == month_view(
            special_days@,
            locale.code@,
            day_name_chars as nat,
            year,
            month as int,
            dates@,
        ),
{
    let month_name = locale.month_name(year, month);
    let mut days: Vec<DayData> = Vec::new();
    let mut i: usize = 0;
    while i < dates.len()
        invariant
            0 <= i <= dates.len(),
            days@.len() == i,
            forall|k: int| 0 <= k < dates@.len() ==> (#[trigger] dates@[k]).valid(),
            locale.known(),
            index.represents(special_days@),
            forall|k: int|
                0 <= k < i ==> (#[trigger] days@[k])@ == day_view(
                    special_days@,
                    locale.code@,
                    day_name_chars as nat,
                    dates@[k],
                ),
        decreases dates.len() - i,
    {
        days.push(present_day(dates[i], index, special_days, locale, day_name_chars));
        i = i + 1;
    }
    let r = MonthData { name: capitalize_first(month_name.as_str()), days };
    assert(r@.days == month_view(
        special_days@,
        locale.code@,
        day_name_chars as nat,
        year,
        month as int,
        dates@,
    ).days);
    r
}

/// Shows six months of the grid: the months 1 to 6 for `half` 0, the months
/// 7 to 12 for `half` 1.
pub fn present_half(
    year: i32,
    half: u32,
    months: &Vec<Vec<Date>>,
    index: &SpecialDayIndex,
    special_days: &Vec<SpecialDay>,
    locale: &Locale,
    day_name_chars: usize,
) -> (r: HalfData)
    requires
        MIN_YEAR <= year <= MAX_YEAR,
        half < 2,
        months@.len() == 12,
        forall|m: int, i: int|
            0 <= m < 12 && 0 <= i < months@[m]@.len() ==> (#[trigger] months@[m]@[i]).valid(),
        locale.known(),
        index.represents(special_days@),
    ensures
        r@ == half_view(
            special_days@,
            locale.code@,
            day_name_chars as nat,
            year,
            half as int,
            grid_of(months@),
        ),
{
    let mut shown: Vec<MonthData> = Vec::new();
    let mut col: u32 = 0;
    while col < 6
        invariant
            0 <= col <= 6,
            half < 2,
            MIN_YEAR <= year <= MAX_YEAR,
            months@.len() == 12,
            forall|m: int, i: int|
                0 <= m < 12 && 0 <= i < months@[m]@.len() ==> (#[trigger] months@[m]@[i]).valid(),
            locale.known(),
            index.represents(special_days@),
            shown@.len() == col,
            forall|k: int|
                0 <= k < col ==> (#[trigger] shown@[k])@ == month_view(
                    special_days@,
                    locale.code@,
                    day_name_chars as nat,
                    year,
                    half * 6 + k + 1,
                    months@[half * 6 + k]@,
                ),
        decreases 6 - col,
    {
        let at: usize = (half * 6 + col) as usize;
        let dates = &months[at];
        shown.push(
            present_month(year, half * 6 + col + 1, dates, index, special_days, locale, day_name_chars),
        );
        col = col + 1;
    }
    let r = HalfData { months: shown };
    assert(r@.months == half_view(
        special_days@,
        locale.code@,
        day_name_chars as nat,
        year,
        half as int,
        grid_of(months@),
    ).months);
    r
}

/// Puts the model together: the index of the special days, each month of
/// the grid shown in the locale, the months in two halves of six, and the
/// theme.
pub fn build_template_data(
    year: i32,
    months: &Vec<Vec<Date>>,
    locale: &Locale,
    day_name_chars: usize,
    special_days: &Vec<SpecialDay>,
    theme_css: String,
) -> (r: TemplateData)
    requires
        MIN_YEAR <= year <= MAX_YEAR,
        months@.len() == 12,
        forall|m: int, i: int|
            0 <= m < 12 && 0 <= i < months@[m]@.len() ==> (#[trigger] months@[m]@[i]).valid(),
        locale.known(),
    ensures
        r@ == template_view(
            year,
            grid_of(months@),
            locale.code@,
            day_name_chars as nat,
            special_days@,
            theme_css@,
        ),
{
    let index = SpecialDayIndex::build(special_days);
    let first = present_half(year, 0, months, &index, special_days, locale, day_name_chars);
    let second = present_half(year, 1, months, &index, special_days, locale, day_name_chars);
    let mut halves: Vec<HalfData> = Vec::new();
    halves.push(first);
    halves.push(second);
    let r = TemplateData { year, halves, theme_css };
    assert(r@.halves == template_view(
        year,
        grid_of(months@),
        locale.code@,
        day_name_chars as nat,
        special_days@,
        theme_css@,
    ).halves);
    r
}

/// Makes the presentation model of the calendar of `params.year`. A year
/// outside 1 to 9999 is refused before anything else is looked at; after
/// that, a locale that the backend does not know.
pub fn assemble_calendar(params: CalendarParams) -> (r: Result<TemplateData, CalendarError>)
    ensures
        model_view(r) == expected_model(params),
{
    let year = params.year;
    if year < 1 || year > 9999 {
        return Err(CalendarError::InvalidYear(year));
    }
    let locale = match Locale::parse(params.locale.as_str()) {
        Some(locale) => locale,
        None => {
            return Err(CalendarError::InvalidLocale(params.locale.clone()));
        },
    };
    let months = build_year_dates(year);
    Ok(
        build_template_data(
            year,
            &months,
            &locale,
            params.day_name_characters,
            &params.special_days,
            params.theme_css,
        ),
    )
}

/// Makes the calendar of `params.year` and writes it out as a page. A year
/// outside 1 to 9999 is refused before anything else is looked at; after
/// that, a locale that the backend does not know; after that, a bundled
/// template that does not compile.
pub fn generate_calendar(params: CalendarParams) -> (r: Result<String, CalendarError>)
    ensures
        outcome_view(r) == expected_outcome(params),
{
    let year = params.year;
    if year < 1 || year > 9999 {
        return Err(CalendarError::InvalidYear(year));
    }
    let locale = match Locale::parse(params.locale.as_str()) {
        Some(locale) => locale,
        None => {
            return Err(CalendarError::InvalidLocale(params.locale.clone()));
        },
    };
    let months = build_year_dates(year);
    let template_data = build_template_data(
        year,
        &months,
        &locale,
        params.day_name_characters,
        &params.special_days,
        params.theme_css,
    );
    render_calendar(&template_data)
}

} // verus!
