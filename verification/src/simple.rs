//! The plain calendar: English names, two-letter weekdays, holidays from a
//! list of dated names, and the page written out tag by tag.

use std::collections::HashMap;
use vstd::prelude::*;
use vstd::string::StringExecFns;
use crate::date::{days_in_month, month_days, weekday_index, Date, Weekday, MAX_YEAR, MIN_YEAR};
use crate::special::{date_key, key_of};
use crate::text::{decimal, escape_html, html_escape, push_decimal};

verus! {

/// The stylesheet of the plain calendar.
pub const CSS: &'static str = r#"
* { margin: 0; padding: 0; box-sizing: border-box; }

@page {
    size: A4 portrait;
    margin: 8mm;
}

body {
    font-family: -apple-system, "Segoe UI", Roboto, Helvetica, Arial, sans-serif;
    font-size: 8.5pt;
    line-height: 1.0;
    color: #222;
}

.page {
    width: 194mm;
    height: 281mm;
    display: flex;
    flex-direction: column;
    overflow: hidden;
}

.header {
    height: 8mm;
    font-size: 16pt;
    font-weight: 700;
    display: flex;
    align-items: center;
    padding-left: 1mm;
}

.half {
    flex: 1;
    display: grid;
    grid-template-columns: repeat(6, 1fr);
    border-top: 1px solid #444;
    border-left: 1px solid #444;
    min-height: 0;
}

.month {
    border-right: 1px solid #444;
    display: flex;
    flex-direction: column;
    min-height: 0;
}

.month-name {
    font-weight: 700;
    font-size: 7.5pt;
    text-align: center;
    padding: 0.5mm 0;
    border-bottom: 1px solid #444;
    background: #f5f5f5;
    flex-shrink: 0;
}

.month > div:not(.month-name) {
    flex: 1;
    display: flex;
    align-items: center;
    padding: 0 0.8mm;
    border-bottom: 1px solid #ddd;
    min-height: 0;
    font-variant-numeric: tabular-nums;
}

.day-label {
    white-space: nowrap;
    flex-shrink: 0;
}

.red {
    color: #cc0000;
}

.footer {
    height: 10mm;
    display: flex;
    align-items: center;
    gap: 3mm;
    padding: 0 1mm;
    border-top: 1px solid #444;
    flex-shrink: 0;
}

.cat {
    padding: 1mm 2.5mm;
    border-radius: 1mm;
    font-size: 7.5pt;
    font-weight: 500;
    border: 0.5px solid #bbb;
}

@media screen {
    body {
        display: flex;
        justify-content: center;
        padding: 10mm;
        background: #e0e0e0;
    }
    .page {
        background: white;
        box-shadow: 0 1mm 4mm rgba(0,0,0,0.2);
        padding: 8mm;
        width: 210mm;
        height: 297mm;
    }
}

@media print {
    body {
        background: none;
    }
}
"#;

/// A holiday as a configuration names it: a date written `YYYY-MM-DD`, and
/// a name.
#[derive(Clone, Debug, PartialEq, Eq)]
pub struct Holiday {
    pub date: String,
    pub name: String,
}

/// The configuration of the plain calendar.
#[derive(Clone, Debug, PartialEq, Eq)]
pub struct Config {
    pub categories: Vec<String>,
    pub holidays: Vec<Holiday>,
}

/// One day of the plain calendar.
#[derive(Debug, PartialEq, Eq)]
pub struct DayEntry {
    pub day_number: u32,
    pub weekday: Weekday,
    pub is_weekend: bool,
    pub is_holiday: bool,
    pub holiday_name: Option<String>,
}

/// The two letters that stand for a weekday.
pub open spec fn weekday_abbrev_text(wd: Weekday) -> Seq<char> {
    match wd {
        Weekday::Mon => "Mo"@,
        Weekday::Tue => "Tu"@,
        Weekday::Wed => "We"@,
        Weekday::Thu => "Th"@,
        Weekday::Fri => "Fr"@,
        Weekday::Sat => "Sa"@,
        Weekday::Sun => "Su"@,
    }
}

/// The English name of a month, counted from 0 for January.
pub open spec fn english_month_text(index: int) -> Seq<char> {
    if index == 0 {
        "January"@
    } else if index == 1 {
        "February"@
    } else if index == 2 {
        "March"@
    } else if index == 3 {
        "April"@
    } else if index == 4 {
        "May"@
    } else if index == 5 {
        "June"@
    } else if index == 6 {
        "July"@
    } else if index == 7 {
        "August"@
    } else if index == 8 {
        "September"@
    } else if index == 9 {
        "October"@
    } else if index == 10 {
        "November"@
    } else {
        "December"@
    }
}

/// The colour of a category in the legend; after eight categories the
/// colours begin again.
pub open spec fn pastel_color_text(position: int) -> Seq<char> {
    let slot = position % 8;
    if slot == 0 {
        "#b3d9ff"@
    } else if slot == 1 {
        "#ffd9b3"@
    } else if slot == 2 {
        "#d9b3ff"@
    } else if slot == 3 {
        "#b3ffb3"@
    } else if slot == 4 {
        "#ffb3d9"@
    } else if slot == 5 {
        "#ffffb3"@
    } else if slot == 6 {
        "#b3ffff"@
    } else {
        "#ffb3b3"@
    }
}

/// The two letters that stand for a weekday.
pub fn weekday_abbrev(wd: Weekday) -> (r: &'static str)
    ensures
        r@ == weekday_abbrev_text(wd),
{
    match wd {
        Weekday::Mon => "Mo",
        Weekday::Tue => "Tu",
        Weekday::Wed => "We",
        Weekday::Thu => "Th",
        Weekday::Fri => "Fr",
        Weekday::Sat => "Sa",
        Weekday::Sun => "Su",
    }
}

/// The English name of a month, counted from 0 for January.
pub fn english_month_name(index: usize) -> (r: &'static str)
    requires
        index < 12,
    ensures
        r@ == english_month_text(index as int),
{
    if index == 0 {
        "January"
    } else if index == 1 {
        "February"
    } else if index == 2 {
        "March"
    } else if index == 3 {
        "April"
    } else if index == 4 {
        "May"
    } else if index == 5 {
        "June"
    } else if index == 6 {
        "July"
    } else if index == 7 {
        "August"
    } else if index == 8 {
        "September"
    } else if index == 9 {
        "October"
    } else if index == 10 {
        "November"
    } else {
        "December"
    }
}

/// The colour of the category at `position` in the legend.
pub fn pastel_color(position: usize) -> (r: &'static str)
    ensures
        r@ == pastel_color_text(position as int),
{
    let slot = position % 8;
    if slot == 0 {
        "#b3d9ff"
    } else if slot == 1 {
        "#ffd9b3"
    } else if slot == 2 {
        "#d9b3ff"
    } else if slot == 3 {
        "#b3ffb3"
    } else if slot == 4 {
        "#ffb3d9"
    } else if slot == 5 {
        "#ffffb3"
    } else if slot == 6 {
        "#b3ffff"
    } else {
        "#ffb3b3"
    }
}

/// The pattern in which a configuration writes the date of a holiday.
pub const HOLIDAY_DATE_PATTERN: &'static str = "%Y-%m-%d";

/// The date that the backend reads from a text under a `strptime` pattern,
/// where it reads one.
pub uninterp spec fn parsed_date(text: Seq<char>, pattern: Seq<char>) -> Option<Date>;

/// chrono's `NaiveDate::parse_from_str`, with year, month and day of the
/// date that it gives, or `None` where it refuses the text or the pattern.
/// The contract claims that the outcome depends on the two texts alone, and
/// calls it `parsed_date`.
#[verifier::external_body]
fn parse_date(text: &str, pattern: &str) -> (r: Option<Date>)
    ensures
        r == parsed_date(text@, pattern@),
{
    match chrono::NaiveDate::parse_from_str(text, pattern) {
        Ok(date) => Some(
            Date {
                year: chrono::Datelike::year(&date),
                month: chrono::Datelike::month(&date),
                day: chrono::Datelike::day(&date),
            },
        ),
        Err(_) => None,
    }
}

/// What a text means as the date of a holiday, written `YYYY-MM-DD`.
pub open spec fn holiday_date(text: Seq<char>) -> Option<Date> {
    parsed_date(text, HOLIDAY_DATE_PATTERN@)
}

/// The holiday map after one more holiday: where its date was read and lies
/// in `year`, the map with the holiday's name under that date, in place of
/// an earlier name; otherwise the map as it was.
pub open spec fn with_holiday(
    map: Map<u128, String>,
    parsed: Option<Date>,
    name: String,
    year: i32,
) -> Map<u128, String> {
    match parsed {
        Some(date) => if date.year == year {
            map.insert(date_key(date) as u128, name)
        } else {
            map
        },
        None => map,
    }
}

/// The names of the first `n` holidays by the key of their date: those
/// whose date can be read and lies in `year`; of two on one date the later.
pub open spec fn holiday_map_of(holidays: Seq<Holiday>, year: i32, n: int) -> Map<u128, String>
    decreases n,
{
    if n <= 0 {
        Map::empty()
    } else {
        with_holiday(
            holiday_map_of(holidays, year, n - 1),
            holiday_date(holidays[n - 1].date@),
            holidays[n - 1].name,
            year,
        )
    }
}

/// The date that a holiday's text names, or `None` where it names none.
pub fn parse_holiday_date(text: &str) -> (r: Option<Date>)
    ensures
        r == holiday_date(text@),
{
    parse_date(text, HOLIDAY_DATE_PATTERN)
}

/// Files one holiday, whose date text has been parsed, in the map.
pub fn add_holiday(map: &mut HashMap<u128, String>, parsed: Option<Date>, name: String, year: i32)
    ensures
        final(map)@ == with_holiday(old(map)@, parsed, name, year),
{
    match parsed {
        Some(date) => {
            if date.year == year {
                map.insert(key_of(&date), name);
            }
        },
        None => {},
    }
}

/// The holidays of `year` by date. A holiday whose date cannot be read, or
/// lies in another year, is left out.
pub fn build_holiday_map(holidays: &Vec<Holiday>, year: i32) -> (r: HashMap<u128, String>)
    ensures
        r@ == holiday_map_of(holidays@, year, holidays@.len() as int),
{
    let mut map: HashMap<u128, String> = HashMap::new();
    let mut i: usize = 0;
    while i < holidays.len()
        invariant
            0 <= i <= holidays.len(),
            map@ == holiday_map_of(holidays@, year, i as int),
        decreases holidays.len() - i,
    {
        let parsed = parse_holiday_date(holidays[i].date.as_str());
        add_holiday(&mut map, parsed, holidays[i].name.clone(), year);
        i = i + 1;
    }
    map
}

/// The weekday that lies `index` days after a Monday.
pub open spec fn weekday_at(index: int) -> Weekday {
    if index == 0 {
        Weekday::Mon
    } else if index == 1 {
        Weekday::Tue
    } else if index == 2 {
        Weekday::Wed
    } else if index == 3 {
        Weekday::Thu
    } else if index == 4 {
        Weekday::Fri
    } else if index == 5 {
        Weekday::Sat
    } else {
        Weekday::Sun
    }
}

/// The entry of `date` under the holidays of `map`: its number in the
/// month, its weekday, whether that is a Saturday or Sunday, and the
/// holiday that the map holds for it.
pub open spec fn entry_of(map: Map<u128, String>, date: Date) -> DayEntry {
    let weekday = weekday_index(date.year as int, date.month as int, date.day as int);
    let key = date_key(date) as u128;
    DayEntry {
        day_number: date.day,
        weekday: weekday_at(weekday),
        is_weekend: weekday == 5 || weekday == 6,
        is_holiday: map.contains_key(key),
        holiday_name: if map.contains_key(key) {
            Some(map[key])
        } else {
            None
        },
    }
}

/// The entries of the days of one month, in ascending order.
pub open spec fn month_entries(map: Map<u128, String>, year: i32, month: u32) -> Seq<DayEntry> {
    Seq::new(
        month_days(year as int, month as int) as nat,
        |i: int| entry_of(map, Date { year, month, day: (i + 1) as u32 }),
    )
}

/// The entries of the twelve months of a year.
pub open spec fn year_entries(map: Map<u128, String>, year: i32) -> Seq<Seq<DayEntry>> {
    Seq::new(12, |m: int| month_entries(map, year, (m + 1) as u32))
}

/// The months of a calendar as sequences of entries.
pub open spec fn entries_of(months: Seq<Vec<DayEntry>>) -> Seq<Seq<DayEntry>> {
    Seq::new(months.len(), |m: int| months[m]@)
}

/// The entries of the days of one month, in ascending order.
pub fn build_month(year: i32, month: u32, holiday_map: &HashMap<u128, String>) -> (r: Vec<DayEntry>)
    requires
        MIN_YEAR <= year <= MAX_YEAR,
        1 <= month <= 12,
    ensures
        r@ == month_entries(holiday_map@, year, month),
{
    let num_days = days_in_month(year, month);
    let mut entries: Vec<DayEntry> = Vec::new();
    let mut day: u32 = 0;
    while day < num_days
        invariant
            0 <= day <= num_days,
            MIN_YEAR <= year <= MAX_YEAR,
            1 <= month <= 12,
            num_days == month_days(year as int, month as int),
            entries@.len() == day,
            forall|i: int|
                0 <= i < day ==> #[trigger] entries@[i] == entry_of(
                    holiday_map@,
                    Date { year, month, day: (i + 1) as u32 },
                ),
        decreases num_days - day,
    {
        day = day + 1;
        let date = Date { year, month, day };
        let wd = date.weekday();
        let is_weekend = wd == Weekday::Sat || wd == Weekday::Sun;
        let key = key_of(&date);
        let holiday_name = match holiday_map.get(&key) {
            Some(name) => Some(name.clone()),
            None => None,
        };
        let is_holiday = holiday_name.is_some();
        entries.push(DayEntry { day_number: day, weekday: wd, is_weekend, is_holiday, holiday_name });
    }
    assert(entries@ == month_entries(holiday_map@, year, month));
    entries
}

/// The twelve months of the plain calendar.
pub fn build_months(year: i32, holiday_map: &HashMap<u128, String>) -> (r: Vec<Vec<DayEntry>>)
    requires
        MIN_YEAR <= year <= MAX_YEAR,
    ensures
        r@.len() == 12,
        entries_of(r@) == year_entries(holiday_map@, year),
{
    let mut months: Vec<Vec<DayEntry>> = Vec::new();
    let mut month: u32 = 0;
    while month < 12
        invariant
            0 <= month <= 12,
            MIN_YEAR <= year <= MAX_YEAR,
            months@.len() == month,
            forall|m: int|
                0 <= m < month ==> (#[trigger] months@[m])@ == month_entries(
                    holiday_map@,
                    year,
                    (m + 1) as u32,
                ),
        decreases 12 - month,
    {
        month = month + 1;
        months.push(build_month(year, month, holiday_map));
    }
    assert(entries_of(months@) == year_entries(holiday_map@, year));
    months
}

/// The markup of one day: red where it is a weekend day or a holiday, with
/// the holiday's name, escaped, as its tooltip.
pub open spec fn day_html(entry: DayEntry) -> Seq<char> {
    "<div"@ + (if entry.is_weekend || entry.is_holiday {
        " class=\"red\""@
    } else {
        ""@
    }) + (match entry.holiday_name {
        Some(name) => " title=\""@ + escape_html(name@) + "\""@,
        None => ""@,
    }) + "><span class=\"day-label\">"@ + decimal(entry.day_number as int) + weekday_abbrev_text(
        entry.weekday,
    ) + "</span></div>\n"@
}

/// The markup of the first `n` days of a month.
pub open spec fn days_html(entries: Seq<DayEntry>, n: int) -> Seq<char>
    decreases n,
{
    if n <= 0 {
        Seq::empty()
    } else {
        days_html(entries, n - 1) + day_html(entries[n - 1])
    }
}

/// The markup of one month: its English name, then its days.
pub open spec fn month_html(index: int, entries: Seq<DayEntry>) -> Seq<char> {
    "<div class=\"month\">\n<div class=\"month-name\">"@ + english_month_text(index) + "</div>\n"@
        + days_html(entries, entries.len() as int) + "</div>\n"@
}

/// The markup of the first `n` months of a half.
pub open spec fn months_html(months: Seq<Seq<DayEntry>>, half: int, n: int) -> Seq<char>
    decreases n,
{
    if n <= 0 {
        Seq::empty()
    } else {
        months_html(months, half, n - 1) + month_html(half * 6 + n - 1, months[half * 6 + n - 1])
    }
}

/// The markup of one half of the year.
pub open spec fn half_html(months: Seq<Seq<DayEntry>>, half: int) -> Seq<char> {
    "<div class=\"half\">\n"@ + months_html(months, half, 6) + "</div>\n"@
}

/// The markup of one category of the legend.
pub open spec fn category_html(position: int, category: Seq<char>) -> Seq<char> {
    "<span class=\"cat\" style=\"background:"@ + pastel_color_text(position) + "\">"@ + escape_html(
        category,
    ) + "</span>\n"@
}

/// The markup of the first `n` categories of the legend.
pub open spec fn categories_html(categories: Seq<String>, n: int) -> Seq<char>
    decreases n,
{
    if n <= 0 {
        Seq::empty()
    } else {
        categories_html(categories, n - 1) + category_html(n - 1, categories[n - 1]@)
    }
}

/// The markup of the legend; nothing where there are no categories.
pub open spec fn footer_html(categories: Seq<String>) -> Seq<char> {
    if categories.len() == 0 {
        Seq::empty()
    } else {
        "<div class=\"footer\">\n"@ + categories_html(categories, categories.len() as int)
            + "</div>\n"@
    }
}

/// The whole page: head with title and stylesheet, the year as header, the
/// two halves, the legend.
pub open spec fn page_html(year: int, months: Seq<Seq<DayEntry>>, categories: Seq<String>) -> Seq<
    char,
> {
    "<!DOCTYPE html>\n<html lang=\"en\">\n<head>\n<meta charset=\"utf-8\">\n<title>"@ + decimal(
        year,
    ) + " Calendar</title>\n<style>\n"@ + CSS@
        + "</style>\n</head>\n<body>\n<div class=\"page\">\n"@ + "<div class=\"header\">"@
        + decimal(year) + "</div>\n"@ + half_html(months, 0) + half_html(months, 1) + footer_html(
        categories,
    ) + "</div>\n</body>\n</html>\n"@
}

/// Appends the markup of one day.
pub fn push_day(html: &mut String, entry: &DayEntry)
    ensures
        final(html)@ == old(html)@ + day_html(*entry),
{
    html.append("<div");
    if entry.is_weekend || entry.is_holiday {
        html.append(" class=\"red\"");
    } else {
        html.append("");
    }
    match &entry.holiday_name {
        Some(name) => {
            html.append(" title=\"");
            let escaped = html_escape(name.as_str());
            html.append(escaped.as_str());
            html.append("\"");
        },
        None => {
            html.append("");
        },
    }
    html.append("><span class=\"day-label\">");
    push_decimal(html, entry.day_number as i64);
    html.append(weekday_abbrev(entry.weekday));
    html.append("</span></div>\n");
    assert(html@ == old(html)@ + day_html(*entry));
}

/// Appends the markup of one month.
pub fn push_month(html: &mut String, index: usize, entries: &Vec<DayEntry>)
    requires
        index < 12,
    ensures
        final(html)@ == old(html)@ + month_html(index as int, entries@),
{
    html.append("<div class=\"month\">\n<div class=\"month-name\">");
    html.append(english_month_name(index));
    html.append("</div>\n");
    let ghost start = html@;
    let mut i: usize = 0;
    while i < entries.len()
        invariant
            0 <= i <= entries.len(),
            html@ == start + days_html(entries@, i as int),
        decreases entries.len() - i,
    {
        push_day(html, &entries[i]);
        i = i + 1;
        assert(html@ == start + days_html(entries@, i as int));
    }
    html.append("</div>\n");
    assert(html@ == old(html)@ + month_html(index as int, entries@));
}

/// Appends the markup of one half of the year.
pub fn push_half(html: &mut String, half: usize, months: &Vec<Vec<DayEntry>>)
    requires
        half < 2,
        months@.len() == 12,
    ensures
        final(html)@ == old(html)@ + half_html(entries_of(months@), half as int),
{
    html.append("<div class=\"half\">\n");
    let ghost start = html@;
    let mut col: usize = 0;
    while col < 6
        invariant
            0 <= col <= 6,
            half < 2,
            months@.len() == 12,
            html@ == start + months_html(entries_of(months@), half as int, col as int),
        decreases 6 - col,
    {
        let month_idx = half * 6 + col;
        push_month(html, month_idx, &months[month_idx]);
        col = col + 1;
        assert(html@ == start + months_html(entries_of(months@), half as int, col as int));
    }
    html.append("</div>\n");
    assert(html@ == old(html)@ + half_html(entries_of(months@), half as int));
}

/// Appends the legend of categories, if there are any.
pub fn push_footer(html: &mut String, categories: &Vec<String>)
    ensures
        final(html)@ == old(html)@ + footer_html(categories@),
{
    if categories.len() > 0 {
        html.append("<div class=\"footer\">\n");
        let ghost start = html@;
        let mut i: usize = 0;
        while i < categories.len()
            invariant
                0 <= i <= categories.len(),
                html@ == start + categories_html(categories@, i as int),
            decreases categories.len() - i,
        {
            let color = pastel_color(i);
            html.append("<span class=\"cat\" style=\"background:");
            html.append(color);
            html.append("\">");
            let escaped = html_escape(categories[i].as_str());
            html.append(escaped.as_str());
            html.append("</span>\n");
            i = i + 1;
            assert(html@ == start + categories_html(categories@, i as int));
        }
        html.append("</div>\n");
        assert(html@ == old(html)@ + footer_html(categories@));
    } else {
        assert(html@ == old(html)@ + footer_html(categories@));
    }
}

/// Writes the page of the plain calendar.
pub fn render_html(year: i32, months: &Vec<Vec<DayEntry>>, config: &Config) -> (r: String)
    requires
        months@.len() == 12,
    ensures
        r@ == page_html(year as int, entries_of(months@), config.categories@),
{
    let mut html = String::new();
    html.append("<!DOCTYPE html>\n<html lang=\"en\">\n<head>\n<meta charset=\"utf-8\">\n<title>");
    push_decimal(&mut html, year as i64);
    html.append(" Calendar</title>\n<style>\n");
    html.append(CSS);
    html.append("</style>\n</head>\n<body>\n<div class=\"page\">\n");
    html.append("<div class=\"header\">");
    push_decimal(&mut html, year as i64);
    html.append("</div>\n");
    push_half(&mut html, 0, months);
    push_half(&mut html, 1, months);
    push_footer(&mut html, &config.categories);
    html.append("</div>\n</body>\n</html>\n");
    assert(html@ == page_html(year as int, entries_of(months@), config.categories@));
    html
}

/// The page of the plain calendar of `year` with the holidays and
/// categories of a configuration.
pub open spec fn year_page(year: i32, holidays: Seq<Holiday>, categories: Seq<String>) -> Seq<char> {
    page_html(
        year as int,
        year_entries(holiday_map_of(holidays, year, holidays.len() as int), year),
        categories,
    )
}

/// The page of the plain calendar of `year` with the holidays and
/// categories of `config`, or `None` where the year lies outside 1 to 9999.
pub fn render_year(year: i32, config: &Config) -> (r: Option<String>)
    ensures
        r.is_some() <==> 1 <= year <= 9999,
        r.is_some() ==> r.unwrap()@ == year_page(year, config.holidays@, config.categories@),
{
    if year < 1 || year > 9999 {
        return None;
    }
    let holiday_map = build_holiday_map(&config.holidays, year);
    let months = build_months(year, &holiday_map);
    let html = render_html(year, &months, config);
    Some(html)
}

} // verus!
