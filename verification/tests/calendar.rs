use ycal::date::Date;
use ycal::model::{
    assemble_calendar, assemble_day, build_template_data, generate_calendar, present_day,
    weekday_label, CalendarError, CalendarParams, TemplateData,
};
use ycal::render::{flag_string, render_day, render_half, render_month, render_page};
use ycal::date::Weekday;
use ycal::grid::build_year_dates;
use ycal::locale::Locale;
use ycal::special::{SpecialDay, SpecialDayIndex};

fn params(year: i32, locale: &str, chars: usize, special_days: Vec<SpecialDay>) -> CalendarParams {
    CalendarParams {
        year,
        locale: locale.to_string(),
        day_name_characters: chars,
        theme_css: "body { color: black; }".to_string(),
        special_days,
    }
}

fn special(year: i32, month: u32, day: u32, name: &str, is_holiday: bool) -> SpecialDay {
    SpecialDay { date: Date { year, month, day }, name: name.to_string(), is_holiday }
}

fn month_of(data: &TemplateData, month: usize) -> &ycal::model::MonthData {
    &data.halves[(month - 1) / 6].months[(month - 1) % 6]
}

#[test]
fn new_years_day_2024_is_a_holiday_monday() {
    let days = vec![special(2024, 1, 1, "New Year's Day", true)];
    let data = assemble_calendar(params(2024, "en-GB", 1, days)).unwrap();
    let first = &month_of(&data, 1).days[0];
    assert!(first.is_holiday);
    assert_eq!(first.holiday_name, "New Year's Day");
    assert_eq!(first.weekday, "M");
    assert!(first.is_month_start);
    assert!(first.is_week_start);
    assert!(!first.is_weekend);
    assert!(!first.is_last_day);
    assert_eq!(first.day_number, 1);
    assert_eq!(first.week_number, 1);
    assert_eq!(month_of(&data, 1).name, "January");
}

#[test]
fn two_special_days_on_christmas_are_joined() {
    let days = vec![
        special(2024, 12, 25, "Christmas", true),
        special(2024, 12, 25, "Office Closure", false),
    ];
    let data = assemble_calendar(params(2024, "en-GB", 1, days)).unwrap();
    let christmas = &month_of(&data, 12).days[24];
    assert_eq!(christmas.day_number, 25);
    assert_eq!(christmas.holiday_name, "Christmas, Office Closure");
    assert!(christmas.is_holiday);
    let eve = &month_of(&data, 12).days[23];
    assert_eq!(eve.holiday_name, "");
    assert!(!eve.is_holiday);
}

#[test]
fn a_note_names_the_day_without_making_it_a_holiday() {
    let days = vec![
        special(2024, 3, 5, "Dentist", false),
        special(2024, 3, 5, "Piano", false),
        special(2024, 3, 6, "Fair", true),
    ];
    let data = assemble_calendar(params(2024, "en-GB", 2, days)).unwrap();
    let fifth = &month_of(&data, 3).days[4];
    assert!(!fifth.is_holiday);
    assert_eq!(fifth.holiday_name, "Dentist, Piano");
    let sixth = &month_of(&data, 3).days[5];
    assert!(sixth.is_holiday);
    assert_eq!(sixth.holiday_name, "Fair");
}

#[test]
fn special_days_of_another_year_match_nothing() {
    let days = vec![special(2023, 1, 1, "Last year", true), special(2025, 1, 1, "Next year", true)];
    let data = assemble_calendar(params(2024, "en-GB", 1, days)).unwrap();
    for month in 1..=12 {
        for day in &month_of(&data, month).days {
            assert!(!day.is_holiday);
            assert_eq!(day.holiday_name, "");
        }
    }
}

#[test]
fn year_zero_is_refused() {
    assert_eq!(
        assemble_calendar(params(0, "en-GB", 1, Vec::new())),
        Err(CalendarError::InvalidYear(0))
    );
}

#[test]
fn year_ten_thousand_is_refused() {
    assert_eq!(
        assemble_calendar(params(10000, "en-GB", 1, Vec::new())),
        Err(CalendarError::InvalidYear(10000))
    );
}

#[test]
fn negative_year_is_refused_before_the_locale_is_looked_at() {
    assert_eq!(
        assemble_calendar(params(-5, "xx-YY", 1, Vec::new())),
        Err(CalendarError::InvalidYear(-5))
    );
}

#[test]
fn first_and_last_year_are_accepted() {
    let first = assemble_calendar(params(1, "en-GB", 1, Vec::new())).unwrap();
    assert_eq!(first.year, 1);
    assert_eq!(month_of(&first, 1).days[0].weekday, "M");
    assert_eq!(month_of(&first, 1).days[0].week_number, 1);
    let last = assemble_calendar(params(9999, "en-GB", 1, Vec::new())).unwrap();
    assert_eq!(last.year, 9999);
    let end = &month_of(&last, 12).days[30];
    assert!(end.is_last_day);
    assert_eq!(end.weekday, "F");
    assert_eq!(end.week_number, 52);
}

#[test]
fn unknown_locale_is_refused() {
    assert_eq!(
        assemble_calendar(params(2024, "xx-YY", 1, Vec::new())),
        Err(CalendarError::InvalidLocale("xx-YY".to_string()))
    );
}

#[test]
fn empty_locale_is_refused() {
    assert_eq!(
        assemble_calendar(params(2024, "", 1, Vec::new())),
        Err(CalendarError::InvalidLocale(String::new()))
    );
}

#[test]
fn locale_with_underscore_is_accepted_as_well() {
    let a = assemble_calendar(params(2024, "sv-SE", 3, Vec::new())).unwrap();
    let b = assemble_calendar(params(2024, "sv_SE", 3, Vec::new())).unwrap();
    assert_eq!(a, b);
}

#[test]
fn same_input_gives_the_same_calendar() {
    let days = vec![
        special(2024, 12, 25, "Christmas", true),
        special(2024, 5, 1, "May Day", true),
        special(2024, 5, 1, "Picnic", false),
    ];
    let a = assemble_calendar(params(2024, "de-DE", 2, days.clone()));
    let b = assemble_calendar(params(2024, "de-DE", 2, days));
    assert_eq!(a, b);
    let text_a = format!("{:?}", a);
    let text_b = format!("{:?}", b);
    assert_eq!(text_a, text_b);
}

#[test]
fn calendar_has_two_halves_of_six_months() {
    let data = assemble_calendar(params(2023, "en-GB", 1, Vec::new())).unwrap();
    assert_eq!(data.year, 2023);
    assert_eq!(data.theme_css, "body { color: black; }");
    assert_eq!(data.halves.len(), 2);
    assert_eq!(data.halves[0].months.len(), 6);
    assert_eq!(data.halves[1].months.len(), 6);
    let names: Vec<&str> = (1..=12).map(|m| month_of(&data, m).name.as_str()).collect();
    assert_eq!(
        names,
        vec![
            "January", "February", "March", "April", "May", "June", "July", "August",
            "September", "October", "November", "December"
        ]
    );
    let lengths: Vec<usize> = (1..=12).map(|m| month_of(&data, m).days.len()).collect();
    assert_eq!(lengths, vec![31, 28, 31, 30, 31, 30, 31, 31, 30, 31, 30, 31]);
}

#[test]
fn days_are_numbered_without_gaps() {
    let data = assemble_calendar(params(2024, "en-GB", 1, Vec::new())).unwrap();
    let mut total = 0;
    for month in 1..=12 {
        let days = &month_of(&data, month).days;
        for (i, day) in days.iter().enumerate() {
            assert_eq!(day.day_number as usize, i + 1);
            assert_eq!(day.is_month_start, i == 0);
            assert_eq!(day.is_last_day, month == 12 && i == 30);
        }
        total += days.len();
    }
    assert_eq!(total, 366);
}

#[test]
fn flags_follow_the_weekday() {
    let data = assemble_calendar(params(2024, "en-GB", 3, Vec::new())).unwrap();
    for month in 1..=12 {
        for day in &month_of(&data, month).days {
            assert_eq!(day.is_week_start, day.weekday == "Mon");
            assert_eq!(day.is_weekend, day.weekday == "Sat" || day.weekday == "Sun");
        }
    }
    let june = &month_of(&data, 6).days;
    assert_eq!(june[0].weekday, "Sat");
    assert_eq!(june[1].weekday, "Sun");
    assert_eq!(june[2].weekday, "Mon");
    assert_eq!(june[2].week_number, 23);
}

#[test]
fn week_numbers_at_the_turn_of_the_year() {
    let data = assemble_calendar(params(2021, "en-GB", 1, Vec::new())).unwrap();
    assert_eq!(month_of(&data, 1).days[0].week_number, 53);
    assert_eq!(month_of(&data, 1).days[2].week_number, 53);
    assert_eq!(month_of(&data, 1).days[3].week_number, 1);
    assert_eq!(month_of(&data, 12).days[30].week_number, 52);
    let data = assemble_calendar(params(2024, "en-GB", 1, Vec::new())).unwrap();
    assert_eq!(month_of(&data, 12).days[29].week_number, 1);
    assert_eq!(month_of(&data, 12).days[28].week_number, 52);
    let data = assemble_calendar(params(2020, "en-GB", 1, Vec::new())).unwrap();
    assert_eq!(month_of(&data, 12).days[30].week_number, 53);
}

#[test]
fn weekday_names_are_cut_and_capitalised() {
    let data = assemble_calendar(params(2024, "sv-SE", 3, Vec::new())).unwrap();
    let january = month_of(&data, 1);
    assert_eq!(january.name, "Januari");
    assert_eq!(january.days[0].weekday, "Mån");
    assert_eq!(january.days[5].weekday, "Lör");
    let data = assemble_calendar(params(2024, "de-DE", 2, Vec::new())).unwrap();
    assert_eq!(month_of(&data, 3).name, "März");
    assert_eq!(month_of(&data, 1).days[0].weekday, "Mo");
    let data = assemble_calendar(params(2024, "en-GB", 100, Vec::new())).unwrap();
    assert_eq!(month_of(&data, 1).days[2].weekday, "Wednesday");
    let data = assemble_calendar(params(2024, "en-GB", 0, Vec::new())).unwrap();
    assert_eq!(month_of(&data, 1).days[2].weekday, "");
}

#[test]
fn weekday_label_keeps_the_first_characters() {
    assert_eq!(weekday_label("måndag", 1), "M");
    assert_eq!(weekday_label("måndag", 2), "Må");
    assert_eq!(weekday_label("måndag", 6), "Måndag");
    assert_eq!(weekday_label("måndag", 7), "Måndag");
    assert_eq!(weekday_label("måndag", 0), "");
    assert_eq!(weekday_label("", 3), "");
    assert_eq!(weekday_label("ßtag", 1), "SS");
}

#[test]
fn assemble_day_sets_each_flag() {
    let day = assemble_day(
        Date { year: 2023, month: 12, day: 31 },
        Weekday::Sun,
        52,
        "sunday",
        2,
        true,
        "Eve".to_string(),
    );
    assert_eq!(day.day_number, 31);
    assert_eq!(day.weekday, "Su");
    assert_eq!(day.week_number, 52);
    assert!(!day.is_week_start);
    assert!(day.is_weekend);
    assert!(!day.is_month_start);
    assert!(day.is_last_day);
    assert!(day.is_holiday);
    assert_eq!(day.holiday_name, "Eve");
    let day = assemble_day(
        Date { year: 2024, month: 1, day: 1 },
        Weekday::Mon,
        1,
        "monday",
        1,
        false,
        String::new(),
    );
    assert!(day.is_week_start);
    assert!(!day.is_weekend);
    assert!(day.is_month_start);
    assert!(!day.is_last_day);
    assert!(!day.is_holiday);
    let day = assemble_day(
        Date { year: 2024, month: 11, day: 31 },
        Weekday::Sat,
        1,
        "saturday",
        1,
        false,
        String::new(),
    );
    assert!(day.is_weekend);
    assert!(!day.is_last_day);
}

#[test]
fn present_day_reads_index_and_locale() {
    let days = vec![special(2024, 2, 29, "Leap day", false)];
    let index = SpecialDayIndex::build(&days);
    let locale = Locale::parse("fr-FR").unwrap();
    let day = present_day(Date { year: 2024, month: 2, day: 29 }, &index, &days, &locale, 4);
    assert_eq!(day.day_number, 29);
    assert_eq!(day.weekday, "Jeud");
    assert_eq!(day.week_number, 9);
    assert_eq!(day.holiday_name, "Leap day");
    assert!(!day.is_holiday);
}

#[test]
fn build_template_data_takes_the_grid_it_is_given() {
    let months = build_year_dates(2024);
    let locale = Locale::parse("en-GB").unwrap();
    let days = vec![special(2024, 7, 4, "Fourth", true)];
    let data = build_template_data(2024, &months, &locale, 1, &days, "x".to_string());
    assert_eq!(data.theme_css, "x");
    assert_eq!(data.halves[1].months[0].name, "July");
    assert_eq!(data.halves[1].months[0].days[3].holiday_name, "Fourth");
    assert_eq!(data, assemble_calendar(params_with_css(2024, "en-GB", 1, days, "x")).unwrap());
}

fn params_with_css(
    year: i32,
    locale: &str,
    chars: usize,
    special_days: Vec<SpecialDay>,
    css: &str,
) -> CalendarParams {
    CalendarParams {
        year,
        locale: locale.to_string(),
        day_name_characters: chars,
        theme_css: css.to_string(),
        special_days,
    }
}

#[test]
fn error_messages_name_the_input() {
    assert_eq!(
        CalendarError::InvalidYear(10000).message(),
        "year must be between 1 and 9999, got 10000"
    );
    assert_eq!(
        CalendarError::InvalidYear(-3).message(),
        "year must be between 1 and 9999, got -3"
    );
    assert_eq!(
        CalendarError::InvalidLocale("xx-YY".to_string()).message(),
        "unknown locale 'xx-YY'. Use a locale code like en-GB, sv-SE, de-DE."
    );
    assert_eq!(
        CalendarError::Template("unclosed tag".to_string()).message(),
        "invalid template: unclosed tag"
    );
}

#[test]
fn the_crate_root_offers_the_main_items() {
    let params = ycal::CalendarParams {
        year: 2024,
        locale: "en-GB".to_string(),
        day_name_characters: 1,
        theme_css: String::new(),
        special_days: vec![ycal::SpecialDay {
            date: Date { year: 2024, month: 1, day: 1 },
            name: "New Year's Day".to_string(),
            is_holiday: true,
        }],
    };
    let html = ycal::generate_calendar(params).unwrap();
    assert!(html.contains("New Year's Day"));
    assert!(matches!(
        ycal::generate_calendar(ycal::CalendarParams {
            year: 2024,
            locale: "nowhere".to_string(),
            day_name_characters: 1,
            theme_css: String::new(),
            special_days: Vec::new(),
        }),
        Err(ycal::CalendarError::InvalidLocale(_))
    ));
    assert!(ycal::TEMPLATE_SRC.contains("{{{halves}}}"));
}

const NEW_YEAR_MARKUP: &str = "\n<div class=\"day holiday month-start\"><span class=\"day-number\">1</span><span class=\"weekday\">M</span><span class=\"week-number\">1</span><span class=\"special-day\">New Year's Day</span></div>";

#[test]
fn page_of_2024_shows_new_years_day() {
    let days = vec![special(2024, 1, 1, "New Year's Day", true)];
    let html = generate_calendar(params(2024, "en-GB", 1, days)).unwrap();
    assert!(html.starts_with(
        "<!DOCTYPE html>\n<html>\n<head>\n<meta charset=\"utf-8\">\n<title>2024</title>\n<style>\nbody { color: black; }\n</style>\n</head>\n<body>\n<div class=\"page\">\n<div class=\"header\">2024</div>\n<div class=\"half\">\n<div class=\"month\">\n<div class=\"month-name\">January</div>"
    ));
    assert!(html.contains(NEW_YEAR_MARKUP));
    assert!(html.ends_with("</div>\n</div>\n</div>\n</body>\n</html>"));
    assert_eq!(html.matches("<div class=\"half\">").count(), 2);
    assert_eq!(html.matches("<div class=\"month\">").count(), 12);
    assert_eq!(html.matches("<span class=\"day-number\">").count(), 366);
    assert_eq!(html.matches(" holiday").count(), 1);
    assert_eq!(html.matches(" last-day").count(), 1);
    assert_eq!(html.matches(" month-start").count(), 12);
    assert_eq!(html.matches("<span class=\"week-number\">").count(), 53);
    assert_eq!(html.matches(" weekend").count(), 104);
}

#[test]
fn page_joins_the_names_of_christmas() {
    let days = vec![
        special(2024, 12, 25, "Christmas", true),
        special(2024, 12, 25, "Office Closure", false),
    ];
    let html = generate_calendar(params(2024, "en-GB", 1, days)).unwrap();
    assert!(html.contains(
        "\n<div class=\"day holiday\"><span class=\"day-number\">25</span><span class=\"weekday\">W</span><span class=\"special-day\">Christmas, Office Closure</span></div>"
    ));
}

#[test]
fn page_is_the_rendered_model() {
    let days = vec![special(2023, 5, 17, "Day <1> & \"2\"", true)];
    let html = generate_calendar(params(2023, "sv-SE", 2, days.clone())).unwrap();
    let data = assemble_calendar(params(2023, "sv-SE", 2, days)).unwrap();
    assert_eq!(html, render_page(&data));
    assert!(html.contains("<span class=\"special-day\">Day &lt;1&gt; &amp; &quot;2&quot;</span>"));
    assert!(html.contains("<div class=\"month-name\">Maj</div>"));
    assert_eq!(html.matches("<span class=\"day-number\">").count(), 365);
}

#[test]
fn same_input_gives_the_same_page() {
    let days = vec![
        special(2024, 12, 25, "Christmas", true),
        special(2024, 5, 1, "May Day", true),
        special(2024, 5, 1, "Picnic", false),
    ];
    let a = generate_calendar(params(2024, "de-DE", 2, days.clone())).unwrap();
    let b = generate_calendar(params(2024, "de-DE", 2, days)).unwrap();
    assert_eq!(a.as_bytes(), b.as_bytes());
}

#[test]
fn page_errors_are_those_of_the_model() {
    assert_eq!(
        generate_calendar(params(0, "en-GB", 1, Vec::new())),
        Err(CalendarError::InvalidYear(0))
    );
    assert_eq!(
        generate_calendar(params(10000, "xx-YY", 1, Vec::new())),
        Err(CalendarError::InvalidYear(10000))
    );
    assert_eq!(
        generate_calendar(params(2024, "xx-YY", 1, Vec::new())),
        Err(CalendarError::InvalidLocale("xx-YY".to_string()))
    );
    assert!(generate_calendar(params(1, "en-GB", 1, Vec::new())).is_ok());
    assert!(generate_calendar(params(9999, "en-GB", 1, Vec::new())).is_ok());
}

#[test]
fn theme_is_put_in_as_it_is() {
    let mut request = params(2024, "en-GB", 1, Vec::new());
    request.theme_css = "a > b { content: \"<&>\"; }".to_string();
    let html = generate_calendar(request).unwrap();
    assert!(html.contains("<style>\na > b { content: \"<&>\"; }\n</style>"));
}

#[test]
fn day_markup_shows_what_is_switched_on() {
    let day = assemble_day(
        Date { year: 2024, month: 1, day: 1 },
        Weekday::Mon,
        1,
        "monday",
        1,
        true,
        "New Year's Day".to_string(),
    );
    assert_eq!(render_day(&day), NEW_YEAR_MARKUP);
    let day = assemble_day(
        Date { year: 2023, month: 12, day: 31 },
        Weekday::Sun,
        52,
        "sunday",
        3,
        false,
        String::new(),
    );
    assert_eq!(
        render_day(&day),
        "\n<div class=\"day weekend last-day\"><span class=\"day-number\">31</span><span class=\"weekday\">Sun</span><span class=\"special-day\"></span></div>"
    );
    let day = assemble_day(
        Date { year: 2024, month: 6, day: 5 },
        Weekday::Wed,
        23,
        "wednesday",
        0,
        false,
        "a & b".to_string(),
    );
    assert_eq!(
        render_day(&day),
        "\n<div class=\"day\"><span class=\"day-number\">5</span><span class=\"weekday\"></span><span class=\"special-day\">a &amp; b</span></div>"
    );
}

#[test]
fn month_and_half_wrap_what_they_hold() {
    let data = assemble_calendar(params(2024, "en-GB", 1, Vec::new())).unwrap();
    let february = &data.halves[0].months[1];
    let mut expected = String::from(
        "\n<div class=\"month\">\n<div class=\"month-name\">February</div>",
    );
    for day in &february.days {
        expected.push_str(&render_day(day));
    }
    expected.push_str("\n</div>");
    assert_eq!(render_month(february), expected);
    let mut expected = String::from("\n<div class=\"half\">");
    for month in &data.halves[1].months {
        expected.push_str(&render_month(month));
    }
    expected.push_str("\n</div>");
    assert_eq!(render_half(&data.halves[1]), expected);
    let empty = ycal::model::MonthData { name: "<M>".to_string(), days: Vec::new() };
    assert_eq!(
        render_month(&empty),
        "\n<div class=\"month\">\n<div class=\"month-name\">&lt;M&gt;</div>\n</div>"
    );
}

#[test]
fn flags_are_texts() {
    assert_eq!(flag_string(true), "true");
    assert_eq!(flag_string(false), "");
}
