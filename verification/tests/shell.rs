use ycal::date::Date;
use ycal::holidays::{country_code, holidays_url, to_special_days, HolidayError, NagerHoliday};
use ycal::model::CalendarError;
use ycal::special::SpecialDay;
use ycal::template::{
    check_template, check_templates, template_outcome, DAY_TEMPLATE, HALF_TEMPLATE,
    MONTH_TEMPLATE, TEMPLATE_SRC,
};
use ycal::theme::{
    default_day_name_characters, default_locale, default_theme, resolve_theme, same_text, Theme,
    CONTEMPORARY_CSS, MINIMALIST_CSS, RETRO_CSS,
};

#[test]
fn themes_are_found_by_name() {
    assert_eq!(Theme::from_str("minimalist"), Some(Theme::Minimalist));
    assert_eq!(Theme::from_str("retro"), Some(Theme::Retro));
    assert_eq!(Theme::from_str("contemporary"), Some(Theme::Contemporary));
    assert_eq!(Theme::from_str("Minimalist"), None);
    assert_eq!(Theme::from_str(""), None);
    assert_eq!(Theme::from_str("retro "), None);
}

#[test]
fn each_theme_has_its_stylesheet() {
    assert_eq!(Theme::Minimalist.css(), MINIMALIST_CSS);
    assert_eq!(Theme::Retro.css(), RETRO_CSS);
    assert_eq!(Theme::Contemporary.css(), CONTEMPORARY_CSS);
    assert!(MINIMALIST_CSS != RETRO_CSS && RETRO_CSS != CONTEMPORARY_CSS);
    assert_eq!(resolve_theme("retro"), Some(RETRO_CSS));
    assert_eq!(resolve_theme("modern"), None);
}

#[test]
fn defaults_of_a_request() {
    assert_eq!(default_locale(), "en-GB");
    assert_eq!(default_theme(), "minimalist");
    assert_eq!(default_day_name_characters(), 1);
    assert_eq!(Theme::from_str(&default_theme()), Some(Theme::Minimalist));
}

#[test]
fn same_text_compares_characters() {
    assert!(same_text("", ""));
    assert!(same_text("retro", "retro"));
    assert!(!same_text("retro", "retr"));
    assert!(!same_text("retro", "Retro"));
}

#[test]
fn country_code_is_the_second_part_of_the_locale() {
    assert_eq!(country_code("en-GB"), Some("GB".to_string()));
    assert_eq!(country_code("sv-SE"), Some("SE".to_string()));
    assert_eq!(country_code("sr-RS-latin"), Some("RS".to_string()));
    assert_eq!(country_code("en"), None);
    assert_eq!(country_code(""), None);
    assert_eq!(country_code("en_GB"), None);
    assert_eq!(country_code("en-"), Some(String::new()));
    assert_eq!(country_code("-GB"), Some("GB".to_string()));
    assert_eq!(country_code("--"), Some(String::new()));
}

#[test]
fn country_code_is_what_split_gives() {
    for locale in ["en-GB", "a-b-c-d", "", "-", "--x", "x--", "no hyphen", "é-ö-ü"] {
        assert_eq!(country_code(locale), locale.split('-').nth(1).map(|s| s.to_string()));
    }
}

#[test]
fn holidays_url_names_year_and_country() {
    assert_eq!(
        holidays_url(2024, "GB"),
        "https://date.nager.at/api/v3/PublicHolidays/2024/GB"
    );
    assert_eq!(holidays_url(-1, ""), "https://date.nager.at/api/v3/PublicHolidays/-1/");
}

#[test]
fn fetched_holidays_become_special_days() {
    let fetched = vec![
        NagerHoliday { date: Date { year: 2024, month: 1, day: 1 }, local_name: "Nyårsdagen".to_string() },
        NagerHoliday { date: Date { year: 2024, month: 6, day: 6 }, local_name: "Nationaldagen".to_string() },
    ];
    assert_eq!(
        to_special_days(fetched),
        vec![
            SpecialDay {
                date: Date { year: 2024, month: 1, day: 1 },
                name: "Nyårsdagen".to_string(),
                is_holiday: true
            },
            SpecialDay {
                date: Date { year: 2024, month: 6, day: 6 },
                name: "Nationaldagen".to_string(),
                is_holiday: true
            },
        ]
    );
    assert_eq!(to_special_days(Vec::new()), Vec::new());
}

#[test]
fn holiday_error_messages() {
    assert_eq!(
        HolidayError::Fetch("timeout".to_string()).message(),
        "failed to fetch holidays: timeout"
    );
    assert_eq!(
        HolidayError::Parse("bad json".to_string()).message(),
        "failed to parse holidays: bad json"
    );
}

#[test]
fn bundled_templates_compile() {
    for source in [TEMPLATE_SRC, HALF_TEMPLATE, MONTH_TEMPLATE, DAY_TEMPLATE] {
        assert_eq!(check_template(source), Ok(()));
        assert!(ramhorns::Template::new(source).is_ok());
    }
    assert_eq!(check_templates(), Ok(()));
}

#[test]
fn broken_templates_are_reported() {
    assert_eq!(check_template(""), Ok(()));
    assert_eq!(check_template("<p>{{year}}</p>"), Ok(()));
    for source in ["{{/days}}", "{{year", "{{#a}}{{/b}}", "{{}}"] {
        let expected = ramhorns::Template::new(source).err().unwrap().to_string();
        assert_eq!(
            check_template(source),
            Err(CalendarError::Template(expected))
        );
    }
}

#[test]
fn template_outcome_carries_the_fault() {
    assert_eq!(template_outcome(None), Ok(()));
    assert_eq!(
        template_outcome(Some("unclosed tag".to_string())),
        Err(CalendarError::Template("unclosed tag".to_string()))
    );
}
