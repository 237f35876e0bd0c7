//! The bundled templates of the page, and the check that they compile.
//!
//! The templates are mustache templates. They substitute values and leave
//! out what is switched off, and decide nothing: a flag is handed to them as
//! a text that is empty where the flag is off.

use vstd::prelude::*;
use crate::model::{CalendarError, CalendarErrorView};

verus! {

/// The template of the page. `halves` is the markup of the two halves.
pub const TEMPLATE_SRC: &'static str =
    "<!DOCTYPE html>\n<html>\n<head>\n<meta charset=\"utf-8\">\n<title>{{year}}</title>\n<style>\n{{{theme_css}}}\n</style>\n</head>\n<body>\n<div class=\"page\">\n<div class=\"header\">{{year}}</div>{{{halves}}}\n</div>\n</body>\n</html>\n";

/// The template of one half of the year. `months` is the markup of its six
/// months.
pub const HALF_TEMPLATE: &'static str = "\n<div class=\"half\">{{{months}}}\n</div>";

/// The template of one month. `days` is the markup of its days.
pub const MONTH_TEMPLATE: &'static str =
    "\n<div class=\"month\">\n<div class=\"month-name\">{{name}}</div>{{{days}}}\n</div>";

/// The template of one day.
pub const DAY_TEMPLATE: &'static str =
    "\n<div class=\"day{{#is_weekend}} weekend{{/is_weekend}}{{#is_holiday}} holiday{{/is_holiday}}{{#is_month_start}} month-start{{/is_month_start}}{{#is_last_day}} last-day{{/is_last_day}}\"><span class=\"day-number\">{{day_number}}</span><span class=\"weekday\">{{weekday}}</span>{{#is_week_start}}<span class=\"week-number\">{{week_number}}</span>{{/is_week_start}}<span class=\"special-day\">{{holiday_name}}</span></div>";

/// What the template engine finds wrong with a template's source, as text;
/// `None` where the source compiles.
pub uninterp spec fn template_fault(source: Seq<char>) -> Option<Seq<char>>;

/// ramhorns' `Template::new` on `source`, with the text of the error that it
/// gives, or `None` where it accepts the source. The contract claims that the
/// outcome depends on the source alone, and calls it `template_fault`.
#[verifier::external_body]
fn compile_fault(source: &str) -> (r: Option<String>)
    ensures
        match r {
            Some(text) => template_fault(source@) == Some(text@),
            None => template_fault(source@).is_none(),
        },
{
    match ramhorns::Template::new(source) {
        Ok(_) => None,
        Err(e) => Some(e.to_string()),
    }
}

/// Whether `source` is one of the bundled templates.
pub open spec fn is_bundled(source: Seq<char>) -> bool {
    source == TEMPLATE_SRC@ || source == HALF_TEMPLATE@ || source == MONTH_TEMPLATE@ || source
        == DAY_TEMPLATE@
}

/// The first fault among the bundled templates, taken in the order page,
/// half, month, day; `None` where all four compile.
pub open spec fn bundled_fault() -> Option<Seq<char>> {
    if template_fault(TEMPLATE_SRC@).is_some() {
        template_fault(TEMPLATE_SRC@)
    } else if template_fault(HALF_TEMPLATE@).is_some() {
        template_fault(HALF_TEMPLATE@)
    } else if template_fault(MONTH_TEMPLATE@).is_some() {
        template_fault(MONTH_TEMPLATE@)
    } else {
        template_fault(DAY_TEMPLATE@)
    }
}

/// Whether all bundled templates compile.
pub open spec fn templates_compile() -> bool {
    &&& template_fault(TEMPLATE_SRC@).is_none()
    &&& template_fault(HALF_TEMPLATE@).is_none()
    &&& template_fault(MONTH_TEMPLATE@).is_none()
    &&& template_fault(DAY_TEMPLATE@).is_none()
}

/// What a compilation of a template means for the calendar: nothing where
/// it found no fault, otherwise a template error with the fault's text.
pub fn template_outcome(fault: Option<String>) -> (r: Result<(), CalendarError>)
    ensures
        match fault {
            Some(text) => r.is_err() && r.unwrap_err()@ == CalendarErrorView::Template(text@),
            None => r.is_ok(),
        },
{
    match fault {
        Some(text) => Err(CalendarError::Template(text)),
        None => Ok(()),
    }
}

/// Checks that `source` compiles as a template.
pub fn check_template(source: &str) -> (r: Result<(), CalendarError>)
    ensures
        match template_fault(source@) {
            Some(text) => r.is_err() && r.unwrap_err()@ == CalendarErrorView::Template(text),
            None => r.is_ok(),
        },
{
    template_outcome(compile_fault(source))
}

/// Checks that the bundled templates compile, and reports the first that
/// does not.
pub fn check_templates() -> (r: Result<(), CalendarError>)
    ensures
        match bundled_fault() {
            Some(text) => r.is_err() && r.unwrap_err()@ == CalendarErrorView::Template(text),
            None => r.is_ok() && templates_compile(),
        },
{
    match check_template(TEMPLATE_SRC) {
        Err(e) => {
            return Err(e);
        },
        Ok(_) => {},
    }
    match check_template(HALF_TEMPLATE) {
        Err(e) => {
            return Err(e);
        },
        Ok(_) => {},
    }
    match check_template(MONTH_TEMPLATE) {
        Err(e) => {
            return Err(e);
        },
        Ok(_) => {},
    }
    check_template(DAY_TEMPLATE)
}

} // verus!
