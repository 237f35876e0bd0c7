//! A printable yearly calendar as an HTML page: the dates of one Gregorian
//! year, the special days that fall on them, the presentation model of the
//! year in a locale, and the page that the bundled templates make of it.

pub mod date;
pub mod grid;
pub mod holidays;
pub mod locale;
pub mod model;
pub mod render;
pub mod simple;
pub mod special;
pub mod template;
pub mod text;
pub mod theme;

pub use crate::holidays::HolidayError;
pub use crate::model::{generate_calendar, CalendarError, CalendarParams};
pub use crate::special::SpecialDay;
pub use crate::template::TEMPLATE_SRC;
