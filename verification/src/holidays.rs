//! Public holidays from a remote source: where to ask, and what the answer
//! becomes.

use vstd::prelude::*;
use vstd::string::StringExecFns;
use crate::date::Date;
use crate::special::SpecialDay;
use crate::text::{decimal, push_decimal};

verus! {

/// The address under which the public holidays of a country are asked for.
pub const HOLIDAYS_ENDPOINT: &'static str = "https://date.nager.at/api/v3/PublicHolidays/";

/// A public holiday as the remote source names it.
#[derive(Clone, Debug, PartialEq, Eq)]
pub struct NagerHoliday {
    pub date: Date,
    pub local_name: String,
}

/// Why no holidays were had: the text of what went wrong while asking, or
/// while reading the answer.
#[derive(Debug, PartialEq, Eq)]
pub enum HolidayError {
    Fetch(String),
    Parse(String),
}

impl HolidayError {
    /// What the error says to a reader.
    pub open spec fn message_text(self) -> Seq<char> {
        match self {
            HolidayError::Fetch(e) => "failed to fetch holidays: "@ + e@,
            HolidayError::Parse(e) => "failed to parse holidays: "@ + e@,
        }
    }

    /// What the error says to a reader.
    pub fn message(&self) -> (r: String)
        ensures
            r@ == self.message_text(),
    {
        match self {
            HolidayError::Fetch(e) => String::from_str("failed to fetch holidays: ").concat(
                e.as_str(),
            ),
            HolidayError::Parse(e) => String::from_str("failed to parse holidays: ").concat(
                e.as_str(),
            ),
        }
    }
}

/// The address of the public holidays of `year` in the country `code`.
pub open spec fn holidays_url_text(year: int, code: Seq<char>) -> Seq<char> {
    HOLIDAYS_ENDPOINT@ + decimal(year) + "/"@ + code
}

/// The address of the public holidays of `year` in the country
/// `country_code`.
pub fn holidays_url(year: i32, country_code: &str) -> (r: String)
    ensures
        r@ == holidays_url_text(year as int, country_code@),
{
    let mut url = String::from_str(HOLIDAYS_ENDPOINT);
    push_decimal(&mut url, year as i64);
    url.append("/");
    url.append(country_code);
    url
}

/// The place of the first hyphen of `s` at or after `from`, or the length
/// of `s` where there is none.
pub open spec fn hyphen_from(s: Seq<char>, from: int) -> int
    decreases s.len() - from,
{
    if from >= s.len() {
        s.len() as int
    } else if s[from] == '-' {
        from
    } else {
        hyphen_from(s, from + 1)
    }
}

/// The country code of a locale code: what stands between its first hyphen
/// and its second, or its end; `None` where it has no hyphen.
pub open spec fn country_code_text(locale: Seq<char>) -> Option<Seq<char>> {
    let first = hyphen_from(locale, 0);
    if first >= locale.len() {
        None
    } else {
        Some(locale.subrange(first + 1, hyphen_from(locale, first + 1)))
    }
}

/// The country code of a locale code such as `en-GB`, or `None` where the
/// code has no hyphen.
pub fn country_code(locale: &str) -> (r: Option<String>)
    ensures
        match r {
            Some(code) => country_code_text(locale@) == Some(code@),
            None => country_code_text(locale@).is_none(),
        },
{
    let mut hyphens: usize = 0;
    let mut code = String::new();
    let ghost mut first: int = 0;
    for c in it: locale.chars()
        invariant
            it.seq() == locale@,
            hyphens <= 2,
            hyphens == 0 ==> hyphen_from(locale@, 0) == hyphen_from(locale@, it.index()) && code@.len()
                == 0,
            hyphens >= 1 ==> first == hyphen_from(locale@, 0) && 0 <= first < it.index(),
            hyphens == 1 ==> hyphen_from(locale@, first + 1) == hyphen_from(locale@, it.index())
                && code@ == locale@.subrange(first + 1, it.index()),
            hyphens == 2 ==> code@ == locale@.subrange(first + 1, hyphen_from(locale@, first + 1)),
    {
        let ghost k = it.index();
        if hyphens < 2 {
            if c == '-' {
                proof {
                    if hyphens == 0 {
                        first = k;
                    }
                }
                hyphens = hyphens + 1;
            } else if hyphens == 1 {
                code.push(c);
                assert(locale@.subrange(first + 1, k + 1) == locale@.subrange(first + 1, k).push(c));
            }
        }
    }
    if hyphens == 0 {
        None
    } else {
        Some(code)
    }
}

/// The special days that an answer of the remote source becomes: one
/// holiday for each entry, in the same order, under its local name.
pub fn to_special_days(holidays: Vec<NagerHoliday>) -> (r: Vec<SpecialDay>)
    ensures
        r@.len() == holidays@.len(),
        forall|i: int|
            0 <= i < r@.len() ==> {
                &&& (#[trigger] r@[i]).date == holidays@[i].date
                &&& r@[i].name@ == holidays@[i].local_name@
                &&& r@[i].is_holiday
            },
{
    let mut days: Vec<SpecialDay> = Vec::new();
    let mut i: usize = 0;
    while i < holidays.len()
        invariant
            0 <= i <= holidays.len(),
            days@.len() == i,
            forall|k: int|
                0 <= k < i ==> {
                    &&& (#[trigger] days@[k]).date == holidays@[k].date
                    &&& days@[k].name@ == holidays@[k].local_name@
                    &&& days@[k].is_holiday
                },
        decreases holidays.len() - i,
    {
        days.push(
            SpecialDay {
                date: holidays[i].date,
                name: holidays[i].local_name.clone(),
                is_holiday: true,
            },
        );
        i = i + 1;
    }
    days
}

} // verus!
