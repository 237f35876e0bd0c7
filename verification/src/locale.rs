//! Locales: the codes that the localisation backend knows, and the names of
//! weekdays and months in them.

use vstd::prelude::*;
use crate::date::{valid_ymd, Date};
use crate::text::replaced;

verus! {

/// Whether the localisation backend has a locale of this name, written with
/// an underscore between language and region (`en_GB`).
pub uninterp spec fn locale_known(code: Seq<char>) -> bool;

/// What the backend writes for the given day in the locale named `code`
/// under a `strftime` pattern.
pub uninterp spec fn localized_date_text(
    code: Seq<char>,
    pattern: Seq<char>,
    year: int,
    month: int,
    day: int,
) -> Seq<char>;

/// The full name of the weekday of the given day in the locale named `code`.
pub open spec fn localized_weekday_name(code: Seq<char>, year: int, month: int, day: int) -> Seq<
    char,
> {
    localized_date_text(code, "%A"@, year, month, day)
}

/// The full name of the given month in the locale named `code`.
pub open spec fn localized_month_name(code: Seq<char>, year: int, month: int) -> Seq<char> {
    localized_date_text(code, "%B"@, year, month, 1)
}

/// The locale code with every hyphen replaced by an underscore.
pub open spec fn normalized_locale(code: Seq<char>) -> Seq<char> {
    Seq::new(
        code.len(),
        |i: int|
            if code[i] == '-' {
                '_'
            } else {
                code[i]
            },
    )
}

/// Normalising a locale code is replacing each hyphen by an underscore.
pub proof fn lemma_normalized_is_replacing(code: Seq<char>)
    ensures
        normalized_locale(code) == replaced(code, '-', seq!['_']),
    decreases code.len(),
{
    if code.len() > 0 {
        lemma_normalized_is_replacing(code.drop_last());
        assert(normalized_locale(code) == normalized_locale(code.drop_last()).push(
            if code.last() == '-' {
                '_'
            } else {
                code.last()
            },
        ));
    } else {
        assert(normalized_locale(code) == Seq::<char>::empty());
    }
}

/// A locale of the localisation backend, held by its code.
#[derive(Clone, Debug, PartialEq, Eq)]
pub struct Locale {
    pub code: String,
}

/// `str::parse` to a `chrono::Locale`, which matches the text against the
/// names of the locales that the backend was built with. The contract claims
/// that whether it succeeds depends on the text alone, and calls that
/// `locale_known`.
#[verifier::external_body]
fn locale_exists(code: &str) -> (r: bool)
    ensures
        r == locale_known(code@),
{
    code.parse::<chrono::Locale>().is_ok()
}

/// chrono's `NaiveDate::format_localized`, written out as a string, for the
/// given day, pattern and locale. The contract claims that the text depends
/// on these alone, and calls it `localized_date_text`. The caller gives a
/// locale that the backend knows, a day of the calendar, and one of the
/// patterns `%A`, the full weekday name, and `%B`, the full month name,
/// which the formatter accepts.
#[verifier::external_body]
fn format_localized(code: &str, pattern: &str, year: i32, month: u32, day: u32) -> (r: String)
    requires
        locale_known(code@),
        valid_ymd(year as int, month as int, day as int),
        pattern@ == "%A"@ || pattern@ == "%B"@,
    ensures
        r@ == localized_date_text(code@, pattern@, year as int, month as int, day as int),
{
    let locale = code.parse::<chrono::Locale>().unwrap();
    let date = chrono::NaiveDate::from_ymd_opt(year, month, day).unwrap();
    date.format_localized(pattern, locale).to_string()
}

/// Replaces every hyphen of a locale code by an underscore, the form in
/// which the backend names its locales.
pub fn normalize_locale(code: &str) -> (r: String)
    ensures
        r@ == normalized_locale(code@),
{
    let mut out = String::new();
    for c in it: code.chars()
        invariant
            it.seq() == code@,
            out@ == normalized_locale(code@).take(it.index()),
    {
        proof {
            let k = it.index();
            assert(normalized_locale(code@).take(k + 1) == normalized_locale(code@).take(k).push(
                if code@[k] == '-' {
                    '_'
                } else {
                    code@[k]
                },
            ));
        }
        if c == '-' {
            out.push('_');
        } else {
            out.push(c);
        }
    }
    proof {
        assert(normalized_locale(code@).take(code@.len() as int) == normalized_locale(code@));
    }
    out
}

/// Decides what a locale code gives once the backend has said whether it
/// knows the normalised code: the locale, or nothing.
pub fn locale_from_lookup(normalized: String, known: bool) -> (r: Option<Locale>)
    ensures
        r.is_some() <==> known,
        r.is_some() ==> r.unwrap().code@ == normalized@,
{
    if known {
        Some(Locale { code: normalized })
    } else {
        None
    }
}

impl Locale {
    /// Whether the backend knows this locale.
    pub open spec fn known(&self) -> bool {
        locale_known(self.code@)
    }

    /// The locale named by a language-region code such as `en-GB`, or `None`
    /// where the backend has no locale of that name.
    pub fn parse(code: &str) -> (r: Option<Locale>)
        ensures
            r.is_some() <==> locale_known(normalized_locale(code@)),
            r.is_some() ==> r.unwrap().code@ == normalized_locale(code@),
    {
        let normalized = normalize_locale(code);
        let known = locale_exists(normalized.as_str());
        locale_from_lookup(normalized, known)
    }

    /// Whether the backend knows this locale.
    pub fn is_known(&self) -> (r: bool)
        ensures
            r == self.known(),
    {
        locale_exists(self.code.as_str())
    }

    /// The full name of the weekday of `date` in this locale.
    pub fn weekday_name(&self, date: Date) -> (r: String)
        requires
            self.known(),
            date.valid(),
        ensures
            r@ == localized_weekday_name(
                self.code@,
                date.year as int,
                date.month as int,
                date.day as int,
            ),
    {
        format_localized(self.code.as_str(), "%A", date.year, date.month, date.day)
    }

    /// The full name of `month` of `year` in this locale.
    pub fn month_name(&self, year: i32, month: u32) -> (r: String)
        requires
            self.known(),
            valid_ymd(year as int, month as int, 1),
        ensures
            r@ == localized_month_name(self.code@, year as int, month as int),
    {
        format_localized(self.code.as_str(), "%B", year, month, 1)
    }
}

} // verus!
