//! The bundled themes, and the values that a request takes where it names
//! none.

use vstd::prelude::*;
use vstd::string::StringExecFns;

verus! {

/// The stylesheet of the theme `minimalist`.
pub const MINIMALIST_CSS: &'static str =
    "@page { size: A4 portrait; margin: 8mm; }\n* { margin: 0; padding: 0; box-sizing: border-box; }\n.page { display: flex; flex-direction: column; }\n.header { font-size: 16pt; font-weight: 700; }\n.half { flex: 1; display: grid; grid-template-columns: repeat(6, 1fr); }\n.month { display: flex; flex-direction: column; }\n.day { flex: 1; display: flex; align-items: center; gap: 1mm; white-space: nowrap; }\n.week-number, .special-day { font-size: 6pt; }\nbody { font-family: Helvetica, Arial, sans-serif; color: #222; }\n.month-name { font-weight: 700; border-bottom: 1px solid #444; }\n.day { border-bottom: 1px solid #ddd; }\n.weekend, .holiday { color: #cc0000; }\n.week-number { color: #999; }\n";

/// The stylesheet of the theme `retro`.
pub const RETRO_CSS: &'static str =
    "@page { size: A4 portrait; margin: 8mm; }\n* { margin: 0; padding: 0; box-sizing: border-box; }\n.page { display: flex; flex-direction: column; }\n.header { font-size: 16pt; font-weight: 700; }\n.half { flex: 1; display: grid; grid-template-columns: repeat(6, 1fr); }\n.month { display: flex; flex-direction: column; }\n.day { flex: 1; display: flex; align-items: center; gap: 1mm; white-space: nowrap; }\n.week-number, .special-day { font-size: 6pt; }\nbody { font-family: \"Courier New\", Courier, monospace; color: #3b2f2f; background: #fdf6e3; }\n.month-name { font-weight: 700; text-transform: uppercase; border-bottom: 2px solid #3b2f2f; }\n.day { border-bottom: 1px dashed #b8a88a; }\n.weekend, .holiday { color: #a0522d; }\n.week-number { color: #b8a88a; }\n";

/// The stylesheet of the theme `contemporary`.
pub const CONTEMPORARY_CSS: &'static str =
    "@page { size: A4 portrait; margin: 8mm; }\n* { margin: 0; padding: 0; box-sizing: border-box; }\n.page { display: flex; flex-direction: column; }\n.header { font-size: 16pt; font-weight: 700; }\n.half { flex: 1; display: grid; grid-template-columns: repeat(6, 1fr); }\n.month { display: flex; flex-direction: column; }\n.day { flex: 1; display: flex; align-items: center; gap: 1mm; white-space: nowrap; }\n.week-number, .special-day { font-size: 6pt; }\nbody { font-family: \"Segoe UI\", Roboto, sans-serif; color: #1f2933; }\n.month-name { font-weight: 600; color: #ffffff; background: #3e4c59; }\n.day { border-bottom: 1px solid #e4e7eb; }\n.weekend, .holiday { background: #ffe3e3; color: #ab091e; }\n.week-number { color: #7b8794; }\n";

/// A bundled theme.
#[derive(Clone, Copy, Debug, PartialEq, Eq, Structural)]
pub enum Theme {
    Minimalist,
    Retro,
    Contemporary,
}

/// Whether two texts hold the same characters.
pub fn same_text(a: &str, b: &str) -> (r: bool)
    ensures
        r == (a@ == b@),
{
    String::from_str(a) == String::from_str(b)
}

impl Theme {
    /// The name by which a request asks for the theme.
    pub open spec fn name(self) -> Seq<char> {
        match self {
            Theme::Minimalist => "minimalist"@,
            Theme::Retro => "retro"@,
            Theme::Contemporary => "contemporary"@,
        }
    }

    /// The stylesheet of the theme.
    pub open spec fn stylesheet(self) -> Seq<char> {
        match self {
            Theme::Minimalist => MINIMALIST_CSS@,
            Theme::Retro => RETRO_CSS@,
            Theme::Contemporary => CONTEMPORARY_CSS@,
        }
    }

    /// The theme of the given name, or `None` where no theme has that name.
    pub fn from_str(s: &str) -> (r: Option<Theme>)
        ensures
            match r {
                Some(theme) => theme.name() == s@,
                None => forall|theme: Theme| theme.name() != s@,
            },
    {
        if same_text(s, "minimalist") {
            Some(Theme::Minimalist)
        } else if same_text(s, "retro") {
            Some(Theme::Retro)
        } else if same_text(s, "contemporary") {
            Some(Theme::Contemporary)
        } else {
            None
        }
    }

    /// The stylesheet of the theme.
    pub fn css(&self) -> (r: &'static str)
        ensures
            r@ == self.stylesheet(),
    {
        match self {
            Theme::Minimalist => MINIMALIST_CSS,
            Theme::Retro => RETRO_CSS,
            Theme::Contemporary => CONTEMPORARY_CSS,
        }
    }
}

/// The stylesheet of the theme named `name`, or `None` where no theme has
/// that name.
pub fn resolve_theme(name: &str) -> (r: Option<&'static str>)
    ensures
        match r {
            Some(css) => exists|theme: Theme| theme.name() == name@ && css@ == theme.stylesheet(),
            None => forall|theme: Theme| theme.name() != name@,
        },
{
    match Theme::from_str(name) {
        Some(theme) => Some(theme.css()),
        None => None,
    }
}

/// The locale of a request that names none.
pub fn default_locale() -> (r: String)
    ensures
        r@ == "en-GB"@,
{
    String::from_str("en-GB")
}

/// The theme of a request that names none.
pub fn default_theme() -> (r: String)
    ensures
        r@ == "minimalist"@,
        Theme::Minimalist.name() == r@,
{
    String::from_str("minimalist")
}

/// The number of characters of a weekday's name that a request shows where
/// it gives no number.
pub fn default_day_name_characters() -> (r: usize)
    ensures
        r == 1,
{
    1
}

} // verus!
