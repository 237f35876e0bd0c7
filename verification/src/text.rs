//! Text helpers: escaping for HTML, capitalisation, truncation, joining.

use vstd::prelude::*;

verus! {

/// std's `String::push`: the string afterwards is the string before with
/// `c` as one more character at its end.
pub assume_specification[ String::push ](s: &mut String, c: char)
    ensures
        final(s)@ == old(s)@.push(c),
;

/// What one character becomes inside HTML text or an attribute value.
pub open spec fn escape_char(c: char) -> Seq<char> {
    if c == '&' {
        seq!['&', 'a', 'm', 'p', ';']
    } else if c == '<' {
        seq!['&', 'l', 't', ';']
    } else if c == '>' {
        seq!['&', 'g', 't', ';']
    } else if c == '"' {
        seq!['&', 'q', 'u', 'o', 't', ';']
    } else {
        seq![c]
    }
}

/// The text with each of `&`, `<`, `>` and `"` replaced by its entity.
pub open spec fn escape_html(s: Seq<char>) -> Seq<char>
    decreases s.len(),
{
    if s.len() == 0 {
        Seq::empty()
    } else {
        escape_html(s.drop_last()) + escape_char(s.last())
    }
}

/// The text with each `from` replaced by the text `to`.
pub open spec fn replaced(s: Seq<char>, from: char, to: Seq<char>) -> Seq<char>
    decreases s.len(),
{
    if s.len() == 0 {
        Seq::empty()
    } else {
        replaced(s.drop_last(), from, to) + (if s.last() == from {
            to
        } else {
            seq![s.last()]
        })
    }
}

/// Replacing in two texts one after the other is replacing in the two
/// joined.
pub proof fn lemma_replaced_concat(a: Seq<char>, b: Seq<char>, from: char, to: Seq<char>)
    ensures
        replaced(a + b, from, to) == replaced(a, from, to) + replaced(b, from, to),
    decreases b.len(),
{
    if b.len() == 0 {
        assert(a + b == a);
    } else {
        assert((a + b).drop_last() == a + b.drop_last());
        lemma_replaced_concat(a, b.drop_last(), from, to);
    }
}

/// A text without `from` stays as it is.
pub proof fn lemma_replaced_without(s: Seq<char>, from: char, to: Seq<char>)
    requires
        forall|i: int| 0 <= i < s.len() ==> s[i] != from,
    ensures
        replaced(s, from, to) == s,
    decreases s.len(),
{
    if s.len() > 0 {
        lemma_replaced_without(s.drop_last(), from, to);
        assert(s.drop_last().push(s.last()) == s);
    }
}

/// The four replacements in turn, `&` first.
pub open spec fn replaced_in_turn(s: Seq<char>) -> Seq<char> {
    replaced(
        replaced(
            replaced(replaced(s, '&', escape_char('&')), '<', escape_char('<')),
            '>',
            escape_char('>'),
        ),
        '"',
        escape_char('"'),
    )
}

/// Escaping is replacing `&`, then `<`, then `>`, then `"`, each in the
/// whole text: no replacement brings in a character that a later one looks
/// for.
pub proof fn lemma_escape_is_replacing_in_turn(s: Seq<char>)
    ensures
        escape_html(s) == replaced_in_turn(s),
    decreases s.len(),
{
    if s.len() > 0 {
        let head = s.drop_last();
        let c = s.last();
        lemma_escape_is_replacing_in_turn(head);
        let amp = escape_char('&');
        let lt = escape_char('<');
        let gt = escape_char('>');
        let quot = escape_char('"');
        let one: Seq<char> = if c == '&' {
            amp
        } else {
            seq![c]
        };
        let h1 = replaced(head, '&', amp);
        let two = replaced(one, '<', lt);
        let h2 = replaced(h1, '<', lt);
        let three = replaced(two, '>', gt);
        let h3 = replaced(h2, '>', gt);
        let four = replaced(three, '"', quot);
        assert(replaced(s, '&', amp) == h1 + one);
        lemma_replaced_concat(h1, one, '<', lt);
        lemma_replaced_concat(h2, two, '>', gt);
        lemma_replaced_concat(h3, three, '"', quot);
        assert(four == escape_char(c)) by {
            if c == '&' {
                lemma_replaced_without(amp, '<', lt);
                lemma_replaced_without(amp, '>', gt);
                lemma_replaced_without(amp, '"', quot);
            } else if c == '<' {
                assert(seq![c].drop_last() == Seq::<char>::empty());
                assert(two == lt) by {
                    reveal_with_fuel(replaced, 2);
                }
                lemma_replaced_without(lt, '>', gt);
                lemma_replaced_without(lt, '"', quot);
            } else if c == '>' {
                lemma_replaced_without(one, '<', lt);
                assert(seq![c].drop_last() == Seq::<char>::empty());
                assert(three == gt) by {
                    reveal_with_fuel(replaced, 2);
                }
                lemma_replaced_without(gt, '"', quot);
            } else if c == '"' {
                lemma_replaced_without(one, '<', lt);
                lemma_replaced_without(one, '>', gt);
                assert(seq![c].drop_last() == Seq::<char>::empty());
                assert(four == quot) by {
                    reveal_with_fuel(replaced, 2);
                }
            } else {
                lemma_replaced_without(one, '<', lt);
                lemma_replaced_without(one, '>', gt);
                lemma_replaced_without(one, '"', quot);
            }
        }
    }
}

/// Escapes `&`, `<`, `>` and `"` for use in HTML.
pub fn html_escape(s: &str) -> (r: String)
    ensures
        r@ == escape_html(s@),
{
    let mut out = String::new();
    for c in it: s.chars()
        invariant
            it.seq() == s@,
            out@ == escape_html(s@.take(it.index())),
    {
        proof {
            let k = it.index();
            assert(s@.take(k + 1).drop_last() == s@.take(k));
            reveal_strlit("&amp;");
            reveal_strlit("&lt;");
            reveal_strlit("&gt;");
            reveal_strlit("&quot;");
        }
        if c == '&' {
            out.append("&amp;");
        } else if c == '<' {
            out.append("&lt;");
        } else if c == '>' {
            out.append("&gt;");
        } else if c == '"' {
            out.append("&quot;");
        } else {
            out.push(c);
        }
    }
    proof {
        assert(s@.take(s@.len() as int) == s@);
    }
    out
}

/// The uppercase form of one character in Unicode, which may be more than
/// one character long.
pub uninterp spec fn char_to_uppercase(c: char) -> Seq<char>;

/// std's `char::to_uppercase`, collected into a string. The contract claims
/// that the characters that come out depend on `c` alone, and calls them
/// `char_to_uppercase(c)`.
#[verifier::external_body]
fn uppercase_of(c: char) -> (r: String)
    ensures
        r@ == char_to_uppercase(c),
{
    c.to_uppercase().collect()
}

/// The text with its first character in uppercase; the empty text stays empty.
pub open spec fn capitalized(s: Seq<char>) -> Seq<char> {
    if s.len() == 0 {
        Seq::empty()
    } else {
        char_to_uppercase(s[0]) + s.skip(1)
    }
}

/// Takes the uppercase form of the first character and `rest`, the text
/// after it, and gives the capitalised text.
pub fn with_uppercase_first(upper: &str, rest: &str) -> (r: String)
    ensures
        r@ == upper@ + rest@,
{
    let mut out = String::new();
    out.append(upper);
    out.append(rest);
    out
}

/// Puts the first character of `s` in uppercase, by Unicode's rules.
pub fn capitalize_first(s: &str) -> (r: String)
    ensures
        r@ == capitalized(s@),
{
    let mut upper = String::new();
    let mut rest = String::new();
    let mut first = true;
    for c in it: s.chars()
        invariant
            it.seq() == s@,
            first == (it.index() == 0),
            !first ==> upper@ == char_to_uppercase(s@[0]),
            first ==> upper@.len() == 0 && rest@.len() == 0,
            !first ==> rest@ == s@.subrange(1, it.index()),
    {
        proof {
            let k = it.index();
            if k > 0 {
                assert(s@.subrange(1, k + 1) == s@.subrange(1, k).push(s@[k]));
            } else {
                assert(s@.subrange(1, 1) == Seq::<char>::empty());
            }
        }
        if first {
            upper = uppercase_of(c);
            first = false;
        } else {
            rest.push(c);
        }
    }
    proof {
        if s@.len() > 0 {
            assert(s@.subrange(1, s@.len() as int) == s@.skip(1));
        } else {
            assert(upper@ + rest@ == Seq::<char>::empty());
        }
    }
    with_uppercase_first(upper.as_str(), rest.as_str())
}

/// The first `n` characters of the text, or all of it where it is shorter.
pub open spec fn prefix_chars(s: Seq<char>, n: nat) -> Seq<char> {
    if n <= s.len() {
        s.take(n as int)
    } else {
        s
    }
}

/// Keeps the first `n` characters of `s`.
pub fn first_chars(s: &str, n: usize) -> (r: String)
    ensures
        r@ == prefix_chars(s@, n as nat),
{
    let mut out = String::new();
    let mut kept: usize = 0;
    for c in it: s.chars()
        invariant
            it.seq() == s@,
            kept <= n,
            kept == (if it.index() <= n { it.index() } else { n as int }),
            out@ == prefix_chars(s@.take(it.index()), n as nat),
    {
        proof {
            let k = it.index();
            if k < n {
                assert(s@.take(k + 1) == s@.take(k).push(s@[k]));
            } else {
                assert(s@.take(k + 1).take(n as int) == s@.take(k).take(n as int));
            }
        }
        if kept < n {
            out.push(c);
            kept = kept + 1;
        }
    }
    proof {
        assert(s@.take(s@.len() as int) == s@);
    }
    out
}

/// The character that stands for one decimal digit.
pub open spec fn digit_char(d: int) -> char {
    if d == 0 {
        '0'
    } else if d == 1 {
        '1'
    } else if d == 2 {
        '2'
    } else if d == 3 {
        '3'
    } else if d == 4 {
        '4'
    } else if d == 5 {
        '5'
    } else if d == 6 {
        '6'
    } else if d == 7 {
        '7'
    } else if d == 8 {
        '8'
    } else {
        '9'
    }
}

/// The decimal digits of a natural number, without leading zeros.
pub open spec fn decimal_digits(n: nat) -> Seq<char>
    decreases n,
{
    if n < 10 {
        seq![digit_char(n as int)]
    } else {
        decimal_digits(n / 10).push(digit_char((n % 10) as int))
    }
}

/// The decimal text of an integer, with a minus sign where it is negative.
pub open spec fn decimal(n: int) -> Seq<char> {
    if n < 0 {
        seq!['-'] + decimal_digits((-n) as nat)
    } else {
        decimal_digits(n as nat)
    }
}

fn digit_of(d: u64) -> (c: char)
    requires
        d < 10,
    ensures
        c == digit_char(d as int),
{
    if d == 0 {
        '0'
    } else if d == 1 {
        '1'
    } else if d == 2 {
        '2'
    } else if d == 3 {
        '3'
    } else if d == 4 {
        '4'
    } else if d == 5 {
        '5'
    } else if d == 6 {
        '6'
    } else if d == 7 {
        '7'
    } else if d == 8 {
        '8'
    } else {
        '9'
    }
}

/// Appends the decimal digits of `n` to `out`.
pub fn push_decimal_digits(out: &mut String, n: u64)
    ensures
        final(out)@ == old(out)@ + decimal_digits(n as nat),
    decreases n,
{
    if n >= 10 {
        push_decimal_digits(out, n / 10);
    }
    out.push(digit_of(n % 10));
}

/// Appends the decimal text of `n` to `out`.
pub fn push_decimal(out: &mut String, n: i64)
    ensures
        final(out)@ == old(out)@ + decimal(n as int),
{
    if n < 0 {
        out.push('-');
        let m: u64 = if n == i64::MIN {
            9223372036854775808u64
        } else {
            (-n) as u64
        };
        push_decimal_digits(out, m);
    } else {
        push_decimal_digits(out, n as u64);
    }
}

/// The decimal text of `n`.
pub fn decimal_string(n: i64) -> (r: String)
    ensures
        r@ == decimal(n as int),
{
    let mut out = String::new();
    push_decimal(&mut out, n);
    out
}

} // verus!
