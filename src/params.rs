//! Decoding of the request parameters, each with an explicit fallback.

use vstd::prelude::*;
use base64::Engine;
use crate::window::opt_view;

verus! {

broadcast use vstd::string::next_postcondition, vstd::string::axiom_spec_iter;

/// Scans `s` from the left; the first component holds the non-empty pieces
/// already closed by a comma, the second the piece still open.
pub open spec fn comma_scan(s: Seq<char>) -> (Seq<Seq<char>>, Seq<char>)
    decreases s.len(),
{
    if s.len() == 0 {
        (Seq::empty(), Seq::empty())
    } else {
        let (done, cur) = comma_scan(s.drop_last());
        if s.last() == ',' {
            (if cur.len() > 0 { done.push(cur) } else { done }, Seq::empty())
        } else {
            (done, cur.push(s.last()))
        }
    }
}

/// The pieces of `s` between commas, with empty pieces dropped.
pub open spec fn comma_list(s: Seq<char>) -> Seq<Seq<char>> {
    let (done, cur) = comma_scan(s);
    if cur.len() > 0 {
        done.push(cur)
    } else {
        done
    }
}

/// Splits a comma-separated list, dropping empty entries.
pub fn split_list(s: &str) -> (r: Vec<String>)
    ensures
        r@.map_values(|x: String| x@) == comma_list(s@),
{
    let n = s.unicode_len();
    let mut out: Vec<String> = Vec::new();
    let mut start: usize = 0;
    let mut i: usize = 0;
    while i < n
        invariant
            n == s@.len(),
            start <= i <= n,
            comma_scan(s@.take(i as int)) == (
            out@.map_values(|x: String| x@),
            s@.subrange(start as int, i as int),
            ),
        decreases n - i,
    {
        let c = s.get_char(i);
        proof {
            assert(s@.take(i + 1).drop_last() == s@.take(i as int));
            assert(s@.subrange(start as int, i + 1) == s@.subrange(start as int, i as int).push(c));
        }
        if c == ',' {
            if start < i {
                let piece = String::from_str(s.substring_char(start, i));
                let ghost prev = out@;
                out.push(piece);
                proof {
                    assert(out@.map_values(|x: String| x@) =~= prev.map_values(|x: String| x@).push(piece@));
                }
            }
            start = i + 1;
        }
        i = i + 1;
    }
    proof {
        assert(s@.take(n as int) == s@);
    }
    if start < n {
        out.push(String::from_str(s.substring_char(start, n)));
    }
    proof {
        assert(out@.map_values(|x: String| x@) =~= comma_list(s@));
    }
    out
}

/// An ASCII decimal digit.
pub open spec fn is_digit(c: char) -> bool {
    '0' <= c <= '9'
}

/// The value of a sequence of decimal digits.
pub open spec fn digits_value(s: Seq<char>) -> int
    decreases s.len(),
{
    if s.len() == 0 {
        0
    } else {
        digits_value(s.drop_last()) * 10 + ((s.last() as u32) - ('0' as u32))
    }
}

/// The `i64` a text spells: an optional `+` or `-`, then one or more decimal
/// digits, with a value in the range of `i64`.
pub open spec fn decimal_i64(s: Seq<char>) -> Option<i64> {
    let signed = s.len() > 0 && (s[0] == '-' || s[0] == '+');
    let digits = if signed {
        s.drop_first()
    } else {
        s
    };
    let v = if s.len() > 0 && s[0] == '-' {
        -digits_value(digits)
    } else {
        digits_value(digits)
    };
    if digits.len() > 0 && (forall|i: int| 0 <= i < digits.len() ==> is_digit(#[trigger] digits[i]))
        && i64::MIN <= v <= i64::MAX {
        Some(v as i64)
    } else {
        None
    }
}

/// Relies on `str::parse::<i64>`: an optional sign followed by decimal digits,
/// an error on any other character or on a value out of range.
#[verifier::external_body]
fn parse_i64(s: &str) -> (r: Option<i64>)
    ensures
        r == decimal_i64(s@),
{
    s.parse::<i64>().ok()
}

/// An optional integer parameter, with `default` where it is absent or not an integer.
pub open spec fn int_or(text: Option<Seq<char>>, default: i64) -> i64 {
    match text {
        Some(t) => match decimal_i64(t) {
            Some(v) => v,
            None => default,
        },
        None => default,
    }
}

/// Reads an optional integer parameter, falling back to `default`.
pub fn parse_int_or(text: &Option<String>, default: i64) -> (r: i64)
    ensures
        r == int_or(opt_view(*text), default),
{
    match text {
        Some(t) => match parse_i64(t.as_str()) {
            Some(v) => v,
            None => default,
        },
        None => default,
    }
}

/// The bytes that URL-safe base64 text encodes, when it is valid.
pub uninterp spec fn url_safe_decoded(s: Seq<char>) -> Option<Seq<u8>>;

/// Relies on base64's `URL_SAFE` engine and its `decode`: the bytes of URL-safe,
/// padded base64 text.
#[verifier::external_body]
fn decode_url_safe(s: &str) -> (r: Option<Vec<u8>>)
    ensures
        match r {
            Some(b) => url_safe_decoded(s@) == Some(b@),
            None => url_safe_decoded(s@) is None,
        },
{
    base64::engine::general_purpose::URL_SAFE.decode(s).ok()
}

/// The text that bytes encode, when they are UTF-8.
pub uninterp spec fn utf8_text(b: Seq<u8>) -> Option<Seq<char>>;

/// Relies on `String::from_utf8`: the text of UTF-8 bytes.
#[verifier::external_body]
fn text_of_utf8(b: Vec<u8>) -> (r: Option<String>)
    ensures
        opt_view(r) == utf8_text(b@),
{
    String::from_utf8(b).ok()
}

/// The text that a parameter in URL-safe base64 stands for, if it decodes.
pub open spec fn decoded_text(s: Seq<char>) -> Option<Seq<char>> {
    match url_safe_decoded(s) {
        Some(b) => utf8_text(b),
        None => None,
    }
}

/// Decodes a parameter sent as URL-safe base64 text.
pub fn decode_param(s: &str) -> (r: Option<String>)
    ensures
        opt_view(r) == decoded_text(s@),
{
    match decode_url_safe(s) {
        Some(b) => text_of_utf8(b),
        None => None,
    }
}

/// A character with the Unicode `White_Space` property.
pub open spec fn is_white_space(c: char) -> bool {
    ('\u{9}' <= c <= '\u{d}') || c == ' ' || c == '\u{85}' || c == '\u{a0}' || c == '\u{1680}'
        || ('\u{2000}' <= c <= '\u{200a}') || c == '\u{2028}' || c == '\u{2029}' || c
        == '\u{202f}' || c == '\u{205f}' || c == '\u{3000}'
}

/// `t` is `s` without its leading and trailing whitespace.
pub open spec fn is_trim_of(t: Seq<char>, s: Seq<char>) -> bool {
    exists|i: int, j: int|
        0 <= i <= j <= s.len() && t == s.subrange(i, j) && (forall|k: int|
            0 <= k < i ==> is_white_space(#[trigger] s[k])) && (forall|k: int|
            j <= k < s.len() ==> is_white_space(#[trigger] s[k])) && (i < j ==> !is_white_space(
            s[i],
        ) && !is_white_space(s[j - 1]))
}

/// Relies on `str::trim`: the text without leading and trailing `White_Space` characters.
#[verifier::external_body]
fn trim(s: &str) -> (r: String)
    ensures
        is_trim_of(r@, s@),
{
    s.trim().to_string()
}

/// What is appended to a transform expression that lacks its terminator.
pub open spec fn terminator() -> Seq<char> {
    seq![' ', '\n', ' ', '.']
}

/// The last character of `e` that is not whitespace is the terminator `.`.
pub open spec fn ends_with_terminator(e: Seq<char>) -> bool {
    exists|k: int|
        0 <= k < e.len() && e[k] == '.' && forall|m: int|
            k < m < e.len() ==> is_white_space(#[trigger] e[m])
}

/// A transform expression that ends, past trailing whitespace, in its terminator
/// `.` is kept; any other gets `" \n ."` appended.
pub open spec fn normalized_transform(e: Seq<char>) -> Seq<char> {
    if ends_with_terminator(e) {
        e
    } else {
        e + terminator()
    }
}

/// Makes a transform expression end in its terminator.
pub fn normalize_transform(expr: String) -> (r: String)
    ensures
        r@ == normalized_transform(expr@),
{
    let t = trim(expr.as_str());
    let n = t.as_str().unicode_len();
    let ends = n > 0 && t.as_str().get_char(n - 1) == '.';
    proof {
        let e = expr@;
        let (i, j) = choose|i: int, j: int|
            0 <= i <= j <= e.len() && t@ == e.subrange(i, j) && (forall|k: int|
                0 <= k < i ==> is_white_space(#[trigger] e[k])) && (forall|k: int|
                j <= k < e.len() ==> is_white_space(#[trigger] e[k])) && (i < j
                ==> !is_white_space(e[i]) && !is_white_space(e[j - 1]));
        if ends {
            assert(e[j - 1] == t@[n - 1]);
            assert(ends_with_terminator(e));
        } else if ends_with_terminator(e) {
            let k = choose|k: int|
                0 <= k < e.len() && e[k] == '.' && forall|m: int|
                    k < m < e.len() ==> is_white_space(#[trigger] e[m]);
            assert(!is_white_space(e[k]));
            assert(k < j);
            assert(i <= k);
            if j - 1 > k {
                assert(is_white_space(e[j - 1]));
            }
            assert(t@[n - 1] == e[j - 1]);
        }
    }
    if ends {
        expr
    } else {
        proof {
            reveal_strlit(" \n .");
        }
        expr.concat(" \n .")
    }
}

/// The SQL used where the request gives none: every record of the stream.
pub open spec fn default_sql(stream: Seq<char>) -> Seq<char> {
    seq!['S', 'E', 'L', 'E', 'C', 'T', ' ', '*', ' ', 'F', 'R', 'O', 'M', ' ', '"'] + stream + seq![
        '"',
        ' ',
    ]
}

/// Builds `SELECT * FROM "<stream>" `.
pub fn build_default_sql(stream: &str) -> (r: String)
    ensures
        r@ == default_sql(stream@),
{
    proof {
        reveal_strlit("SELECT * FROM \"");
        reveal_strlit("\" ");
    }
    String::from_str("SELECT * FROM \"").concat(stream).concat("\" ")
}

} // verus!
