//! The calls that the server makes into std and into outside crates, each with
//! the contract that the callee's documentation or source gives it. Nothing
//! here is proved; everything else in the crate is proved against these
//! contracts.

use vstd::prelude::*;
use vstd::utf8::{decode_utf8, valid_utf8};

verus! {

/// Whether `c` is an ASCII decimal digit.
pub open spec fn is_digit(c: char) -> bool {
    '0' <= c <= '9'
}

/// The value of a non-empty run of decimal digits.
pub open spec fn digits_value(s: Seq<char>) -> int
    decreases s.len(),
{
    if s.len() == 0 {
        0
    } else {
        digits_value(s.drop_last()) * 10 + (s.last() as int - '0' as int)
    }
}

/// The integer written by `s`: an optional `+` or `-` sign, then one or more
/// decimal digits, and nothing else.
pub open spec fn integer_literal(s: Seq<char>) -> Option<int> {
    let signed = s.len() > 0 && (s[0] == '+' || s[0] == '-');
    let digits = if signed {
        s.drop_first()
    } else {
        s
    };
    if digits.len() > 0 && forall|i: int| 0 <= i < digits.len() ==> is_digit(#[trigger] digits[i]) {
        Some(
            if signed && s[0] == '-' {
                -digits_value(digits)
            } else {
                digits_value(digits)
            },
        )
    } else {
        None
    }
}

/// The `i64` written by `s`, where `s` writes an integer within its range.
pub open spec fn i64_literal(s: Seq<char>) -> Option<i64> {
    match integer_literal(s) {
        Some(v) => if i64::MIN <= v <= i64::MAX {
            Some(v as i64)
        } else {
            None
        },
        None => None,
    }
}

/// The boolean written by `s`: exactly `true` or `false`.
pub open spec fn flag_literal(s: Seq<char>) -> Option<bool> {
    if s == "true"@ {
        Some(true)
    } else if s == "false"@ {
        Some(false)
    } else {
        None
    }
}

/// Whether `c` is a lowercase hexadecimal digit.
pub open spec fn is_lower_hex(c: char) -> bool {
    ('0' <= c <= '9') || ('a' <= c <= 'f')
}

/// Whether `s` is a version-4 UUID in hyphenated lowercase form, such as
/// `67e55044-10b1-426f-9247-bb680e5fe0c8`.
pub open spec fn is_hyphenated_v4_uuid(s: Seq<char>) -> bool {
    &&& s.len() == 36
    &&& forall|i: int|
        0 <= i < 36 ==> if i == 8 || i == 13 || i == 18 || i == 23 {
            s[i] == '-'
        } else {
            is_lower_hex(#[trigger] s[i])
        }
    &&& s[14] == '4'
}

/// The text with which std's `ParseIntError` describes why `text` is not an
/// `i64`.
pub uninterp spec fn integer_error_text(text: Seq<char>) -> Seq<char>;

/// The text that std's `Debug` formatting gives a list of strings.
pub uninterp spec fn debug_list_text(items: Seq<Seq<char>>) -> Seq<char>;

/// The (name, value) pairs that `url::form_urlencoded::parse` reads from a
/// query string.
pub uninterp spec fn form_pairs(query: Seq<char>) -> Seq<(Seq<char>, Seq<char>)>;

/// The views of a list of strings.
pub open spec fn texts(items: Seq<String>) -> Seq<Seq<char>> {
    items.map_values(|s: String| s@)
}

/// The views of a list of string pairs.
pub open spec fn text_pairs(items: Seq<(String, String)>) -> Seq<(Seq<char>, Seq<char>)> {
    items.map_values(|p: (String, String)| (p.0@, p.1@))
}

/// `String::from_utf8`: the bytes as text, where they are valid UTF-8.
#[verifier::external_body]
pub(crate) fn utf8_text(bytes: Vec<u8>) -> (r: Option<String>)
    ensures
        r is Some <==> valid_utf8(bytes@),
        r matches Some(s) ==> s@ == decode_utf8(bytes@),
{
    String::from_utf8(bytes).ok()
}

/// `<i64 as FromStr>::from_str`: the integer that `s` writes, where it writes
/// one within range; otherwise the text of the error, which names the reason.
#[verifier::external_body]
pub(crate) fn parse_i64(s: &str) -> (r: Result<i64, String>)
    ensures
        r is Ok <==> i64_literal(s@) is Some,
        r matches Ok(v) ==> i64_literal(s@) == Some(v),
        r matches Err(m) ==> m@ == integer_error_text(s@),
{
    match s.parse::<i64>() {
        Ok(v) => Ok(v),
        Err(e) => Err(e.to_string()),
    }
}

/// `<bool as FromStr>::from_str`: `true` and `false` are the only texts read.
#[verifier::external_body]
pub(crate) fn parse_bool(s: &str) -> (r: Option<bool>)
    ensures
        r == flag_literal(s@),
{
    s.parse::<bool>().ok()
}

/// `format!("{:?}", items)`: std's `Debug` text of a list of strings.
#[verifier::external_body]
pub(crate) fn debug_list(items: &Vec<String>) -> (r: String)
    ensures
        r@ == debug_list_text(texts(items@)),
{
    format!("{:?}", items)
}

/// `uuid::Uuid::new_v4`, written out by its `Display`: a fresh random UUID in
/// hyphenated lowercase form. Which UUID comes out is left open: it is drawn
/// from the thread's random number generator.
#[verifier::external_body]
pub(crate) fn new_uuid_v4_text() -> (r: String)
    ensures
        is_hyphenated_v4_uuid(r@),
{
    uuid::Uuid::new_v4().to_string()
}

/// `url::form_urlencoded::parse`: the (name, value) pairs of a query string,
/// in order, each name and value with `+` read as a space and percent escapes
/// decoded. An empty query string has no pairs.
#[verifier::external_body]
pub(crate) fn query_pairs(query: &str) -> (r: Vec<(String, String)>)
    ensures
        text_pairs(r@) == form_pairs(query@),
        query@.len() == 0 ==> r@.len() == 0,
{
    url::form_urlencoded::parse(query.as_bytes()).into_owned().collect()
}

} // verus!
