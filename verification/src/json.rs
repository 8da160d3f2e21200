//! JSON text produced by serde_json for plain values.

use vstd::prelude::*;
use crate::text::{hex_digit, join};

verus! {

/// How serde_json writes one character inside a string literal: the quote and
/// the backslash behind a backslash, the five named controls by their letter,
/// the other characters below U+0020 as `\u00` and two lowercase hex digits,
/// and every other character as it is.
pub open spec fn json_escape_char(c: char) -> Seq<char> {
    let n = c as int;
    if c == '"' {
        seq!['\\', '"']
    } else if c == '\\' {
        seq!['\\', '\\']
    } else if n == 8 {
        seq!['\\', 'b']
    } else if n == 9 {
        seq!['\\', 't']
    } else if n == 10 {
        seq!['\\', 'n']
    } else if n == 12 {
        seq!['\\', 'f']
    } else if n == 13 {
        seq!['\\', 'r']
    } else if n < 32 {
        seq!['\\', 'u', '0', '0', hex_digit(n / 16), hex_digit(n % 16)]
    } else {
        seq![c]
    }
}

/// The characters of `s`, each written as `json_escape_char` writes it.
pub open spec fn json_escaped(s: Seq<char>) -> Seq<char>
    decreases s.len(),
{
    if s.len() == 0 {
        Seq::<char>::empty()
    } else {
        json_escaped(s.drop_last()) + json_escape_char(s.last())
    }
}

/// serde_json's JSON text of a string: the escaped characters between quotes.
pub open spec fn json_text_of_str(s: Seq<char>) -> Seq<char> {
    seq!['"'] + json_escaped(s) + seq!['"']
}

/// serde_json's compact JSON text of an array of strings: the string literals
/// between brackets, separated by commas, with no spaces.
pub open spec fn json_text_of_strs(v: Seq<Seq<char>>) -> Seq<char> {
    seq!['['] + join(v.map_values(|s: Seq<char>| json_text_of_str(s)), seq![',']) + seq![']']
}

/// serde_json's compact JSON text of an array of arrays of strings.
pub open spec fn json_text_of_str_lists(v: Seq<Seq<Seq<char>>>) -> Seq<char> {
    seq!['['] + join(v.map_values(|l: Seq<Seq<char>>| json_text_of_strs(l)), seq![',']) + seq![']']
}

pub open spec fn strs_view(v: Seq<String>) -> Seq<Seq<char>> {
    v.map_values(|s: String| s@)
}

pub open spec fn str_lists_view(v: Seq<Vec<String>>) -> Seq<Seq<Seq<char>>> {
    v.map_values(|l: Vec<String>| strs_view(l@))
}

/// `serde_json::to_string` of a string. Claimed: the text is `json_text_of_str`
/// of its characters, as serde_json's escape table (`ESCAPE` and
/// `format_escaped_str_contents` in its ser.rs) writes it; serde_json never
/// fails on a string.
#[verifier::external_body]
pub(crate) fn json_str(s: &str) -> (r: String)
    ensures
        r@ == json_text_of_str(s@),
{
    match serde_json::to_string(s) {
        Ok(text) => text,
        Err(_) => String::new(),
    }
}

/// `serde_json::to_string` of a list of strings. Claimed: the text is
/// `json_text_of_strs` of them (compact formatter: `[`, literals joined by `,`,
/// `]`); serde_json never fails on them.
#[verifier::external_body]
pub(crate) fn json_strs(v: &Vec<String>) -> (r: String)
    ensures
        r@ == json_text_of_strs(strs_view(v@)),
{
    match serde_json::to_string(v) {
        Ok(text) => text,
        Err(_) => String::new(),
    }
}

/// `serde_json::to_string` of a list of lists of strings. Claimed: the text is
/// `json_text_of_str_lists` of them (compact formatter); serde_json never fails
/// on them.
#[verifier::external_body]
pub(crate) fn json_str_lists(v: &Vec<Vec<String>>) -> (r: String)
    ensures
        r@ == json_text_of_str_lists(str_lists_view(v@)),
{
    match serde_json::to_string(v) {
        Ok(text) => text,
        Err(_) => String::new(),
    }
}

} // verus!
