//! The JSON text `serde_json` prints for strings and for objects of string
//! members, as the desktop shell hands them to its pages.
use vstd::prelude::*;

use crate::text::joined;
use crate::version::pair_views;

verus! {

/// Lowercase hexadecimal digit of `d` (0 to 15).
pub open spec fn hex_digit(d: int) -> char {
    if d < 10 { (48 + d) as char } else { (87 + d) as char }
}

/// How `serde_json` writes one character inside a string literal: `"` and
/// `\` behind a backslash, the control characters with short escapes as
/// `\b \t \n \f \r`, the other characters below U+0020 as `\u00xx`
/// (lowercase hexadecimal), and every other character as itself.
pub open spec fn json_escaped_char(c: char) -> Seq<char> {
    if c == '"' {
        seq!['\\', '"']
    } else if c == '\\' {
        seq!['\\', '\\']
    } else if c == '\u{8}' {
        seq!['\\', 'b']
    } else if c == '\t' {
        seq!['\\', 't']
    } else if c == '\n' {
        seq!['\\', 'n']
    } else if c == '\u{c}' {
        seq!['\\', 'f']
    } else if c == '\r' {
        seq!['\\', 'r']
    } else if (c as u32) < 0x20 {
        seq!['\\', 'u', '0', '0', hex_digit((c as int) / 16), hex_digit((c as int) % 16)]
    } else {
        seq![c]
    }
}

/// The characters of `s`, each escaped (see [`json_escaped_char`]).
pub open spec fn json_escaped(s: Seq<char>) -> Seq<char>
    decreases s.len(),
{
    if s.len() == 0 {
        Seq::empty()
    } else {
        json_escaped_char(s[0]) + json_escaped(s.skip(1))
    }
}

/// The JSON string literal of `s`.
pub open spec fn json_string_literal(s: Seq<char>) -> Seq<char> {
    seq!['"'] + json_escaped(s) + seq!['"']
}

/// `serde_json::to_string` on a string. The crate's source writes into a
/// `Vec<u8>`, which cannot fail, the string between quotes with the
/// escapes of [`json_escaped_char`].
#[verifier::external_body]
pub(crate) fn json_string(s: &str) -> (r: String)
    ensures
        r@ == json_string_literal(s@),
{
    serde_json::to_string(s).unwrap_or_default()
}

/// The members of an object built from (key, value) pairs in order: a later
/// pair replaces an earlier one with the same key.
pub open spec fn member_map(members: Seq<(Seq<char>, Seq<char>)>) -> Map<Seq<char>, Seq<char>>
    decreases members.len(),
{
    if members.len() == 0 {
        Map::empty()
    } else {
        member_map(members.drop_last()).insert(members.last().0, members.last().1)
    }
}

/// `a` sorts before `b` by code points, the order of `String`'s `Ord` (the
/// byte order of UTF-8 follows code points).
pub open spec fn text_less(a: Seq<char>, b: Seq<char>) -> bool
    decreases a.len(),
{
    if a.len() == 0 {
        b.len() > 0
    } else if b.len() == 0 {
        false
    } else if a[0] != b[0] {
        (a[0] as u32) < (b[0] as u32)
    } else {
        text_less(a.skip(1), b.skip(1))
    }
}

/// The keys of `m` in increasing order.
pub open spec fn sorted_keys(m: Map<Seq<char>, Seq<char>>) -> Seq<Seq<char>> {
    choose|ks: Seq<Seq<char>>|
        ks.to_set() == m.dom() && forall|i: int, j: int| 0 <= i < j < ks.len() ==> text_less(ks[i], ks[j])
}

/// The compact JSON text of an object of string members built from the
/// pairs: `{"key":"value",...}` in increasing key order.
pub open spec fn json_object_text(members: Seq<(Seq<char>, Seq<char>)>) -> Seq<char> {
    let m = member_map(members);
    seq!['{'] + joined(
        sorted_keys(m).map_values(|k: Seq<char>| json_string_literal(k) + seq![':'] + json_string_literal(m[k])),
        seq![','],
    ) + seq!['}']
}

/// `serde_json::Value::Object(..).to_string()` on an object built from the
/// (key, string value) pairs. The crate's `Map` is a `BTreeMap` (the
/// `preserve_order` feature is off), so a later pair replaces an earlier one
/// with the same key and members print in key order; `Display` prints the
/// compact form, keys and values as string literals.
#[verifier::external_body]
pub(crate) fn json_object_string(members: &Vec<(String, String)>) -> (r: String)
    ensures
        r@ == json_object_text(pair_views(members@)),
{
    let map: serde_json::Map<String, serde_json::Value> = members
        .iter()
        .map(|m| (m.0.clone(), serde_json::Value::String(m.1.clone())))
        .collect();
    serde_json::Value::Object(map).to_string()
}

} // verus!
