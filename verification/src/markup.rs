//! Writing HTML and JSON text.
//!
//! Text from the config file is always escaped on its way into a page, so it
//! is never interpreted as a tag; the only unescaped pieces are markup this
//! crate writes itself. Escaping is maud's, JSON string encoding serde_json's.

use std::fmt::Write;

use vstd::prelude::*;

verus! {

/// What maud writes for one character of text: `&`, `<`, `>` and `"`
/// become entities, anything else stays.
pub open spec fn escape_char(c: char) -> Seq<char> {
    if c == '&' {
        "&amp;"@
    } else if c == '<' {
        "&lt;"@
    } else if c == '>' {
        "&gt;"@
    } else if c == '"' {
        "&quot;"@
    } else {
        seq![c]
    }
}

/// Text as maud escapes it, character by character.
pub open spec fn escaped(s: Seq<char>) -> Seq<char>
    decreases s.len(),
{
    if s.len() == 0 {
        Seq::empty()
    } else {
        escaped(s.drop_last()) + escape_char(s.last())
    }
}

/// Appends `text` escaped, through `maud::Escaper` (its `write_str` calls
/// maud's `escape_to_string`, which writes `&amp;`, `&lt;`, `&gt;` and
/// `&quot;` for those four bytes and copies every other byte, and never
/// fails). Those four are ASCII and never occur inside a multi-byte UTF-8
/// character, so byte by byte and character by character agree.
#[verifier::external_body]
pub(crate) fn push_text(out: &mut String, text: &str)
    ensures
        final(out)@ == old(out)@ + escaped(text@),
{
    let _ = maud::Escaper::new(out).write_str(text);
}

/// Appends markup this crate wrote itself, as is.
pub fn push_raw(out: &mut String, markup: &str)
    ensures
        final(out)@ == old(out)@ + markup@,
{
    out.append(markup);
}

/// `text` escaped, as a new string.
pub fn escape_html(text: &str) -> (r: String)
    ensures
        r@ == escaped(text@),
{
    let mut out = String::new();
    proof {
        reveal_strlit("");
    }
    push_text(&mut out, text);
    out
}

/// A lowercase hexadecimal digit.
pub open spec fn hex_digit(d: nat) -> char {
    if d < 10 {
        (('0' as u32) + d) as char
    } else {
        (('a' as u32) + d - 10) as char
    }
}

/// What serde_json writes for one character inside a JSON string: `"`, `\`
/// and the control characters below U+0020 are escaped (the usual short
/// forms where JSON has one, else `\u00XX` in lowercase hex); anything else
/// is written as is.
pub open spec fn json_escape_char(c: char) -> Seq<char> {
    let u = c as u32;
    if c == '"' {
        seq!['\\', '"']
    } else if c == '\\' {
        seq!['\\', '\\']
    } else if u == 8 {
        seq!['\\', 'b']
    } else if u == 9 {
        seq!['\\', 't']
    } else if u == 10 {
        seq!['\\', 'n']
    } else if u == 12 {
        seq!['\\', 'f']
    } else if u == 13 {
        seq!['\\', 'r']
    } else if u < 32 {
        seq!['\\', 'u', '0', '0', hex_digit((u / 16) as nat), hex_digit((u % 16) as nat)]
    } else {
        seq![c]
    }
}

pub open spec fn json_escaped(s: Seq<char>) -> Seq<char>
    decreases s.len(),
{
    if s.len() == 0 {
        Seq::empty()
    } else {
        json_escaped(s.drop_last()) + json_escape_char(s.last())
    }
}

/// A JSON string literal.
pub open spec fn json_string(s: Seq<char>) -> Seq<char> {
    seq!['"'] + json_escaped(s) + seq!['"']
}

/// `serde_json::to_string` of a string: the quoted literal, escaped as
/// `format_escaped_str` does (its `ESCAPE` table marks exactly `"`, `\` and
/// the bytes below 0x20; `\b \t \n \f \r` get short forms, the others
/// `\u00` and two lowercase hex digits). Serializing a `&str` into a `String`
/// cannot fail.
#[verifier::external_body]
pub(crate) fn push_json_string(out: &mut String, s: &str)
    ensures
        final(out)@ == old(out)@ + json_string(s@),
{
    out.push_str(&serde_json::to_string(s).unwrap_or_default());
}

} // verus!
