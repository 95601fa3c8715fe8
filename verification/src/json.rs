//! JSON string literals, as `serde_json` writes them.

use vstd::prelude::*;

verus! {

/// The lowercase hexadecimal digit for a number below sixteen.
pub open spec fn hex_digit(n: int) -> char {
    if n < 10 {
        (('0' as int) + n) as char
    } else {
        (('a' as int) + n - 10) as char
    }
}

/// How one character is written inside a JSON string literal: quote and
/// backslash are escaped, the control characters below U+0020 get their
/// short escape where JSON has one and `\u00XX` otherwise, and every other
/// character stands for itself.
pub open spec fn json_escaped_char(c: char) -> Seq<char> {
    if c == '"' {
        seq!['\\', '"']
    } else if c == '\\' {
        seq!['\\', '\\']
    } else if c == '\x08' {
        seq!['\\', 'b']
    } else if c == '\t' {
        seq!['\\', 't']
    } else if c == '\n' {
        seq!['\\', 'n']
    } else if c == '\x0C' {
        seq!['\\', 'f']
    } else if c == '\r' {
        seq!['\\', 'r']
    } else if (c as int) < 0x20 {
        seq!['\\', 'u', '0', '0', hex_digit((c as int) / 16), hex_digit((c as int) % 16)]
    } else {
        seq![c]
    }
}

/// The escaped contents of a JSON string literal.
pub open spec fn json_escaped(s: Seq<char>) -> Seq<char>
    decreases s.len(),
{
    if s.len() == 0 {
        Seq::empty()
    } else {
        json_escaped(s.drop_last()) + json_escaped_char(s.last())
    }
}

/// The JSON string literal that denotes `s`, quotes included.
pub open spec fn json_string(s: Seq<char>) -> Seq<char> {
    seq!['"'] + json_escaped(s) + seq!['"']
}

/// A character that JSON strings carry without escaping.
pub open spec fn json_plain(c: char) -> bool {
    c != '"' && c != '\\' && (c as int) >= 0x20
}

/// Text made of plain characters appears in a JSON string literal as it is.
pub proof fn lemma_plain_text_unescaped(s: Seq<char>)
    requires
        forall|i: int| 0 <= i < s.len() ==> json_plain(#[trigger] s[i]),
    ensures
        json_escaped(s) == s,
        json_string(s) == seq!['"'] + s + seq!['"'],
    decreases s.len(),
{
    if s.len() > 0 {
        let init = s.drop_last();
        assert forall|i: int| 0 <= i < init.len() implies json_plain(#[trigger] init[i]) by {
            assert(init[i] == s[i]);
        }
        lemma_plain_text_unescaped(init);
        assert(json_plain(s[s.len() - 1]));
        assert(json_escaped_char(s.last()) == seq![s.last()]);
        assert(s =~= init + seq![s.last()]);
    }
}

#[verifier::external_type_specification]
#[verifier::external_body]
pub struct ExSerdeJsonError(serde_json::Error);

/// Calls `serde_json::to_string` on a `str`. Its source serialises a `str`
/// with `format_escaped_str` into a `Vec<u8>`, whose writes never fail, so
/// the call always returns `Ok`; the text is the quoted literal that
/// `json_string` describes (serde_json's escape table, lowercase hex digits).
#[verifier::external_body]
pub(crate) fn json_quote(s: &str) -> (r: Result<String, serde_json::Error>)
    ensures
        r is Ok,
        r is Ok ==> r->Ok_0@ == json_string(s@),
{
    serde_json::to_string(s)
}

} // verus!
