//! The JSON that this library reads and writes, as `serde_json` parses and
//! spells it.
//!
//! Nothing here is proved: each function makes one call into `serde_json`
//! and states what is taken on trust about it.

use vstd::prelude::*;

verus! {

/// `serde_json::Value`: a parsed JSON value. Nothing is seen inside one but
/// through [`json_strings`].
#[verifier::external_type_specification]
#[verifier::external_body]
pub struct ExJsonValue(serde_json::Value);

/// `serde_json::Error`: why the parser or the serializer gave up. It is
/// passed on unread.
#[verifier::external_type_specification]
#[verifier::external_body]
pub struct ExJsonError(serde_json::Error);

/// What a JSON value holds, as far as this library reads one: the text of
/// each string in it, under the names of the object members that lead to
/// it from the top. A string holds itself under the empty path; an object
/// holds what its members hold, each under its name; nothing else holds
/// anything.
pub uninterp spec fn json_strings(value: serde_json::Value) -> Map<Seq<Seq<char>>, Seq<char>>;

/// The strings of the JSON document that `body` spells, or `None` where
/// the parser does not take `body` for one JSON document.
pub uninterp spec fn json_document(body: Seq<u8>) -> Option<Map<Seq<Seq<char>>, Seq<char>>>;

/// The strings found below the member `key`: those whose path starts with
/// `key`, each under the rest of its path.
pub open spec fn strings_under(strings: Map<Seq<Seq<char>>, Seq<char>>, key: Seq<char>) -> Map<
    Seq<Seq<char>>,
    Seq<char>,
> {
    Map::new(
        |path: Seq<Seq<char>>| strings.dom().contains(seq![key] + path),
        |path: Seq<Seq<char>>| strings[seq![key] + path],
    )
}

/// The digit for `value` in hexadecimal, with small letters.
pub open spec fn hex_digit(value: int) -> char {
    if value < 10 {
        ('0' as int + value) as char
    } else {
        ('a' as int + value - 10) as char
    }
}

/// How one character stands inside a JSON string: `"` and `\` each behind
/// a `\`; the control characters below U+0020 as `\b`, `\t`, `\n`, `\f`,
/// `\r` or, the others, as `\u00` and two hexadecimal digits; every other
/// character as itself.
pub open spec fn escaped(c: char) -> Seq<char> {
    if c == '"' {
        seq!['\\', '"']
    } else if c == '\\' {
        seq!['\\', '\\']
    } else if c == '\u{8}' {
        seq!['\\', 'b']
    } else if c == '\t' {
        seq!['\\', 't']
    } else if c == '\n' {
        seq!['\\', 'n']
    } else if c == '\u{c}' {
        seq!['\\', 'f']
    } else if c == '\r' {
        seq!['\\', 'r']
    } else if (c as int) < 0x20 {
        seq!['\\', 'u', '0', '0', hex_digit(c as int / 16), hex_digit(c as int % 16)]
    } else {
        seq![c]
    }
}

/// A text with each of its characters as it stands inside a JSON string.
pub open spec fn escaped_text(text: Seq<char>) -> Seq<char>
    decreases text.len(),
{
    if text.len() == 0 {
        Seq::empty()
    } else {
        escaped_text(text.drop_last()) + escaped(text.last())
    }
}

/// The JSON string literal for `text`: its characters as they stand inside
/// a JSON string, between two quotation marks.
pub open spec fn json_string_literal(text: Seq<char>) -> Seq<char> {
    seq!['"'] + escaped_text(text) + seq!['"']
}

/// Whether a character stands for itself inside a JSON string.
pub open spec fn is_plain(c: char) -> bool {
    c != '"' && c != '\\' && (c as int) >= 0x20
}

/// Text of plain characters is spelled unchanged: its literal is the text
/// between two quotation marks.
pub proof fn lemma_plain_text_literal(text: Seq<char>)
    requires
        forall|i: int| 0 <= i < text.len() ==> is_plain(#[trigger] text[i]),
    ensures
        escaped_text(text) == text,
        json_string_literal(text) == seq!['"'] + text + seq!['"'],
    decreases text.len(),
{
    if text.len() > 0 {
        lemma_plain_text_literal(text.drop_last());
        assert(text.drop_last() + seq![text.last()] =~= text);
    }
}

/// `serde_json::from_slice` at type `serde_json::Value`. Trusted: whether
/// the parser takes `body` for one JSON document, and the value it then
/// returns, depend on `body` alone.
#[verifier::external_body]
pub(crate) fn parse_value(body: &[u8]) -> (r: Result<serde_json::Value, serde_json::Error>)
    ensures
        match r {
            Ok(value) => json_document(body@) == Some(json_strings(value)),
            Err(_) => json_document(body@) is None,
        },
{
    serde_json::from_slice::<serde_json::Value>(body)
}

/// `serde_json::Value::get` with a string index. Trusted: it returns the
/// member of that name where the value is an object that has one, and
/// `None` otherwise, so that nothing lies below that name.
#[verifier::external_body]
pub(crate) fn value_member<'a>(value: &'a serde_json::Value, key: &str) -> (r: Option<&'a serde_json::Value>)
    ensures
        match r {
            Some(member) => json_strings(*member) == strings_under(json_strings(*value), key@),
            None => strings_under(json_strings(*value), key@) == Map::<
                Seq<Seq<char>>,
                Seq<char>,
            >::empty(),
        },
{
    value.get(key)
}

/// `serde_json::Value::as_str`. Trusted: it returns the text where the
/// value is a string, and `None` otherwise.
#[verifier::external_body]
pub(crate) fn value_text<'a>(value: &'a serde_json::Value) -> (r: Option<&'a str>)
    ensures
        match r {
            Some(text) => json_strings(*value).contains_pair(Seq::empty(), text@),
            None => !json_strings(*value).dom().contains(Seq::empty()),
        },
{
    value.as_str()
}

/// `serde_json::to_string` at type `str`. Trusted: the serializer writes
/// into memory and cannot fail on a string, and what it writes is the JSON
/// string literal of `text`.
#[verifier::external_body]
pub(crate) fn quote_text(text: &str) -> (r: Result<String, serde_json::Error>)
    ensures
        r is Ok,
        r matches Ok(literal) ==> literal@ == json_string_literal(text@),
{
    serde_json::to_string::<str>(text)
}

} // verus!
