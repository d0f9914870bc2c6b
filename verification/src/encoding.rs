//! Standard base64 (RFC 4648, section 4) as mathematics, and the decoding
//! of text that claims to be in it.

use crate::error::{Cause, Failure, FetchError};
use vstd::prelude::*;

verus! {

/// The symbol of the standard alphabet that stands for `value`, a number
/// of six bits: `A`-`Z`, `a`-`z`, `0`-`9`, `+`, `/`.
pub open spec fn symbol(value: int) -> char {
    if value < 26 {
        ('A' as int + value) as char
    } else if value < 52 {
        ('a' as int + value - 26) as char
    } else if value < 62 {
        ('0' as int + value - 52) as char
    } else if value == 62 {
        '+'
    } else {
        '/'
    }
}

/// The octet at `index`, and zero past the end: the bits that fill up the
/// last group.
pub open spec fn octet(bytes: Seq<u8>, index: int) -> int {
    if 0 <= index < bytes.len() {
        bytes[index] as int
    } else {
        0
    }
}

/// Six bits of the octets laid end to end, most significant bit first: the
/// bits from position `6 * index` on.
pub open spec fn sextet(bytes: Seq<u8>, index: int) -> int {
    let first = (index / 4) * 3;
    let place = index % 4;
    if place == 0 {
        octet(bytes, first) / 4
    } else if place == 1 {
        (octet(bytes, first) % 4) * 16 + octet(bytes, first + 1) / 16
    } else if place == 2 {
        (octet(bytes, first + 1) % 16) * 4 + octet(bytes, first + 2) / 64
    } else {
        octet(bytes, first + 2) % 64
    }
}

/// How many symbols it takes to spell `count` octets: a symbol for every
/// six bits begun.
pub open spec fn symbol_count(count: nat) -> nat {
    (4 * count + 2) / 3
}

/// The length of the encoding of `count` octets: four characters for every
/// three octets begun.
pub open spec fn encoded_len(count: nat) -> nat {
    4 * ((count + 2) / 3)
}

/// The standard base64 text of `bytes`: its symbols, then `=` up to a
/// multiple of four characters.
pub open spec fn standard_encoding(bytes: Seq<u8>) -> Seq<char> {
    Seq::new(
        encoded_len(bytes.len()),
        |i: int|
            if i < symbol_count(bytes.len()) {
                symbol(sextet(bytes, i))
            } else {
                '='
            },
    )
}

/// Whether `text` is the standard base64 text of some octets.
pub open spec fn is_standard_encoding(text: Seq<char>) -> bool {
    exists|bytes: Seq<u8>| #[trigger] standard_encoding(bytes) == text
}

/// The octets that `text` spells, where it spells any.
pub open spec fn standard_decoding(text: Seq<char>) -> Option<Seq<u8>> {
    if is_standard_encoding(text) {
        Some(choose|bytes: Seq<u8>| #[trigger] standard_encoding(bytes) == text)
    } else {
        None
    }
}

/// A symbol is never the padding character, and tells its value.
pub proof fn lemma_symbol_distinct(a: int, b: int)
    requires
        0 <= a < 64,
        0 <= b < 64,
    ensures
        symbol(a) != '=',
        symbol(a) == symbol(b) ==> a == b,
{
}

/// Every sextet is a number of six bits.
pub proof fn lemma_sextet_range(bytes: Seq<u8>, index: int)
    requires
        0 <= index,
    ensures
        0 <= sextet(bytes, index) < 64,
{
}

/// Two octet strings with the same standard base64 text are the same.
pub proof fn lemma_encoding_injective(a: Seq<u8>, b: Seq<u8>)
    requires
        standard_encoding(a) == standard_encoding(b),
    ensures
        a == b,
{
    let ea = standard_encoding(a);
    let eb = standard_encoding(b);
    let na = symbol_count(a.len());
    let nb = symbol_count(b.len());
    assert(na <= ea.len());
    assert(nb <= eb.len());
    if na < nb {
        lemma_sextet_range(b, na as int);
        lemma_symbol_distinct(sextet(b, na as int), 0);
        assert(ea[na as int] == '=');
        assert(eb[na as int] == symbol(sextet(b, na as int)));
    }
    if nb < na {
        lemma_sextet_range(a, nb as int);
        lemma_symbol_distinct(sextet(a, nb as int), 0);
        assert(eb[nb as int] == '=');
        assert(ea[nb as int] == symbol(sextet(a, nb as int)));
    }
    assert(na == nb);
    assert forall|k: int| 0 <= k < a.len() implies a[k] == b[k] by {
        let q = k / 3;
        let i = 4 * q;
        assert forall|j: int| i <= j < i + 4 && j < na implies sextet(a, j) == sextet(b, j) by {
            lemma_sextet_range(a, j);
            lemma_sextet_range(b, j);
            lemma_symbol_distinct(sextet(a, j), sextet(b, j));
            assert(ea[j] == symbol(sextet(a, j)));
            assert(eb[j] == symbol(sextet(b, j)));
        }
        assert(sextet(a, i) == sextet(b, i));
        assert(sextet(a, i + 1) == sextet(b, i + 1));
        if k % 3 >= 1 {
            assert(sextet(a, i + 2) == sextet(b, i + 2));
        }
        if k % 3 == 2 {
            assert(sextet(a, i + 3) == sextet(b, i + 3));
        }
    }
    assert(a =~= b);
}

/// Decoding undoes encoding: the text of any octets, decoded, is those
/// octets again, whatever their number leaves on division by three.
pub proof fn lemma_decoding_inverts_encoding(bytes: Seq<u8>)
    ensures
        standard_decoding(standard_encoding(bytes)) == Some(bytes),
{
    let text = standard_encoding(bytes);
    let chosen = choose|other: Seq<u8>| #[trigger] standard_encoding(other) == text;
    lemma_encoding_injective(chosen, bytes);
}

/// Text that decodes is the encoding of what it decodes to.
pub proof fn lemma_encoding_inverts_decoding(text: Seq<char>)
    requires
        standard_decoding(text) is Some,
    ensures
        standard_encoding(standard_decoding(text).unwrap()) == text,
{
}

/// `String::push` of std: the character is appended and nothing else
/// changes.
pub assume_specification[ String::push ](text: &mut String, ch: char)
    ensures
        final(text)@ == old(text)@.push(ch),
;

fn symbol_for(value: u8) -> (c: char)
    requires
        value < 64,
    ensures
        c == symbol(value as int),
{
    if value < 26 {
        (65 + value) as char
    } else if value < 52 {
        (71 + value) as char
    } else if value < 62 {
        (value - 4) as char
    } else if value == 62 {
        '+'
    } else {
        '/'
    }
}

/// Spells octets in standard base64.
pub fn encode_standard(bytes: &[u8]) -> (text: String)
    ensures
        text@ == standard_encoding(bytes@),
{
    let count = bytes.len();
    let mut text = String::new();
    let mut done: usize = 0;
    while count - done >= 3
        invariant
            done <= count == bytes@.len(),
            done % 3 == 0,
            text@.len() == 4 * (done / 3),
            forall|j: int| 0 <= j < text@.len() ==> text@[j] == symbol(sextet(bytes@, j)),
        decreases count - done,
    {
        let first = bytes[done];
        let second = bytes[done + 1];
        let third = bytes[done + 2];
        text.push(symbol_for(first / 4));
        text.push(symbol_for((first % 4) * 16 + second / 16));
        text.push(symbol_for((second % 16) * 4 + third / 64));
        text.push(symbol_for(third % 64));
        done += 3;
    }
    if count - done == 1 {
        let first = bytes[done];
        text.push(symbol_for(first / 4));
        text.push(symbol_for((first % 4) * 16));
        text.push('=');
        text.push('=');
    } else if count - done == 2 {
        let first = bytes[done];
        let second = bytes[done + 1];
        text.push(symbol_for(first / 4));
        text.push(symbol_for((first % 4) * 16 + second / 16));
        text.push(symbol_for((second % 16) * 4));
        text.push('=');
    }
    assert(text@ =~= standard_encoding(bytes@));
    text
}

/// `base64::DecodeError`: why the engine refused a text. It is passed on
/// unread.
#[verifier::external_type_specification]
#[verifier::external_body]
pub struct ExDecodeError(base64::DecodeError);

/// `base64::Engine::decode` on the engine `general_purpose::STANDARD`: the
/// standard alphabet, with canonical padding required and no stray bits
/// allowed in the last symbol. Trusted: the engine accepts `text` exactly
/// when it is the standard encoding of some octets, and then returns them.
#[verifier::external_body]
fn engine_decode(text: &str) -> (r: Result<Vec<u8>, base64::DecodeError>)
    ensures
        match r {
            Ok(bytes) => standard_encoding(bytes@) == text@,
            Err(_) => !is_standard_encoding(text@),
        },
{
    base64::Engine::decode(&base64::engine::general_purpose::STANDARD, text)
}

/// Decodes standard base64 text into the octets it spells.
///
/// Fails with `DecodeError`, and yields no octets at all, exactly when
/// `text` is not the standard encoding of anything.
pub fn decode_standard(text: &str) -> (r: Result<Vec<u8>, Failure>)
    ensures
        match r {
            Ok(bytes) => standard_decoding(text@) == Some(bytes@),
            Err(failure) => failure.error == FetchError::DecodeError && failure.cause is Base64
                && standard_decoding(text@) is None,
        },
{
    match engine_decode(text) {
        Ok(bytes) => {
            proof {
                lemma_decoding_inverts_encoding(bytes@);
            }
            Ok(bytes)
        },
        Err(said) => Err(Failure { error: FetchError::DecodeError, cause: Cause::Base64(said) }),
    }
}

} // verus!
