//! The JSON envelope of the last reply: `{"data": {"contentArray": "..."}}`,
//! whose innermost string is the document in standard base64.
//!
//! A body is read twice. The transport reads it strictly, by the envelope's
//! declared shape, and refuses a member that is given twice; a parsed JSON
//! value cannot show such a repetition. This library reads it as a JSON
//! value and insists on the two nested objects. A document is delivered
//! only where both readings find the same content.

use crate::encoding::{
    decode_standard, lemma_decoding_inverts_encoding, standard_decoding, standard_encoding,
};
use crate::error::{Cause, Failure, FetchError};
use crate::json::{json_document, json_strings, parse_value, strings_under, value_member, value_text};
use vstd::prelude::*;

verus! {

/// Where the envelope keeps the document: member `contentArray` of member
/// `data`.
pub open spec fn content_path() -> Seq<Seq<char>> {
    seq!["data"@, "contentArray"@]
}

/// The content of an envelope with these strings: the string at
/// `data.contentArray`, or `None` where there is no string at that place.
pub open spec fn envelope_content(strings: Map<Seq<Seq<char>>, Seq<char>>) -> Option<Seq<char>> {
    if strings.dom().contains(content_path()) {
        Some(strings[content_path()])
    } else {
        None
    }
}

/// The content of the envelope that `body` spells, or `None` where `body`
/// is not a JSON document or has no string at `data.contentArray`.
pub open spec fn body_content(body: Seq<u8>) -> Option<Seq<char>> {
    match json_document(body) {
        Some(strings) => envelope_content(strings),
        None => None,
    }
}

/// What a content amounts to: the document, or `DecodeError` where it is
/// not standard base64.
pub open spec fn content_outcome(content: Seq<char>) -> Result<Seq<u8>, FetchError> {
    match standard_decoding(content) {
        None => Err(FetchError::DecodeError),
        Some(bytes) => Ok(bytes),
    }
}

/// What a reply body amounts to, given what the strict reading made of it:
/// `ParseError` unless the strict reading found an envelope and the body,
/// as a JSON value, holds the same content at `data.contentArray`;
/// otherwise what that content amounts to.
pub open spec fn body_outcome(body: Seq<u8>, strict: Option<BillEnvelope>) -> Result<
    Seq<u8>,
    FetchError,
> {
    match strict {
        None => Err(FetchError::ParseError),
        Some(envelope) => if body_content(body) == Some(envelope.content_array@) {
            content_outcome(envelope.content_array@)
        } else {
            Err(FetchError::ParseError)
        },
    }
}

/// A reply that both readings take for the envelope of the standard base64
/// text of a document amounts to that document, byte for byte.
pub proof fn lemma_enveloped_document(body: Seq<u8>, strict: BillEnvelope, document: Seq<u8>)
    ensures
        strict.content_array@ == standard_encoding(document) && body_content(body) == Some(
            standard_encoding(document),
        ) ==> body_outcome(body, Some(strict)) == Ok::<Seq<u8>, FetchError>(document),
{
    lemma_decoding_inverts_encoding(document);
}

/// A body that the strict reading refuses amounts to `ParseError`, whatever
/// it holds as a JSON value.
pub proof fn lemma_refused_body(body: Seq<u8>)
    ensures
        body_outcome(body, None) == Err::<Seq<u8>, FetchError>(FetchError::ParseError),
{
}

/// The envelope of the last reply, taken out of its JSON.
#[derive(Debug, PartialEq, Eq)]
pub struct BillEnvelope {
    /// The document in standard base64.
    pub content_array: String,
}

impl BillEnvelope {
    /// Takes the envelope out of a parsed JSON value.
    ///
    /// There is one exactly when the value has a string at
    /// `data.contentArray`; other members are passed over. A parsed value
    /// holds each member once: of one that the text gave twice it holds the
    /// last.
    pub fn from_value(document: &serde_json::Value) -> (r: Option<BillEnvelope>)
        ensures
            match r {
                Some(envelope) => envelope_content(json_strings(*document)) == Some(
                    envelope.content_array@,
                ),
                None => envelope_content(json_strings(*document)) is None,
            },
    {
        let ghost top = json_strings(*document);
        proof {
            assert(seq!["data"@] + seq!["contentArray"@] =~= content_path());
        }
        match value_member(document, "data") {
            None => {
                proof {
                    assert(!strings_under(top, "data"@).dom().contains(seq!["contentArray"@]));
                }
                None
            },
            Some(data) => {
                let ghost inner = json_strings(*data);
                match value_member(data, "contentArray") {
                    None => {
                        proof {
                            assert(!strings_under(inner, "contentArray"@).dom().contains(
                                Seq::empty(),
                            ));
                            assert(!strings_under(top, "data"@).dom().contains(
                                seq!["contentArray"@],
                            ));
                        }
                        None
                    },
                    Some(content) => match value_text(content) {
                        None => {
                            proof {
                                assert(!strings_under(top, "data"@).dom().contains(
                                    seq!["contentArray"@],
                                ));
                            }
                            None
                        },
                        Some(text) => {
                            proof {
                                assert(strings_under(top, "data"@).dom().contains(
                                    seq!["contentArray"@],
                                ));
                            }
                            Some(BillEnvelope { content_array: text.to_owned() })
                        },
                    },
                }
            },
        }
    }

    /// Parses a reply body as a JSON value and takes the envelope out of it.
    ///
    /// Fails with `ParseError` exactly when the body is not a JSON document
    /// or has no string at `data.contentArray`. This reading alone does not
    /// refuse a member that is given twice: see [`document_from_reading`].
    pub fn parse(body: &[u8]) -> (r: Result<BillEnvelope, Failure>)
        ensures
            match r {
                Ok(envelope) => body_content(body@) == Some(envelope.content_array@),
                Err(failure) => failure.error == FetchError::ParseError && body_content(body@)
                    is None,
            },
    {
        match parse_value(body) {
            Err(said) => Err(Failure { error: FetchError::ParseError, cause: Cause::Json(said) }),
            Ok(document) => match BillEnvelope::from_value(&document) {
                None => Err(Failure { error: FetchError::ParseError, cause: Cause::NotGiven }),
                Some(envelope) => Ok(envelope),
            },
        }
    }

    /// Decodes the content into the document's bytes.
    ///
    /// Fails with `DecodeError` exactly when the content is not standard
    /// base64; no part of a document is returned then.
    pub fn decode(&self) -> (r: Result<Vec<u8>, Failure>)
        ensures
            match r {
                Ok(bytes) => content_outcome(self.content_array@) == Ok::<Seq<u8>, FetchError>(
                    bytes@,
                ),
                Err(failure) => content_outcome(self.content_array@) == Err::<
                    Seq<u8>,
                    FetchError,
                >(failure.error),
            },
    {
        decode_standard(self.content_array.as_str())
    }
}

/// The body of the last reply as the transport read it.
#[derive(Debug, PartialEq, Eq)]
pub struct ReplyBody {
    /// The bytes of the body, read to its end.
    pub bytes: Vec<u8>,
    /// What the strict reading made of those bytes: the envelope, or `None`
    /// where it refused them. The strict reading goes by the envelope's
    /// declared shape, passes over members it does not know and refuses a
    /// known member that is given twice.
    pub envelope: Option<BillEnvelope>,
}

/// Turns the body of the last reply into the document.
///
/// Fails with `ParseError` where the strict reading refused the body, where
/// the body is no JSON document with a string at `data.contentArray`, and
/// where the two readings differ; with `DecodeError` where the content is
/// not standard base64.
pub fn document_from_reading(body: &ReplyBody) -> (r: Result<Vec<u8>, Failure>)
    ensures
        match r {
            Ok(bytes) => body_outcome(body.bytes@, body.envelope) == Ok::<Seq<u8>, FetchError>(
                bytes@,
            ),
            Err(failure) => body_outcome(body.bytes@, body.envelope) == Err::<
                Seq<u8>,
                FetchError,
            >(failure.error),
        },
{
    match &body.envelope {
        None => Err(Failure { error: FetchError::ParseError, cause: Cause::NotGiven }),
        Some(envelope) => match BillEnvelope::parse(body.bytes.as_slice()) {
            Err(failure) => Err(failure),
            Ok(found) => if found.content_array == envelope.content_array {
                envelope.decode()
            } else {
                Err(Failure { error: FetchError::ParseError, cause: Cause::NotGiven })
            },
        },
    }
}

} // verus!
