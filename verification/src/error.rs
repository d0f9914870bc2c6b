//! The steps of a fetch and the ways it can fail.

use vstd::prelude::*;

verus! {

/// One of the three calls of a fetch, in the order they are made.
#[derive(Clone, Copy, Debug, PartialEq, Eq, Structural)]
pub enum Step {
    /// Ask the server to render the bill; the reply is not read.
    Generate,
    /// Prove the account's identity by zip code; the reply is not read.
    Verify,
    /// Ask for the bill again; the reply holds the document.
    Retrieve,
}

/// Why a session could not be made or a fetch did not deliver a document.
#[derive(Clone, Copy, Debug, PartialEq, Eq, Structural)]
pub enum FetchError {
    /// The HTTP client could not be constructed.
    ClientInitError,
    /// The call of this step did not complete at the transport level.
    RequestError(Step),
    /// The last reply is not a JSON document of the expected shape.
    ParseError,
    /// The envelope's content is not standard base64.
    DecodeError,
}

/// What an outside crate said where a failure began in a call of one. It is
/// carried for the caller to report and is never read here.
#[derive(Debug)]
pub enum Cause {
    /// Nothing: the failure began in the transport or in a judgement of
    /// this library.
    NotGiven,
    /// What the HTTP client's builder said.
    HttpClient(reqwest::Error),
    /// What the JSON parser said.
    Json(serde_json::Error),
    /// What the base64 engine said.
    Base64(base64::DecodeError),
}

/// A failure with what caused it.
#[derive(Debug)]
pub struct Failure {
    pub error: FetchError,
    pub cause: Cause,
}

impl Step {
    /// The step that follows this one, if any.
    pub open spec fn successor(self) -> Option<Step> {
        match self {
            Step::Generate => Some(Step::Verify),
            Step::Verify => Some(Step::Retrieve),
            Step::Retrieve => None,
        }
    }

    /// The step to make once this one's reply has arrived.
    pub fn next(self) -> (r: Option<Step>)
        ensures
            r == self.successor(),
    {
        match self {
            Step::Generate => Some(Step::Verify),
            Step::Verify => Some(Step::Retrieve),
            Step::Retrieve => None,
        }
    }
}

impl FetchError {
    /// The sentence that describes this failure.
    pub open spec fn description(self) -> Seq<char> {
        match self {
            FetchError::ClientInitError => "Failed to create HTTP client"@,
            FetchError::RequestError(Step::Generate) => "Failed to send initial GetBillDetailPDF request"@,
            FetchError::RequestError(Step::Verify) => "Failed to send VerifyDetailsByZip request"@,
            FetchError::RequestError(Step::Retrieve) => "Failed to send final GetBillDetailPDF request"@,
            FetchError::ParseError => "Failed to parse JSON response"@,
            FetchError::DecodeError => "Failed to decode base64 PDF content"@,
        }
    }

    /// A human-readable cause, naming the step where one is involved.
    pub fn message(&self) -> (r: &'static str)
        ensures
            r@ == self.description(),
    {
        match self {
            FetchError::ClientInitError => "Failed to create HTTP client",
            FetchError::RequestError(Step::Generate) => "Failed to send initial GetBillDetailPDF request",
            FetchError::RequestError(Step::Verify) => "Failed to send VerifyDetailsByZip request",
            FetchError::RequestError(Step::Retrieve) => "Failed to send final GetBillDetailPDF request",
            FetchError::ParseError => "Failed to parse JSON response",
            FetchError::DecodeError => "Failed to decode base64 PDF content",
        }
    }
}

} // verus!
