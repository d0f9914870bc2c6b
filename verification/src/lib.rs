//! Retrieval of a utility bill as a PDF document from the vendor's account
//! API.
//!
//! A bill is fetched by three dependent HTTP calls on one cookie-bearing
//! session: ask the server to render the bill, prove the account's identity
//! by zip code, then ask for the bill again. The last reply carries the PDF
//! as standard base64 text inside a JSON envelope.
//!
//! This library decides everything about that exchange except moving bytes
//! over the network: which request comes next and what it holds, how the
//! last reply is taken apart, and which error a failure maps to. The caller
//! sends each request on the session's HTTP client and hands the reply back.

pub mod client;
pub mod encoding;
pub mod envelope;
pub mod error;
pub mod json;
pub mod protocol;
pub mod request;
pub mod vendor;

pub use crate::client::LibertyClient;
pub use crate::envelope::{BillEnvelope, ReplyBody};
pub use crate::error::{Cause, Failure, FetchError, Step};
pub use crate::protocol::{Action, Reply};
pub use crate::request::{Credential, Header, Method, StepRequest};
pub use crate::vendor::VendorProfile;
