//! The requests of a fetch: where each goes, what headers it carries and
//! what its JSON body says.

use crate::error::Step;
use crate::json::{json_string_literal, quote_text};
use crate::vendor::VendorProfile;
use vstd::prelude::*;

verus! {

/// The account whose bill is fetched and the zip code that proves the
/// caller may see it. Both are opaque: no format is asked of them.
#[derive(Debug, PartialEq, Eq)]
pub struct Credential {
    pub account_number: String,
    pub zip_code: String,
}

/// One header of a request.
#[derive(Clone, Copy, Debug, PartialEq, Eq)]
pub struct Header {
    pub name: &'static str,
    pub value: &'static str,
}

/// How a request is made. Every call of this API is a POST.
#[derive(Clone, Copy, Debug, PartialEq, Eq, Structural)]
pub enum Method {
    Post,
}

/// An HTTP request for the caller to send on the session's client.
#[derive(Debug, PartialEq, Eq)]
pub struct StepRequest {
    /// The step that this request makes.
    pub step: Step,
    /// The HTTP method.
    pub method: Method,
    /// The absolute URL to post to.
    pub url: String,
    /// The headers to set, in this order.
    pub headers: Vec<Header>,
    /// The body: one JSON object, already spelled out.
    pub body: String,
    /// Whether the reply's body is to be read and handed back. Where it is
    /// not, the reply only has to arrive.
    pub wants_reply_body: bool,
}

/// A request as plain values.
pub struct RequestModel {
    pub step: Step,
    pub method: Method,
    pub url: Seq<char>,
    pub headers: Seq<(Seq<char>, Seq<char>)>,
    pub body: Seq<char>,
    pub wants_reply_body: bool,
}

impl View for Header {
    type V = (Seq<char>, Seq<char>);

    open spec fn view(&self) -> (Seq<char>, Seq<char>) {
        (self.name@, self.value@)
    }
}

impl View for StepRequest {
    type V = RequestModel;

    open spec fn view(&self) -> RequestModel {
        RequestModel {
            step: self.step,
            method: self.method,
            url: self.url@,
            headers: self.headers@.map_values(|h: Header| h@),
            body: self.body@,
            wants_reply_body: self.wants_reply_body,
        }
    }
}

/// The URL of a step: the bill-detail endpoint for the first and the last
/// step, the identity-verification endpoint for the one between.
pub open spec fn endpoint(vendor: VendorProfile, step: Step) -> Seq<char> {
    match step {
        Step::Generate => vendor.api_base@ + vendor.bill_detail_path@,
        Step::Verify => vendor.api_base@ + vendor.verify_path@,
        Step::Retrieve => vendor.api_base@ + vendor.bill_detail_path@,
    }
}

/// The headers that every request carries.
pub open spec fn fixed_headers(vendor: VendorProfile) -> Seq<(Seq<char>, Seq<char>)> {
    seq![
        ("accept"@, "application/json, text/plain, */*"@),
        ("content-type"@, "application/json;charset=UTF-8"@),
        ("origin"@, vendor.portal_origin@),
        ("referer"@, vendor.portal_referer@),
        ("st"@, vendor.channel_tag@),
    ]
}

/// The body of the bill-detail call around the JSON literal of the account
/// number: the account number and no company group.
pub open spec fn bill_detail_frame(account_literal: Seq<char>) -> Seq<char> {
    "{\"accountNumber\":"@ + account_literal + ",\"companyGroupCode\":null}"@
}

/// The body of the identity-verification call around the JSON literals of
/// the account number and the zip code: both, and no company group.
pub open spec fn verify_frame(account_literal: Seq<char>, zip_literal: Seq<char>) -> Seq<char> {
    "{\"accountNumber\":"@ + account_literal + ",\"zipCode\":"@ + zip_literal
        + ",\"companyGroupCode\":null}"@
}

/// The body of a step. The first and the last step send the same one.
pub open spec fn payload(credential: Credential, step: Step) -> Seq<char> {
    match step {
        Step::Generate => bill_detail_frame(json_string_literal(credential.account_number@)),
        Step::Verify => verify_frame(
            json_string_literal(credential.account_number@),
            json_string_literal(credential.zip_code@),
        ),
        Step::Retrieve => bill_detail_frame(json_string_literal(credential.account_number@)),
    }
}

/// The request of a step: a POST of its body to its endpoint, under the
/// fixed headers. Only the last step wants the body of its reply.
pub open spec fn planned_request(vendor: VendorProfile, credential: Credential, step: Step)
    -> RequestModel {
    RequestModel {
        step,
        method: Method::Post,
        url: endpoint(vendor, step),
        headers: fixed_headers(vendor),
        body: payload(credential, step),
        wants_reply_body: step == Step::Retrieve,
    }
}

fn url_for(vendor: &VendorProfile, step: Step) -> (r: String)
    ensures
        r@ == endpoint(*vendor, step),
{
    let mut url = vendor.api_base.to_owned();
    match step {
        Step::Generate => url.append(vendor.bill_detail_path),
        Step::Verify => url.append(vendor.verify_path),
        Step::Retrieve => url.append(vendor.bill_detail_path),
    }
    url
}

fn headers_for(vendor: &VendorProfile) -> (r: Vec<Header>)
    ensures
        r@.map_values(|h: Header| h@) == fixed_headers(*vendor),
{
    let mut headers: Vec<Header> = Vec::new();
    headers.push(Header { name: "accept", value: "application/json, text/plain, */*" });
    headers.push(Header { name: "content-type", value: "application/json;charset=UTF-8" });
    headers.push(Header { name: "origin", value: vendor.portal_origin });
    headers.push(Header { name: "referer", value: vendor.portal_referer });
    headers.push(Header { name: "st", value: vendor.channel_tag });
    assert(headers@.map_values(|h: Header| h@) =~= fixed_headers(*vendor));
    headers
}

/// Spells the body of the bill-detail call around the JSON literal of the
/// account number.
pub fn bill_detail_text(account_literal: &str) -> (body: String)
    ensures
        body@ == bill_detail_frame(account_literal@),
{
    let mut body = "{\"accountNumber\":".to_owned();
    body.append(account_literal);
    body.append(",\"companyGroupCode\":null}");
    body
}

/// Spells the body of the identity-verification call around the JSON
/// literals of the account number and the zip code.
pub fn verify_text(account_literal: &str, zip_literal: &str) -> (body: String)
    ensures
        body@ == verify_frame(account_literal@, zip_literal@),
{
    let mut body = "{\"accountNumber\":".to_owned();
    body.append(account_literal);
    body.append(",\"zipCode\":");
    body.append(zip_literal);
    body.append(",\"companyGroupCode\":null}");
    body
}

fn literal_of(text: &str) -> (literal: String)
    ensures
        literal@ == json_string_literal(text@),
{
    match quote_text(text) {
        Ok(literal) => literal,
        Err(_) => unreached(),
    }
}

fn body_for(credential: &Credential, step: Step) -> (body: String)
    ensures
        body@ == payload(*credential, step),
{
    let account_literal = literal_of(credential.account_number.as_str());
    match step {
        Step::Generate => bill_detail_text(account_literal.as_str()),
        Step::Verify => {
            let zip_literal = literal_of(credential.zip_code.as_str());
            verify_text(account_literal.as_str(), zip_literal.as_str())
        },
        Step::Retrieve => bill_detail_text(account_literal.as_str()),
    }
}

/// Draws up the request of a step.
pub fn request_for(vendor: &VendorProfile, credential: &Credential, step: Step) -> (request:
    StepRequest)
    ensures
        request@ == planned_request(*vendor, *credential, step),
{
    StepRequest {
        step,
        method: Method::Post,
        url: url_for(vendor, step),
        headers: headers_for(vendor),
        body: body_for(credential, step),
        wants_reply_body: match step {
            Step::Retrieve => true,
            _ => false,
        },
    }
}

} // verus!
