//! The session: one HTTP client with its own cookie store, bound to one
//! account.

use crate::error::{Cause, Failure, FetchError, Step};
use crate::protocol::{advance, begin, next_action, Action, ActionModel, Reply};
use crate::request::{planned_request, Credential};
use crate::vendor::VendorProfile;
use vstd::prelude::*;

verus! {

/// `reqwest::Client`: an HTTP client with its connections and its cookie
/// store. Nothing is seen inside one.
#[verifier::external_type_specification]
#[verifier::external_body]
pub struct ExHttpClient(reqwest::Client);

/// `reqwest::Error`: why a client could not be built. It is passed on
/// unread.
#[verifier::external_type_specification]
#[verifier::external_body]
pub struct ExHttpError(reqwest::Error);

/// `reqwest::ClientBuilder`: the settings of a client that is yet to be
/// built. Nothing is seen inside one.
#[verifier::external_type_specification]
#[verifier::external_body]
pub struct ExHttpClientBuilder(reqwest::ClientBuilder);

/// Whether a client built from these settings gets a cookie store.
pub uninterp spec fn builder_keeps_cookies(builder: reqwest::ClientBuilder) -> bool;

/// The `user-agent` header that a client built from these settings sends by
/// default, if any.
pub uninterp spec fn builder_agent(builder: reqwest::ClientBuilder) -> Option<Seq<char>>;

/// Whether a setting asked of the builder was refused, so that no client
/// can be built from it.
pub uninterp spec fn builder_in_error(builder: reqwest::ClientBuilder) -> bool;

/// Whether the client has a cookie store: it keeps the cookies of its
/// responses and presents them on its later requests.
pub uninterp spec fn client_keeps_cookies(client: reqwest::Client) -> bool;

/// The `user-agent` header that the client sends with every request that
/// sets none itself, if any.
pub uninterp spec fn client_agent(client: reqwest::Client) -> Option<Seq<char>>;

/// `reqwest::Client::builder`: the settings of a client as the crate has
/// them by default. Trusted: they hold no cookie store, no user agent and
/// no error.
#[verifier::external_body]
fn client_builder() -> (r: reqwest::ClientBuilder)
    ensures
        !builder_keeps_cookies(r),
        builder_agent(r) is None,
        !builder_in_error(r),
{
    reqwest::Client::builder()
}

/// `reqwest::ClientBuilder::cookie_store`. Trusted: with `true` the
/// settings get a new cookie store, with `false` they lose theirs; nothing
/// else changes.
#[verifier::external_body]
fn builder_cookie_store(builder: reqwest::ClientBuilder, enable: bool) -> (r:
    reqwest::ClientBuilder)
    ensures
        builder_keeps_cookies(r) == enable,
        builder_agent(r) == builder_agent(builder),
        builder_in_error(r) == builder_in_error(builder),
{
    builder.cookie_store(enable)
}

/// `reqwest::ClientBuilder::user_agent`. Trusted: a value that is a header
/// value becomes the user agent; one that is not leaves the headers as they
/// were and puts the builder in error. The cookie store is not touched.
#[verifier::external_body]
fn builder_user_agent(builder: reqwest::ClientBuilder, user_agent: &str) -> (r:
    reqwest::ClientBuilder)
    ensures
        builder_keeps_cookies(r) == builder_keeps_cookies(builder),
        (builder_agent(r) == Some(user_agent@) && builder_in_error(r) == builder_in_error(builder))
            || (builder_agent(r) == builder_agent(builder) && builder_in_error(r)),
{
    builder.user_agent(user_agent)
}

/// `reqwest::ClientBuilder::build`. Trusted: a builder in error gives no
/// client, and a client that is built has the cookie store and the user
/// agent of the settings. Whether one is built depends on the host as well
/// (its TLS backend, its resolver), so success is not promised.
#[verifier::external_body]
fn builder_build(builder: reqwest::ClientBuilder) -> (r: Result<reqwest::Client, reqwest::Error>)
    ensures
        builder_in_error(builder) ==> r is Err,
        r matches Ok(client) ==> client_keeps_cookies(client) == builder_keeps_cookies(builder)
            && client_agent(client) == builder_agent(builder),
{
    builder.build()
}

/// A session for fetching the bill of one account.
///
/// The three calls of a fetch must go out on this session's own HTTP
/// client, which carries the cookies of the earlier calls to the later
/// ones. Sessions share nothing: each has a client and a cookie store of
/// its own.
pub struct LibertyClient {
    client: reqwest::Client,
    credential: Credential,
    vendor: VendorProfile,
}

impl LibertyClient {
    /// The account and zip code that the session was made for.
    pub closed spec fn held_credential(&self) -> Credential {
        self.credential
    }

    /// The vendor profile that the session was made with.
    pub closed spec fn held_vendor(&self) -> VendorProfile {
        self.vendor
    }

    /// The HTTP client that the session owns.
    pub closed spec fn held_client(&self) -> reqwest::Client {
        self.client
    }

    /// Makes a session from the outcome of building its HTTP client.
    ///
    /// There is a session exactly when there is a client; account number
    /// and zip code are taken as they are and never cause a failure.
    pub fn assemble(
        built: Result<reqwest::Client, reqwest::Error>,
        vendor: VendorProfile,
        account_number: String,
        zip_code: String,
    ) -> (r: Result<LibertyClient, Failure>)
        ensures
            match r {
                Ok(session) => built == Ok::<reqwest::Client, reqwest::Error>(
                    session.held_client(),
                ) && session.held_vendor() == vendor && session.held_credential()
                    == (Credential { account_number, zip_code }),
                Err(failure) => built matches Err(said) && failure.error
                    == FetchError::ClientInitError && failure.cause == Cause::HttpClient(said),
            },
    {
        match built {
            Ok(client) => Ok(
                LibertyClient { client, credential: Credential { account_number, zip_code }, vendor },
            ),
            Err(said) => Err(
                Failure { error: FetchError::ClientInitError, cause: Cause::HttpClient(said) },
            ),
        }
    }

    /// Makes a session for an account of the given vendor.
    ///
    /// The session gets a new HTTP client with a cookie store of its own
    /// and the profile's user agent. Fails only with `ClientInitError`, when
    /// no such client can be built.
    pub fn with_profile(vendor: VendorProfile, account_number: String, zip_code: String) -> (r:
        Result<LibertyClient, Failure>)
        ensures
            match r {
                Ok(session) => {
                    &&& session.held_vendor() == vendor
                    &&& session.held_credential() == (Credential { account_number, zip_code })
                    &&& client_keeps_cookies(session.held_client())
                    &&& client_agent(session.held_client()) == Some(vendor.user_agent@)
                },
                Err(failure) => failure.error == FetchError::ClientInitError,
            },
    {
        let builder = client_builder();
        let builder = builder_cookie_store(builder, true);
        let builder = builder_user_agent(builder, vendor.user_agent);
        LibertyClient::assemble(builder_build(builder), vendor, account_number, zip_code)
    }

    /// Makes a session for an account of Liberty.
    ///
    /// Fails only with `ClientInitError`, when no HTTP client can be built.
    pub fn new(account_number: String, zip_code: String) -> (r: Result<LibertyClient, Failure>)
        ensures
            match r {
                Ok(session) => {
                    &&& session.held_vendor() == VendorProfile::liberty_profile()
                    &&& session.held_credential() == (Credential { account_number, zip_code })
                    &&& client_keeps_cookies(session.held_client())
                    &&& client_agent(session.held_client()) == Some(
                        VendorProfile::liberty_profile().user_agent@,
                    )
                },
                Err(failure) => failure.error == FetchError::ClientInitError,
            },
    {
        LibertyClient::with_profile(VendorProfile::liberty(), account_number, zip_code)
    }

    /// The HTTP client on which every request of this session is to be
    /// sent.
    pub fn http_client(&self) -> (r: &reqwest::Client)
        ensures
            *r == self.held_client(),
    {
        &self.client
    }

    /// The account and zip code of this session.
    pub fn credential(&self) -> (r: &Credential)
        ensures
            *r == self.held_credential(),
    {
        &self.credential
    }

    /// The vendor profile of this session.
    pub fn vendor(&self) -> (r: &VendorProfile)
        ensures
            *r == self.held_vendor(),
    {
        &self.vendor
    }

    /// The first action of a fetch on this session.
    pub fn begin(&self) -> (action: Action)
        ensures
            action@ == ActionModel::Send(
                planned_request(self.held_vendor(), self.held_credential(), Step::Generate),
            ),
    {
        begin(&self.vendor, &self.credential)
    }

    /// The action that follows the reply to the request of `step`.
    pub fn advance(&self, step: Step, reply: Reply) -> (action: Action)
        ensures
            action@ == next_action(self.held_vendor(), self.held_credential(), step, reply),
    {
        advance(&self.vendor, &self.credential, step, reply)
    }
}

} // verus!
