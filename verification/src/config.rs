//! The shared dispatcher configuration: credential, routing, user agent,
//! transport and throughput quota, together with request construction and
//! response classification.
//!
//! One [`Config`] backs a whole client handle; every facade routes its calls
//! through it, so authentication, routing and the throughput budget are
//! single-sourced.

use vstd::prelude::*;

use reqwest::Client as ReqwestClient;

use crate::limit::{Quota, DEFAULT_PERIOD_NS};
use crate::request::{spec_bearer, Method, Request};
use crate::{ConfigError, Error, ErrorResponse};

verus! {

/// The serialization of `s` as an absolute URL, when `s` parses as one.
pub uninterp spec fn parsed_url(s: Seq<char>) -> Option<Seq<char>>;

/// The resolution of `path` against the absolute URL `base`, when the
/// combination is a valid absolute URL.
pub uninterp spec fn joined_url(base: Seq<char>, path: Seq<char>) -> Option<Seq<char>>;

/// Relies on `url::Url::parse` (re-exported by reqwest): whether a string
/// parses as an absolute URL, and the parsed URL's serialization, are
/// functions of the string alone.
#[verifier::external_body]
fn parse_url(s: &str) -> (r: Option<String>)
    ensures
        r is Some <==> parsed_url(s@) is Some,
        r matches Some(u) ==> parsed_url(s@) == Some(u@),
{
    match reqwest::Url::parse(s) {
        Ok(u) => Some(String::from(u)),
        Err(_) => None,
    }
}

/// Relies on `url::Url::join` (re-exported by reqwest): resolving a path
/// against a base URL is a function of the two strings alone.  The stored
/// base serialization is reparsed before joining.
#[verifier::external_body]
fn join_url(base: &str, path: &str) -> (r: Option<String>)
    ensures
        r is Some <==> joined_url(base@, path@) is Some,
        r matches Some(u) ==> joined_url(base@, path@) == Some(u@),
{
    match reqwest::Url::parse(base) {
        Ok(b) => match b.join(path) {
            Ok(u) => Some(String::from(u)),
            Err(_) => None,
        },
        Err(_) => None,
    }
}

/// The decode of a response body against the service's structured error
/// shape: the error-kind identifier and the message, when the body is a
/// JSON object carrying both as strings.
pub uninterp spec fn decoded_error(body: Seq<u8>) -> Option<(Seq<char>, Seq<char>)>;

/// Relies on serde_json (`from_slice` to a generic value, `Value::get` and
/// `Value::as_str`) to decode the service's error shape: a JSON object
/// whose `name` and `message` fields are strings.  The decode is a function
/// of the body bytes alone.
#[verifier::external_body]
fn decode_error_body(body: &[u8]) -> (r: Option<ErrorResponse>)
    ensures
        r is Some <==> decoded_error(body@) is Some,
        r matches Some(e) ==> decoded_error(body@) == Some((e.name@, e.message@)),
{
    let value: serde_json::Value = match serde_json::from_slice(body) {
        Ok(v) => v,
        Err(_) => return None,
    };
    let name = value.get("name")?.as_str()?.to_owned();
    let message = value.get("message")?.as_str()?.to_owned();
    Some(ErrorResponse { name, message })
}

/// The underlying HTTP transport, opaque to the verified logic: it owns the
/// connection pool and executes requests outside this crate.
#[verifier::external_type_specification]
#[verifier::external_body]
pub struct ExReqwestClient(ReqwestClient);

/// Relies on `reqwest::Client::clone`: a clone is a new handle to the same
/// connection pool.
pub assume_specification[ <ReqwestClient as Clone>::clone ](
    c: &ReqwestClient,
) -> ReqwestClient;

/// Relies on `reqwest::Client::builder` and `ClientBuilder::build` to
/// construct the default transport; an initialization failure is reported
/// as `None` rather than surfaced as a panic.
#[verifier::external_body]
pub fn default_transport() -> (r: Option<ReqwestClient>) {
    ReqwestClient::builder().build().ok()
}

/// The fixed `User-Agent` value attached to every request: client name and
/// version.
pub open spec fn spec_user_agent() -> Seq<char> {
    "resend_rs/0.1.0"@
}

/// The production endpoint used when no base-URL override is given.
pub open spec fn spec_default_base_url() -> Seq<char> {
    "https://api.resend.com"@
}

/// The message attached to the transport error raised when an error-status
/// body does not decode to the structured error shape.
pub open spec fn spec_undecodable_error_text() -> Seq<char> {
    "error response body could not be decoded"@
}

/// A raw successful response: the status and the body bytes, passed through
/// to the issuing facade untouched.
#[derive(Debug, Clone)]
pub struct Response {
    /// The HTTP status code.
    pub status: u16,
    /// The response body bytes.
    pub body: Vec<u8>,
}

/// Client-error and server-error statuses: the range whose bodies carry the
/// service's structured error shape.
pub open spec fn is_error_status(status: u16) -> bool {
    400 <= status <= 599
}

/// The request that a dispatcher with the given credential, user agent and
/// base URL builds for a method and resource path, as plain data: the
/// resolved URL, a bearer `Authorization` header and the `User-Agent`
/// header, and no body yet.
pub open spec fn built_request(
    credential: Seq<char>,
    user_agent: Seq<char>,
    base: Seq<char>,
    method: Method,
    path: Seq<char>,
) -> (Method, Seq<char>, Seq<(Seq<char>, Seq<char>)>, Option<Seq<u8>>) {
    (
        method,
        joined_url(base, path).unwrap(),
        seq![("Authorization"@, spec_bearer(credential)), ("User-Agent"@, user_agent)],
        None,
    )
}

/// The request a dispatcher builds for a method and path once a facade has
/// attached a JSON body: the built request plus a `Content-Type` header
/// and the body bytes.
pub open spec fn built_json_request(
    credential: Seq<char>,
    user_agent: Seq<char>,
    base: Seq<char>,
    method: Method,
    path: Seq<char>,
    body: Seq<u8>,
) -> (Method, Seq<char>, Seq<(Seq<char>, Seq<char>)>, Option<Seq<u8>>) {
    let b = built_request(credential, user_agent, base, method, path);
    (b.0, b.1, b.2.push(("Content-Type"@, "application/json"@)), Some(body))
}

/// A request descriptor as plain data: method, URL, headers and body.
pub open spec fn request_view(r: Request) -> (
    Method,
    Seq<char>,
    Seq<(Seq<char>, Seq<char>)>,
    Option<Seq<u8>>,
) {
    (
        r.method,
        r.url@,
        r.headers@.map_values(|p: (String, String)| (p.0@, p.1@)),
        match r.body {
            Some(b) => Some(b@),
            None => None,
        },
    )
}

/// The dispatcher: owns the credential, base URL, user agent, transport and
/// throughput quota shared by all facades of one client handle.
///
/// The credential must never be displayed in full, so the type offers no
/// derived rendering of itself; [`Config::describe`] is the diagnostic
/// view, with the credential redacted.
pub struct Config {
    /// Fixed `User-Agent` value attached to every request.
    pub user_agent: String,
    /// The opaque bearer credential; never displayed in full.
    pub api_key: String,
    /// The absolute URL all resource paths are resolved against, stored in
    /// parsed, normalized form.
    pub base_url: String,
    /// The underlying HTTP transport.
    pub transport: ReqwestClient,
    /// The throughput quota for non-blocking dispatch.
    pub quota: Quota,
}

impl Config {
    /// A well-formed dispatcher: the throughput quota is usable.
    pub open spec fn wf(self) -> bool {
        self.quota.wf()
    }

    /// Creates a dispatcher from resolved configuration: credential, base
    /// URL, requests-per-period override and transport.  A malformed base
    /// URL or a zero rate is a fatal misconfiguration, reported
    /// immediately; the handle is never usable.
    pub fn new(api_key: &str, base_url: &str, rate: u32, transport: ReqwestClient) -> (r:
        Result<Config, ConfigError>)
        ensures
            parsed_url(base_url@) is None ==> r == Result::<Config, ConfigError>::Err(
                ConfigError::InvalidBaseUrl,
            ),
            parsed_url(base_url@) is Some && rate == 0 ==> r == Result::<
                Config,
                ConfigError,
            >::Err(ConfigError::InvalidRateLimit),
            r is Ok <==> parsed_url(base_url@) is Some && rate != 0,
            r matches Ok(c) ==> {
                &&& c.wf()
                &&& c.api_key@ == api_key@
                &&& c.user_agent@ == spec_user_agent()
                &&& Some(c.base_url@) == parsed_url(base_url@)
                &&& c.quota == (Quota { burst: rate, period_ns: DEFAULT_PERIOD_NS })
                &&& c.transport == transport
            },
    {
        let parsed = match parse_url(base_url) {
            Some(u) => u,
            None => {
                return Err(ConfigError::InvalidBaseUrl);
            },
        };
        let quota = match Quota::from_rate(rate) {
            Ok(q) => q,
            Err(e) => {
                return Err(e);
            },
        };
        let user_agent = String::from_str("resend_rs/0.1.0");
        Ok(
            Config {
                user_agent,
                api_key: api_key.to_owned(),
                base_url: parsed,
                transport,
                quota,
            },
        )
    }

    /// Constructs the authenticated, unsent request for a method and a
    /// resource-relative path: the path resolved against the base URL, a
    /// bearer `Authorization` header and the fixed `User-Agent` header.
    /// No I/O occurs; this is pure construction.  An unresolvable
    /// method/path combination is a programmer error, excluded by the
    /// precondition; [`Config::try_build`] checks it at run time.
    pub fn build(&self, method: Method, path: &str) -> (r: Request)
        requires
            joined_url(self.base_url@, path@) is Some,
        ensures
            request_view(r) == built_request(
                self.api_key@,
                self.user_agent@,
                self.base_url@,
                method,
                path@,
            ),
    {
        let url = match join_url(self.base_url.as_str(), path) {
            Some(u) => u,
            None => {
                return vstd::pervasive::unreached();
            },
        };
        let mut auth = String::from_str("Bearer ");
        auth.append(self.api_key.as_str());
        let mut headers: Vec<(String, String)> = Vec::new();
        headers.push((String::from_str("Authorization"), auth));
        headers.push((String::from_str("User-Agent"), self.user_agent.clone()));
        let r = Request { method, url, headers, body: None };
        proof {
            assert(request_view(r).2 =~= built_request(
                self.api_key@,
                self.user_agent@,
                self.base_url@,
                method,
                path@,
            ).2);
            assert(request_view(r) =~= built_request(
                self.api_key@,
                self.user_agent@,
                self.base_url@,
                method,
                path@,
            ));
        }
        r
    }

    /// Like [`Config::build`], but checks at run time that the path
    /// resolves against the base URL, and reports an unresolvable
    /// combination as `None` instead of requiring it away.
    pub fn try_build(&self, method: Method, path: &str) -> (r: Option<Request>)
        ensures
            r is Some <==> joined_url(self.base_url@, path@) is Some,
            r matches Some(req) ==> request_view(req) == built_request(
                self.api_key@,
                self.user_agent@,
                self.base_url@,
                method,
                path@,
            ),
    {
        match join_url(self.base_url.as_str(), path) {
            Some(_) => Some(self.build(method, path)),
            None => None,
        }
    }

    /// Classifies the outcome of one dispatched request from its status and
    /// body: an error status with a decodable structured body is a remote
    /// error carrying exactly the decoded kind and message; an error status
    /// with an undecodable body is a transport error, never a remote error
    /// with fabricated fields; any other status passes through as a raw
    /// success, unmodified.
    pub fn classify_response(status: u16, body: Vec<u8>) -> (r: Result<Response, Error>)
        ensures
            !is_error_status(status) ==> r == Result::<Response, Error>::Ok(
                (Response { status, body }),
            ),
            is_error_status(status) && decoded_error(body@) is Some ==> (r matches Err(
                Error::Resend(e),
            ) && decoded_error(body@) == Some((e.name@, e.message@))),
            is_error_status(status) && decoded_error(body@) is None ==> (r matches Err(
                Error::Http(m),
            ) && m@ == spec_undecodable_error_text()),
    {
        if 400 <= status && status <= 599 {
            match decode_error_body(body.as_slice()) {
                Some(e) => Err(Error::Resend(e)),
                None => Err(Error::Http(String::from_str(
                    "error response body could not be decoded",
                ))),
            }
        } else {
            Ok(Response { status, body })
        }
    }

    /// What the dispatcher reveals of itself for diagnostics: user agent
    /// and base URL.  The credential is redacted — the description is not a
    /// function of it.
    pub fn describe(&self) -> (r: String)
        ensures
            r@ == spec_description(self.user_agent@, self.base_url@),
    {
        let mut out = String::from_str("Client { api_key: \"re_*********\", user_agent: \"");
        out.append(self.user_agent.as_str());
        out.append("\", base_url: \"");
        out.append(self.base_url.as_str());
        out.append("\", .. }");
        out
    }
}

/// The redacted diagnostic description of a dispatcher.
pub open spec fn spec_description(user_agent: Seq<char>, base_url: Seq<char>) -> Seq<char> {
    "Client { api_key: \"re_*********\", user_agent: \""@ + user_agent + "\", base_url: \""@
        + base_url + "\", .. }"@
}

/// `build` is pure: the request it constructs is a function of credential,
/// user agent, base URL, method and path alone, so two dispatchers that
/// agree on those build requests identical in method, resolved URL and
/// headers — whatever transport or quota they carry.
pub proof fn lemma_build_pure(
    r1: Request,
    r2: Request,
    c1: Config,
    c2: Config,
    method: Method,
    path: Seq<char>,
)
    requires
        c1.api_key@ == c2.api_key@,
        c1.user_agent@ == c2.user_agent@,
        c1.base_url@ == c2.base_url@,
        request_view(r1) == built_request(c1.api_key@, c1.user_agent@, c1.base_url@, method, path),
        request_view(r2) == built_request(c2.api_key@, c2.user_agent@, c2.base_url@, method, path),
    ensures
        r1.method == r2.method,
        r1.url@ == r2.url@,
        r1.headers@.map_values(|p: (String, String)| (p.0@, p.1@)) == r2.headers@.map_values(
            |p: (String, String)| (p.0@, p.1@),
        ),
        r1.body is None && r2.body is None,
{
    assert(request_view(r1) == request_view(r2));
    assert(request_view(r1).3 == request_view(r2).3);
}

} // verus!
