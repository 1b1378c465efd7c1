//! The generic resource client.
//!
//! A `BaseHTTPClient` turns resource operations into concrete requests
//! against a configured base URL and interprets the outcome of the exchange.
//! The exchange itself (and the JSON codec) is an external collaborator: the
//! caller performs it and hands back an `HttpOutcome`, which the functions
//! here map onto the uniform error taxonomy. Success is any 2xx status; a
//! non-2xx status yields a protocol failure carrying status and body; no
//! response at all yields a transport failure; a success body of the wrong
//! shape yields a decode failure.

use vstd::prelude::*;
use crate::error::{RemoteError, RemoteErrorView, is_success_status};

verus! {

/// The verb of a remote resource operation.
#[derive(Clone, Copy, PartialEq, Eq, Structural, Debug)]
pub enum HttpVerb {
    Get,
    Post,
    Put,
}

/// A fully formed request: what the transport is asked to perform.
#[derive(Debug)]
pub struct HttpRequest {
    pub verb: HttpVerb,
    pub url: String,
    pub body: Vec<u8>,
}

/// The mathematical shape of an `HttpRequest`.
pub struct HttpRequestView {
    pub verb: HttpVerb,
    pub url: Seq<char>,
    pub body: Seq<u8>,
}

impl View for HttpRequest {
    type V = HttpRequestView;

    open spec fn view(&self) -> HttpRequestView {
        HttpRequestView { verb: self.verb, url: self.url@, body: self.body@ }
    }
}

/// What the transport produced for one request: either no response at all,
/// or a response with its status and raw body.
#[derive(Debug)]
pub enum HttpOutcome {
    NoResponse { detail: String },
    Response { status: u16, body: Vec<u8> },
}

/// The mathematical shape of an `HttpOutcome`.
pub enum HttpOutcomeView {
    NoResponse { detail: Seq<char> },
    Response { status: u16, body: Seq<u8> },
}

impl View for HttpOutcome {
    type V = HttpOutcomeView;

    open spec fn view(&self) -> HttpOutcomeView {
        match *self {
            HttpOutcome::NoResponse { detail } => HttpOutcomeView::NoResponse { detail: detail@ },
            HttpOutcome::Response { status, body } => HttpOutcomeView::Response {
                status,
                body: body@,
            },
        }
    }
}

/// How a read operation interprets an outcome: no response is a transport
/// failure, a non-2xx status is a protocol failure carrying status and body,
/// and a 2xx response hands its body on to the decode step.
pub open spec fn spec_read_result(o: HttpOutcomeView) -> Result<Seq<u8>, RemoteErrorView> {
    match o {
        HttpOutcomeView::NoResponse { detail } => Err(
            RemoteErrorView::TransportFailure { detail },
        ),
        HttpOutcomeView::Response { status, body } => if is_success_status(status) {
            Ok(body)
        } else {
            Err(RemoteErrorView::ProtocolFailure { status, body })
        },
    }
}

/// How a write operation interprets an outcome: as a read does, except that
/// a success body is discarded.
pub open spec fn spec_write_result(o: HttpOutcomeView) -> Result<(), RemoteErrorView> {
    match spec_read_result(o) {
        Ok(_) => Ok(()),
        Err(e) => Err(e),
    }
}

/// The view of a read result, for relating exec values to `spec_read_result`.
pub open spec fn body_result_view(r: Result<Vec<u8>, RemoteError>) -> Result<
    Seq<u8>,
    RemoteErrorView,
> {
    match r {
        Ok(body) => Ok(body@),
        Err(e) => Err(e@),
    }
}

/// The view of a write result.
pub open spec fn unit_result_view(r: Result<(), RemoteError>) -> Result<(), RemoteErrorView> {
    match r {
        Ok(u) => Ok(u),
        Err(e) => Err(e@),
    }
}

/// Interpret the outcome of a read: the body on success, the normalized
/// error otherwise.
pub fn read_result(outcome: HttpOutcome) -> (r: Result<Vec<u8>, RemoteError>)
    ensures
        body_result_view(r) == spec_read_result(outcome@),
{
    match outcome {
        HttpOutcome::NoResponse { detail } => Err(RemoteError::TransportFailure { detail }),
        HttpOutcome::Response { status, body } => {
            if 200 <= status && status <= 299 {
                Ok(body)
            } else {
                Err(RemoteError::ProtocolFailure { status, body })
            }
        },
    }
}

/// Interpret the outcome of a write: writes expect a discardable success
/// body, so only success or the normalized error is surfaced.
pub fn write_result(outcome: HttpOutcome) -> (r: Result<(), RemoteError>)
    ensures
        unit_result_view(r) == spec_write_result(outcome@),
{
    match read_result(outcome) {
        Ok(_) => Ok(()),
        Err(e) => Err(e),
    }
}

/// Finish a read: the codec is external, so the caller decodes the body and
/// hands both the typed result and the raw bytes back. A body the codec
/// could not shape into `T` is a decode failure carrying the raw body.
pub fn decode_result<T>(decoded: Option<T>, raw: Vec<u8>) -> (r: Result<T, RemoteError>)
    ensures
        decoded matches Some(v) ==> r matches Ok(w) && w == v,
        decoded is None ==> (r matches Err(e) && e@ == (RemoteErrorView::DecodeFailure {
            raw: raw@,
        })),
{
    match decoded {
        Some(v) => Ok(v),
        None => Err(RemoteError::DecodeFailure { raw }),
    }
}

/// The generic typed REST client: it owns nothing but the base URL; every
/// call is independent.
pub struct BaseHTTPClient {
    base_url: String,
}

impl BaseHTTPClient {
    /// The configured base URL, as a sequence of characters.
    pub closed spec fn base(&self) -> Seq<char> {
        self.base_url@
    }

    /// A client against the default local service endpoint.
    pub fn new() -> (r: Result<BaseHTTPClient, RemoteError>)
        ensures
            r matches Ok(c) && c.base() == "http://localhost/api"@,
    {
        Ok(BaseHTTPClient { base_url: "http://localhost/api".to_owned() })
    }

    /// A client against the given base URL.
    pub fn new_with_url(base_url: String) -> (r: BaseHTTPClient)
        ensures
            r.base() == base_url@,
    {
        BaseHTTPClient { base_url }
    }

    /// The absolute URL of a resource path under this client's base.
    pub fn url_for(&self, path: &str) -> (r: String)
        ensures
            r@ == self.base() + path@,
    {
        let mut url = self.base_url.clone();
        url.append(path);
        url
    }

    /// The read request for a resource path.
    pub fn fetch_request(&self, path: &str) -> (r: HttpRequest)
        ensures
            r.verb == HttpVerb::Get,
            r@.url == self.base() + path@,
            r@.body == Seq::<u8>::empty(),
    {
        HttpRequest { verb: HttpVerb::Get, url: self.url_for(path), body: Vec::new() }
    }

    /// The creation request for a collection path, carrying the encoded
    /// payload.
    pub fn create_request(&self, path: &str, payload: Vec<u8>) -> (r: HttpRequest)
        ensures
            r.verb == HttpVerb::Post,
            r@.url == self.base() + path@,
            r@.body == payload@,
    {
        HttpRequest { verb: HttpVerb::Post, url: self.url_for(path), body: payload }
    }

    /// The replacement request for a resource path, carrying the encoded
    /// payload.
    pub fn replace_request(&self, path: &str, payload: Vec<u8>) -> (r: HttpRequest)
        ensures
            r.verb == HttpVerb::Put,
            r@.url == self.base() + path@,
            r@.body == payload@,
    {
        HttpRequest { verb: HttpVerb::Put, url: self.url_for(path), body: payload }
    }

    /// The request for a side-effecting action that takes no payload: a post
    /// of an empty body.
    pub fn trigger_request(&self, path: &str) -> (r: HttpRequest)
        ensures
            r.verb == HttpVerb::Post,
            r@.url == self.base() + path@,
            r@.body == Seq::<u8>::empty(),
    {
        HttpRequest { verb: HttpVerb::Post, url: self.url_for(path), body: Vec::new() }
    }
}

} // verus!
