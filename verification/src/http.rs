//! Requests to web services, described as plain values that the application
//! sends, and the reading of their status codes.

use vstd::prelude::*;
use crate::error::LauncherError;

verus! {

#[derive(Debug, Clone, Copy, PartialEq, Eq)]
pub enum HttpMethod {
    Get,
    Post,
}

/// What a request carries after its headers.
#[derive(Debug, Clone, PartialEq, Eq)]
pub enum HttpBody {
    Empty,
    /// URL-encoded form fields, in order.
    Form(Vec<(String, String)>),
    /// A JSON document, sent with `Content-Type: application/json`.
    Json(String),
}

/// A request to a web service.
#[derive(Debug, Clone, PartialEq, Eq)]
pub struct HttpRequest {
    pub method: HttpMethod,
    pub url: String,
    /// Query parameters appended to `url`, in order.
    pub query: Vec<(String, String)>,
    /// Token for an `Authorization: Bearer` header.
    pub bearer_token: Option<String>,
    /// `User-Agent` header the client identifies itself with.
    pub user_agent: Option<String>,
    pub body: HttpBody,
}

pub enum HttpBodyView {
    Empty,
    Form(Seq<(Seq<char>, Seq<char>)>),
    Json(Seq<char>),
}

pub struct HttpRequestView {
    pub method: HttpMethod,
    pub url: Seq<char>,
    pub query: Seq<(Seq<char>, Seq<char>)>,
    pub bearer_token: Option<Seq<char>>,
    pub user_agent: Option<Seq<char>>,
    pub body: HttpBodyView,
}

impl View for HttpBody {
    type V = HttpBodyView;

    open spec fn view(&self) -> HttpBodyView {
        match self {
            HttpBody::Empty => HttpBodyView::Empty,
            HttpBody::Form(fields) => HttpBodyView::Form(fields.deep_view()),
            HttpBody::Json(text) => HttpBodyView::Json(text@),
        }
    }
}

impl View for HttpRequest {
    type V = HttpRequestView;

    open spec fn view(&self) -> HttpRequestView {
        HttpRequestView {
            method: self.method,
            url: self.url@,
            query: self.query.deep_view(),
            bearer_token: self.bearer_token.deep_view(),
            user_agent: self.user_agent.deep_view(),
            body: self.body@,
        }
    }
}

/// A plain GET request of `url`.
pub open spec fn spec_get(url: Seq<char>) -> HttpRequestView {
    HttpRequestView {
        method: HttpMethod::Get,
        url,
        query: Seq::empty(),
        bearer_token: None,
        user_agent: None,
        body: HttpBodyView::Empty,
    }
}

/// A POST of `url` with the given body.
pub open spec fn spec_post(url: Seq<char>, body: HttpBodyView) -> HttpRequestView {
    HttpRequestView {
        method: HttpMethod::Post,
        url,
        query: Seq::empty(),
        bearer_token: None,
        user_agent: None,
        body,
    }
}

/// A GET request of `url`, with no query, no token and no body.
pub fn get_request(url: String) -> (r: HttpRequest)
    ensures
        r@ == spec_get(url@),
{
    let r = HttpRequest {
        method: HttpMethod::Get,
        url,
        query: Vec::new(),
        bearer_token: None,
        user_agent: None,
        body: HttpBody::Empty,
    };
    assert(r.query.deep_view() =~= Seq::<(Seq<char>, Seq<char>)>::empty());
    r
}

/// A POST request of `url` carrying `body`.
pub fn post_request(url: String, body: HttpBody) -> (r: HttpRequest)
    ensures
        r@ == spec_post(url@, body@),
{
    let r = HttpRequest {
        method: HttpMethod::Post,
        url,
        query: Vec::new(),
        bearer_token: None,
        user_agent: None,
        body,
    };
    assert(r.query.deep_view() =~= Seq::<(Seq<char>, Seq<char>)>::empty());
    r
}

/// A form field.
pub fn field(name: &str, value: &str) -> (r: (String, String))
    ensures
        r.deep_view() == (name@, value@),
{
    (name.to_owned(), value.to_owned())
}

/// A status a service answers with when it refuses or fails (`error_for_status`).
pub open spec fn is_error_status(status: u16) -> bool {
    400 <= status < 600
}

/// A status that reports success.
pub open spec fn is_success_status(status: u16) -> bool {
    200 <= status < 300
}

pub fn error_status(status: u16) -> (r: bool)
    ensures
        r == is_error_status(status),
{
    400 <= status && status < 600
}

pub fn success_status(status: u16) -> (r: bool)
    ensures
        r == is_success_status(status),
{
    200 <= status && status < 300
}

/// The reading of a reply that must succeed and carry a JSON document:
/// an error status is reported first (with the client's report of it), then
/// an unreadable body.
pub open spec fn spec_json_reply<T>(status: u16, report: String, body: Option<T>) -> Result<T, LauncherError> {
    if is_error_status(status) {
        Err(LauncherError::HttpStatus(status, report))
    } else {
        match body {
            Some(b) => Ok(b),
            None => Err(LauncherError::MalformedReply),
        }
    }
}

/// Reads a reply: `report` is the HTTP client's report of an error status,
/// `body` the parsed document (`None` when it could not be parsed).
pub fn json_reply<T>(status: u16, report: String, body: Option<T>) -> (r: Result<T, LauncherError>)
    ensures
        r == spec_json_reply(status, report, body),
{
    if error_status(status) {
        Err(LauncherError::HttpStatus(status, report))
    } else {
        match body {
            Some(b) => Ok(b),
            None => Err(LauncherError::MalformedReply),
        }
    }
}

} // verus!
