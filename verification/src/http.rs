//! Requests and responses as plain values: the library says what to send
//! and reads what came back, and leaves the sending to its caller.

use vstd::prelude::*;

verus! {

/// How a request is sent.
#[derive(Debug, Clone, Copy, PartialEq, Eq)]
pub enum HttpMethod {
    Get,
    Post,
}

/// A request to send: each header is a name and its value.
#[derive(Debug, Clone, PartialEq, Eq)]
pub struct HttpRequest {
    pub method: HttpMethod,
    pub url: String,
    pub headers: Vec<(String, String)>,
    pub body: Option<String>,
}

/// The mathematical value of an [`HttpRequest`].
pub ghost struct HttpRequestView {
    pub method: HttpMethod,
    pub url: Seq<char>,
    pub headers: Seq<(Seq<char>, Seq<char>)>,
    pub body: Option<Seq<char>>,
}

impl View for HttpRequest {
    type V = HttpRequestView;

    open spec fn view(&self) -> HttpRequestView {
        HttpRequestView {
            method: self.method,
            url: self.url@,
            headers: self.headers.deep_view(),
            body: match self.body {
                Some(text) => Some(text@),
                None => None,
            },
        }
    }
}

/// A response that came back: the status code, the status as the
/// transport prints it, and the body as text.
#[derive(Debug, Clone, PartialEq, Eq)]
pub struct HttpResponse {
    pub status: u16,
    pub status_text: String,
    pub body: String,
}

/// The mathematical value of an [`HttpResponse`].
pub ghost struct HttpResponseView {
    pub status: u16,
    pub status_text: Seq<char>,
    pub body: Seq<char>,
}

impl View for HttpResponse {
    type V = HttpResponseView;

    open spec fn view(&self) -> HttpResponseView {
        HttpResponseView { status: self.status, status_text: self.status_text@, body: self.body@ }
    }
}

/// Whether a status code is one of the 2xx codes.
pub open spec fn is_success_status(status: u16) -> bool {
    200 <= status && status < 300
}

impl HttpResponse {
    /// Whether the status is one of the 2xx codes.
    pub fn is_success(&self) -> (yes: bool)
        ensures
            yes == is_success_status(self.status),
    {
        200 <= self.status && self.status < 300
    }
}

} // verus!
