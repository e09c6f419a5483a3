//! The plain values that travel between the client's rules and whoever moves
//! the bytes: a request to perform, and the response that came back.

use vstd::prelude::*;
use vstd::string::*;
use crate::text::{decimal, decimal_string};

verus! {

/// The two HTTP methods the client uses.
#[derive(Clone, Copy, Debug, PartialEq, Eq, Structural)]
pub enum Method {
    Get,
    Post,
}

/// A request for the caller to perform: the method, the full address and,
/// for a `Post`, the JSON text to send as the body.
#[derive(Clone, Debug)]
pub struct Request {
    pub method: Method,
    pub url: String,
    pub body: Option<String>,
}

/// The mathematical content of a [`Request`].
pub struct RequestView {
    pub method: Method,
    pub url: Seq<char>,
    pub body: Option<Seq<char>>,
}

impl View for Request {
    type V = RequestView;

    open spec fn view(&self) -> RequestView {
        RequestView {
            method: self.method,
            url: self.url@,
            body: match self.body {
                Some(b) => Some(b@),
                None => None,
            },
        }
    }
}

/// What a node answered: the status code and the body read as text,
/// whatever the status was.
#[derive(Clone, Debug)]
pub struct Response {
    pub status: u16,
    pub body: String,
}

/// Whether a status code reports success: the codes from 200 to 299.
pub open spec fn status_is_success(status: u16) -> bool {
    200 <= status < 300
}

/// Tells a successful status from a failed one.
pub fn is_success(status: u16) -> (ok: bool)
    ensures
        ok == status_is_success(status),
{
    200 <= status && status < 300
}

/// Whether `code` is a status code at all: three decimal digits, the first
/// not zero.
pub open spec fn is_status_code(code: u16) -> bool {
    100 <= code < 1000
}

/// What the `Display` impl of `http::StatusCode` writes for the status
/// `code`: the code followed by its canonical reason phrase, as in
/// `404 Not Found`.
pub uninterp spec fn status_display(code: u16) -> Seq<char>;

/// Calls `reqwest::StatusCode::from_u16` (the `StatusCode` of the `http`
/// crate) on `code` and renders the status through its `Display` impl.
/// Trusted: a status exists exactly for the codes from 100 to 999; its text
/// is the one [`status_display`] names, and that text begins with the code
/// in decimal.
#[verifier::external_body]
fn display_status(code: u16) -> (text: Option<String>)
    ensures
        text is Some <==> is_status_code(code),
        text is Some ==> text->0@ == status_display(code),
        text is Some ==> decimal(code as nat).is_prefix_of(text->0@),
{
    match reqwest::StatusCode::from_u16(code) {
        Ok(status) => Some(status.to_string()),
        Err(_) => None,
    }
}

/// How a status is written in a message: a status code with its reason
/// phrase, any other number bare.
pub open spec fn status_text(code: u16) -> Seq<char> {
    if is_status_code(code) {
        status_display(code)
    } else {
        decimal(code as nat)
    }
}

/// Writes a status for a message. Whatever the reason phrase, the text
/// begins with the code in decimal.
pub fn status_string(code: u16) -> (text: String)
    ensures
        text@ == status_text(code),
        decimal(code as nat).is_prefix_of(text@),
{
    match display_status(code) {
        Some(text) => text,
        None => decimal_string(code as u64),
    }
}

} // verus!
