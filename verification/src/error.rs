//! The failures the client reports, each carrying what a caller needs to
//! diagnose it.

use vstd::prelude::*;
use vstd::string::*;
use crate::http::{status_string, status_text};
use crate::text::decimal;

verus! {

/// Why an operation of the client failed.
#[derive(Clone, Debug)]
pub enum RpcError {
    /// The node answered with a status outside 200..=299.
    Status { url: String, status: u16, body: String },
    /// The node answered with success, but the body is not the expected
    /// resource. `body` is the raw text, `cause` the decoder's complaint.
    Decode { body: String, cause: String },
}

/// The mathematical content of an [`RpcError`].
pub enum RpcErrorView {
    Status { url: Seq<char>, status: u16, body: Seq<char> },
    Decode { body: Seq<char>, cause: Seq<char> },
}

impl View for RpcError {
    type V = RpcErrorView;

    open spec fn view(&self) -> RpcErrorView {
        match self {
            RpcError::Status { url, status, body } => RpcErrorView::Status {
                url: url@,
                status: *status,
                body: body@,
            },
            RpcError::Decode { body, cause } => RpcErrorView::Decode {
                body: body@,
                cause: cause@,
            },
        }
    }
}

/// The one-line text of a failure. A failed status reads
/// `request <url> failed, status: <status>, body: <body>`; a body that could
/// not be decoded reads `serialize data to resource: <body>`.
pub open spec fn message_of(e: RpcErrorView) -> Seq<char> {
    match e {
        RpcErrorView::Status { url, status, body } => "request "@ + url + " failed, status: "@
            + status_text(status) + ", body: "@ + body,
        RpcErrorView::Decode { body, cause } => "serialize data to resource: "@ + body,
    }
}

/// Where the status begins in the text of a failed status.
pub open spec fn status_offset(url: Seq<char>) -> int {
    ("request "@.len() + url.len() + " failed, status: "@.len()) as int
}

impl RpcError {
    /// The text of this failure. For a failed status the code stands in it
    /// in decimal, right after `status: `.
    pub fn message(&self) -> (text: String)
        ensures
            text@ == message_of(self@),
            self@ matches RpcErrorView::Status { url, status, body } ==> text@.subrange(
                status_offset(url),
                status_offset(url) + decimal(status as nat).len(),
            ) == decimal(status as nat),
    {
        match self {
            RpcError::Status { url, status, body } => {
                let code: String = status_string(*status);
                let mut text: String = String::from_str("request ");
                text.append(url.as_str());
                text.append(" failed, status: ");
                text.append(code.as_str());
                text.append(", body: ");
                text.append(body.as_str());
                proof {
                    let at = status_offset(url@);
                    let digits = decimal(*status as nat);
                    assert(text@.subrange(at, at + digits.len()) =~= code@.subrange(
                        0,
                        digits.len() as int,
                    ));
                    assert(text@ =~= message_of(self@));
                }
                text
            },
            RpcError::Decode { body, cause } => {
                let mut text: String = String::from_str("serialize data to resource: ");
                text.append(body.as_str());
                text
            },
        }
    }
}

/// The text of a failed status holds the address, the status and the raw
/// body, in that order and each in full.
pub proof fn lemma_status_message_parts(url: Seq<char>, status: u16, body: Seq<char>)
    ensures
        ({
            let m = message_of(RpcErrorView::Status { url, status, body });
            let at_url = "request "@.len() as int;
            let at_status = status_offset(url);
            let at_body = at_status + status_text(status).len() + ", body: "@.len();
            &&& m.subrange(at_url, at_url + url.len()) == url
            &&& m.subrange(at_status, at_status + status_text(status).len()) == status_text(status)
            &&& m.subrange(at_body, m.len() as int) == body
        }),
{
    let m = message_of(RpcErrorView::Status { url, status, body });
    let at_url = "request "@.len() as int;
    let at_status = status_offset(url);
    let at_body = at_status + status_text(status).len() + ", body: "@.len();
    assert(m.subrange(at_url, at_url + url.len()) =~= url);
    assert(m.subrange(at_status, at_status + status_text(status).len()) =~= status_text(status));
    assert(m.subrange(at_body, m.len() as int) =~= body);
}

/// The text of a decode failure ends with the raw body.
pub proof fn lemma_decode_message_parts(body: Seq<char>, cause: Seq<char>)
    ensures
        ({
            let m = message_of(RpcErrorView::Decode { body, cause });
            m.subrange(m.len() - body.len(), m.len() as int) == body
        }),
{
    let m = message_of(RpcErrorView::Decode { body, cause });
    assert(m.subrange(m.len() - body.len(), m.len() as int) =~= body);
}

} // verus!
