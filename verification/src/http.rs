//! The response that is written for a request: a status code, headers and
//! body bytes.

use crate::json::{json_string, quote};
use crate::llm::pairs_view;
use vstd::prelude::*;
use vstd::slice::slice_to_vec;
use vstd::utf8::encode_utf8;

verus! {

/// A complete HTTP response.
#[derive(Debug, Clone, PartialEq, Eq)]
pub struct HttpResponse {
    pub status: u16,
    pub headers: Vec<(String, String)>,
    pub body: Vec<u8>,
}

pub struct HttpResponseView {
    pub status: u16,
    pub headers: Seq<(Seq<char>, Seq<char>)>,
    pub body: Seq<u8>,
}

impl View for HttpResponse {
    type V = HttpResponseView;

    open spec fn view(&self) -> HttpResponseView {
        HttpResponseView {
            status: self.status,
            headers: pairs_view(self.headers@),
            body: self.body@,
        }
    }
}

/// The response with a status, a body and no headers.
pub open spec fn plain(status: u16, body: Seq<u8>) -> HttpResponseView {
    HttpResponseView { status, headers: Seq::empty(), body }
}

/// The body that reports a failure: the JSON object with the failure's
/// message under `error` and its label under `status`. Should one of the two
/// have no JSON literal, the body is the message as it is.
pub open spec fn error_body(message: Seq<char>, label: Seq<char>) -> Seq<u8> {
    match (json_string(message), json_string(label)) {
        (Some(m), Some(l)) => encode_utf8("{\"error\":"@ + m + ",\"status\":"@ + l + "}"@),
        _ => encode_utf8(message),
    }
}

impl HttpResponse {
    /// The response with the given status and body and no headers.
    pub fn with_body(status: u16, body: Vec<u8>) -> (r: HttpResponse)
        ensures
            r@ == plain(status, body@),
    {
        let r = HttpResponse { status, headers: Vec::new(), body };
        assert(r@.headers =~= Seq::empty());
        r
    }

    /// The response whose body is a text, in UTF-8.
    pub fn text(status: u16, text: &str) -> (r: HttpResponse)
        ensures
            r@ == plain(status, encode_utf8(text@)),
    {
        HttpResponse::with_body(status, slice_to_vec(text.as_bytes()))
    }

    /// The response that reports a failure as a JSON object.
    pub fn error(status: u16, message: &str, label: &str) -> (r: HttpResponse)
        ensures
            r@ == plain(status, error_body(message@, label@)),
    {
        match (quote(message), quote(label)) {
            (Some(m), Some(l)) => {
                let mut body = String::from_str("{\"error\":");
                body.append(m.as_str());
                body.append(",\"status\":");
                body.append(l.as_str());
                body.append("}");
                HttpResponse::text(status, body.as_str())
            },
            _ => HttpResponse::text(status, message),
        }
    }
}

} // verus!
