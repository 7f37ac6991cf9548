//! One shape for every failure of a remote call, with the status that each
//! is reported under.

use crate::llm::{StatusError, StatusErrorView};
use vstd::prelude::*;

verus! {

/// Where a remote call failed.
#[derive(Clone, Copy, PartialEq, Eq, Structural, Debug)]
pub enum ErrorKind {
    /// The request could not be encoded; no call was made.
    PreCallSerialization,
    /// The call could not be delivered.
    TransportFailure,
    /// The reply could not be decoded.
    ResponseDeserialization,
    /// The backend answered with a failure of its own.
    UpstreamStatus,
}

/// The status code reported for a failure that carries no backend status.
pub open spec fn local_status(kind: ErrorKind) -> u32 {
    match kind {
        ErrorKind::PreCallSerialization => 500,
        _ => 502,
    }
}

/// The status label reported for a failure that carries no backend label.
pub open spec fn local_label(kind: ErrorKind) -> Seq<char> {
    match kind {
        ErrorKind::PreCallSerialization => "PreCallSerialization"@,
        ErrorKind::TransportFailure => "TransportFailure"@,
        ErrorKind::ResponseDeserialization => "ResponseDeserialization"@,
        ErrorKind::UpstreamStatus => "UpstreamStatus"@,
    }
}

/// A failed remote call.
#[derive(Debug, Clone, PartialEq, Eq)]
pub struct UnifiedError {
    pub kind: ErrorKind,
    pub http_status_code: u32,
    pub status_label: String,
    pub message: String,
}

pub struct UnifiedErrorView {
    pub kind: ErrorKind,
    pub http_status_code: u32,
    pub status_label: Seq<char>,
    pub message: Seq<char>,
}

impl View for UnifiedError {
    type V = UnifiedErrorView;

    open spec fn view(&self) -> UnifiedErrorView {
        UnifiedErrorView {
            kind: self.kind,
            http_status_code: self.http_status_code,
            status_label: self.status_label@,
            message: self.message@,
        }
    }
}

/// The failure of kind `kind`, other than one reported by the backend, with its message.
pub open spec fn local_failure(kind: ErrorKind, message: Seq<char>) -> UnifiedErrorView {
    UnifiedErrorView {
        kind,
        http_status_code: local_status(kind),
        status_label: local_label(kind),
        message,
    }
}

/// The failure that the backend reported, with its code and label untouched.
pub open spec fn upstream_failure(e: StatusErrorView) -> UnifiedErrorView {
    UnifiedErrorView {
        kind: ErrorKind::UpstreamStatus,
        http_status_code: e.status_code,
        status_label: e.status,
        message: e.error,
    }
}

impl UnifiedErrorView {
    /// A failure that did not come from the backend carries the code and label of its kind.
    pub open spec fn wf(self) -> bool {
        self.kind != ErrorKind::UpstreamStatus ==> self.http_status_code == local_status(self.kind)
            && self.status_label == local_label(self.kind)
    }
}

impl UnifiedError {
    fn local(kind: ErrorKind, message: String) -> (e: UnifiedError)
        requires
            kind != ErrorKind::UpstreamStatus,
        ensures
            e@ == local_failure(kind, message@),
    {
        let (code, label): (u32, &str) = match kind {
            ErrorKind::PreCallSerialization => (500, "PreCallSerialization"),
            ErrorKind::TransportFailure => (502, "TransportFailure"),
            _ => (502, "ResponseDeserialization"),
        };
        UnifiedError {
            kind,
            http_status_code: code,
            status_label: String::from_str(label),
            message,
        }
    }

    /// The request could not be encoded.
    pub fn pre_call_serialization(message: String) -> (e: UnifiedError)
        ensures
            e@ == local_failure(ErrorKind::PreCallSerialization, message@),
            e@.wf(),
    {
        UnifiedError::local(ErrorKind::PreCallSerialization, message)
    }

    /// The call could not be delivered.
    pub fn transport_failure(message: String) -> (e: UnifiedError)
        ensures
            e@ == local_failure(ErrorKind::TransportFailure, message@),
            e@.wf(),
    {
        UnifiedError::local(ErrorKind::TransportFailure, message)
    }

    /// The reply could not be decoded.
    pub fn response_deserialization(message: String) -> (e: UnifiedError)
        ensures
            e@ == local_failure(ErrorKind::ResponseDeserialization, message@),
            e@.wf(),
    {
        UnifiedError::local(ErrorKind::ResponseDeserialization, message)
    }

    /// The backend's own failure, passed through.
    pub fn upstream(e: StatusError) -> (u: UnifiedError)
        ensures
            u@ == upstream_failure(e@),
            u@.wf(),
    {
        UnifiedError {
            kind: ErrorKind::UpstreamStatus,
            http_status_code: e.status_code,
            status_label: e.status,
            message: e.error,
        }
    }

    /// The status code of the HTTP response that reports this failure:
    /// the low sixteen bits of the failure's code.
    pub fn response_status(&self) -> (code: u16)
        ensures
            code == self@.http_status_code % 0x1_0000,
    {
        (self.http_status_code % 0x1_0000) as u16
    }
}

/// Whatever its message, a failure that did not come from the backend is well
/// formed and is reported under a server error code, never under zero.
pub proof fn lemma_local_failure_is_server_error(kind: ErrorKind, message: Seq<char>)
    requires
        kind != ErrorKind::UpstreamStatus,
    ensures
        local_failure(kind, message).wf(),
        500 <= local_failure(kind, message).http_status_code <= 599,
        local_failure(kind, message).http_status_code % 0x1_0000 == local_failure(
            kind,
            message,
        ).http_status_code,
{
}

/// A failure reported by the backend keeps the backend's code, label and text.
pub proof fn lemma_upstream_failure_is_verbatim(e: StatusErrorView)
    ensures
        upstream_failure(e).wf(),
        upstream_failure(e).kind == ErrorKind::UpstreamStatus,
        upstream_failure(e).http_status_code == e.status_code,
        upstream_failure(e).status_label == e.status,
        upstream_failure(e).message == e.error,
{
}

} // verus!
