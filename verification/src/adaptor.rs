//! The remote side of the three backend operations: which procedure is invoked
//! with which payload, and what each way a call can end is reported as.
//!
//! Encoding a request, delivering the call and decoding the reply happen outside
//! this library. Each function here takes what such a step produced and decides
//! what follows, so that one logical call makes at most one remote invocation.

use crate::error::{local_failure, upstream_failure, ErrorKind, UnifiedError};
use crate::llm::StatusError;
use vstd::prelude::*;

verus! {

/// The procedure that serves chat calls.
pub open spec fn chat_procedure() -> Seq<char> {
    "ollama:llm/Llm.Chat"@
}

/// The procedure that describes a model.
pub open spec fn show_procedure() -> Seq<char> {
    "ollama:llm/Llm.Show"@
}

/// The procedure that lists the models.
pub open spec fn list_procedure() -> Seq<char> {
    "ollama:llm/Llm.List"@
}

/// One remote invocation: the procedure's name and the encoded request.
#[derive(Debug, Clone, PartialEq, Eq)]
pub struct Invocation {
    pub procedure: String,
    pub payload: Vec<u8>,
}

pub struct InvocationView {
    pub procedure: Seq<char>,
    pub payload: Seq<u8>,
}

impl View for Invocation {
    type V = InvocationView;

    open spec fn view(&self) -> InvocationView {
        InvocationView { procedure: self.procedure@, payload: self.payload@ }
    }
}

/// How a remote invocation ended.
#[derive(Debug, Clone, PartialEq, Eq)]
pub enum CallOutcome<T> {
    /// The call could not be delivered; the transport's message.
    Undelivered(String),
    /// The reply was neither a response nor a backend failure; the decoder's message.
    Undecodable(String),
    /// The backend answered with a failure of its own.
    Rejected(StatusError),
    /// The backend answered with a response.
    Answered(T),
}

/// The adaptor between the backend's operations and the remote procedures
/// that carry them.
#[derive(Debug, Clone, PartialEq, Eq)]
pub struct OllamaLlm;

impl OllamaLlm {
    fn prepare(procedure: &str, encoded: Result<Vec<u8>, String>) -> (r: Result<
        Invocation,
        UnifiedError,
    >)
        ensures
            match encoded {
                Ok(payload) => r matches Ok(call) && call@ == (InvocationView {
                    procedure: procedure@,
                    payload: payload@,
                }),
                Err(message) => r matches Err(e) && e@ == local_failure(
                    ErrorKind::PreCallSerialization,
                    message@,
                ),
            },
    {
        match encoded {
            Ok(payload) => Ok(Invocation { procedure: String::from_str(procedure), payload }),
            Err(message) => Err(UnifiedError::pre_call_serialization(message)),
        }
    }

    /// The chat operation, from the outcome of encoding its request. An encoded
    /// request goes to the chat procedure unchanged; a request that could not be
    /// encoded is reported without any call.
    pub fn chat(encoded: Result<Vec<u8>, String>) -> (r: Result<Invocation, UnifiedError>)
        ensures
            match encoded {
                Ok(payload) => r matches Ok(call) && call@ == (InvocationView {
                    procedure: chat_procedure(),
                    payload: payload@,
                }),
                Err(message) => r matches Err(e) && e@ == local_failure(
                    ErrorKind::PreCallSerialization,
                    message@,
                ),
            },
    {
        OllamaLlm::prepare("ollama:llm/Llm.Chat", encoded)
    }

    /// The show operation, from the outcome of encoding its request.
    pub fn show(encoded: Result<Vec<u8>, String>) -> (r: Result<Invocation, UnifiedError>)
        ensures
            match encoded {
                Ok(payload) => r matches Ok(call) && call@ == (InvocationView {
                    procedure: show_procedure(),
                    payload: payload@,
                }),
                Err(message) => r matches Err(e) && e@ == local_failure(
                    ErrorKind::PreCallSerialization,
                    message@,
                ),
            },
    {
        OllamaLlm::prepare("ollama:llm/Llm.Show", encoded)
    }

    /// The list operation, which carries no request: the list procedure is
    /// invoked with an empty payload.
    pub fn list() -> (call: Invocation)
        ensures
            call@ == (InvocationView { procedure: list_procedure(), payload: Seq::<u8>::empty() }),
    {
        Invocation { procedure: String::from_str("ollama:llm/Llm.List"), payload: Vec::new() }
    }

    /// The result of an operation, from the way its invocation ended. A response
    /// is handed on as it came; the backend's own failure keeps its code, label
    /// and text; the other two failures are reported under their kinds.
    pub fn conclude<T>(outcome: CallOutcome<T>) -> (r: Result<T, UnifiedError>)
        ensures
            r matches Err(e) ==> e@.wf(),
            match outcome {
                CallOutcome::Answered(response) => r == Ok::<T, UnifiedError>(response),
                CallOutcome::Rejected(status) => r matches Err(e) && e@ == upstream_failure(
                    status@,
                ),
                CallOutcome::Undecodable(message) => r matches Err(e) && e@ == local_failure(
                    ErrorKind::ResponseDeserialization,
                    message@,
                ),
                CallOutcome::Undelivered(message) => r matches Err(e) && e@ == local_failure(
                    ErrorKind::TransportFailure,
                    message@,
                ),
            },
    {
        match outcome {
            CallOutcome::Answered(response) => Ok(response),
            CallOutcome::Rejected(status) => Err(UnifiedError::upstream(status)),
            CallOutcome::Undecodable(message) => Err(UnifiedError::response_deserialization(message)),
            CallOutcome::Undelivered(message) => Err(UnifiedError::transport_failure(message)),
        }
    }
}

} // verus!
