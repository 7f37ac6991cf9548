//! The answer of each handler: what is written for the fixed paths, for a
//! model list, for a chat completion, and for each way these can fail.

use crate::error::{UnifiedError, UnifiedErrorView};
use crate::http::{error_body, plain, HttpResponse, HttpResponseView};
use crate::json::{
    completion_json, encode_completion, encode_model_list, model_list_json, parse_request,
    parsed_request,
};
use crate::llm::{
    ChatRequest, ChatRequestView, ChatResponse, ChatResponseView, ListResponse, ListResponseView,
};
use crate::openai::CompletionView;
use crate::translate::{
    backend_request, chat_completion, chat_request, completion_of, model_list, model_list_of,
};
use vstd::prelude::*;
use vstd::utf8::encode_utf8;

verus! {

/// The result of a chat call, over views.
pub open spec fn chat_result_view(result: Result<ChatResponse, UnifiedError>) -> Result<
    ChatResponseView,
    UnifiedErrorView,
> {
    match result {
        Ok(response) => Ok(response@),
        Err(e) => Err(e@),
    }
}

/// The result of a list call, over views.
pub open spec fn list_result_view(result: Result<ListResponse, UnifiedError>) -> Result<
    ListResponseView,
    UnifiedErrorView,
> {
    match result {
        Ok(list) => Ok(list@),
        Err(e) => Err(e@),
    }
}

/// The status code under which a failure's code is written: its low sixteen bits.
pub open spec fn status_of(code: u32) -> u16 {
    (code % 0x1_0000) as u16
}

/// The answer of `/echo`.
pub open spec fn echo_response() -> HttpResponseView {
    plain(200, encode_utf8("echo test"@))
}

/// The answer to a request that no handler serves.
pub open spec fn not_found_response() -> HttpResponseView {
    plain(400, encode_utf8("not found"@))
}

/// The answer to an event that the exchange did not ask for.
pub open spec fn unexpected_response() -> HttpResponseView {
    plain(500, error_body("unexpected event"@, "InternalError"@))
}

/// The answer to a chat request whose body is no chat completion request.
pub open spec fn parse_failure_response(message: Seq<char>) -> HttpResponseView {
    plain(400, error_body(message, "ParseError"@))
}

/// The answer to a chat request whose body could not be read to its end.
pub open spec fn body_failure_response(message: Seq<char>) -> HttpResponseView {
    plain(400, error_body(message, "BodyReadFailure"@))
}

/// The answer that reports a failed chat or show call: the failure's message
/// and label as a JSON object, under the failure's status code.
pub open spec fn failure_response(e: UnifiedErrorView) -> HttpResponseView {
    plain(status_of(e.http_status_code), error_body(e.message, e.status_label))
}

/// The answer that carries a completion: its JSON under 200, or the
/// serializer's message under 500.
pub open spec fn completion_response(completion: CompletionView) -> HttpResponseView {
    match completion_json(completion) {
        Ok(body) => plain(200, body),
        Err(message) => plain(500, error_body(message, "ResponseSerialization"@)),
    }
}

/// The answer to a chat request, from the result of the chat call and the
/// identifier of the completion.
pub open spec fn chat_response(
    result: Result<ChatResponseView, UnifiedErrorView>,
    id: Seq<char>,
) -> HttpResponseView {
    match result {
        Ok(response) => completion_response(completion_of(response, id)),
        Err(e) => failure_response(e),
    }
}

/// The answer to a model list request, from the result of the list call: the
/// JSON of the translated list under 200; for a failed call the failure's text
/// as it is, under the failure's status code.
pub open spec fn models_response(
    result: Result<ListResponseView, UnifiedErrorView>,
) -> HttpResponseView {
    match result {
        Ok(list) => match model_list_json(model_list_of(list)) {
            Ok(body) => plain(200, body),
            Err(message) => plain(500, encode_utf8(message)),
        },
        Err(e) => plain(status_of(e.http_status_code), encode_utf8(e.message)),
    }
}

/// What a chat request's body leads to: the backend's chat call, or the answer
/// that rejects the body.
pub open spec fn chat_call(body: Seq<u8>) -> Result<ChatRequestView, HttpResponseView> {
    match parsed_request(body) {
        Ok(request) => Ok(backend_request(request)),
        Err(message) => Err(parse_failure_response(message)),
    }
}

/// `uuid::Uuid::new_v4` and its `Display`: a random identifier in the
/// hyphenated form, which is 36 characters long. Two calls may differ. The call
/// panics where the system has no source of random bytes.
#[verifier::external_body]
fn fresh_id() -> (id: String)
    ensures
        id@.len() == 36,
{
    uuid::Uuid::new_v4().to_string()
}

/// Answers `/echo`.
pub fn handle_echo() -> (r: HttpResponse)
    ensures
        r@ == echo_response(),
{
    HttpResponse::text(200, "echo test")
}

/// Answers a request that no handler serves.
pub fn handle_not_found() -> (r: HttpResponse)
    ensures
        r@ == not_found_response(),
{
    HttpResponse::text(400, "not found")
}

/// Answers an event that the exchange did not ask for.
pub fn handle_unexpected() -> (r: HttpResponse)
    ensures
        r@ == unexpected_response(),
{
    HttpResponse::error(500, "unexpected event", "InternalError")
}

/// Answers a chat request whose body could not be read to its end.
pub fn handle_body_failure(message: &str) -> (r: HttpResponse)
    ensures
        r@ == body_failure_response(message@),
{
    HttpResponse::error(400, message, "BodyReadFailure")
}

/// Reports a failed call as a JSON object under the failure's status code.
pub fn handle_failure(e: &UnifiedError) -> (r: HttpResponse)
    ensures
        r@ == failure_response(e@),
{
    HttpResponse::error(e.response_status(), e.message.as_str(), e.status_label.as_str())
}

/// Answers a model list request with the result of the list call.
pub fn handle_list_models(result: Result<ListResponse, UnifiedError>) -> (r: HttpResponse)
    ensures
        r@ == models_response(list_result_view(result)),
{
    match result {
        Ok(list) => {
            let models = model_list(&list);
            match encode_model_list(&models) {
                Ok(body) => HttpResponse::with_body(200, body),
                Err(message) => HttpResponse::text(500, message.as_str()),
            }
        },
        Err(e) => HttpResponse::text(e.response_status(), e.message.as_str()),
    }
}

/// Reads a chat request's body and translates it into the backend's chat
/// call. A body that is no chat completion request is answered with 400.
pub fn openai_request(body: &[u8]) -> (r: Result<ChatRequest, HttpResponse>)
    ensures
        match r {
            Ok(call) => chat_call(body@) == Ok::<ChatRequestView, HttpResponseView>(call@),
            Err(response) => chat_call(body@) == Err::<ChatRequestView, HttpResponseView>(
                response@,
            ),
        },
{
    match parse_request(body) {
        Ok(request) => Ok(chat_request(&request)),
        Err(message) => Err(HttpResponse::error(400, message.as_str(), "ParseError")),
    }
}

/// Answers a chat request with the result of the chat call, the completion
/// under the identifier `id`.
pub fn openai_response(result: Result<ChatResponse, UnifiedError>, id: String) -> (r: HttpResponse)
    ensures
        r@ == chat_response(chat_result_view(result), id@),
{
    match result {
        Ok(response) => {
            let completion = chat_completion(&response, id);
            match encode_completion(&completion) {
                Ok(body) => HttpResponse::with_body(200, body),
                Err(message) => HttpResponse::error(
                    500,
                    message.as_str(),
                    "ResponseSerialization",
                ),
            }
        },
        Err(e) => handle_failure(&e),
    }
}

/// Answers a chat request with the result of the chat call, the completion
/// under a fresh identifier of 36 characters.
pub fn handle_openai_response(result: Result<ChatResponse, UnifiedError>) -> (r: HttpResponse)
    ensures
        exists|id: Seq<char>|
            id.len() == 36 && r@ == #[trigger] chat_response(chat_result_view(result), id),
{
    let id = fresh_id();
    openai_response(result, id)
}

} // verus!
