//! The JSON of the HTTP surface: reading a chat completion request and writing
//! completions, model lists and string literals. The JSON itself is the work of
//! `serde_json` on the types of `endpoints`; what it makes of a value is known
//! here by name only.

use crate::openai::{
    ChatMessage, Choice, Completion, CompletionRequest, CompletionRequestView, CompletionView,
    FinishReason, ModelList, ModelListView, Role,
};
use endpoints::chat::{
    ChatCompletionObject, ChatCompletionObjectChoice, ChatCompletionObjectMessage,
    ChatCompletionRequest, ChatCompletionRole,
};
use endpoints::common::Usage;
use endpoints::models::{ListModelsResponse, Model};
use vstd::prelude::*;

verus! {

/// What a body read as the JSON of a chat completion request holds: the
/// request, or the parser's message where the body is no such JSON.
pub uninterp spec fn parsed_request(body: Seq<u8>) -> Result<CompletionRequestView, Seq<char>>;

/// The JSON text of a completion, or the serializer's message.
pub uninterp spec fn completion_json(completion: CompletionView) -> Result<Seq<u8>, Seq<char>>;

/// The JSON text of a model list, or the serializer's message.
pub uninterp spec fn model_list_json(list: ModelListView) -> Result<Seq<u8>, Seq<char>>;

/// The JSON string literal that stands for a text, quotes included, if the
/// serializer yields one.
pub uninterp spec fn json_string(text: Seq<char>) -> Option<Seq<char>>;

/// `serde_json::from_slice` at `endpoints::chat::ChatCompletionRequest`, whose
/// fields are then moved into a `CompletionRequest`, fractions as `Display`
/// writes them. The result is a function of the body alone: `parsed_request`.
#[verifier::external_body]
pub(crate) fn parse_request(body: &[u8]) -> (r: Result<CompletionRequest, String>)
    ensures
        match r {
            Ok(request) => parsed_request(body@) == Ok::<CompletionRequestView, Seq<char>>(
                request@,
            ),
            Err(message) => parsed_request(body@) == Err::<CompletionRequestView, Seq<char>>(
                message@,
            ),
        },
{
    let r: ChatCompletionRequest = serde_json::from_slice(body).map_err(|e| e.to_string())?;
    let messages = r.messages.into_iter().map(|m| ChatMessage {
        role: match m.role {
            ChatCompletionRole::System => Role::System,
            ChatCompletionRole::User => Role::User,
            ChatCompletionRole::Assistant => Role::Assistant,
            ChatCompletionRole::Function => Role::Function,
        },
        content: m.content,
    }).collect();
    let temperature = r.temperature.map(|t| t.to_string());
    let top_p = r.top_p.map(|t| t.to_string());
    let frequency_penalty = r.frequency_penalty.map(|t| t.to_string());
    Ok(CompletionRequest { model: r.model, messages, max_tokens: r.max_tokens, temperature, top_p, frequency_penalty })
}

#[verifier::external_type_specification]
#[verifier::external_body]
pub struct ExChatCompletionObjectChoice(ChatCompletionObjectChoice);

/// Moves a choice into `endpoints::chat::ChatCompletionObjectChoice`, field by
/// field and variant by variant. Nothing is claimed of the result.
#[verifier::external_body]
fn choice_out(choice: &Choice) -> ChatCompletionObjectChoice {
    let role = match choice.role {
        Role::System => ChatCompletionRole::System,
        Role::User => ChatCompletionRole::User,
        Role::Assistant => ChatCompletionRole::Assistant,
        Role::Function => ChatCompletionRole::Function,
    };
    let finish_reason = match choice.finish_reason {
        FinishReason::Stop => endpoints::common::FinishReason::stop,
        FinishReason::Length => endpoints::common::FinishReason::length,
        FinishReason::FunctionCall => endpoints::common::FinishReason::function_call,
    };
    let message = ChatCompletionObjectMessage { role, content: choice.content.clone(), function_call: None };
    ChatCompletionObjectChoice { index: choice.index, message, finish_reason }
}

/// `serde_json::to_vec` at `endpoints::chat::ChatCompletionObject`, into which
/// the completion's fields are moved first. The result is a function of the
/// completion alone: `completion_json`.
#[verifier::external_body]
pub(crate) fn encode_completion(c: &Completion) -> (r: Result<Vec<u8>, String>)
    ensures
        match r {
            Ok(bytes) => completion_json(c@) == Ok::<Seq<u8>, Seq<char>>(bytes@),
            Err(message) => completion_json(c@) == Err::<Seq<u8>, Seq<char>>(message@),
        },
{
    let usage = Usage {
        prompt_tokens: c.usage.prompt_tokens,
        completion_tokens: c.usage.completion_tokens,
        total_tokens: c.usage.total_tokens,
    };
    let choices = c.choices.iter().map(choice_out).collect();
    let object = ChatCompletionObject { id: c.id.clone(), object: c.object.clone(), created: c.created, model: c.model.clone(), choices, usage };
    serde_json::to_vec(&object).map_err(|e| e.to_string())
}

/// `serde_json::to_vec` at `endpoints::models::ListModelsResponse`, into which
/// the list's fields are moved first. The result is a function of the list
/// alone: `model_list_json`.
#[verifier::external_body]
pub(crate) fn encode_model_list(list: &ModelList) -> (r: Result<Vec<u8>, String>)
    ensures
        match r {
            Ok(bytes) => model_list_json(list@) == Ok::<Seq<u8>, Seq<char>>(bytes@),
            Err(message) => model_list_json(list@) == Err::<Seq<u8>, Seq<char>>(message@),
        },
{
    let data = list.data.iter().map(|m| Model {
        id: m.id.clone(),
        created: m.created,
        object: m.object.clone(),
        owned_by: m.owned_by.clone(),
    }).collect();
    serde_json::to_vec(&ListModelsResponse { object: list.object.clone(), data }).map_err(|e| e.to_string())
}

/// `serde_json::to_string` at `str`: the JSON string literal for a text. The
/// result is a function of the text alone: `json_string`.
#[verifier::external_body]
pub(crate) fn quote(text: &str) -> (r: Option<String>)
    ensures
        match r {
            Some(literal) => json_string(text@) == Some(literal@),
            None => json_string(text@) is None,
        },
{
    serde_json::to_string(text).ok()
}

} // verus!
