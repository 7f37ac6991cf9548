//! The OpenAI-shaped requests and responses of the HTTP surface.
//!
//! Sampling parameters that are fractions are held as the decimal text that
//! they are handed to the backend in.

use vstd::prelude::*;

verus! {

/// The view of a string that may be absent.
pub open spec fn optional_view(s: Option<String>) -> Option<Seq<char>> {
    match s {
        Some(s) => Some(s@),
        None => None,
    }
}

/// Who wrote a message.
#[derive(Clone, Copy, PartialEq, Eq, Structural, Debug)]
pub enum Role {
    System,
    User,
    Assistant,
    Function,
}

/// One message of a chat completion request.
#[derive(Debug, Clone, PartialEq, Eq)]
pub struct ChatMessage {
    pub role: Role,
    pub content: String,
}

pub struct ChatMessageView {
    pub role: Role,
    pub content: Seq<char>,
}

impl View for ChatMessage {
    type V = ChatMessageView;

    open spec fn view(&self) -> ChatMessageView {
        ChatMessageView { role: self.role, content: self.content@ }
    }
}

/// The views of a sequence of request messages.
pub open spec fn chat_messages_view(v: Seq<ChatMessage>) -> Seq<ChatMessageView> {
    v.map_values(|m: ChatMessage| m@)
}

/// A chat completion request. Each sampling parameter is present only if the
/// request named it.
#[derive(Debug, Clone, PartialEq, Eq)]
pub struct CompletionRequest {
    pub model: Option<String>,
    pub messages: Vec<ChatMessage>,
    pub max_tokens: Option<i32>,
    pub temperature: Option<String>,
    pub top_p: Option<String>,
    pub frequency_penalty: Option<String>,
}

pub struct CompletionRequestView {
    pub model: Option<Seq<char>>,
    pub messages: Seq<ChatMessageView>,
    pub max_tokens: Option<i32>,
    pub temperature: Option<Seq<char>>,
    pub top_p: Option<Seq<char>>,
    pub frequency_penalty: Option<Seq<char>>,
}

impl View for CompletionRequest {
    type V = CompletionRequestView;

    open spec fn view(&self) -> CompletionRequestView {
        CompletionRequestView {
            model: optional_view(self.model),
            messages: chat_messages_view(self.messages@),
            max_tokens: self.max_tokens,
            temperature: optional_view(self.temperature),
            top_p: optional_view(self.top_p),
            frequency_penalty: optional_view(self.frequency_penalty),
        }
    }
}

/// Why the model stopped generating.
#[derive(Clone, Copy, PartialEq, Eq, Structural, Debug)]
pub enum FinishReason {
    Stop,
    Length,
    FunctionCall,
}

/// Token counts of one completion.
#[derive(Clone, Copy, PartialEq, Eq, Structural, Debug)]
pub struct TokenUsage {
    pub prompt_tokens: u32,
    pub completion_tokens: u32,
    pub total_tokens: u32,
}

/// One answer of a chat completion.
#[derive(Debug, Clone, PartialEq, Eq)]
pub struct Choice {
    pub index: u32,
    pub role: Role,
    pub content: String,
    pub finish_reason: FinishReason,
}

pub struct ChoiceView {
    pub index: u32,
    pub role: Role,
    pub content: Seq<char>,
    pub finish_reason: FinishReason,
}

impl View for Choice {
    type V = ChoiceView;

    open spec fn view(&self) -> ChoiceView {
        ChoiceView {
            index: self.index,
            role: self.role,
            content: self.content@,
            finish_reason: self.finish_reason,
        }
    }
}

/// A chat completion. `created` is in seconds.
#[derive(Debug, Clone, PartialEq, Eq)]
pub struct Completion {
    pub id: String,
    pub object: String,
    pub created: u64,
    pub model: String,
    pub choices: Vec<Choice>,
    pub usage: TokenUsage,
}

pub struct CompletionView {
    pub id: Seq<char>,
    pub object: Seq<char>,
    pub created: u64,
    pub model: Seq<char>,
    pub choices: Seq<ChoiceView>,
    pub usage: TokenUsage,
}

impl View for Completion {
    type V = CompletionView;

    open spec fn view(&self) -> CompletionView {
        CompletionView {
            id: self.id@,
            object: self.object@,
            created: self.created,
            model: self.model@,
            choices: self.choices@.map_values(|c: Choice| c@),
            usage: self.usage,
        }
    }
}

/// One entry of the model list. `created` is in seconds.
#[derive(Debug, Clone, PartialEq, Eq)]
pub struct ModelEntry {
    pub id: String,
    pub created: u64,
    pub object: String,
    pub owned_by: String,
}

pub struct ModelEntryView {
    pub id: Seq<char>,
    pub created: u64,
    pub object: Seq<char>,
    pub owned_by: Seq<char>,
}

impl View for ModelEntry {
    type V = ModelEntryView;

    open spec fn view(&self) -> ModelEntryView {
        ModelEntryView {
            id: self.id@,
            created: self.created,
            object: self.object@,
            owned_by: self.owned_by@,
        }
    }
}

/// The model list of the HTTP surface.
#[derive(Debug, Clone, PartialEq, Eq)]
pub struct ModelList {
    pub object: String,
    pub data: Vec<ModelEntry>,
}

pub struct ModelListView {
    pub object: Seq<char>,
    pub data: Seq<ModelEntryView>,
}

impl View for ModelList {
    type V = ModelListView;

    open spec fn view(&self) -> ModelListView {
        ModelListView { object: self.object@, data: self.data@.map_values(|m: ModelEntry| m@) }
    }
}

} // verus!
