//! The backend's own request and response shapes, as they travel through the
//! remote chat, show and list operations.

use vstd::prelude::*;

verus! {

/// The views of a sequence of strings.
pub open spec fn strings_view(v: Seq<String>) -> Seq<Seq<char>> {
    v.map_values(|s: String| s@)
}

/// The views of a sequence of name and value pairs.
pub open spec fn pairs_view(v: Seq<(String, String)>) -> Seq<(Seq<char>, Seq<char>)> {
    v.map_values(|p: (String, String)| (p.0@, p.1@))
}

/// One turn of a conversation.
#[derive(Debug, Clone, PartialEq, Eq)]
pub struct Message {
    pub role: String,
    pub content: String,
}

pub struct MessageView {
    pub role: Seq<char>,
    pub content: Seq<char>,
}

impl View for Message {
    type V = MessageView;

    open spec fn view(&self) -> MessageView {
        MessageView { role: self.role@, content: self.content@ }
    }
}

/// The views of a sequence of messages.
pub open spec fn messages_view(v: Seq<Message>) -> Seq<MessageView> {
    v.map_values(|m: Message| m@)
}

/// A chat call as the backend takes it.
#[derive(Debug, Clone, PartialEq, Eq)]
pub struct ChatRequest {
    pub model: String,
    pub messages: Vec<Message>,
    pub with_stream: Option<bool>,
    pub format: String,
    pub options: Vec<(String, String)>,
}

pub struct ChatRequestView {
    pub model: Seq<char>,
    pub messages: Seq<MessageView>,
    pub with_stream: Option<bool>,
    pub format: Seq<char>,
    pub options: Seq<(Seq<char>, Seq<char>)>,
}

impl View for ChatRequest {
    type V = ChatRequestView;

    open spec fn view(&self) -> ChatRequestView {
        ChatRequestView {
            model: self.model@,
            messages: messages_view(self.messages@),
            with_stream: self.with_stream,
            format: self.format@,
            options: pairs_view(self.options@),
        }
    }
}

/// What the backend answers to a chat call. `created_at` is in milliseconds,
/// the durations in nanoseconds.
#[derive(Debug, Clone, PartialEq, Eq)]
pub struct ChatResponse {
    pub model: String,
    pub created_at: u64,
    pub message: Message,
    pub done: bool,
    pub total_duration: u64,
    pub load_duration: u64,
    pub prompt_eval_count: u32,
    pub prompt_eval_duration: u32,
    pub eval_count: u32,
    pub eval_duration: u32,
}

pub struct ChatResponseView {
    pub model: Seq<char>,
    pub created_at: u64,
    pub message: MessageView,
    pub done: bool,
    pub total_duration: u64,
    pub load_duration: u64,
    pub prompt_eval_count: u32,
    pub prompt_eval_duration: u32,
    pub eval_count: u32,
    pub eval_duration: u32,
}

impl View for ChatResponse {
    type V = ChatResponseView;

    open spec fn view(&self) -> ChatResponseView {
        ChatResponseView {
            model: self.model@,
            created_at: self.created_at,
            message: self.message@,
            done: self.done,
            total_duration: self.total_duration,
            load_duration: self.load_duration,
            prompt_eval_count: self.prompt_eval_count,
            prompt_eval_duration: self.prompt_eval_duration,
            eval_count: self.eval_count,
            eval_duration: self.eval_duration,
        }
    }
}

/// A request to describe one model.
#[derive(Debug, Clone, PartialEq, Eq)]
pub struct ShowRequest {
    pub name: String,
    pub model: String,
    pub system: String,
    pub template: String,
    pub options: Vec<(String, String)>,
}

pub struct ShowRequestView {
    pub name: Seq<char>,
    pub model: Seq<char>,
    pub system: Seq<char>,
    pub template: Seq<char>,
    pub options: Seq<(Seq<char>, Seq<char>)>,
}

impl View for ShowRequest {
    type V = ShowRequestView;

    open spec fn view(&self) -> ShowRequestView {
        ShowRequestView {
            name: self.name@,
            model: self.model@,
            system: self.system@,
            template: self.template@,
            options: pairs_view(self.options@),
        }
    }
}

/// How a model is built.
#[derive(Debug, Clone, PartialEq, Eq)]
pub struct ModelDetails {
    pub format: String,
    pub family: String,
    pub families: Vec<String>,
    pub parameter_size: String,
    pub quantization_level: String,
}

pub struct ModelDetailsView {
    pub format: Seq<char>,
    pub family: Seq<char>,
    pub families: Seq<Seq<char>>,
    pub parameter_size: Seq<char>,
    pub quantization_level: Seq<char>,
}

impl View for ModelDetails {
    type V = ModelDetailsView;

    open spec fn view(&self) -> ModelDetailsView {
        ModelDetailsView {
            format: self.format@,
            family: self.family@,
            families: strings_view(self.families@),
            parameter_size: self.parameter_size@,
            quantization_level: self.quantization_level@,
        }
    }
}

/// The description of one model.
#[derive(Debug, Clone, PartialEq, Eq)]
pub struct ShowResponse {
    pub license: String,
    pub modelfile: String,
    pub parameters: String,
    pub template: String,
    pub system: String,
    pub details: ModelDetails,
}

pub struct ShowResponseView {
    pub license: Seq<char>,
    pub modelfile: Seq<char>,
    pub parameters: Seq<char>,
    pub template: Seq<char>,
    pub system: Seq<char>,
    pub details: ModelDetailsView,
}

impl View for ShowResponse {
    type V = ShowResponseView;

    open spec fn view(&self) -> ShowResponseView {
        ShowResponseView {
            license: self.license@,
            modelfile: self.modelfile@,
            parameters: self.parameters@,
            template: self.template@,
            system: self.system@,
            details: self.details@,
        }
    }
}

/// One model that the backend holds. `modified_at` is in milliseconds.
#[derive(Debug, Clone, PartialEq, Eq)]
pub struct ModelResponse {
    pub name: String,
    pub modified_at: u64,
    pub size: u64,
    pub digest: String,
    pub details: ModelDetails,
}

pub struct ModelResponseView {
    pub name: Seq<char>,
    pub modified_at: u64,
    pub size: u64,
    pub digest: Seq<char>,
    pub details: ModelDetailsView,
}

impl View for ModelResponse {
    type V = ModelResponseView;

    open spec fn view(&self) -> ModelResponseView {
        ModelResponseView {
            name: self.name@,
            modified_at: self.modified_at,
            size: self.size,
            digest: self.digest@,
            details: self.details@,
        }
    }
}

/// The models that the backend holds, in the backend's order.
#[derive(Debug, Clone, PartialEq, Eq)]
pub struct ListResponse {
    pub models: Vec<ModelResponse>,
}

pub struct ListResponseView {
    pub models: Seq<ModelResponseView>,
}

impl View for ListResponse {
    type V = ListResponseView;

    open spec fn view(&self) -> ListResponseView {
        ListResponseView { models: self.models@.map_values(|m: ModelResponse| m@) }
    }
}

/// A failure that the backend itself reports in place of a response.
#[derive(Debug, Clone, PartialEq, Eq)]
pub struct StatusError {
    pub status_code: u32,
    pub status: String,
    pub error: String,
}

pub struct StatusErrorView {
    pub status_code: u32,
    pub status: Seq<char>,
    pub error: Seq<char>,
}

impl View for StatusError {
    type V = StatusErrorView;

    open spec fn view(&self) -> StatusErrorView {
        StatusErrorView { status_code: self.status_code, status: self.status@, error: self.error@ }
    }
}

} // verus!
