//! From the OpenAI-shaped request to the backend's chat call, and from the
//! backend's responses to the OpenAI-shaped ones.

use crate::llm::{
    messages_view, pairs_view, ChatRequest, ChatRequestView, ChatResponse, ChatResponseView,
    ListResponse, ListResponseView, Message, MessageView, ModelResponseView,
};
use crate::openai::{
    chat_messages_view, optional_view, ChatMessage, ChatMessageView, Choice, ChoiceView, Completion,
    CompletionRequest, CompletionRequestView, CompletionView, FinishReason, ModelEntry,
    ModelEntryView, ModelList, ModelListView, Role, TokenUsage,
};
use crate::text::{signed_decimal, signed_decimal_text};
use vstd::prelude::*;

verus! {

/// The backend's name for a role.
pub open spec fn role_name(role: Role) -> Seq<char> {
    match role {
        Role::System => "system"@,
        Role::User => "user"@,
        Role::Assistant => "assistant"@,
        Role::Function => "function"@,
    }
}

/// The roles that the backend is handed: system, user and assistant.
pub open spec fn recognized(role: Role) -> bool {
    role != Role::Function
}

/// Whether a message is handed to the backend.
pub open spec fn is_kept() -> spec_fn(ChatMessageView) -> bool {
    |m: ChatMessageView| recognized(m.role)
}

/// A request message as the backend takes it.
pub open spec fn backend_message(m: ChatMessageView) -> MessageView {
    MessageView { role: role_name(m.role), content: m.content }
}

/// The messages that the backend is handed: those of a recognized role, in
/// the order of the request.
pub open spec fn backend_messages(messages: Seq<ChatMessageView>) -> Seq<MessageView> {
    messages.filter(is_kept()).map_values(|m: ChatMessageView| backend_message(m))
}

/// The entry of one sampling parameter: one pair if it is present, none if not.
pub open spec fn option_entry(name: Seq<char>, value: Option<Seq<char>>) -> Seq<
    (Seq<char>, Seq<char>),
> {
    match value {
        Some(v) => seq![(name, v)],
        None => Seq::empty(),
    }
}

/// The text of the token limit, if there is one.
pub open spec fn max_tokens_text(limit: Option<i32>) -> Option<Seq<char>> {
    match limit {
        Some(n) => Some(signed_decimal(n as int)),
        None => None,
    }
}

/// The options that the backend is handed: one entry for each sampling
/// parameter that the request names, in the order token limit, temperature,
/// nucleus threshold, frequency penalty.
pub open spec fn backend_options(r: CompletionRequestView) -> Seq<(Seq<char>, Seq<char>)> {
    option_entry("max_tokens"@, max_tokens_text(r.max_tokens)) + option_entry(
        "temperature"@,
        r.temperature,
    ) + option_entry("top_p"@, r.top_p) + option_entry("frequency_penalty"@, r.frequency_penalty)
}

/// The backend's chat call for a request: the model's name, or the empty name
/// if the request has none; the recognized messages; no streaming; no format;
/// the options that the request names.
pub open spec fn backend_request(r: CompletionRequestView) -> ChatRequestView {
    ChatRequestView {
        model: match r.model {
            Some(m) => m,
            None => Seq::empty(),
        },
        messages: backend_messages(r.messages),
        with_stream: Some(false),
        format: Seq::empty(),
        options: backend_options(r),
    }
}

fn role_text(role: Role) -> (name: Option<String>)
    ensures
        name is Some <==> recognized(role),
        name matches Some(n) ==> n@ == role_name(role),
{
    match role {
        Role::System => Some(String::from_str("system")),
        Role::User => Some(String::from_str("user")),
        Role::Assistant => Some(String::from_str("assistant")),
        Role::Function => None,
    }
}

fn kept_messages(messages: &Vec<ChatMessage>) -> (out: Vec<Message>)
    ensures
        messages_view(out@) == backend_messages(chat_messages_view(messages@)),
{
    let ghost all = chat_messages_view(messages@);
    let mut out: Vec<Message> = Vec::new();
    let mut i: usize = 0;
    proof {
        reveal(Seq::filter);
    }
    while i < messages.len()
        invariant
            i <= messages.len(),
            all == chat_messages_view(messages@),
            messages_view(out@) == backend_messages(all.take(i as int)),
        decreases messages.len() - i,
    {
        let m = &messages[i];
        proof {
            let head = all.take(i as int);
            assert(all.take(i + 1) =~= head.push(all[i as int]));
            head.lemma_filter_push(all[i as int], is_kept());
        }
        match role_text(m.role) {
            Some(role) => {
                out.push(Message { role, content: m.content.clone() });
                proof {
                    let kept = all.take(i as int).filter(is_kept());
                    kept.lemma_push_map_commute(
                        |m: ChatMessageView| backend_message(m),
                        all[i as int],
                    );
                }
            },
            None => {},
        }
        i += 1;
    }
    proof {
        assert(all.take(i as int) =~= all);
    }
    out
}

fn push_option(options: &mut Vec<(String, String)>, name: &str, value: &Option<String>)
    ensures
        pairs_view(final(options)@) == pairs_view(old(options)@) + option_entry(
            name@,
            optional_view(*value),
        ),
{
    match value {
        Some(v) => options.push((String::from_str(name), v.clone())),
        None => {},
    }
}

fn named_options(request: &CompletionRequest) -> (options: Vec<(String, String)>)
    ensures
        pairs_view(options@) == backend_options(request@),
{
    let mut options: Vec<(String, String)> = Vec::new();
    let limit: Option<String> = match request.max_tokens {
        Some(n) => Some(signed_decimal_text(n)),
        None => None,
    };
    push_option(&mut options, "max_tokens", &limit);
    push_option(&mut options, "temperature", &request.temperature);
    push_option(&mut options, "top_p", &request.top_p);
    push_option(&mut options, "frequency_penalty", &request.frequency_penalty);
    options
}

/// Translates a chat completion request into the backend's chat call.
pub fn chat_request(request: &CompletionRequest) -> (call: ChatRequest)
    ensures
        call@ == backend_request(request@),
{
    let model = match &request.model {
        Some(m) => m.clone(),
        None => String::new(),
    };
    ChatRequest {
        model,
        messages: kept_messages(&request.messages),
        with_stream: Some(false),
        format: String::new(),
        options: named_options(request),
    }
}

/// The completion that answers a request with the backend's response, under
/// the identifier `id`: the model and the content of the response, its creation
/// time in whole seconds, and one choice, spoken by the assistant and finished by
/// a stop. No tokens are accounted for.
pub open spec fn completion_of(response: ChatResponseView, id: Seq<char>) -> CompletionView {
    CompletionView {
        id,
        object: "chat.completion"@,
        created: response.created_at / 1000,
        model: response.model,
        choices: seq![
            ChoiceView {
                index: 0,
                role: Role::Assistant,
                content: response.message.content,
                finish_reason: FinishReason::Stop,
            },
        ],
        usage: TokenUsage { prompt_tokens: 0, completion_tokens: 0, total_tokens: 0 },
    }
}

/// Builds the completion that reports the backend's response under the identifier `id`.
pub fn chat_completion(response: &ChatResponse, id: String) -> (completion: Completion)
    ensures
        completion@ == completion_of(response@, id@),
{
    let mut choices: Vec<Choice> = Vec::new();
    choices.push(
        Choice {
            index: 0,
            role: Role::Assistant,
            content: response.message.content.clone(),
            finish_reason: FinishReason::Stop,
        },
    );
    let completion = Completion {
        id,
        object: String::from_str("chat.completion"),
        created: response.created_at / 1000,
        model: response.model.clone(),
        choices,
        usage: TokenUsage { prompt_tokens: 0, completion_tokens: 0, total_tokens: 0 },
    };
    assert(completion@.choices =~= completion_of(response@, id@).choices);
    completion
}

/// The entry of the model list for one of the backend's models.
pub open spec fn model_entry_of(model: ModelResponseView) -> ModelEntryView {
    ModelEntryView {
        id: model.name,
        created: model.modified_at / 1000,
        object: "model"@,
        owned_by: "Not specified"@,
    }
}

/// The model list for the backend's models: one entry for each, in the
/// backend's order.
pub open spec fn model_list_of(list: ListResponseView) -> ModelListView {
    ModelListView {
        object: "list"@,
        data: list.models.map_values(|m: ModelResponseView| model_entry_of(m)),
    }
}

/// Translates the backend's models into the model list of the HTTP surface.
pub fn model_list(list: &ListResponse) -> (out: ModelList)
    ensures
        out@ == model_list_of(list@),
{
    let mut data: Vec<ModelEntry> = Vec::new();
    let mut i: usize = 0;
    while i < list.models.len()
        invariant
            i <= list.models.len(),
            data@.len() == i,
            forall|k: int| 0 <= k < i ==> (#[trigger] data@[k])@ == model_entry_of(list.models@[k]@),
        decreases list.models.len() - i,
    {
        let m = &list.models[i];
        data.push(
            ModelEntry {
                id: m.name.clone(),
                created: m.modified_at / 1000,
                object: String::from_str("model"),
                owned_by: String::from_str("Not specified"),
            },
        );
        i += 1;
    }
    let out = ModelList { object: String::from_str("list"), data };
    assert(out@.data =~= model_list_of(list@).data);
    out
}

/// The backend is handed the messages of two parts of a conversation as the
/// messages of the first part followed by those of the second.
pub proof fn lemma_backend_messages_concat(a: Seq<ChatMessageView>, b: Seq<ChatMessageView>)
    ensures
        backend_messages(a + b) == backend_messages(a) + backend_messages(b),
{
    Seq::filter_distributes_over_add(a, b, is_kept());
}

/// Where every message of a request has a recognized role, the backend is
/// handed every message, each at its place.
pub proof fn lemma_recognized_messages_all_kept(r: CompletionRequestView)
    requires
        forall|i: int| 0 <= i < r.messages.len() ==> recognized(#[trigger] r.messages[i].role),
    ensures
        backend_request(r).messages.len() == r.messages.len(),
        forall|i: int|
            0 <= i < r.messages.len() ==> #[trigger] backend_request(r).messages[i]
                == backend_message(r.messages[i]),
{
    lemma_all_kept(r.messages);
}

proof fn lemma_all_kept(messages: Seq<ChatMessageView>)
    requires
        forall|i: int| 0 <= i < messages.len() ==> recognized(#[trigger] messages[i].role),
    ensures
        backend_messages(messages).len() == messages.len(),
        forall|i: int|
            0 <= i < messages.len() ==> #[trigger] backend_messages(messages)[i]
                == backend_message(messages[i]),
    decreases messages.len(),
{
    reveal(Seq::filter);
    if messages.len() > 0 {
        let head = messages.drop_last();
        lemma_all_kept(head);
        head.lemma_filter_push(messages.last(), is_kept());
        assert(backend_messages(messages) =~= backend_messages(head).push(
            backend_message(messages.last()),
        ));
    }
}

/// A message of an unrecognized role is not handed to the backend: the
/// backend gets the messages before it, then those after it, in their order,
/// as it would if the request did not hold that message.
pub proof fn lemma_unrecognized_message_dropped(r: CompletionRequestView, i: int)
    requires
        0 <= i < r.messages.len(),
        !recognized(r.messages[i].role),
    ensures
        backend_request(r).messages == backend_messages(r.messages.take(i)) + backend_messages(
            r.messages.skip(i + 1),
        ),
        backend_request(r).messages == backend_messages(r.messages.remove(i)),
{
    reveal(Seq::filter);
    let before = r.messages.take(i);
    let message = r.messages[i];
    let after = r.messages.skip(i + 1);
    assert(r.messages =~= before + seq![message] + after);
    lemma_backend_messages_concat(before + seq![message], after);
    lemma_backend_messages_concat(before, seq![message]);
    lemma_backend_messages_concat(before, after);
    Seq::<ChatMessageView>::empty().lemma_filter_push(message, is_kept());
}

/// Every message that the backend is handed has one of the three recognized
/// role names.
pub proof fn lemma_backend_roles_recognized(messages: Seq<ChatMessageView>, i: int)
    requires
        0 <= i < backend_messages(messages).len(),
    ensures
        backend_messages(messages)[i].role == "system"@ || backend_messages(messages)[i].role
            == "user"@ || backend_messages(messages)[i].role == "assistant"@,
{
    messages.lemma_filter_pred(is_kept(), i);
}

/// The names of the sampling parameters, in the order of their entries.
pub open spec fn option_names() -> Seq<Seq<char>> {
    seq!["max_tokens"@, "temperature"@, "top_p"@, "frequency_penalty"@]
}

/// The text of each sampling parameter of a request, absent where the request
/// does not name it, in the order of `option_names`.
pub open spec fn option_values(r: CompletionRequestView) -> Seq<Option<Seq<char>>> {
    seq![max_tokens_text(r.max_tokens), r.temperature, r.top_p, r.frequency_penalty]
}

/// The place of a name among the sampling parameters; 4 for any other name.
pub open spec fn option_rank(name: Seq<char>) -> int {
    if name == "max_tokens"@ {
        0
    } else if name == "temperature"@ {
        1
    } else if name == "top_p"@ {
        2
    } else if name == "frequency_penalty"@ {
        3
    } else {
        4
    }
}

/// Whichever sampling parameters a request names, the options hold exactly
/// those: each entry is a named parameter with its text, each named parameter
/// has an entry, and the entries stand in the fixed order of the parameters, so
/// that no name occurs twice.
pub proof fn lemma_options_are_the_named_parameters(r: CompletionRequestView)
    ensures
        forall|i: int|
            0 <= i < backend_options(r).len() ==> {
                let k = option_rank((#[trigger] backend_options(r)[i]).0);
                0 <= k < 4 && option_values(r)[k] == Some(backend_options(r)[i].1)
            },
        forall|k: int|
            0 <= k < 4 && (#[trigger] option_values(r)[k]) is Some ==> backend_options(r).contains(
                (option_names()[k], option_values(r)[k]->0),
            ),
        forall|i: int, j: int|
            0 <= i < j < backend_options(r).len() ==> option_rank(
                (#[trigger] backend_options(r)[i]).0,
            ) < option_rank((#[trigger] backend_options(r)[j]).0),
        forall|i: int, j: int|
            0 <= i < j < backend_options(r).len() ==> (#[trigger] backend_options(r)[i]).0 != (
            #[trigger] backend_options(r)[j]).0,
{
    reveal_strlit("max_tokens");
    reveal_strlit("temperature");
    reveal_strlit("top_p");
    reveal_strlit("frequency_penalty");
    let o = backend_options(r);
    let e0 = option_entry("max_tokens"@, max_tokens_text(r.max_tokens));
    let e1 = option_entry("temperature"@, r.temperature);
    let e2 = option_entry("top_p"@, r.top_p);
    let e3 = option_entry("frequency_penalty"@, r.frequency_penalty);
    assert("max_tokens"@.len() == 10 && "temperature"@.len() == 11 && "top_p"@.len() == 5
        && "frequency_penalty"@.len() == 17);
    assert forall|k: int| 0 <= k < 4 && (#[trigger] option_values(r)[k]) is Some implies o.contains(
        (option_names()[k], option_values(r)[k]->0),
    ) by {
        let at = if k == 0 {
            0
        } else if k == 1 {
            e0.len() as int
        } else if k == 2 {
            (e0.len() + e1.len()) as int
        } else {
            (e0.len() + e1.len() + e2.len()) as int
        };
        assert(o[at] == (option_names()[k], option_values(r)[k]->0));
    }
}

/// The completion keeps the response's model, its content and its creation
/// time in whole seconds.
pub proof fn lemma_completion_keeps_response(response: ChatResponseView, id: Seq<char>)
    ensures
        completion_of(response, id).model == response.model,
        completion_of(response, id).choices.len() == 1,
        completion_of(response, id).choices[0].content == response.message.content,
        completion_of(response, id).created == response.created_at / 1000,
        completion_of(response, id).created * 1000 <= response.created_at,
        response.created_at < completion_of(response, id).created * 1000 + 1000,
{
}

/// Token usage, finish reason, choice index and role of a completion are the
/// same whatever the backend answered.
pub proof fn lemma_completion_constants(
    a: ChatResponseView,
    id_a: Seq<char>,
    b: ChatResponseView,
    id_b: Seq<char>,
)
    ensures
        completion_of(a, id_a).usage == completion_of(b, id_b).usage,
        completion_of(a, id_a).usage == (TokenUsage {
            prompt_tokens: 0,
            completion_tokens: 0,
            total_tokens: 0,
        }),
        completion_of(a, id_a).object == completion_of(b, id_b).object,
        completion_of(a, id_a).choices[0].finish_reason == FinishReason::Stop,
        completion_of(b, id_b).choices[0].finish_reason == FinishReason::Stop,
        completion_of(a, id_a).choices[0].index == completion_of(b, id_b).choices[0].index,
        completion_of(a, id_a).choices[0].role == completion_of(b, id_b).choices[0].role,
{
}

} // verus!
