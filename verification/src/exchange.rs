//! One request and its answer, step by step. Reading the body and calling the
//! backend happen elsewhere: each step takes what the last piece of outside
//! work produced and says what is to be done next, until the one response of
//! the exchange is written.

use crate::body::{
    read_step, BodyReader, ReadEvent, ReadEventView, ReadState, ReadStep, READ_SIZE,
};
use crate::error::{UnifiedError, UnifiedErrorView};
use crate::handlers::{
    body_failure_response, chat_call, chat_response, chat_result_view, echo_response,
    handle_body_failure, handle_echo, handle_list_models, handle_not_found,
    handle_openai_response, handle_unexpected, list_result_view, models_response,
    not_found_response, openai_request, unexpected_response,
};
use crate::http::{HttpResponse, HttpResponseView};
use crate::llm::{
    ChatRequest, ChatRequestView, ChatResponse, ChatResponseView, ListResponse, ListResponseView,
};
use crate::openai::optional_view;
use crate::route::{route_of_target, Route};
use vstd::prelude::*;

verus! {

/// Where an exchange stands.
#[derive(Debug, Clone, PartialEq, Eq)]
pub enum Exchange {
    /// The request has not been looked at.
    Routing,
    /// The body of a chat request is being read.
    ReadingBody(BodyReader),
    /// The list call is under way.
    ListingModels,
    /// The chat call is under way.
    Chatting,
    /// The response has been handed out.
    Answered,
}

pub enum ExchangeView {
    Routing,
    ReadingBody(Seq<u8>),
    ListingModels,
    Chatting,
    Answered,
}

impl View for Exchange {
    type V = ExchangeView;

    open spec fn view(&self) -> ExchangeView {
        match self {
            Exchange::Routing => ExchangeView::Routing,
            Exchange::ReadingBody(reader) => ExchangeView::ReadingBody(reader@),
            Exchange::ListingModels => ExchangeView::ListingModels,
            Exchange::Chatting => ExchangeView::Chatting,
            Exchange::Answered => ExchangeView::Answered,
        }
    }
}

/// What a piece of outside work produced.
#[derive(Debug, PartialEq, Eq)]
pub enum Event {
    /// A request arrived; its target, path and query, if it has one.
    Request(Option<String>),
    /// The body stream was read once.
    Body(ReadEvent),
    /// The list call returned.
    Models(Result<ListResponse, UnifiedError>),
    /// The chat call returned.
    Chat(Result<ChatResponse, UnifiedError>),
}

pub enum EventView {
    Request(Option<Seq<char>>),
    Body(ReadEventView),
    Models(Result<ListResponseView, UnifiedErrorView>),
    Chat(Result<ChatResponseView, UnifiedErrorView>),
}

impl View for Event {
    type V = EventView;

    open spec fn view(&self) -> EventView {
        match self {
            Event::Request(target) => EventView::Request(optional_view(*target)),
            Event::Body(read) => EventView::Body(read@),
            Event::Models(result) => EventView::Models(list_result_view(*result)),
            Event::Chat(result) => EventView::Chat(chat_result_view(*result)),
        }
    }
}

/// The outside work that a step asks for.
#[derive(Debug, Clone, PartialEq, Eq)]
pub enum Action {
    /// Read the body stream once, for at most this many bytes.
    ReadBody(u64),
    /// Make the list call.
    ListModels,
    /// Make the chat call.
    Chat(ChatRequest),
    /// Write the response. The exchange is over.
    Respond(HttpResponse),
    /// Nothing: the exchange was over before.
    Nothing,
}

pub enum ActionView {
    ReadBody(u64),
    ListModels,
    Chat(ChatRequestView),
    Respond(HttpResponseView),
    Nothing,
}

impl View for Action {
    type V = ActionView;

    open spec fn view(&self) -> ActionView {
        match self {
            Action::ReadBody(size) => ActionView::ReadBody(*size),
            Action::ListModels => ActionView::ListModels,
            Action::Chat(call) => ActionView::Chat(call@),
            Action::Respond(response) => ActionView::Respond(response@),
            Action::Nothing => ActionView::Nothing,
        }
    }
}

/// The step that ends an exchange with a response.
pub open spec fn answers(
    next: ExchangeView,
    action: ActionView,
    response: HttpResponseView,
) -> bool {
    next == ExchangeView::Answered && action == ActionView::Respond(response)
}

/// The steps of an exchange: from `state`, on `event`, to `next` with `action`.
///
/// A request is routed by its path: the fixed paths are answered at once, the
/// model list waits for the list call, a chat completion for its body. A body is
/// read until the stream is closed; it is then translated into the chat call, or
/// answered with its rejection. The result of a call is answered. An event
/// that the state did not ask for is answered with a server error, and an
/// exchange that has answered does nothing more.
pub open spec fn follows(
    state: ExchangeView,
    event: EventView,
    next: ExchangeView,
    action: ActionView,
) -> bool {
    match (state, event) {
        (ExchangeView::Answered, _) => next == ExchangeView::Answered && action
            == ActionView::Nothing,
        (ExchangeView::Routing, EventView::Request(target)) => match route_of_target(target) {
            Route::Echo => answers(next, action, echo_response()),
            Route::NotFound => answers(next, action, not_found_response()),
            Route::Models => next == ExchangeView::ListingModels && action
                == ActionView::ListModels,
            Route::ChatCompletions => next == ExchangeView::ReadingBody(Seq::empty()) && action
                == ActionView::ReadBody(READ_SIZE),
        },
        (ExchangeView::ReadingBody(arrived), EventView::Body(read)) => match read_step(
            arrived,
            read,
        ) {
            ReadState::More(now) => next == ExchangeView::ReadingBody(now) && action
                == ActionView::ReadBody(READ_SIZE),
            ReadState::Complete(body) => match chat_call(body) {
                Ok(call) => next == ExchangeView::Chatting && action == ActionView::Chat(call),
                Err(response) => answers(next, action, response),
            },
            ReadState::Broken(message) => answers(next, action, body_failure_response(message)),
        },
        (ExchangeView::ListingModels, EventView::Models(result)) => answers(
            next,
            action,
            models_response(result),
        ),
        (ExchangeView::Chatting, EventView::Chat(result)) => exists|id: Seq<char>|
            id.len() == 36 && #[trigger] answers(next, action, chat_response(result, id)),
        _ => answers(next, action, unexpected_response()),
    }
}

impl Exchange {
    /// An exchange before its request.
    pub fn new() -> (exchange: Exchange)
        ensures
            exchange@ == ExchangeView::Routing,
    {
        Exchange::Routing
    }

    /// Takes an event and says what is to be done next.
    pub fn step(self, event: Event) -> (r: (Exchange, Action))
        ensures
            follows(self@, event@, r.0@, r.1@),
    {
        match (self, event) {
            (Exchange::Answered, _) => (Exchange::Answered, Action::Nothing),
            (Exchange::Routing, Event::Request(target)) => {
                let route = Route::of_target(
                    match &target {
                        Some(t) => Some(t.as_str()),
                        None => None,
                    },
                );
                match route {
                    Route::Echo => (Exchange::Answered, Action::Respond(handle_echo())),
                    Route::NotFound => (Exchange::Answered, Action::Respond(handle_not_found())),
                    Route::Models => (Exchange::ListingModels, Action::ListModels),
                    Route::ChatCompletions => (
                        Exchange::ReadingBody(BodyReader::new()),
                        Action::ReadBody(READ_SIZE),
                    ),
                }
            },
            (Exchange::ReadingBody(reader), Event::Body(read)) => match reader.accept(read) {
                ReadStep::More(reader) => (
                    Exchange::ReadingBody(reader),
                    Action::ReadBody(READ_SIZE),
                ),
                ReadStep::Complete(body) => match openai_request(body.as_slice()) {
                    Ok(call) => (Exchange::Chatting, Action::Chat(call)),
                    Err(response) => (Exchange::Answered, Action::Respond(response)),
                },
                ReadStep::Broken(message) => (
                    Exchange::Answered,
                    Action::Respond(handle_body_failure(message.as_str())),
                ),
            },
            (Exchange::ListingModels, Event::Models(result)) => (
                Exchange::Answered,
                Action::Respond(handle_list_models(result)),
            ),
            (Exchange::Chatting, Event::Chat(result)) => {
                let response = handle_openai_response(result);
                proof {
                    let id = choose|id: Seq<char>|
                        id.len() == 36 && response@ == #[trigger] chat_response(
                            chat_result_view(result),
                            id,
                        );
                    assert(answers(
                        ExchangeView::Answered,
                        ActionView::Respond(response@),
                        chat_response(chat_result_view(result), id),
                    ));
                }
                (Exchange::Answered, Action::Respond(response))
            },
            _ => (Exchange::Answered, Action::Respond(handle_unexpected())),
        }
    }
}

/// A run of an exchange: the states it went through from its start, the events
/// it took and the actions it asked for.
pub open spec fn is_run(
    states: Seq<ExchangeView>,
    events: Seq<EventView>,
    actions: Seq<ActionView>,
) -> bool {
    &&& states.len() == events.len() + 1
    &&& actions.len() == events.len()
    &&& states[0] == ExchangeView::Routing
    &&& forall|i: int|
        0 <= i < events.len() ==> #[trigger] follows(
            states[i],
            events[i],
            states[i + 1],
            actions[i],
        )
}

/// A step hands out a response exactly when it ends the exchange, and it
/// does nothing exactly when the exchange was over before: until it has
/// answered, an exchange always asks for outside work or answers.
pub proof fn lemma_step_answers_or_goes_on(
    state: ExchangeView,
    event: EventView,
    next: ExchangeView,
    action: ActionView,
)
    requires
        follows(state, event, next, action),
    ensures
        action is Respond <==> !(state is Answered) && next is Answered,
        action is Nothing <==> state is Answered,
        state is Answered ==> next is Answered,
{
}

/// How far an exchange has come: routing, reading, calling, answered.
pub open spec fn stage(state: ExchangeView) -> int {
    match state {
        ExchangeView::Routing => 0,
        ExchangeView::ReadingBody(_) => 1,
        ExchangeView::ListingModels => 2,
        ExchangeView::Chatting => 2,
        ExchangeView::Answered => 3,
    }
}

/// Every event brings an exchange that has not answered closer to its
/// answer, but for bytes of the body, after which it goes on reading. So an
/// exchange answers after at most three events besides the body's bytes.
pub proof fn lemma_step_advances(
    state: ExchangeView,
    event: EventView,
    next: ExchangeView,
    action: ActionView,
)
    requires
        follows(state, event, next, action),
        !(state is Answered),
    ensures
        stage(state) < stage(next) <= 3 || (state is ReadingBody && event is Body
            && event->Body_0 is Data && next is ReadingBody),
{
}

/// Once an exchange has answered, it stays so.
pub proof fn lemma_answered_stays(
    states: Seq<ExchangeView>,
    events: Seq<EventView>,
    actions: Seq<ActionView>,
    i: int,
    j: int,
)
    requires
        is_run(states, events, actions),
        0 <= i <= j < states.len(),
        states[i] is Answered,
    ensures
        states[j] is Answered,
    decreases j - i,
{
    if i < j {
        lemma_step_answers_or_goes_on(states[i], events[i], states[i + 1], actions[i]);
        lemma_answered_stays(states, events, actions, i + 1, j);
    }
}

/// Whatever the events, an exchange hands out at most one response.
pub proof fn lemma_at_most_one_response(
    states: Seq<ExchangeView>,
    events: Seq<EventView>,
    actions: Seq<ActionView>,
    i: int,
    j: int,
)
    requires
        is_run(states, events, actions),
        0 <= i < j < actions.len(),
    ensures
        !(actions[i] is Respond && actions[j] is Respond),
{
    lemma_step_answers_or_goes_on(states[i], events[i], states[i + 1], actions[i]);
    lemma_step_answers_or_goes_on(states[j], events[j], states[j + 1], actions[j]);
    if actions[i] is Respond {
        lemma_answered_stays(states, events, actions, i + 1, j);
    }
}

} // verus!
