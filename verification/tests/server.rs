use ollama_adaptor::adaptor::{CallOutcome, OllamaLlm};
use ollama_adaptor::error::{ErrorKind, UnifiedError};
use ollama_adaptor::handlers::{
    handle_body_failure, handle_echo, handle_failure, handle_list_models, handle_not_found,
    handle_openai_response, handle_unexpected, openai_request, openai_response,
};
use ollama_adaptor::http::HttpResponse;
use ollama_adaptor::llm::{
    ChatResponse, ListResponse, Message, ModelDetails, ModelResponse, StatusError,
};
use ollama_adaptor::route::Route;

fn text(response: &HttpResponse) -> String {
    String::from_utf8(response.body.clone()).unwrap()
}

fn json(response: &HttpResponse) -> serde_json::Value {
    serde_json::from_slice(&response.body).unwrap()
}

fn hello() -> ChatResponse {
    ChatResponse {
        model: "llama3".to_string(),
        created_at: 1000,
        message: Message { role: "assistant".to_string(), content: "hello".to_string() },
        done: true,
        total_duration: 0,
        load_duration: 0,
        prompt_eval_count: 0,
        prompt_eval_duration: 0,
        eval_count: 0,
        eval_duration: 0,
    }
}

fn model(name: &str, modified_at: u64) -> ModelResponse {
    ModelResponse {
        name: name.to_string(),
        modified_at,
        size: 4661224676,
        digest: "sha256:0123".to_string(),
        details: ModelDetails {
            format: "gguf".to_string(),
            family: "llama".to_string(),
            families: vec!["llama".to_string()],
            parameter_size: "8B".to_string(),
            quantization_level: "Q4_0".to_string(),
        },
    }
}

#[test]
fn the_three_paths_select_their_handlers() {
    assert_eq!(Route::of_path("/echo"), Route::Echo);
    assert_eq!(Route::of_path("/v1/models"), Route::Models);
    assert_eq!(Route::of_path("/v1/chat/completions"), Route::ChatCompletions);
}

#[test]
fn paths_are_matched_letter_for_letter() {
    for path in ["", "/", "/unknown", "/echo/", "/Echo", "/v1", "/v1/models/", "/v1/chat", "echo"] {
        assert_eq!(Route::of_path(path), Route::NotFound);
    }
}

#[test]
fn a_target_is_routed_by_its_path_without_the_query() {
    assert_eq!(Route::of_target(Some("/echo")), Route::Echo);
    assert_eq!(Route::of_target(Some("/echo?x=1&y=2")), Route::Echo);
    assert_eq!(Route::of_target(Some("/v1/models?limit=3")), Route::Models);
    assert_eq!(Route::of_target(Some("/v1/chat/completions?")), Route::ChatCompletions);
    assert_eq!(Route::of_target(Some("http://example.org/v1/models")), Route::Models);
    assert_eq!(Route::of_target(Some("/unknown")), Route::NotFound);
}

#[test]
fn a_request_without_a_usable_target_has_no_handler() {
    assert_eq!(Route::of_target(None), Route::NotFound);
    assert_eq!(Route::of_target(Some("")), Route::NotFound);
    assert_eq!(Route::of_target(Some("/bad path")), Route::NotFound);
}

#[test]
fn echo_answers_with_its_fixed_text() {
    let r = handle_echo();
    assert_eq!(r.status, 200);
    assert!(r.headers.is_empty());
    assert_eq!(r.body, b"echo test".to_vec());
}

#[test]
fn unknown_path_is_answered_with_400_not_found() {
    assert_eq!(Route::of_target(Some("/unknown")), Route::NotFound);
    let r = handle_not_found();
    assert_eq!(r.status, 400);
    assert!(r.headers.is_empty());
    assert_eq!(r.body, b"not found".to_vec());
}

#[test]
fn empty_model_list_is_answered_with_an_empty_list() {
    let r = handle_list_models(Ok(ListResponse { models: vec![] }));
    assert_eq!(r.status, 200);
    assert!(r.headers.is_empty());
    assert_eq!(text(&r), "{\"object\":\"list\",\"data\":[]}");
}

#[test]
fn model_list_is_answered_in_the_backends_order() {
    let r = handle_list_models(Ok(ListResponse {
        models: vec![model("llama3:8b", 1700000000999), model("alpha", 1000)],
    }));
    assert_eq!(r.status, 200);
    assert_eq!(
        text(&r),
        "{\"object\":\"list\",\"data\":[\
         {\"id\":\"llama3:8b\",\"created\":1700000000,\"object\":\"model\",\"owned_by\":\"Not specified\"},\
         {\"id\":\"alpha\",\"created\":1,\"object\":\"model\",\"owned_by\":\"Not specified\"}]}"
    );
}

#[test]
fn failed_list_call_is_answered_with_the_backends_text() {
    let e = UnifiedError::upstream(StatusError {
        status_code: 503,
        status: "Service Unavailable".to_string(),
        error: "backend \"down\"".to_string(),
    });
    let r = handle_list_models(Err(e));
    assert_eq!(r.status, 503);
    assert!(r.headers.is_empty());
    assert_eq!(text(&r), "backend \"down\"");
}

#[test]
fn undelivered_list_call_is_answered_with_a_server_error() {
    let e = OllamaLlm::conclude::<ListResponse>(CallOutcome::Undelivered("no link".to_string()))
        .unwrap_err();
    let r = handle_list_models(Err(e));
    assert_eq!(r.status, 502);
    assert_eq!(text(&r), "no link");
}

#[test]
fn chat_request_body_becomes_the_backends_chat_call() {
    let call = openai_request(b"{\"messages\":[{\"role\":\"user\",\"content\":\"hi\"}]}").unwrap();
    assert_eq!(call.model, "");
    assert_eq!(call.messages, vec![Message { role: "user".to_string(), content: "hi".to_string() }]);
    assert_eq!(call.with_stream, Some(false));
    assert_eq!(call.format, "");
    assert!(call.options.is_empty());
}

#[test]
fn chat_request_body_with_every_parameter() {
    let body = b"{\"model\":\"llama3\",\"messages\":[\
        {\"role\":\"system\",\"content\":\"be brief\"},\
        {\"role\":\"function\",\"content\":\"42\",\"name\":\"f\"},\
        {\"role\":\"user\",\"content\":\"hi\"},\
        {\"role\":\"assistant\",\"content\":\"yes?\"}],\
        \"frequency_penalty\":0.25,\"top_p\":0.5,\"temperature\":0.7,\"max_tokens\":128,\
        \"response_format\":{\"type\":\"json_object\"},\"stream\":true}";
    let call = openai_request(body).unwrap();
    assert_eq!(call.model, "llama3");
    assert_eq!(
        call.messages,
        vec![
            Message { role: "system".to_string(), content: "be brief".to_string() },
            Message { role: "user".to_string(), content: "hi".to_string() },
            Message { role: "assistant".to_string(), content: "yes?".to_string() },
        ]
    );
    assert_eq!(call.with_stream, Some(false));
    assert_eq!(call.format, "");
    assert_eq!(
        call.options,
        vec![
            ("max_tokens".to_string(), "128".to_string()),
            ("temperature".to_string(), "0.7".to_string()),
            ("top_p".to_string(), "0.5".to_string()),
            ("frequency_penalty".to_string(), "0.25".to_string()),
        ]
    );
}

#[test]
fn chat_request_body_with_whole_numbers_for_fractions() {
    let call = openai_request(b"{\"messages\":[],\"temperature\":1,\"top_p\":0}").unwrap();
    assert_eq!(
        call.options,
        vec![("temperature".to_string(), "1".to_string()), ("top_p".to_string(), "0".to_string())]
    );
}

#[test]
fn chat_request_body_that_is_no_json_is_answered_with_400() {
    let r = openai_request(b"not json").unwrap_err();
    assert_eq!(r.status, 400);
    assert!(r.headers.is_empty());
    let v = json(&r);
    assert_eq!(v["status"], "ParseError");
    assert_eq!(v["error"], "expected ident at line 1 column 2");
}

#[test]
fn chat_request_body_that_breaks_the_schema_is_answered_with_400() {
    for body in [
        &b""[..],
        b"{}",
        b"[]",
        b"{\"model\":\"m\"}",
        b"{\"messages\":\"hi\"}",
        b"{\"messages\":[{\"role\":\"user\"}]}",
        b"{\"messages\":[{\"content\":\"hi\"}]}",
        b"{\"messages\":[{\"role\":\"wizard\",\"content\":\"hi\"}]}",
        b"{\"messages\":[],\"max_tokens\":\"many\"}",
        b"{\"messages\":[],\"temperature\":\"hot\"}",
        b"{\"messages\":[]} trailing",
    ] {
        let r = openai_request(body).unwrap_err();
        assert_eq!(r.status, 400);
        let v = json(&r);
        assert_eq!(v["status"], "ParseError");
        assert!(v["error"].is_string());
    }
}

#[test]
fn chat_from_request_body_to_response() {
    let call = openai_request(b"{\"messages\":[{\"role\":\"user\",\"content\":\"hi\"}]}").unwrap();
    assert_eq!(call.messages.len(), 1);
    let r = openai_response(Ok(hello()), "chatcmpl-1".to_string());
    assert_eq!(r.status, 200);
    assert!(r.headers.is_empty());
    let body = text(&r);
    assert!(body.contains("\"object\":\"chat.completion\""));
    assert!(body.contains("\"content\":\"hello\""));
    assert!(body.contains("\"finish_reason\":\"stop\""));
    assert!(body.contains("\"created\":1"));
    assert_eq!(
        body,
        "{\"id\":\"chatcmpl-1\",\"object\":\"chat.completion\",\"created\":1,\"model\":\"llama3\",\
         \"choices\":[{\"index\":0,\"message\":{\"role\":\"assistant\",\"content\":\"hello\"},\
         \"finish_reason\":\"stop\"}],\
         \"usage\":{\"prompt_tokens\":0,\"completion_tokens\":0,\"total_tokens\":0}}"
    );
}

#[test]
fn chat_response_escapes_the_content() {
    let mut response = hello();
    response.message.content = "say \"hi\"\n\\o/ \u{1}\u{e9}".to_string();
    let r = openai_response(Ok(response), "i".to_string());
    assert_eq!(r.status, 200);
    assert!(text(&r).contains("\"content\":\"say \\\"hi\\\"\\n\\\\o/ \\u0001\u{e9}\""));
    assert_eq!(json(&r)["choices"][0]["message"]["content"], "say \"hi\"\n\\o/ \u{1}\u{e9}");
}

#[test]
fn chat_with_a_failed_transport() {
    let e = OllamaLlm::conclude::<ChatResponse>(CallOutcome::Undelivered(
        "no link to the backend".to_string(),
    ))
    .unwrap_err();
    assert_eq!(e.kind, ErrorKind::TransportFailure);
    let r = openai_response(Err(e), "unused".to_string());
    assert_ne!(r.status, 0);
    assert_eq!(r.status, 502);
    assert!(r.headers.is_empty());
    assert_eq!(text(&r), "{\"error\":\"no link to the backend\",\"status\":\"TransportFailure\"}");
}

#[test]
fn chat_failure_of_each_kind_has_its_status_and_label() {
    let cases = [
        (UnifiedError::pre_call_serialization("m".to_string()), 500, "PreCallSerialization"),
        (UnifiedError::transport_failure("m".to_string()), 502, "TransportFailure"),
        (UnifiedError::response_deserialization("m".to_string()), 502, "ResponseDeserialization"),
        (
            UnifiedError::upstream(StatusError {
                status_code: 429,
                status: "Too Many Requests".to_string(),
                error: "m".to_string(),
            }),
            429,
            "Too Many Requests",
        ),
    ];
    for (e, status, label) in cases {
        let r = handle_failure(&e);
        assert_eq!(r.status, status);
        let v = json(&r);
        assert_eq!(v["error"], "m");
        assert_eq!(v["status"], label);
        assert_eq!(openai_response(Err(e), String::new()), r);
    }
}

#[test]
fn failure_body_escapes_message_and_label() {
    let r = HttpResponse::error(500, "a \"quoted\"\tword\\", "L\n");
    assert_eq!(r.status, 500);
    assert_eq!(text(&r), "{\"error\":\"a \\\"quoted\\\"\\tword\\\\\",\"status\":\"L\\n\"}");
    let r = HttpResponse::error(418, "", "");
    assert_eq!(text(&r), "{\"error\":\"\",\"status\":\"\"}");
}

#[test]
fn text_response_is_the_text_in_utf8() {
    let r = HttpResponse::text(201, "h\u{e9}llo \u{1f600}");
    assert_eq!(r.status, 201);
    assert!(r.headers.is_empty());
    assert_eq!(r.body, "h\u{e9}llo \u{1f600}".as_bytes().to_vec());
    assert_eq!(HttpResponse::with_body(204, vec![]).body, Vec::<u8>::new());
}

#[test]
fn unread_body_and_unexpected_event_are_answered() {
    let r = handle_body_failure("stream reset");
    assert_eq!(r.status, 400);
    assert_eq!(text(&r), "{\"error\":\"stream reset\",\"status\":\"BodyReadFailure\"}");
    let r = handle_unexpected();
    assert_eq!(r.status, 500);
    assert_eq!(text(&r), "{\"error\":\"unexpected event\",\"status\":\"InternalError\"}");
}

#[test]
fn each_completion_gets_an_identifier_of_its_own() {
    let a = json(&handle_openai_response(Ok(hello())));
    let b = json(&handle_openai_response(Ok(hello())));
    let (a, b) = (a["id"].as_str().unwrap().to_string(), b["id"].as_str().unwrap().to_string());
    assert_eq!(a.chars().count(), 36);
    assert_eq!(b.chars().count(), 36);
    assert_ne!(a, b);
}
