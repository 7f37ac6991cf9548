use ollama_adaptor::adaptor::{CallOutcome, Invocation, OllamaLlm};
use ollama_adaptor::error::{ErrorKind, UnifiedError};
use ollama_adaptor::llm::{
    ChatResponse, ListResponse, Message, ModelDetails, ModelResponse, ShowResponse, StatusError,
};

fn details() -> ModelDetails {
    ModelDetails {
        format: "gguf".to_string(),
        family: "llama".to_string(),
        families: vec!["llama".to_string(), "clip".to_string()],
        parameter_size: "7B".to_string(),
        quantization_level: "Q4_0".to_string(),
    }
}

fn chat_response() -> ChatResponse {
    ChatResponse {
        model: "llama3".to_string(),
        created_at: 1000,
        message: Message { role: "assistant".to_string(), content: "hello".to_string() },
        done: true,
        total_duration: 5,
        load_duration: 4,
        prompt_eval_count: 3,
        prompt_eval_duration: 2,
        eval_count: 1,
        eval_duration: 0,
    }
}

#[test]
fn chat_invokes_the_chat_procedure_with_the_payload() {
    let call = OllamaLlm::chat(Ok(vec![0x81, 0xa5, 1, 2, 3])).unwrap();
    assert_eq!(
        call,
        Invocation { procedure: "ollama:llm/Llm.Chat".to_string(), payload: vec![0x81, 0xa5, 1, 2, 3] }
    );
}

#[test]
fn show_invokes_the_show_procedure_with_the_payload() {
    let call = OllamaLlm::show(Ok(vec![9, 8, 7])).unwrap();
    assert_eq!(call.procedure, "ollama:llm/Llm.Show");
    assert_eq!(call.payload, vec![9, 8, 7]);
}

#[test]
fn list_invokes_the_list_procedure_without_payload() {
    let call = OllamaLlm::list();
    assert_eq!(call.procedure, "ollama:llm/Llm.List");
    assert!(call.payload.is_empty());
}

#[test]
fn chat_reports_a_request_that_cannot_be_encoded() {
    let e = OllamaLlm::chat(Err("depth limit exceeded".to_string())).unwrap_err();
    assert_eq!(
        e,
        UnifiedError {
            kind: ErrorKind::PreCallSerialization,
            http_status_code: 500,
            status_label: "PreCallSerialization".to_string(),
            message: "depth limit exceeded".to_string(),
        }
    );
}

#[test]
fn show_reports_a_request_that_cannot_be_encoded() {
    let e = OllamaLlm::show(Err("no".to_string())).unwrap_err();
    assert_eq!(e.kind, ErrorKind::PreCallSerialization);
    assert_eq!(e.http_status_code, 500);
    assert_eq!(e.message, "no");
}

#[test]
fn conclude_hands_a_chat_response_on_unchanged() {
    let r = OllamaLlm::conclude(CallOutcome::Answered(chat_response()));
    assert_eq!(r, Ok(chat_response()));
}

#[test]
fn conclude_hands_model_details_on_unchanged() {
    let show = ShowResponse {
        license: "MIT".to_string(),
        modelfile: "FROM llama3".to_string(),
        parameters: "stop \"<|eot|>\"".to_string(),
        template: "{{ .Prompt }}".to_string(),
        system: "".to_string(),
        details: details(),
    };
    assert_eq!(OllamaLlm::conclude(CallOutcome::Answered(show.clone())), Ok(show));
    let list = ListResponse {
        models: vec![ModelResponse {
            name: "llama3".to_string(),
            modified_at: 1700000000123,
            size: 4661224676,
            digest: "sha256:abc".to_string(),
            details: details(),
        }],
    };
    assert_eq!(OllamaLlm::conclude(CallOutcome::Answered(list.clone())), Ok(list));
}

#[test]
fn conclude_passes_the_backends_failure_through() {
    let status = StatusError {
        status_code: 404,
        status: "Not Found".to_string(),
        error: "model 'x' not found".to_string(),
    };
    let e = OllamaLlm::conclude::<ChatResponse>(CallOutcome::Rejected(status)).unwrap_err();
    assert_eq!(
        e,
        UnifiedError {
            kind: ErrorKind::UpstreamStatus,
            http_status_code: 404,
            status_label: "Not Found".to_string(),
            message: "model 'x' not found".to_string(),
        }
    );
    assert_eq!(e.response_status(), 404);
}

#[test]
fn conclude_reports_a_call_that_was_not_delivered() {
    let e = OllamaLlm::conclude::<ListResponse>(CallOutcome::Undelivered("no route".to_string()))
        .unwrap_err();
    assert_eq!(e.kind, ErrorKind::TransportFailure);
    assert_eq!(e.http_status_code, 502);
    assert_eq!(e.status_label, "TransportFailure");
    assert_eq!(e.message, "no route");
    assert_eq!(e.response_status(), 502);
}

#[test]
fn conclude_reports_a_reply_that_cannot_be_decoded() {
    let e = OllamaLlm::conclude::<ShowResponse>(CallOutcome::Undecodable("bad marker".to_string()))
        .unwrap_err();
    assert_eq!(e.kind, ErrorKind::ResponseDeserialization);
    assert_eq!(e.http_status_code, 502);
    assert_eq!(e.status_label, "ResponseDeserialization");
    assert_eq!(e.message, "bad marker");
}

#[test]
fn local_failures_are_never_reported_under_zero() {
    let all = [
        UnifiedError::pre_call_serialization("a".to_string()),
        UnifiedError::transport_failure("b".to_string()),
        UnifiedError::response_deserialization("c".to_string()),
    ];
    for e in all {
        assert!((500..=599).contains(&e.response_status()));
        assert_eq!(u32::from(e.response_status()), e.http_status_code);
    }
}

#[test]
fn response_status_keeps_the_low_sixteen_bits() {
    let status = StatusError { status_code: 65536 + 429, status: "s".to_string(), error: "e".to_string() };
    assert_eq!(UnifiedError::upstream(status).response_status(), 429);
    let status = StatusError { status_code: 0, status: "s".to_string(), error: "e".to_string() };
    assert_eq!(UnifiedError::upstream(status).response_status(), 0);
    let status = StatusError { status_code: u32::MAX, status: "s".to_string(), error: "e".to_string() };
    assert_eq!(UnifiedError::upstream(status).response_status(), u16::MAX);
}
