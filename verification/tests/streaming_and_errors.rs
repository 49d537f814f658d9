use futures::{stream, StreamExt};
use straico_proxy::completion::{FunctionData, ToolCall, Usage};
use straico_proxy::json::json_string_of;
use straico_proxy::sse::{chunk_json_text, error_json_text, sse_event};
use straico_proxy::completion_stream::{ChoiceStream, CompletionStream, Delta};
use straico_proxy::error::{HttpClientError, ProxyError};
use straico_proxy::legacy;
use straico_proxy::router::Provider;
use straico_proxy::streaming::{
    create_error_chunk, create_error_chunk_with_type, frame_sse, HeartbeatChar, SseChunk,
};
use straico_proxy::upstream::{map_common_non_streaming_errors, upstream_reads_body};

#[test]
fn test_create_error_chunk_with_type() {
    let error_chunk = create_error_chunk_with_type(
        "Custom error message",
        "invalid_request_error",
        Some("invalid_parameter"),
    );

    assert_eq!(error_chunk.message, "Custom error message");
    assert_eq!(error_chunk.error_type, "invalid_request_error");
    assert_eq!(error_chunk.code.as_deref(), Some("invalid_parameter"));
}

#[test]
fn error_chunk_defaults_to_streaming_error() {
    let chunk = create_error_chunk("Test error message");
    assert_eq!(chunk.message, "Test error message");
    assert_eq!(chunk.error_type, "server_error");
    assert_eq!(chunk.code.as_deref(), Some("streaming_error"));
}

#[test]
fn test_custom_error_to_sse_chunk() {
    let custom_error = ProxyError::InvalidParameter {
        parameter: "temperature".to_string(),
        reason: "Invalid parameter".to_string(),
    };
    let error_chunk = SseChunk::from_proxy_error(&custom_error);
    match error_chunk {
        SseChunk::Error(c) => {
            assert!(c.message.contains("Invalid parameter"));
            assert_eq!(c.message, "Invalid parameter 'temperature': Invalid parameter");
            assert_eq!(c.error_type, "invalid_request_error");
        }
        _ => panic!("expected an error event"),
    }
}

#[test]
fn test_sse_chunk_done_serialization() {
    let done_chunk = SseChunk::from_done("[DONE]".to_string());
    let bytes = sse_event(&done_chunk);
    let bytes_str = String::from_utf8(bytes).unwrap();
    assert_eq!(bytes_str, "data: [DONE]\n\n");
}

fn json_part(bytes_str: &str) -> serde_json::Value {
    serde_json::from_str(&bytes_str[6..bytes_str.len() - 2]).unwrap()
}

#[test]
fn test_sse_chunk_data_serialization() {
    let stream = CompletionStream {
        choices: vec![ChoiceStream {
            index: 0,
            delta: Delta {
                role: Some("assistant".into()),
                content: Some("Hello".into()),
                tool_calls: None,
            },
            finish_reason: None,
        }],
        object: "chat.completion.chunk".into(),
        id: "test-id".into(),
        model: "test-model".into(),
        created: 1234567890,
        usage: Usage::default(),
    };

    let sse_chunk = SseChunk::from_stream(stream);
    let bytes_str = String::from_utf8(sse_event(&sse_chunk)).unwrap();
    assert!(bytes_str.starts_with("data: "));
    assert!(bytes_str.ends_with("\n\n"));

    let parsed = json_part(&bytes_str);
    assert_eq!(parsed["object"], "chat.completion.chunk");
    assert_eq!(parsed["id"], "test-id");
    assert_eq!(parsed["model"], "test-model");
    assert_eq!(parsed["created"], 1234567890);
}

#[test]
fn test_sse_chunk_error_serialization() {
    let error_chunk = SseChunk::from_error(create_error_chunk("Test error message"));
    let bytes_str = String::from_utf8(sse_event(&error_chunk)).unwrap();
    assert!(bytes_str.starts_with("data: "));
    assert!(bytes_str.ends_with("\n\n"));
    assert!(bytes_str.contains("Test error message"));

    let parsed = json_part(&bytes_str);
    assert_eq!(parsed["error"]["message"], "Test error message");
    assert_eq!(parsed["error"]["type"], "server_error");
    assert_eq!(parsed["error"]["code"], "streaming_error");
}

#[test]
fn test_streaming_error_flow() {
    let error_stream = stream::iter(vec![
        Ok(CompletionStream::initial_chunk("test-model", "test-id", 123)),
        Err(ProxyError::InvalidParameter {
            parameter: "model".to_string(),
            reason: "Simulated API error".to_string(),
        }),
    ])
    .map(|result: Result<CompletionStream, ProxyError>| match result {
        Ok(stream) => sse_event(&SseChunk::from_stream(stream)),
        Err(error) => sse_event(&SseChunk::from_proxy_error(&error)),
    });

    let runtime = tokio::runtime::Runtime::new().unwrap();
    let results: Vec<Vec<u8>> = runtime.block_on(async { error_stream.collect().await });

    assert_eq!(results.len(), 2);
    let error_str = String::from_utf8_lossy(&results[1]);
    assert!(error_str.contains("Simulated API error"));
    assert!(error_str.starts_with("data: "));
    assert!(error_str.ends_with("\n\n"));
}

#[test]
fn test_sse_chunk_enum_serialization() {
    let data_chunk = CompletionStream::heartbeat_chunk(&HeartbeatChar::Empty);
    let json = chunk_json_text(&data_chunk);
    let parsed: serde_json::Value = serde_json::from_str(&json).unwrap();
    assert_eq!(parsed["object"], "chat.completion.chunk");

    let json = json_string_of("[DONE]");
    assert_eq!(json, "\"[DONE]\"");

    let json = error_json_text(&create_error_chunk("Test error"));
    let parsed: serde_json::Value = serde_json::from_str(&json).unwrap();
    assert_eq!(parsed["error"]["message"], "Test error");
}

#[test]
fn test_byte_efficiency() {
    let stream = CompletionStream::initial_chunk("test", "id", 123);
    let new_bytes = sse_event(&SseChunk::from_stream(stream));

    let again = CompletionStream::initial_chunk("test", "id", 123);
    let old_style = format!("data: {}\n\n", chunk_json_text(&again));
    assert_eq!(new_bytes, old_style.into_bytes());

    let expected = "data: {\"choices\":[{\"index\":0,\"delta\":{\"role\":\"assistant\"},\"finish_reason\":null}],\"object\":\"chat.completion.chunk\",\"id\":\"id\",\"model\":\"test\",\"created\":123,\"usage\":{\"prompt_tokens\":0,\"completion_tokens\":0,\"total_tokens\":0}}\n\n";
    assert_eq!(String::from_utf8(new_bytes).unwrap(), expected);
}

#[test]
fn tool_call_deltas_encode_as_json() {
    let stream = CompletionStream {
        choices: vec![ChoiceStream {
            index: 1,
            delta: Delta {
                role: None,
                content: None,
                tool_calls: Some(vec![ToolCall::Function {
                    id: "func".into(),
                    function: FunctionData { name: "f".into(), arguments: "{\"a\":1}".into() },
                }]),
            },
            finish_reason: Some("tool_calls".into()),
        }],
        object: "chat.completion.chunk".into(),
        id: "x".into(),
        model: "m".into(),
        created: 0,
        usage: Usage::default(),
    };
    let parsed: serde_json::Value = serde_json::from_str(&chunk_json_text(&stream)).unwrap();
    let call = &parsed["choices"][0]["delta"]["tool_calls"][0];
    assert_eq!(call["type"], "function");
    assert_eq!(call["id"], "func");
    assert_eq!(call["function"]["name"], "f");
    assert_eq!(call["function"]["arguments"], "{\"a\":1}");
    assert!(parsed["choices"][0]["delta"].get("role").is_none());
    assert_eq!(parsed["choices"][0]["finish_reason"], "tool_calls");
}

#[test]
fn sse_frame_wraps_payload() {
    let framed = frame_sse(b"{}");
    assert_eq!(framed, b"data: {}\n\n".to_vec());
    let empty = frame_sse(b"");
    assert_eq!(empty, b"data: \n\n".to_vec());
}

#[test]
fn test_completion_stream_initial_chunk() {
    let chunk = CompletionStream::initial_chunk("gpt-4", "test-id", 1234567890);

    assert_eq!(chunk.object, "chat.completion.chunk");
    assert_eq!(chunk.id, "test-id");
    assert_eq!(chunk.model, "gpt-4");
    assert_eq!(chunk.created, 1234567890);
    assert_eq!(chunk.choices.len(), 1);
    assert_eq!(chunk.choices[0].index, 0);
    assert_eq!(chunk.choices[0].delta.role.as_deref(), Some("assistant"));
    assert!(chunk.choices[0].delta.content.is_none());
    assert!(chunk.choices[0].finish_reason.is_none());
}

#[test]
fn test_completion_stream_heartbeat_chunk() {
    let chunk = CompletionStream::heartbeat_chunk(&HeartbeatChar::Empty);
    assert!(chunk.choices[0].delta.content.is_none());

    let chunk = CompletionStream::heartbeat_chunk(&HeartbeatChar::Zwsp);
    assert_eq!(chunk.choices[0].delta.content.as_deref(), Some("\u{200b}"));

    let chunk = CompletionStream::heartbeat_chunk(&HeartbeatChar::Zwnj);
    assert_eq!(chunk.choices[0].delta.content.as_deref(), Some("\u{200c}"));

    let chunk = CompletionStream::heartbeat_chunk(&HeartbeatChar::Wj);
    assert_eq!(chunk.choices[0].delta.content.as_deref(), Some("\u{2060}"));
}

#[test]
fn test_completion_stream_iterator_simple() {
    let stream = CompletionStream {
        id: "cmpl-123".into(),
        object: "chat.completion".into(),
        created: 1677652288,
        model: "gpt-3.5-turbo-0613".into(),
        choices: vec![ChoiceStream {
            index: 0,
            delta: Delta {
                role: Some("assistant".into()),
                content: Some("Hello there!".into()),
                tool_calls: None,
            },
            finish_reason: Some("stop".into()),
        }],
        usage: Usage::default(),
    };

    let chunks: Vec<CompletionStream> = stream.into_chunks();

    assert_eq!(chunks.len(), 2);

    let choice1 = &chunks[0].choices[0];
    assert_eq!(choice1.delta.role, Some("assistant".into()));
    assert!(choice1.delta.content.is_none());
    assert!(choice1.finish_reason.is_none());

    let choice2 = &chunks[1].choices[0];
    assert!(choice2.delta.role.is_none());
    assert_eq!(choice2.delta.content, Some("Hello there!".into()));
    assert_eq!(choice2.finish_reason, Some("stop".into()));
}

#[test]
fn stream_chunks_keep_header_fields() {
    let stream = CompletionStream {
        id: "id-1".into(),
        object: "chat.completion".into(),
        created: 7,
        model: "m".into(),
        choices: vec![
            ChoiceStream {
                index: 0,
                delta: Delta { role: Some("assistant".into()), content: None, tool_calls: None },
                finish_reason: Some("stop".into()),
            },
            ChoiceStream {
                index: 1,
                delta: Delta {
                    role: Some("assistant".into()),
                    content: Some("x".into()),
                    tool_calls: None,
                },
                finish_reason: Some("length".into()),
            },
        ],
        usage: Usage::default(),
    };
    let chunks = stream.into_chunks();
    assert_eq!(chunks.len(), 2);
    for c in &chunks {
        assert_eq!(c.id, "id-1");
        assert_eq!(c.model, "m");
        assert_eq!(c.created, 7);
    }
    assert_eq!(chunks[0].choices.len(), 2);
    assert_eq!(chunks[1].choices.len(), 1);
    assert_eq!(chunks[1].choices[0].index, 1);
    assert_eq!(chunks[1].choices[0].delta.content.as_deref(), Some("x"));
}

#[test]
fn test_create_error_chunk() {
    let error_message = "This is an error";
    let chunk = legacy::create_error_chunk(error_message);
    let parsed: serde_json::Value = serde_json::from_str(&chunk.to_json()).unwrap();
    assert_eq!(parsed["error"]["message"], error_message);
}

#[test]
fn test_create_initial_chunk() {
    let model = "test-model";
    let id = "test-id";
    let chunk: serde_json::Value =
        serde_json::from_str(&legacy::create_initial_chunk(model, id, 1_700_000_000)).unwrap();
    assert_eq!(chunk["object"], "chat.completion.chunk");
    assert_eq!(chunk["id"], id);
    assert_eq!(chunk["model"], model);
    assert_eq!(chunk["choices"][0]["delta"]["role"], "assistant");
    assert!(chunk["created"].is_u64());
}

#[test]
fn test_create_heartbeat_chunk() {
    let chunk: serde_json::Value = serde_json::from_str(&legacy::create_heartbeat_chunk()).unwrap();
    assert_eq!(chunk["object"], "chat.completion.chunk");
    assert!(chunk["choices"][0]["delta"].is_object());
    assert!(chunk["choices"][0]["delta"].as_object().unwrap().is_empty());
}

#[test]
fn proxy_error_status_codes() {
    assert_eq!(ProxyError::BadRequest("x".into()).status_code(), 400);
    assert_eq!(ProxyError::Unauthorized("x".into()).status_code(), 401);
    assert_eq!(ProxyError::Forbidden("x".into()).status_code(), 403);
    assert_eq!(ProxyError::NotFound("x".into()).status_code(), 404);
    assert_eq!(
        ProxyError::RateLimited { retry_after: None, message: "x".into() }.status_code(),
        429
    );
    assert_eq!(ProxyError::ServiceUnavailable("x".into()).status_code(), 503);
    assert_eq!(ProxyError::UpstreamError(418, "x".into()).status_code(), 418);
    assert_eq!(ProxyError::UpstreamError(1000, "x".into()).status_code(), 500);
    assert_eq!(ProxyError::UpstreamError(99, "x".into()).status_code(), 500);
    let timeout = HttpClientError {
        message: "t".into(),
        is_timeout: true,
        is_connect: false,
        status: None,
    };
    assert_eq!(ProxyError::ReqwestClient(timeout).status_code(), 504);
    let with_status = HttpClientError {
        message: "s".into(),
        is_timeout: false,
        is_connect: false,
        status: Some(404),
    };
    assert_eq!(ProxyError::ReqwestClient(with_status).status_code(), 404);
    assert_eq!(ProxyError::ResponseParse("x".into()).status_code(), 502);
}

#[test]
fn proxy_error_messages() {
    let e = ProxyError::RateLimited { retry_after: Some(30), message: "slow down".into() };
    assert_eq!(e.message(), "Rate limited: slow down (retry after 30 seconds)");
    assert_eq!(e.error_type(), "rate_limit_error");
    let e = ProxyError::MissingRequiredField { field: "model".into() };
    assert_eq!(e.message(), "Missing required field: model");
    assert_eq!(e.display_text(), "Missing required field: model");
    let (status, chunk) = ProxyError::NotFound("gone".into()).error_response();
    assert_eq!(status, 404);
    assert_eq!(chunk.message, "Not found: gone");
}

#[test]
fn upstream_not_found_names_reason_phrase() {
    let r = map_common_non_streaming_errors(404, None, None, "no such model");
    match r {
        Err(ProxyError::NotFound(m)) => {
            assert_eq!(m, "straico API returned 404 Not Found: no such model")
        }
        other => panic!("unexpected {:?}", other),
    }
}

#[test]
fn upstream_error_statuses() {
    let r = map_common_non_streaming_errors(500, Some(Provider::Straico), None, "");
    match r {
        Err(e) => {
            assert_eq!(e.status_code(), 500);
            match e {
                ProxyError::UpstreamError(s, m) => {
                    assert_eq!(s, 500);
                    assert_eq!(m, "straico API returned 500 Internal Server Error");
                }
                other => panic!("unexpected {:?}", other),
            }
        }
        Ok(()) => panic!("expected an error"),
    }
    assert!(map_common_non_streaming_errors(200, None, None, "").is_ok());
    assert!(map_common_non_streaming_errors(302, None, None, "").is_ok());
    let r = map_common_non_streaming_errors(429, None, Some("12"), "");
    match r {
        Err(ProxyError::RateLimited { retry_after, message }) => {
            assert_eq!(retry_after, Some(12));
            assert_eq!(message, "Rate limited by straico API");
        }
        other => panic!("unexpected {:?}", other),
    }
    let r = map_common_non_streaming_errors(429, None, Some("soon"), "");
    assert!(matches!(r, Err(ProxyError::RateLimited { retry_after: None, .. })));
    for status in [401u16, 403, 404, 503, 400, 599] {
        let e = map_common_non_streaming_errors(status, None, None, "").unwrap_err();
        assert_eq!(e.status_code(), status);
    }
    assert!(!upstream_reads_body(429));
    assert!(upstream_reads_body(404));
    assert!(!upstream_reads_body(200));
}

#[test]
fn provider_from_model_prefix() {
    assert_eq!(Provider::from_model("straico/gpt-4").unwrap(), Provider::Straico);
    assert_eq!(Provider::from_model("STRAICO/x").unwrap(), Provider::Straico);
    assert_eq!(Provider::from_model("straico").unwrap(), Provider::Straico);
    match Provider::from_model("openai/gpt-4") {
        Err(ProxyError::BadRequest(m)) => assert_eq!(m, "Unknown provider: openai"),
        other => panic!("unexpected {:?}", other),
    }
    assert_eq!(Provider::Straico.base_url(), "https://api.straico.com/v2");
    assert_eq!(Provider::Straico.env_var_name(), "STRAICO_API_KEY");
    assert_eq!(Provider::Straico.name(), "straico");
}

#[test]
fn legacy_error_texts() {
    let e = legacy::CustomError::ResponseParse("x".into());
    assert_eq!(e.status_code(), 500);
    assert_eq!(e.display_text(), "Failed to parse response from Straico API");
    assert_eq!(e.to_streaming_chunk().message, "Failed to parse response from Straico API");
    assert_eq!(legacy::CustomError::SerdeJson("x".into()).status_code(), 400);
}

use straico_proxy::stream_session::{SessionEvent, SessionPhase, StreamSession};

fn answer_chunk() -> CompletionStream {
    CompletionStream {
        id: "answer".into(),
        object: "chat.completion.chunk".into(),
        created: 5,
        model: "m".into(),
        choices: vec![],
        usage: Usage::default(),
    }
}

#[test]
fn stream_session_sends_opening_heartbeats_answer_and_done() {
    let mut session = StreamSession::new("gpt-4", "chatcmpl-1", 99, HeartbeatChar::Zwsp);
    let first = session.step(SessionEvent::Tick);
    assert_eq!(first.len(), 2);
    match &first[0] {
        SseChunk::Data(c) => {
            assert_eq!(c.id, "chatcmpl-1");
            assert_eq!(c.model, "gpt-4");
            assert_eq!(c.created, 99);
            assert_eq!(c.choices[0].delta.role.as_deref(), Some("assistant"));
        }
        other => panic!("unexpected {:?}", other),
    }
    match &first[1] {
        SseChunk::Data(c) => assert_eq!(c.choices[0].delta.content.as_deref(), Some("\u{200b}")),
        other => panic!("unexpected {:?}", other),
    }
    assert_eq!(session.phase, SessionPhase::Waiting);
    assert_eq!(session.step(SessionEvent::Tick).len(), 1);
    let last = session.step(SessionEvent::Reply(Ok(answer_chunk())));
    assert_eq!(last.len(), 2);
    assert!(matches!(&last[0], SseChunk::Data(c) if c.id == "answer"));
    assert!(matches!(&last[1], SseChunk::Done(m) if m == "[DONE]"));
    assert_eq!(session.phase, SessionPhase::Closed);
    assert!(session.step(SessionEvent::Tick).is_empty());
}

#[test]
fn stream_session_reports_upstream_failure() {
    let mut session = StreamSession::new("m", "id", 1, HeartbeatChar::Empty);
    let out = session.step(SessionEvent::Reply(Err(ProxyError::InvalidParameter {
        parameter: "model".to_string(),
        reason: "Simulated API error".to_string(),
    })));
    assert_eq!(out.len(), 3);
    assert!(matches!(&out[0], SseChunk::Data(_)));
    match &out[1] {
        SseChunk::Error(c) => assert!(c.message.contains("Simulated API error")),
        other => panic!("unexpected {:?}", other),
    }
    assert!(matches!(&out[2], SseChunk::Done(_)));
}

use straico_proxy::legacy_stream::{legacy_stream_chunks, split_at_spaces};

#[test]
fn legacy_stream_splits_content_at_spaces() {
    let stream = CompletionStream {
        id: "cmpl-123".into(),
        object: "chat.completion".into(),
        created: 1677652288,
        model: "gpt-3.5-turbo-0613".into(),
        choices: vec![ChoiceStream {
            index: 0,
            delta: Delta {
                role: Some("assistant".into()),
                content: Some("Hello there!".into()),
                tool_calls: None,
            },
            finish_reason: Some("stop".into()),
        }],
        usage: Usage::default(),
    };
    let chunks = legacy_stream_chunks(stream);
    assert_eq!(chunks.len(), 2);
    assert_eq!(chunks[0].choices[0].delta.role.as_deref(), Some("assistant"));
    assert_eq!(chunks[0].choices[0].delta.content.as_deref(), Some("Hello "));
    assert_eq!(chunks[0].choices[0].finish_reason.as_deref(), Some("stop"));
    assert!(chunks[1].choices[0].delta.role.is_none());
    assert_eq!(chunks[1].choices[0].delta.content.as_deref(), Some("there!"));
    assert_eq!(chunks[1].choices[0].finish_reason.as_deref(), Some("stop"));
    assert_eq!(chunks[1].id, "cmpl-123");
}

#[test]
fn legacy_stream_stops_at_shortest_choice() {
    let choice = |index: u8, text: &str| ChoiceStream {
        index,
        delta: Delta { role: Some("assistant".into()), content: Some(text.into()), tool_calls: None },
        finish_reason: None,
    };
    let stream = CompletionStream {
        id: "i".into(),
        object: "o".into(),
        created: 0,
        model: "m".into(),
        choices: vec![choice(0, "a b c"), choice(1, "x y")],
        usage: Usage::default(),
    };
    let chunks = legacy_stream_chunks(stream);
    assert_eq!(chunks.len(), 2);
    assert_eq!(chunks[1].choices[1].delta.content.as_deref(), Some("y"));
}

#[test]
fn space_pieces_rejoin() {
    for text in ["", "one", "a b", "trailing ", "  double", "x  y z"] {
        let pieces = split_at_spaces(text);
        let expected: Vec<String> = text.split_inclusive(' ').map(|s| s.to_string()).collect();
        assert_eq!(pieces, expected);
        assert_eq!(pieces.concat(), text);
    }
}

use straico_proxy::upstream::format_upstream_message;

#[test]
fn upstream_message_format() {
    assert_eq!(
        format_upstream_message("straico", 418, Some("I'm a teapot"), "brewing"),
        "straico API returned 418 I'm a teapot: brewing"
    );
    assert_eq!(format_upstream_message("straico", 599, None, ""), "straico API returned 599 ");
}

#[test]
fn provider_from_lowered_prefix() {
    assert_eq!(Provider::from_prefix("StRaIcO", "straico").unwrap(), Provider::Straico);
    match Provider::from_prefix("Other", "other") {
        Err(ProxyError::BadRequest(m)) => assert_eq!(m, "Unknown provider: Other"),
        other => panic!("unexpected {:?}", other),
    }
}
