use straico_proxy::cli::Cli;
use straico_proxy::completion::{
    prompt_family, Choice, Completion, CompletionData, Content, FunctionData, Message, Model,
    PromptFamily, PromptFormats, TextObject, ToolCall, ToolCallMarkers, Usage, Words,
};
use straico_proxy::config_manager::{
    config_format, ConfigFile, ConfigFormat, ConfigManager, Feature, FeatureFlags,
};
use straico_proxy::content::{
    convert_openai_content_to_straico, extract_text_from_content, merge_content_arrays,
    split_content_into_chunks,
    validate_content_objects, validate_openai_content, ContentObject, OpenAiContent,
    OpenAiContentObject,
};
use straico_proxy::endpoint_selection::should_use_new_endpoint;
use straico_proxy::json::json_string_of;
use straico_proxy::number::{decimal_string, parse_u64};
use straico_proxy::openai_types::{
    function_pretty_json_text, generate_tool_xml, OpenAiChatMessage, OpenAiChatRequest,
    OpenAiFunction, OpenAiTool,
};
use straico_proxy::request_log::{header_log_line, is_authorization_header};
use straico_proxy::streaming::HeartbeatChar;
use straico_proxy::tls::{format_http_only_notice, https_error_lines, https_rejection_body};
use straico_proxy::tool_embedding::{embed_tools_in_chat_request, ToolEmbeddingError};

fn string_message(role: &str, text: &str) -> OpenAiChatMessage {
    OpenAiChatMessage {
        role: role.to_string(),
        content: OpenAiContent::String(text.to_string()),
        tool_call_id: None,
        name: None,
        tool_calls: None,
    }
}

fn test_tool() -> OpenAiTool {
    let mut params = serde_json::Map::new();
    params.insert("type".to_string(), serde_json::Value::String("object".to_string()));
    params.insert("properties".to_string(), serde_json::Value::Object(serde_json::Map::new()));
    let parameters = serde_json::to_string_pretty(&serde_json::Value::Object(params)).unwrap();
    OpenAiTool {
        tool_type: "function".to_string(),
        function: OpenAiFunction {
            name: "test_function".to_string(),
            description: Some("A test function".to_string()),
            parameters: Some(parameters),
        },
    }
}

#[test]
fn test_embed_tools_in_chat_request() {
    let mut request = OpenAiChatRequest::default_request();
    request.model = "test-model".to_string();
    request.messages = vec![
        string_message("system", "You are a helpful assistant."),
        string_message("user", "Hello"),
    ];
    request.tools = Some(vec![test_tool()]);

    let result = embed_tools_in_chat_request(request).unwrap();
    let user_message_content = result.messages[0].content[0].text.clone();

    assert!(user_message_content.contains("You are a helpful assistant."));
    assert!(user_message_content.contains("<tools>"));
    assert!(user_message_content.contains("test_function"));
    assert!(user_message_content.contains("Hello"));
}

#[test]
fn embedding_without_user_message_fails() {
    let mut request = OpenAiChatRequest::default_request();
    request.messages = vec![string_message("system", "Rules")];
    assert!(matches!(
        embed_tools_in_chat_request(request),
        Err(ToolEmbeddingError::NoUserMessages)
    ));
}

#[test]
fn embedding_without_preamble_keeps_messages() {
    let mut request = OpenAiChatRequest::default_request();
    request.messages = vec![string_message("user", "Hi")];
    request.max_tokens = Some(50);
    let result = embed_tools_in_chat_request(request).unwrap();
    assert_eq!(result.messages.len(), 1);
    assert_eq!(result.messages[0].content[0].text, "Hi");
    assert_eq!(result.max_tokens, Some(50));
}

#[test]
fn function_json_matches_serde_pretty() {
    let tool = test_tool();
    let text = function_pretty_json_text(&tool.function);
    assert_eq!(
        text,
        "{\n  \"name\": \"test_function\",\n  \"description\": \"A test function\",\n  \"parameters\": {\n    \"properties\": {},\n    \"type\": \"object\"\n  }\n}"
    );
    let xml = generate_tool_xml(&[tool], "model");
    assert!(xml.contains("<tools>\n{\n  \"name\": \"test_function\""));
    assert!(xml.contains("</tools>"));
}

#[test]
fn json_strings_match_serde() {
    for s in ["plain", "quote \" and \\ backslash", "line\nbreak\ttab", "\u{1}\u{1f}", "é 世界"] {
        assert_eq!(json_string_of(s), serde_json::to_string(s).unwrap());
    }
}

#[test]
fn decimal_round_trip() {
    for n in [0u64, 7, 10, 12345, u64::MAX] {
        let text = decimal_string(n);
        assert_eq!(text, n.to_string());
        assert_eq!(parse_u64(&text), Some(n));
    }
    assert_eq!(parse_u64("+42"), Some(42));
    assert_eq!(parse_u64(""), None);
    assert_eq!(parse_u64("+"), None);
    assert_eq!(parse_u64("4x"), None);
    assert_eq!(parse_u64("18446744073709551616"), None);
}

#[test]
fn feature_flags_set_and_get() {
    let mut manager = ConfigManager::new("config.toml", None);
    assert_eq!(manager.get_feature_flag("new_chat_endpoint"), Ok(true));
    assert_eq!(manager.get_feature_flag("streaming"), Ok(false));
    assert!(manager.set_feature_flag("streaming", true).is_ok());
    assert_eq!(manager.get_feature_flag("streaming"), Ok(true));
    assert_eq!(manager.get_feature_flag("caching"), Ok(false));
    assert_eq!(
        manager.set_feature_flag("teleport", true),
        Err("Unknown feature flag: teleport".to_string())
    );
    assert_eq!(manager.get_feature_flag("teleport"), Err("Unknown feature flag: teleport".to_string()));
    let effective = manager.get_effective_config();
    assert_eq!(effective.get_enabled_features(), vec!["new_chat_endpoint", "streaming"]);
    assert!(effective.is_feature_enabled("streaming"));
    assert!(!effective.is_feature_enabled("teleport"));
}

#[test]
fn feature_names_round_trip() {
    let all = [
        (Feature::NewChatEndpoint, "new_chat_endpoint"),
        (Feature::Streaming, "streaming"),
        (Feature::ToolCalls, "tool_calls"),
        (Feature::Caching, "caching"),
        (Feature::Metrics, "metrics"),
        (Feature::RateLimiting, "rate_limiting"),
        (Feature::RequestLogging, "request_logging"),
        (Feature::Compression, "compression"),
    ];
    for (f, name) in all {
        assert_eq!(Feature::from_name(name), Some(f));
        let mut flags = FeatureFlags::default();
        flags.set_flag(f, true);
        assert!(flags.get_flag(f));
        flags.set_flag(f, false);
        assert!(!flags.get_flag(f));
    }
    assert_eq!(Feature::from_name("Streaming"), None);
}

#[test]
fn default_configuration_validates() {
    let manager = ConfigManager::new("config.yaml", None);
    assert!(manager.validate_config().is_ok());
    assert_eq!(manager.format(), ConfigFormat::Yaml);
    assert_eq!(manager.path(), "config.yaml");

    let mut bad = ConfigFile::default();
    bad.environment.port = 0;
    bad.environment.log_level = "loud".to_string();
    let manager = ConfigManager::new("c.json", Some(bad));
    assert_eq!(
        manager.validate_config(),
        Err(vec![
            "Port cannot be 0".to_string(),
            "Log level must be one of: trace, debug, info, warn, error".to_string(),
        ])
    );
}

#[test]
fn config_format_by_extension() {
    assert_eq!(config_format("a.json"), ConfigFormat::Json);
    assert_eq!(config_format("a.yaml"), ConfigFormat::Yaml);
    assert_eq!(config_format("a.yml"), ConfigFormat::Yaml);
    assert_eq!(config_format("a.toml"), ConfigFormat::Toml);
    assert_eq!(config_format("config"), ConfigFormat::Toml);
}

#[test]
fn cli_arguments_override_configuration() {
    let mut manager = ConfigManager::new("config.toml", None);
    let cli = Cli {
        host: "0.0.0.0".to_string(),
        port: 9000,
        api_key: None,
        list_models: false,
        log_level: "debug".to_string(),
        heartbeat_char: HeartbeatChar::Empty,
        include_debug_info: true,
    };
    manager.merge_with_cli_args(&cli);
    let config = manager.get_config();
    assert_eq!(config.environment.port, 9000);
    assert_eq!(config.environment.host, "0.0.0.0");
    assert!(config.proxy.include_debug_info);
}

#[test]
fn endpoint_selection_rules() {
    let mut request = OpenAiChatRequest::default_request();
    assert!(should_use_new_endpoint(&request, true, false));
    assert!(!should_use_new_endpoint(&request, false, true));
    request.tools = Some(vec![test_tool()]);
    assert!(should_use_new_endpoint(&request, false, true));
    assert!(!should_use_new_endpoint(&request, false, false));
}

fn assistant_completion(text: &str) -> Completion {
    Completion {
        choices: vec![Choice {
            message: Message::Assistant {
                content: Some(Content::Text(text.to_string())),
                tool_calls: None,
            },
            index: 0,
            finish_reason: "stop".to_string(),
        }],
        object: "chat.completion".to_string(),
        id: "id".to_string(),
        model: "m".to_string(),
        created: 1,
        usage: Usage::default(),
    }
}

#[test]
fn tool_call_markup_is_found() {
    let completion = assistant_completion(
        "Calling.\n<tool_call>\n{\"name\": \"f\", \"arguments\": {}}\n</tool_call>",
    );
    let formats = PromptFormats::uniform("<tool_call>", "</tool_call>");
    let segments = completion.tool_call_segments(&formats);
    assert_eq!(segments, vec![Some(vec!["{\"name\": \"f\", \"arguments\": {}}".to_string()])]);

    let plain = assistant_completion("No tools here.");
    assert_eq!(plain.tool_call_segments(&formats), vec![None]);
}

fn markers(begin: &str, end: &str) -> ToolCallMarkers {
    ToolCallMarkers { begin: begin.to_string(), end: end.to_string() }
}

#[test]
fn model_family_selects_markers() {
    assert_eq!(prompt_family("anthropic/haiku-3"), PromptFamily::Anthropic);
    assert_eq!(prompt_family("MistralAI/Mixtral"), PromptFamily::Mistral);
    assert_eq!(prompt_family("meta/Llama3-70b"), PromptFamily::Llama3);
    assert_eq!(prompt_family("cohere/command-r"), PromptFamily::CommandR);
    assert_eq!(prompt_family("Qwen/qwen2"), PromptFamily::Qwen);
    assert_eq!(prompt_family("deepseek/deepseek-chat"), PromptFamily::DeepSeek);
    assert_eq!(prompt_family("openai/gpt-4"), PromptFamily::Default);
    assert_eq!(prompt_family("mistral-anthropic"), PromptFamily::Anthropic);

    let formats = PromptFormats {
        anthropic: markers("<a>", "</a>"),
        mistral: markers("[M]", "[/M]"),
        llama3: markers("<l>", "</l>"),
        command_r: markers("<c>", "</c>"),
        qwen: markers("<q>", "</q>"),
        deepseek: markers("<d>", "</d>"),
        default: markers("<tool_call>", "</tool_call>"),
    };
    assert_eq!(formats.markers_for("Mistral-large").begin, "[M]");
    assert_eq!(formats.markers_for("gpt-4").end, "</tool_call>");

    let mut completion = assistant_completion("[M]{\"name\": \"g\"}[/M] and <tool_call>x</tool_call>");
    completion.model = "mistral-large".to_string();
    assert_eq!(completion.tool_call_segments(&formats), vec![Some(vec!["{\"name\": \"g\"}".to_string()])]);
    completion.model = "gpt-4".to_string();
    assert_eq!(completion.tool_call_segments(&formats), vec![Some(vec!["x".to_string()])]);
    completion.model = "qwen-max".to_string();
    assert_eq!(completion.tool_call_segments(&formats), vec![None]);
}

#[test]
fn parsed_tool_calls_replace_content() {
    let completion = assistant_completion("<tool_call>{\"name\": \"f\", \"arguments\": {}}</tool_call>");
    let parsed = vec![Some(vec![FunctionData { name: "f".to_string(), arguments: "{}".to_string() }])];
    let result = completion.parse_with(parsed);
    assert_eq!(result.choices.len(), 1);
    assert_eq!(result.choices[0].finish_reason, "tool_calls");
    match &result.choices[0].message {
        Message::Assistant { content, tool_calls: Some(calls) } => {
            assert!(content.is_none());
            assert_eq!(calls.len(), 1);
            let ToolCall::Function { function, .. } = &calls[0];
            assert_eq!(function.name, "f");
            assert_eq!(function.arguments, "{}");
        }
        other => panic!("unexpected {:?}", other),
    }
}

#[test]
fn content_text_forms() {
    let c = Content::TextArray(vec![
        TextObject::Text { text: "a".to_string() },
        TextObject::Text { text: "b".to_string() },
    ]);
    assert_eq!(c.to_searchable_string(), "a\nb\n");
    assert_eq!(c.to_text(), "a b ");
    assert!(!c.is_empty());
    assert!(Content::Text(String::new()).is_empty());
    let t = Content::Text("héllo world".to_string());
    assert_eq!(t.find("world"), Some(7));
    assert_eq!(t.find("xyz"), None);
    assert_eq!(t.replace("world", "there"), "héllo there");
}

#[test]
fn authorization_is_redacted() {
    assert!(is_authorization_header("Authorization"));
    assert!(is_authorization_header("AUTHORIZATION"));
    assert!(!is_authorization_header("Accept"));
    assert_eq!(
        header_log_line("authorization", Some("Bearer secret"), b"Bearer secret"),
        "  authorization: [REDACTED]"
    );
    assert_eq!(header_log_line("accept", Some("*/*"), b"*/*"), "  accept: */*");
    assert_eq!(
        header_log_line("x-bin", None, &[255, 1]),
        "  x-bin: <non-UTF8 value, bytes: [255, 1]>"
    );
}

#[test]
fn http_only_notice_names_port() {
    let notice = format_http_only_notice(8000);
    assert!(notice.contains("http://127.0.0.1:8000"));
    assert!(!https_error_lines().is_empty());
    assert!(https_rejection_body().contains("HTTPS"));
}

#[test]
fn array_content_reaches_upstream_text() {
    let msg = OpenAiChatMessage {
        role: "user".to_string(),
        content: OpenAiContent::Array(vec![
            OpenAiContentObject { content_type: "text".to_string(), text: "a".to_string() },
            OpenAiContentObject { content_type: "text".to_string(), text: "b".to_string() },
        ]),
        tool_call_id: None,
        name: None,
        tool_calls: None,
    };
    let converted = straico_proxy::openai_types::convert_message(&msg);
    assert_eq!(converted.role, "user");
    assert_eq!(converted.content.len(), 2);
    assert_eq!(converted.content[1].text, "b");
}

use straico_proxy::response_utils::{
    enhance_chat_response, enhance_chat_response_with, generate_chat_completion_id,
    validate_chat_response, ChatChoice, ChatResponse, ChatResponseContent, ChatResponseMessage,
};
use straico_proxy::router::model_without_provider;

fn sample_response(model: &str, with_choice: bool) -> ChatResponse {
    let choices = if with_choice {
        vec![ChatChoice {
            message: ChatResponseMessage {
                role: "assistant".to_string(),
                content: Some(ChatResponseContent::Text("Hello".to_string())),
                tool_calls: None,
            },
            finish_reason: "stop".to_string(),
            index: Some(0),
        }]
    } else {
        vec![]
    };
    ChatResponse {
        choices,
        model: model.to_string(),
        usage: None,
        id: None,
        object: None,
        created: None,
        tool_choice: None,
        tools: None,
    }
}

#[test]
fn test_enhance_chat_response() {
    let mut request = OpenAiChatRequest::default_request();
    request.model = "gpt-3.5-turbo".to_string();
    let enhanced = enhance_chat_response(sample_response("", true), &request, true, 1_700_000_000);
    assert!(enhanced.id.is_some());
    assert!(enhanced.object.is_some());
    assert!(enhanced.created.is_some());
    assert_eq!(enhanced.model, "gpt-3.5-turbo");
    let id = enhanced.id.unwrap();
    assert!(id.starts_with("chatcmpl-"));
    assert_eq!(id.len(), 38);
}

#[test]
fn enhance_with_given_id_and_time() {
    let request = OpenAiChatRequest::default_request();
    let mut response = sample_response("own-model", true);
    response.object = Some("custom".to_string());
    let enhanced = enhance_chat_response_with(response, &request, false, "chatcmpl-x".to_string(), 42);
    assert_eq!(enhanced.id.as_deref(), Some("chatcmpl-x"));
    assert_eq!(enhanced.object.as_deref(), Some("custom"));
    assert_eq!(enhanced.created, Some(42));
    assert_eq!(enhanced.model, "own-model");
    assert_eq!(enhanced.choices.len(), 1);
}

#[test]
fn test_validate_chat_response() {
    assert!(validate_chat_response(&sample_response("gpt-3.5-turbo", true)).is_ok());
    assert!(validate_chat_response(&sample_response("gpt-3.5-turbo", false)).is_err());
}

#[test]
fn completion_ids_are_alphanumeric() {
    let a = generate_chat_completion_id();
    assert!(a.starts_with("chatcmpl-"));
    assert_eq!(a.len(), 38);
    assert!(a[9..].chars().all(|c| c.is_ascii_alphanumeric()));
}

#[test]
fn provider_segment_is_stripped() {
    assert_eq!(model_without_provider("openai/gpt-4"), "gpt-4");
    assert_eq!(model_without_provider("a/b/c"), "b");
    assert_eq!(model_without_provider("gpt-4"), "gpt-4");
    assert_eq!(model_without_provider("a/"), "");
}

#[test]
fn merged_text_is_the_text_of_each_array() {
    let arrays = vec![
        vec![ContentObject::text("ab"), ContentObject::text("c")],
        vec![],
        vec![ContentObject::text("d")],
    ];
    let separate: String = arrays.iter().map(|a| extract_text_from_content(a)).collect();
    let merged = merge_content_arrays(arrays);
    assert_eq!(extract_text_from_content(&merged), separate);
    assert_eq!(separate, "abcd");
}

#[test]
fn conversion_keeps_text_and_validity() {
    let cases = vec![
        OpenAiContent::String("hello".to_string()),
        OpenAiContent::String("  ".to_string()),
        OpenAiContent::Array(vec![
            OpenAiContentObject { content_type: "text".to_string(), text: "a".to_string() },
            OpenAiContentObject { content_type: "text".to_string(), text: "b".to_string() },
        ]),
        OpenAiContent::Array(vec![]),
        OpenAiContent::Null,
    ];
    for c in cases {
        let text = c.to_text();
        let valid = validate_openai_content(&c).is_ok();
        let objects = convert_openai_content_to_straico(c);
        assert_eq!(extract_text_from_content(&objects), text);
        assert_eq!(validate_content_objects(&objects).is_ok(), valid);
    }
}

#[test]
fn message_problems_are_named() {
    assert_eq!(
        straico_proxy::openai_types::validate_openai_message(&string_message("", "x")),
        Err("Message role cannot be empty".to_string())
    );
    assert_eq!(
        straico_proxy::openai_types::validate_openai_message(&string_message("robot", "x")),
        Err("Invalid message role: robot".to_string())
    );
    assert_eq!(
        straico_proxy::openai_types::validate_openai_message(&string_message("tool", "x")),
        Err("Tool messages must have a tool_call_id".to_string())
    );
    assert_eq!(
        straico_proxy::openai_types::validate_openai_message(&string_message("user", " ")),
        Err("Content cannot be empty".to_string())
    );
}

#[test]
fn request_embeds_tool_definitions_into_first_user_message() {
    let mut request = OpenAiChatRequest::default_request();
    request.model = "straico/model".to_string();
    request.messages = vec![
        string_message("system", "Be brief."),
        string_message("user", "Hi"),
        string_message("user", "Again"),
    ];
    request.max_completion_tokens = Some(64);
    request.tools = Some(vec![test_tool()]);
    let xml = generate_tool_xml(&[test_tool()], "straico/model");
    let converted = request.to_straico_request().unwrap();
    assert_eq!(converted.model, "straico/model");
    assert_eq!(converted.max_tokens, Some(64));
    assert_eq!(converted.messages.len(), 3);
    assert_eq!(converted.messages[0].role, "system");
    assert_eq!(converted.messages[0].content[0].text, "Be brief.");
    assert_eq!(converted.messages[1].role, "user");
    assert_eq!(converted.messages[1].content.len(), 1);
    assert_eq!(converted.messages[1].content[0].text, format!("{xml}\n\nHi"));
    assert_eq!(converted.messages[2].content[0].text, "Again");
    assert!(request.messages.is_empty());
    assert!(request.tools.is_none());
}

#[test]
fn request_with_tools_and_no_user_message_fails() {
    let mut request = OpenAiChatRequest::default_request();
    request.messages = vec![string_message("system", "Rules")];
    request.tools = Some(vec![test_tool()]);
    match request.to_straico_request() {
        Err(straico_proxy::error::ProxyError::ToolEmbedding(m)) => {
            assert_eq!(m, "No user messages found for tool embedding")
        }
        other => panic!("unexpected {:?}", other),
    }
}

#[test]
fn request_without_tools_converts_messages_as_they_are() {
    let mut request = OpenAiChatRequest::default_request();
    request.messages = vec![string_message("system", "Rules")];
    let converted = request.to_straico_request().unwrap();
    assert_eq!(converted.messages.len(), 1);
    assert_eq!(converted.messages[0].role, "system");
    assert_eq!(converted.messages[0].content[0].text, "Rules");
}

#[test]
fn first_completion_is_taken() {
    let data = CompletionData {
        completions: vec![
            Model { completion: assistant_completion("first"), words: Words { input: 1, output: 2, total: 3 } },
            Model { completion: assistant_completion("second"), words: Words { input: 0, output: 0, total: 0 } },
        ],
        overall_words: Words { input: 1, output: 2, total: 3 },
    };
    let c = data.get_completion_data();
    match &c.choices[0].message {
        Message::Assistant { content: Some(Content::Text(t)), .. } => assert_eq!(t, "first"),
        other => panic!("unexpected {:?}", other),
    }
}

#[test]
fn split_content_extracts_back() {
    let text = "This is a very long text that should be split into multiple chunks";
    for n in [1usize, 3, 7, 20, 100] {
        let chunks = split_content_into_chunks(text, n);
        assert_eq!(extract_text_from_content(&chunks), text);
    }
}
#[test]
fn request_with_unsupported_tool_is_refused() {
    let mut request = OpenAiChatRequest::default_request();
    request.messages = vec![string_message("user", "Hi")];
    let mut tool = test_tool();
    tool.tool_type = "retrieval".to_string();
    request.tools = Some(vec![tool]);
    match request.to_straico_request() {
        Err(straico_proxy::error::ProxyError::ToolEmbedding(m)) => {
            assert_eq!(m, "Unsupported tool type: retrieval")
        }
        other => panic!("unexpected {:?}", other),
    }
}

#[test]
fn every_configuration_problem_is_reported() {
    let mut bad = ConfigFile::default();
    bad.environment.port = 0;
    bad.environment.request_timeout_seconds = 0;
    bad.environment.environment = "moon".to_string();
    bad.environment.log_level = "loud".to_string();
    let manager = ConfigManager::new("c.toml", Some(bad));
    assert_eq!(
        manager.validate_config(),
        Err(vec![
            "Port cannot be 0".to_string(),
            "Request timeout cannot be 0".to_string(),
            "Environment must be one of: development, staging, production".to_string(),
            "Log level must be one of: trace, debug, info, warn, error".to_string(),
        ])
    );
}
