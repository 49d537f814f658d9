use straico_proxy::content::{
    convert_openai_content_to_straico, create_default_system_message, ensure_system_message,
    extract_text_from_content, merge_content_arrays, normalize_openai_content_to_array,
    split_content_into_chunks, validate_content_objects, validate_message_content,
    validate_openai_content, ChatMessage, ChatRequest, ContentObject, OpenAiContent,
    OpenAiContentObject,
};
use straico_proxy::openai_types::{
    convert_openai_message_to_straico, validate_openai_message, OpenAiChatMessage,
};

fn text_object(text: &str) -> OpenAiContentObject {
    OpenAiContentObject { content_type: "text".to_string(), text: text.to_string() }
}

#[test]
fn test_convert_string_content_to_straico() {
    let openai_content = OpenAiContent::String("Hello, world!".to_string());
    let straico_content = convert_openai_content_to_straico(openai_content);

    assert_eq!(straico_content.len(), 1);
    assert_eq!(straico_content[0].content_type, "text");
    assert_eq!(straico_content[0].text, "Hello, world!");
}

#[test]
fn test_convert_array_content_to_straico() {
    let openai_content = OpenAiContent::Array(vec![
        OpenAiContentObject { content_type: "text".to_string(), text: "Hello, ".to_string() },
        OpenAiContentObject { content_type: "text".to_string(), text: "world!".to_string() },
    ]);

    let straico_content = convert_openai_content_to_straico(openai_content);

    assert_eq!(straico_content.len(), 2);
    assert_eq!(straico_content[0].content_type, "text");
    assert_eq!(straico_content[0].text, "Hello, ");
    assert_eq!(straico_content[1].content_type, "text");
    assert_eq!(straico_content[1].text, "world!");
}

#[test]
fn test_convert_openai_message_to_straico() {
    let openai_message = OpenAiChatMessage {
        role: "user".to_string(),
        content: OpenAiContent::String("Test message".to_string()),
        tool_call_id: None,
        name: None,
        tool_calls: None,
    };

    let straico_message = convert_openai_message_to_straico(openai_message);

    assert_eq!(straico_message.role, "user");
    assert_eq!(straico_message.content.len(), 1);
    assert_eq!(straico_message.content[0].text, "Test message");
}

#[test]
fn test_validate_content_objects_valid() {
    let content = vec![ContentObject::text("Hello"), ContentObject::text("World")];

    assert!(validate_content_objects(&content).is_ok());
}

#[test]
fn test_validate_content_objects_invalid_type() {
    let content = vec![ContentObject::new("image", "data")];

    let result = validate_content_objects(&content);
    assert!(result.is_err());
    assert!(result.unwrap_err().contains("Unsupported content type"));
}

#[test]
fn test_validate_content_objects_empty_text() {
    let content = vec![ContentObject::text("")];

    let result = validate_content_objects(&content);
    assert!(result.is_err());
    assert!(result.unwrap_err().contains("empty text"));
}

#[test]
fn test_validate_openai_content_string() {
    let content = OpenAiContent::String("Valid content".to_string());
    assert!(validate_openai_content(&content).is_ok());

    let empty_content = OpenAiContent::String("".to_string());
    assert!(validate_openai_content(&empty_content).is_err());
}

#[test]
fn test_validate_openai_content_array() {
    let valid_content = OpenAiContent::Array(vec![text_object("Valid")]);
    assert!(validate_openai_content(&valid_content).is_ok());

    let invalid_content = OpenAiContent::Array(vec![OpenAiContentObject {
        content_type: "image".to_string(),
        text: "Invalid".to_string(),
    }]);
    assert!(validate_openai_content(&invalid_content).is_err());
}

#[test]
fn test_normalize_openai_content() {
    let string_content = OpenAiContent::String("Test".to_string());
    let normalized = normalize_openai_content_to_array(string_content);

    assert_eq!(normalized.len(), 1);
    assert_eq!(normalized[0].content_type, "text");
    assert_eq!(normalized[0].text, "Test");

    let array_content = OpenAiContent::Array(vec![text_object("Test")]);
    let normalized_array = normalize_openai_content_to_array(array_content);
    assert_eq!(normalized_array.len(), 1);
    assert_eq!(normalized_array[0].text, "Test");
}

#[test]
fn test_split_content_into_chunks() {
    let short_text = "Short";
    let chunks = split_content_into_chunks(short_text, 10);
    assert_eq!(chunks.len(), 1);
    assert_eq!(chunks[0].text, "Short");

    let long_text = "This is a very long text that should be split into multiple chunks";
    let chunks = split_content_into_chunks(long_text, 20);
    assert!(chunks.len() > 1);

    for chunk in &chunks {
        assert!(chunk.text.len() <= 20);
    }

    let reconstructed: String = chunks.iter().map(|c| &c.text).cloned().collect();
    assert_eq!(reconstructed, long_text);
}

#[test]
fn test_extract_text_from_content() {
    let content = vec![ContentObject::text("Hello, "), ContentObject::text("world!")];

    let extracted = extract_text_from_content(&content);
    assert_eq!(extracted, "Hello, world!");
}

#[test]
fn test_ensure_system_message() {
    let mut request =
        ChatRequest::new().model("test-model").message(ChatMessage::user("Hello")).build();

    request = ensure_system_message(request);

    assert_eq!(request.messages.len(), 2);
    assert_eq!(request.messages[0].role, "system");

    let mut request_with_system = ChatRequest::new()
        .model("test-model")
        .message(ChatMessage::system("Custom system"))
        .message(ChatMessage::user("Hello"))
        .build();

    request_with_system = ensure_system_message(request_with_system);

    assert_eq!(request_with_system.messages.len(), 2);
    assert_eq!(request_with_system.messages[0].role, "system");
    assert!(request_with_system.messages[0].content[0].text.contains("Custom system"));
}

#[test]
fn test_mixed_content_array() {
    let mixed_content = OpenAiContent::Array(vec![
        text_object("Short"),
        text_object(
            "This is a much longer piece of text that should be handled correctly by the conversion system.",
        ),
        text_object(""),
        text_object("Final piece"),
    ]);

    let converted = convert_openai_content_to_straico(mixed_content);

    assert_eq!(converted.len(), 4);
    assert_eq!(converted[0].text, "Short");
    assert!(converted[1].text.len() > 50);
    assert_eq!(converted[2].text, "");
    assert_eq!(converted[3].text, "Final piece");

    for content_obj in &converted {
        assert_eq!(content_obj.content_type, "text");
    }
}

#[test]
fn test_unicode_content() {
    let unicode_content = OpenAiContent::String(
        "Hello 👋 世界 🌍 Testing unicode: àáâãäå æç èéêë ìíîï ñ òóôõö ùúûü ý 🚀🎉🔥💯".to_string(),
    );

    let converted = convert_openai_content_to_straico(unicode_content);

    assert_eq!(converted.len(), 1);
    assert!(converted[0].text.contains("👋"));
    assert!(converted[0].text.contains("世界"));
    assert!(converted[0].text.contains("🌍"));
    assert!(converted[0].text.contains("àáâãäå"));
    assert!(converted[0].text.contains("🚀🎉🔥💯"));
}

#[test]
fn test_large_content() {
    let large_text = "Lorem ipsum dolor sit amet, consectetur adipiscing elit. ".repeat(200);
    let large_content = OpenAiContent::String(large_text.clone());

    let converted = convert_openai_content_to_straico(large_content);

    assert_eq!(converted.len(), 1);
    assert_eq!(converted[0].text, large_text);
    assert!(converted[0].text.len() > 10000);
}

#[test]
fn test_edge_cases() {
    let empty_string = OpenAiContent::String("".to_string());
    let converted = convert_openai_content_to_straico(empty_string);
    assert_eq!(converted.len(), 1);
    assert_eq!(converted[0].text, "");

    let empty_array = OpenAiContent::Array(vec![]);
    let converted = convert_openai_content_to_straico(empty_array);
    assert_eq!(converted.len(), 0);

    let whitespace_content = OpenAiContent::String("   \n\t   ".to_string());
    let converted = convert_openai_content_to_straico(whitespace_content);
    assert_eq!(converted.len(), 1);
    assert_eq!(converted[0].text, "   \n\t   ");

    let special_chars =
        OpenAiContent::String(r#"Special chars: !@#$%^&*()_+-=[]{}|;':",./<>?"#.to_string());
    let converted = convert_openai_content_to_straico(special_chars);
    assert_eq!(converted.len(), 1);
    assert!(converted[0].text.contains("!@#$%^&*()"));
}

#[test]
fn test_content_validation_edge_cases() {
    let empty_string = OpenAiContent::String("".to_string());
    assert!(validate_openai_content(&empty_string).is_err());

    let whitespace_only = OpenAiContent::String("   \n\t   ".to_string());
    assert!(validate_openai_content(&whitespace_only).is_err());

    let empty_array = OpenAiContent::Array(vec![]);
    assert!(validate_openai_content(&empty_array).is_err());

    let array_with_empty = OpenAiContent::Array(vec![text_object("")]);
    assert!(validate_openai_content(&array_with_empty).is_err());

    let invalid_type = OpenAiContent::Array(vec![OpenAiContentObject {
        content_type: "image".to_string(),
        text: "Some text".to_string(),
    }]);
    assert!(validate_openai_content(&invalid_type).is_err());
}

fn message(role: &str, content: &str, tool_call_id: Option<&str>) -> OpenAiChatMessage {
    OpenAiChatMessage {
        role: role.to_string(),
        content: OpenAiContent::String(content.to_string()),
        tool_call_id: tool_call_id.map(|s| s.to_string()),
        name: None,
        tool_calls: None,
    }
}

#[test]
fn test_message_validation_comprehensive() {
    let valid_message = message("user", "Valid content", None);
    assert!(validate_openai_message(&valid_message).is_ok());

    let empty_role = message("", "Content", None);
    assert!(validate_openai_message(&empty_role).is_err());

    let invalid_role = message("invalid_role", "Content", None);
    assert!(validate_openai_message(&invalid_role).is_err());

    let tool_without_id = message("tool", "Tool response", None);
    assert!(validate_openai_message(&tool_without_id).is_err());

    let tool_with_id = message("tool", "Tool response", Some("call_123"));
    assert!(validate_openai_message(&tool_with_id).is_ok());
}

#[test]
fn test_content_normalization() {
    let string_content = OpenAiContent::String("Test content".to_string());
    let normalized = normalize_openai_content_to_array(string_content);

    assert_eq!(normalized.len(), 1);
    assert_eq!(normalized[0].content_type, "text");
    assert_eq!(normalized[0].text, "Test content");

    let array_content = OpenAiContent::Array(vec![text_object("Array content")]);
    let normalized = normalize_openai_content_to_array(array_content);

    assert_eq!(normalized.len(), 1);
    assert_eq!(normalized[0].content_type, "text");
    assert_eq!(normalized[0].text, "Array content");
}

#[test]
fn test_content_splitting() {
    let long_content = "This is a very long piece of content that should be split into multiple chunks for better processing and handling by the system.";

    let chunks = split_content_into_chunks(long_content, 20);
    assert!(chunks.len() > 1);

    for chunk in &chunks {
        assert!(chunk.text.len() <= 20);
    }

    let reconstructed: String = chunks.iter().map(|c| &c.text).cloned().collect();
    assert_eq!(reconstructed, long_content);

    let short_content = "Short";
    let short_chunks = split_content_into_chunks(short_content, 20);
    assert_eq!(short_chunks.len(), 1);
    assert_eq!(short_chunks[0].text, "Short");
}

#[test]
fn test_content_merging() {
    let array1 = vec![ContentObject::text("First"), ContentObject::text("Second")];
    let array2 = vec![ContentObject::text("Third")];
    let array3 = vec![ContentObject::text("Fourth"), ContentObject::text("Fifth")];

    let merged = merge_content_arrays(vec![array1, array2, array3]);

    assert_eq!(merged.len(), 5);
    assert_eq!(merged[0].text, "First");
    assert_eq!(merged[1].text, "Second");
    assert_eq!(merged[2].text, "Third");
    assert_eq!(merged[3].text, "Fourth");
    assert_eq!(merged[4].text, "Fifth");
}

#[test]
fn test_text_extraction() {
    let content_objects =
        vec![ContentObject::text("Hello "), ContentObject::text("world"), ContentObject::text("!")];

    let extracted = extract_text_from_content(&content_objects);
    assert_eq!(extracted, "Hello world!");

    let empty_content: Vec<ContentObject> = vec![];
    let empty_extracted = extract_text_from_content(&empty_content);
    assert_eq!(empty_extracted, "");
}

#[test]
fn test_system_message_handling() {
    let default_system = create_default_system_message();
    assert_eq!(default_system.role, "system");
    assert_eq!(default_system.content.len(), 1);
    assert_eq!(default_system.content[0].text, "You are a helpful assistant.");

    let mut request_without_system =
        ChatRequest::new().model("test-model").message(ChatMessage::user("Hello")).build();

    request_without_system = ensure_system_message(request_without_system);
    assert_eq!(request_without_system.messages.len(), 2);
    assert_eq!(request_without_system.messages[0].role, "system");

    let mut request_with_system = ChatRequest::new()
        .model("test-model")
        .message(ChatMessage::system("Custom system message"))
        .message(ChatMessage::user("Hello"))
        .build();

    let original_len = request_with_system.messages.len();
    request_with_system = ensure_system_message(request_with_system);
    assert_eq!(request_with_system.messages.len(), original_len);
    assert!(request_with_system.messages[0].content[0].text.contains("Custom system"));
}

#[test]
fn test_message_content_validation() {
    let valid_message = ChatMessage::new("user", vec![ContentObject::text("Valid content")]);
    assert!(validate_message_content(&valid_message));

    let empty_content_message = ChatMessage::new("user", vec![]);
    assert!(!validate_message_content(&empty_content_message));

    let whitespace_message = ChatMessage::new("user", vec![ContentObject::text("   \n\t   ")]);
    assert!(!validate_message_content(&whitespace_message));

    let mixed_message = ChatMessage::new(
        "user",
        vec![ContentObject::text(""), ContentObject::text("Valid content")],
    );
    assert!(validate_message_content(&mixed_message));
}

#[test]
fn test_content_conversion_performance() {
    let large_text = "Performance test content. ".repeat(1000);

    let string_content = OpenAiContent::String(large_text.clone());

    let start = std::time::Instant::now();
    let _converted = convert_openai_content_to_straico(string_content);
    let string_duration = start.elapsed();

    let array_content = OpenAiContent::Array(vec![OpenAiContentObject {
        content_type: "text".to_string(),
        text: large_text,
    }]);

    let start = std::time::Instant::now();
    let _converted = convert_openai_content_to_straico(array_content);
    let array_duration = start.elapsed();

    assert!(string_duration < std::time::Duration::from_millis(10));
    assert!(array_duration < std::time::Duration::from_millis(10));
}
