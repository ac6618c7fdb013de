use mormos::chatjimmy::{ChatJimmyError, ChatJimmyProvider, ChatMessage};

fn msg(role: &str, content: &str) -> ChatMessage {
    ChatMessage { role: role.to_string(), content: content.to_string() }
}

#[test]
fn strip_stats_suffix_removes_trailing_stats_block() {
    let text = "Hello world<|stats|>{\"decode_tokens\":10}<|/stats|>";
    assert_eq!(ChatJimmyProvider::strip_stats_suffix(text), "Hello world");
}

#[test]
fn strip_stats_suffix_returns_unchanged_when_no_stats() {
    let text = "Hello world";
    assert_eq!(ChatJimmyProvider::strip_stats_suffix(text), "Hello world");
}

#[test]
fn normalize_base_url_default() {
    assert_eq!(ChatJimmyProvider::normalize_base_url(None), "https://chatjimmy.ai");
}

#[test]
fn normalize_base_url_strips_trailing_slash() {
    assert_eq!(
        ChatJimmyProvider::normalize_base_url(Some("https://chatjimmy.ai/")),
        "https://chatjimmy.ai"
    );
}

#[test]
fn strip_stats_suffix_trims_trailing_whitespace() {
    assert_eq!(ChatJimmyProvider::strip_stats_suffix("Hi there \n\t"), "Hi there");
    assert_eq!(ChatJimmyProvider::strip_stats_suffix("Hi \u{3000}<|stats|>{}<|/stats|>"), "Hi");
}

#[test]
fn strip_stats_suffix_keeps_unclosed_block() {
    assert_eq!(
        ChatJimmyProvider::strip_stats_suffix("answer <|stats|>{\"x\":1} "),
        "answer <|stats|>{\"x\":1}"
    );
}

#[test]
fn strip_stats_suffix_uses_last_opening_marker() {
    let text = "a<|stats|>x<|/stats|>b<|stats|>y<|/stats|>";
    assert_eq!(ChatJimmyProvider::strip_stats_suffix(text), "a<|stats|>x<|/stats|>b");
}

#[test]
fn strip_stats_suffix_handles_multibyte_text() {
    assert_eq!(ChatJimmyProvider::strip_stats_suffix("héllo wörld 黑<|stats|>{}<|/stats|>"), "héllo wörld 黑");
    assert_eq!(ChatJimmyProvider::strip_stats_suffix(""), "");
}

#[test]
fn normalize_base_url_blank_is_default() {
    assert_eq!(ChatJimmyProvider::normalize_base_url(Some("   ")), "https://chatjimmy.ai");
    assert_eq!(ChatJimmyProvider::normalize_base_url(Some("")), "https://chatjimmy.ai");
}

#[test]
fn normalize_base_url_trims_and_strips_all_slashes() {
    assert_eq!(
        ChatJimmyProvider::normalize_base_url(Some("  http://localhost:8080/// ")),
        "http://localhost:8080"
    );
    assert_eq!(ChatJimmyProvider::normalize_base_url(Some("/")), "");
}

#[test]
fn new_provider_uses_normalized_url() {
    let p = ChatJimmyProvider::new(Some("https://example.org/"), Some("ignored"));
    assert_eq!(p.chat_url(), "https://example.org/api/chat");
    let d = ChatJimmyProvider::new(None, None);
    assert_eq!(d.chat_url(), "https://chatjimmy.ai/api/chat");
}

#[test]
fn capabilities_are_plain_text() {
    let c = ChatJimmyProvider::new(None, None).capabilities();
    assert!(!c.native_tool_calling);
    assert!(!c.vision);
}

#[test]
fn resolve_model_defaults_when_empty() {
    assert_eq!(ChatJimmyProvider::resolve_model(""), "llama3.1-8B");
    assert_eq!(ChatJimmyProvider::resolve_model("other"), "other");
}

#[test]
fn system_request_has_one_user_message() {
    let r = ChatJimmyProvider::chat_with_system_request(Some("be brief"), "hi", "");
    assert_eq!(r.messages.len(), 1);
    assert_eq!(r.messages[0].role, "user");
    assert_eq!(r.messages[0].content, "hi");
    assert_eq!(r.chat_options.selected_model, "llama3.1-8B");
    assert_eq!(r.chat_options.system_prompt, "be brief");
    assert_eq!(r.chat_options.top_k, 8);
    assert!(r.attachment.is_none());
    let r2 = ChatJimmyProvider::chat_with_system_request(None, "hi", "m");
    assert_eq!(r2.chat_options.system_prompt, "");
    assert_eq!(r2.chat_options.selected_model, "m");
}

#[test]
fn history_request_filters_roles_and_takes_first_system() {
    let history = vec![
        msg("system", "first"),
        msg("user", "u1"),
        msg("tool", "t"),
        msg("assistant", "a1"),
        msg("system", "second"),
        msg("user", "u2"),
    ];
    let r = ChatJimmyProvider::chat_with_history_request(&history, "m");
    let got: Vec<(String, String)> =
        r.messages.iter().map(|m| (m.role.clone(), m.content.clone())).collect();
    assert_eq!(
        got,
        vec![
            ("user".to_string(), "u1".to_string()),
            ("assistant".to_string(), "a1".to_string()),
            ("user".to_string(), "u2".to_string()),
        ]
    );
    assert_eq!(r.chat_options.system_prompt, "first");
    assert_eq!(r.chat_options.selected_model, "m");
}

#[test]
fn history_request_without_dialogue_sends_empty_user_message() {
    let history = vec![msg("system", "sys"), msg("tool", "t")];
    let r = ChatJimmyProvider::chat_with_history_request(&history, "");
    assert_eq!(r.messages.len(), 1);
    assert_eq!(r.messages[0].role, "user");
    assert_eq!(r.messages[0].content, "");
    assert_eq!(r.chat_options.system_prompt, "sys");
    assert_eq!(r.chat_options.selected_model, "llama3.1-8B");
    let empty: Vec<ChatMessage> = Vec::new();
    let r2 = ChatJimmyProvider::chat_with_history_request(&empty, "x");
    assert_eq!(r2.messages.len(), 1);
    assert_eq!(r2.chat_options.system_prompt, "");
}

#[test]
fn read_chat_response_success_strips_stats() {
    let body = "Hello<|stats|>{}<|/stats|>".as_bytes();
    match ChatJimmyProvider::read_chat_response(200, body) {
        Ok(s) => assert_eq!(s, "Hello"),
        Err(_) => panic!("expected a reply"),
    }
}

#[test]
fn read_chat_response_error_status_carries_body() {
    match ChatJimmyProvider::read_chat_response(500, b"boom") {
        Err(ChatJimmyError::Api { status, body }) => {
            assert_eq!(status, 500);
            assert_eq!(body, "boom");
        }
        _ => panic!("expected an API error"),
    }
}

#[test]
fn read_chat_response_empty_content_is_refused() {
    assert!(matches!(
        ChatJimmyProvider::read_chat_response(200, b"  <|stats|>{}<|/stats|>"),
        Err(ChatJimmyError::EmptyResponse)
    ));
}

#[test]
fn read_chat_response_decodes_invalid_utf8_lossily() {
    match ChatJimmyProvider::read_chat_response(200, &[0x61, 0xff, 0x62]) {
        Ok(s) => assert_eq!(s, "a\u{fffd}b"),
        Err(_) => panic!("expected a reply"),
    }
}

#[test]
fn read_chat_text_rules() {
    match ChatJimmyProvider::read_chat_text(404, "not here".to_string()) {
        Err(ChatJimmyError::Api { status, body }) => {
            assert_eq!(status, 404);
            assert_eq!(body, "not here");
        }
        _ => panic!("expected an API error"),
    }
    assert!(matches!(
        ChatJimmyProvider::read_chat_text(200, " \n".to_string()),
        Err(ChatJimmyError::EmptyResponse)
    ));
    match ChatJimmyProvider::read_chat_text(200, "ok <|stats|>{}<|/stats|>".to_string()) {
        Ok(s) => assert_eq!(s, "ok"),
        Err(_) => panic!("expected a reply"),
    }
}

#[test]
fn read_chat_text_success_is_the_2xx_range() {
    assert!(matches!(
        ChatJimmyProvider::read_chat_text(199, "x".to_string()),
        Err(ChatJimmyError::Api { status: 199, .. })
    ));
    assert!(matches!(ChatJimmyProvider::read_chat_text(204, "x".to_string()), Ok(_)));
    assert!(matches!(ChatJimmyProvider::read_chat_text(299, "x".to_string()), Ok(_)));
    assert!(matches!(
        ChatJimmyProvider::read_chat_text(300, "x".to_string()),
        Err(ChatJimmyError::Api { status: 300, .. })
    ));
}
