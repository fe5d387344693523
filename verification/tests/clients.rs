use llm_gateway::aliyun;
use llm_gateway::deepseek;
use llm_gateway::num::JsonNum;
use llm_gateway::types::OHLCV;
use llm_gateway::extract::extract_content_text;
use llm_gateway::json::parse_json_text;
use llm_gateway::types::{ChatMessage, ChatRole};

fn user_msg(text: &str) -> ChatMessage {
    ChatMessage {
        role: ChatRole::User,
        content: text.to_string(),
    }
}

// --- response extractor ---

#[test]
fn extractor_native_text_shape() {
    assert_eq!(
        extract_content_text("{\"output\":{\"text\":\"hi\"}}").unwrap(),
        "hi"
    );
}

#[test]
fn extractor_generic_shape() {
    assert_eq!(
        extract_content_text("{\"choices\":[{\"message\":{\"content\":\"hi\"}}]}").unwrap(),
        "hi"
    );
}

#[test]
fn extractor_native_message_shape() {
    assert_eq!(
        extract_content_text(
            "{\"output\":{\"choices\":[{\"message\":{\"content\":\"nested\"}}]}}"
        )
        .unwrap(),
        "nested"
    );
}

#[test]
fn extractor_unknown_shape_fails() {
    assert!(extract_content_text("{\"result\":\"hi\"}").is_none());
    assert!(extract_content_text("{\"choices\":[{\"message\":{\"content\":42}}]}").is_none());
    assert!(extract_content_text("not json").is_none());
}

#[test]
fn extractor_priority_order_prefers_generic_shape() {
    let both = "{\"choices\":[{\"message\":{\"content\":\"first\"}}],\"output\":{\"text\":\"second\"}}";
    assert_eq!(extract_content_text(both).unwrap(), "first");
}

// --- registries ---

#[test]
fn aliyun_registry_lookup() {
    let t = aliyun::AliYunModelType::QWEN_TURBO;
    assert_eq!(t.as_str(), "qwen-turbo");
    assert_eq!(
        aliyun::AliYunModelType::from_str("qwen-turbo"),
        Some(aliyun::AliYunModelType::QWEN_TURBO)
    );
    assert_eq!(aliyun::AliYunModelType::from_str("no-such-model"), None);
    let m = aliyun::get_model(t).unwrap();
    assert_eq!(m.name, "qwen-turbo");
    assert_eq!(
        m.endpoint,
        "https://dashscope.aliyuncs.com/compatible-mode/v1/chat/completions"
    );
    assert_eq!(m.max_tokens, Some(2000));
    assert_eq!(aliyun::model::get_model_by_name("qwen-plus").unwrap().name, "qwen-plus");
    assert!(aliyun::model::get_model_by_name("nope").is_none());
    assert_eq!(aliyun::get_all_models().len(), 34);
    assert_eq!(aliyun::get_available_model_types().len(), 34);
}

#[test]
fn aliyun_round_trip_names() {
    for t in aliyun::get_available_model_types() {
        assert_eq!(aliyun::AliYunModelType::from_str(t.as_str()), Some(t));
    }
}

#[test]
fn aliyun_filters() {
    let vision = aliyun::model::get_vision_models();
    assert!(vision.iter().any(|m| m.name == "qwen-vl-max"));
    assert!(vision.iter().all(|m| m.capabilities.iter().any(|c| c == "image-understanding")));
    let audio = aliyun::model::get_audio_models();
    assert!(audio.iter().any(|m| m.name == "qwen-audio-turbo"));
    let coding = aliyun::model::get_coding_models();
    assert!(coding.iter().any(|m| m.name == "qwen2.5-coder"));
    let text = aliyun::model::get_text_models();
    assert!(text.iter().any(|m| m.name == "qwen-turbo"));
    assert!(text.iter().all(|m| m.name != "qwen-vl-max"));
    let multi = aliyun::model::get_multimodal_models();
    assert!(multi.iter().any(|m| m.name == "qwen-omni"));
    let spec = aliyun::model::get_specialized_models();
    assert!(spec.iter().any(|m| m.name == "qwen-financial"));
}

#[test]
fn deepseek_registry_lookup() {
    let t = deepseek::DeepSeekModelType::DeepSeekChat;
    assert_eq!(t.as_str(), "deepseek-chat");
    assert_eq!(
        deepseek::DeepSeekModelType::from_str("deepseek-coder"),
        Some(deepseek::DeepSeekModelType::DeepSeekCoder)
    );
    let m = deepseek::get_model(t).unwrap();
    assert_eq!(m.endpoint, "https://api.deepseek.com/v1/chat/completions");
    assert!(m.supports_streaming);
    assert_eq!(deepseek::get_all_models().len(), 9);
    let free = deepseek::model::get_free_models();
    assert_eq!(free.len(), 1);
    assert_eq!(free[0].name, "deepseek-chat");
    let premium = deepseek::model::get_premium_models();
    assert_eq!(premium.len(), 8);
    let long = deepseek::model::get_long_context_models();
    assert!(long.iter().all(|m| m.context_length.unwrap_or(0) >= 32768));
    assert!(long.iter().any(|m| m.name == "deepseek-coder"));
}

// --- client cores ---

#[test]
fn client_construction_validates_key() {
    let e = match aliyun::AliyunAI::with_api_key(String::new()) {
        Err(e) => e,
        Ok(_) => panic!("an empty key must be rejected"),
    };
    assert!(matches!(e, aliyun::AliyunAIError::ConfigError(_)));
    let c = aliyun::AliyunAI::with_api_key("SECRET-REDACTED".to_string()).unwrap();
    assert_eq!(c.get_current_model().0, "qwen-turbo");

    let e = match deepseek::DeepSeekAI::with_api_key(String::new()) {
        Err(e) => e,
        Ok(_) => panic!("an empty key must be rejected"),
    };
    assert!(matches!(e, deepseek::DeepSeekError::ConfigError(_)));
    let c = deepseek::create_deepseek_ai(
        "SECRET-REDACTED".to_string(),
        Some(deepseek::DeepSeekModelType::DeepSeekCoder),
    )
    .unwrap();
    assert_eq!(c.get_current_model().0, "deepseek-coder");
}

#[test]
fn set_model_switches_entry() {
    let mut c = aliyun::create_aliyun_ai("SECRET-REDACTED".to_string(), None).unwrap();
    c.set_model(aliyun::AliYunModelType::QWEN_MAX).unwrap();
    let (name, display, _) = c.get_current_model();
    assert_eq!(name, "qwen-max");
    assert_eq!(display, "Qwen-Max");
}

#[test]
fn aliyun_prepare_builds_generic_body() {
    let c = aliyun::AliyunAI::with_api_key("SECRET-REDACTED".to_string()).unwrap();
    let p = c
        .prepare_chat_completion(&[user_msg("hello")], None)
        .unwrap();
    assert_eq!(
        p.endpoint,
        "https://dashscope.aliyuncs.com/compatible-mode/v1/chat/completions"
    );
    assert!(!p.stream);
    let doc = parse_json_text(&p.body).unwrap();
    assert_eq!(
        doc.get_key(b"model").unwrap().as_str_bytes().unwrap(),
        b"qwen-turbo"
    );
    // the default options carry temperature 0.7 and 1000 tokens
    let text = String::from_utf8(p.body).unwrap();
    assert!(text.contains("\"temperature\":0.7"));
    assert!(text.contains("\"max_tokens\":1000"));
}

#[test]
fn deepseek_prepare_default_body() {
    let c = deepseek::DeepSeekAI::with_api_key("SECRET-REDACTED".to_string()).unwrap();
    let p = c
        .prepare_chat_completion(&[user_msg("hello")], None)
        .unwrap();
    let text = String::from_utf8(p.body).unwrap();
    assert!(text.contains("\"model\":\"deepseek-chat\""));
    assert!(text.contains("\"max_tokens\":2000"));
    assert!(text.contains("\"top_p\":0.9"));
    assert!(text.contains("\"frequency_penalty\":0"));
}

#[test]
fn stream_preparation_sets_stream_flag() {
    let c = deepseek::DeepSeekAI::with_api_key("SECRET-REDACTED".to_string()).unwrap();
    let p = c.prepare_chat_stream(&[user_msg("hello")], None).unwrap();
    assert!(p.stream);
    let text = String::from_utf8(p.body).unwrap();
    assert!(text.contains("\"stream\":true"));
}

#[test]
fn assemble_chat_messages_materializes_system_prompt() {
    let opts = deepseek::ChatOptions {
        system_prompt: Some("be brief".to_string()),
        ..Default::default()
    };
    let msgs = deepseek::DeepSeekAI::assemble_chat_messages("hi", Some(&opts));
    assert_eq!(msgs.len(), 2);
    assert_eq!(msgs[0].role, ChatRole::System);
    assert_eq!(msgs[0].content, "be brief");
    assert_eq!(msgs[1].role, ChatRole::User);
    assert_eq!(msgs[1].content, "hi");
    let msgs = deepseek::DeepSeekAI::assemble_chat_messages("hi", None);
    assert_eq!(msgs.len(), 1);
}

#[test]
fn predict_preparation_validates_count() {
    let c = deepseek::DeepSeekAI::with_api_key("SECRET-REDACTED".to_string()).unwrap();
    let e = c.prepare_predict_ohlcv(&[], None, Some(0), None).unwrap_err();
    assert!(matches!(e, deepseek::DeepSeekError::ConfigError(_)));
    let e = c.prepare_predict_ohlcv(&[], None, Some(51), None).unwrap_err();
    assert!(matches!(e, deepseek::DeepSeekError::ConfigError(_)));
}

#[test]
fn predict_preparation_builds_prompts() {
    let c = deepseek::DeepSeekAI::with_api_key("SECRET-REDACTED".to_string()).unwrap();
    let n = |v: u64| JsonNum::from_u64(v).unwrap();
    let rec = OHLCV {
        open: n(100),
        high: n(105),
        low: n(98),
        close: n(102),
        volume: n(1_000_000),
    };
    let (msgs, opts) = c
        .prepare_predict_ohlcv(&[rec], None, Some(3), None)
        .unwrap();
    assert_eq!(msgs.len(), 2);
    assert_eq!(msgs[0].role, ChatRole::System);
    assert!(msgs[0]
        .content
        .contains("Return EXACTLY 3 consecutive OHLCV objects for the next 3 periods."));
    assert!(msgs[0].content.contains("1 more OHLCV objects following the same pattern"));
    assert_eq!(msgs[1].role, ChatRole::User);
    assert!(msgs[1].content.contains("Here is the historical OHLCV data (1 periods):"));
    assert!(msgs[1]
        .content
        .contains("{\"open\":100,\"high\":105,\"low\":98,\"close\":102,\"volume\":1000000}"));
    // the token budget at least covers the requested records
    assert!(opts.max_tokens.unwrap() >= 3 * 50 + 100);
    assert!(opts.system_prompt.is_none());
}

#[test]
fn parse_ohlcv_response_maps_errors() {
    let c = aliyun::AliyunAI::with_api_key("SECRET-REDACTED".to_string()).unwrap();
    let recs = c
        .parse_ohlcv_response(
            "sure: [{\"open\":1,\"high\":2,\"low\":0,\"close\":1,\"volume\":5}] done",
            1,
        )
        .unwrap();
    assert_eq!(recs.len(), 1);
    let e = c.parse_ohlcv_response("garbage", 1).unwrap_err();
    assert!(matches!(e, aliyun::AliyunAIError::ParseError(_)));
}

#[test]
fn client_extract_content_reports_parse_failure() {
    let c = aliyun::AliyunAI::with_api_key("SECRET-REDACTED".to_string()).unwrap();
    assert_eq!(
        c.extract_content("{\"output\":{\"text\":\"hi\"}}").unwrap(),
        "hi"
    );
    let e = c.extract_content("{}").unwrap_err();
    assert!(matches!(e, aliyun::AliyunAIError::ParseError(_)));
}

#[test]
fn parse_ohlcv_response_pins_error_messages() {
    let c = deepseek::DeepSeekAI::with_api_key("SECRET-REDACTED".to_string()).unwrap();
    let e = c
        .parse_ohlcv_response("[{\"open\":1,\"high\":1,\"low\":2,\"close\":1,\"volume\":5}]", 1)
        .unwrap_err();
    assert_eq!(
        e,
        deepseek::DeepSeekError::ParseError("Element 0: high cannot be lower than low".to_string())
    );
    let two = "[{\"open\":1,\"high\":2,\"low\":0,\"close\":1,\"volume\":5},\
               {\"open\":1,\"high\":2,\"low\":0,\"close\":1,\"volume\":5}]";
    let e = c.parse_ohlcv_response(two, 3).unwrap_err();
    assert_eq!(
        e,
        deepseek::DeepSeekError::ParseError(
            "AI returned 2 OHLCV objects, but expected 3".to_string()
        )
    );
}

#[test]
fn predict_preparation_pins_count_messages_and_budget() {
    let c = aliyun::AliyunAI::with_api_key("SECRET-REDACTED".to_string()).unwrap();
    let e = c.prepare_predict_ohlcv(&[], None, Some(0), None).unwrap_err();
    assert_eq!(
        e,
        aliyun::AliyunAIError::ConfigError("Count must be positive integer".to_string())
    );
    let e = c.prepare_predict_ohlcv(&[], None, Some(51), None).unwrap_err();
    assert_eq!(
        e,
        aliyun::AliyunAIError::ConfigError(
            "Count parameter too large: 51. Maximum allowed is 50".to_string()
        )
    );
    // the unset temperature becomes 0.3; a caller budget larger than the
    // estimate wins, a smaller one is raised to the estimate
    let (_, opts) = c.prepare_predict_ohlcv(&[], None, Some(10), None).unwrap();
    assert_eq!(opts.temperature.unwrap().mant, 3 * 10u128.pow(18));
    assert_eq!(opts.max_tokens, Some(1000));
    let big = aliyun::ChatOptions {
        temperature: Some(JsonNum::from_u64(1).unwrap()),
        max_tokens: Some(5000),
        stream: false,
        system_prompt: None,
        model_type: None,
    };
    let (_, opts) = c.prepare_predict_ohlcv(&[], None, Some(10), Some(&big)).unwrap();
    assert_eq!(opts.temperature.unwrap().mant, JsonNum::from_u64(1).unwrap().mant);
    assert_eq!(opts.max_tokens, Some(5000));
    let small = aliyun::ChatOptions {
        temperature: None,
        max_tokens: Some(100),
        stream: false,
        system_prompt: None,
        model_type: None,
    };
    let (_, opts) = c.prepare_predict_ohlcv(&[], None, Some(50), Some(&small)).unwrap();
    assert_eq!(opts.max_tokens, Some(50 * 50 + 100));
}

#[test]
fn constructors_pin_defaults() {
    let c = aliyun::create_aliyun_ai("SECRET-REDACTED".to_string(), None).unwrap();
    assert_eq!(c.config.timeout_secs, 30);
    assert!(c.config.base_url.is_none());
    let c = deepseek::create_default_deepseek_ai("SECRET-REDACTED".to_string()).unwrap();
    assert_eq!(c.config.timeout_secs, 60);
    assert_eq!(c.config.base_url.as_deref(), Some("https://api.deepseek.com"));
    assert!(c.config.organization_id.is_none());
    let e = match deepseek::create_deepseek_ai(String::new(), None) {
        Err(e) => e,
        Ok(_) => panic!("an empty key must be rejected"),
    };
    assert_eq!(
        e,
        deepseek::DeepSeekError::ConfigError("API Key cannot be empty".to_string())
    );
}
