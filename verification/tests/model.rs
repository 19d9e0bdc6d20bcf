use phone_agent::model::client::{
    parse_response, ModelClient, ModelError, RetryNext, RetryPolicy, DEFAULT_MAX_RETRIES,
    DEFAULT_RETRY_DELAY_SECS,
};
use phone_agent::model::message::{Message, MessageBuilder, Role};

#[test]
fn test_parse_response() {
    let content = "<think>I need to tap the button</think><answer>do(action=\"Tap\", element=[100, 200])</answer>";
    let (thinking, action) = ModelClient::parse_response(content);
    assert_eq!(thinking, "I need to tap the button");
    assert_eq!(action, "do(action=\"Tap\", element=[100, 200])");
}

#[test]
fn test_parse_response_no_answer() {
    let content = "some raw content";
    let (thinking, action) = ModelClient::parse_response(content);
    assert_eq!(thinking, "");
    assert_eq!(action, "some raw content");
}

#[test]
fn test_parse_response_untagged_do() {
    let content = r#"用户想要我帮他刷小红书，具体要求是：
1. 刷十几个帖子
2. 看帖子的内容和评论

首先启动小红书。
do(action="Launch", app="小红书")"#;
    let (thinking, action) = ModelClient::parse_response(content);
    assert!(thinking.contains("刷小红书"));
    assert!(thinking.contains("首先启动小红书"));
    assert_eq!(action, r#"do(action="Launch", app="小红书")"#);
}

#[test]
fn test_parse_response_untagged_finish() {
    let content = r#"任务已完成，总结如下：
1. 浏览了15个帖子
2. 内容主要是美食和旅游

finish(message="已完成浏览")"#;
    let (thinking, action) = ModelClient::parse_response(content);
    assert!(thinking.contains("任务已完成"));
    assert_eq!(action, r#"finish(message="已完成浏览")"#);
}

#[test]
fn test_message_builder() {
    let system_msg = MessageBuilder::create_system_message("You are an assistant");
    assert_eq!(system_msg.role, Role::System);

    let user_msg = MessageBuilder::create_user_message("Hello", None);
    assert_eq!(user_msg.role, Role::User);

    let user_msg_with_image =
        MessageBuilder::create_user_message("Look at this", Some("base64data"));
    assert_eq!(user_msg_with_image.image, Some("base64data".to_string()));
}

#[test]
fn tags_are_taken_out_wherever_they_stand() {
    assert_eq!(
        parse_response(" <think>a</think> b <think>c <answer> x </answer> y </answer> "),
        ("a b c".to_string(), "x  y".to_string())
    );
    assert_eq!(
        parse_response("  plan first. finish(message=\"x\") and do(action=\"Back\")  "),
        (
            "plan first. finish(message=\"x\") and".to_string(),
            "do(action=\"Back\")".to_string()
        )
    );
    assert_eq!(
        parse_response("  nothing here  "),
        (String::new(), "  nothing here  ".to_string())
    );
    assert_eq!(
        parse_response("<answer>"),
        (String::new(), String::new())
    );
}

#[test]
fn images_are_taken_out_and_screens_are_described() {
    let mut message = MessageBuilder::create_user_message("see", Some("aW1n"));
    MessageBuilder::remove_images_from_message(&mut message);
    assert_eq!(
        message,
        Message {
            role: Role::User,
            text: "see".to_string(),
            image: None
        }
    );
    assert_eq!(message.duplicate(), message);
    assert_eq!(
        MessageBuilder::create_assistant_message("ok").role,
        Role::Assistant
    );
    assert_eq!(
        MessageBuilder::build_screen_info("System Home"),
        "{\"current_app\":\"System Home\"}"
    );
    assert_eq!(
        MessageBuilder::build_screen_info("a \"quoted\"\nname"),
        "{\"current_app\":\"a \\\"quoted\\\"\\nname\"}"
    );
}

#[test]
fn failures_that_may_pass_are_tried_again() {
    let policy = RetryPolicy::default();
    assert_eq!(policy.max_retries, DEFAULT_MAX_RETRIES);
    assert_eq!(policy.retry_delay_secs, DEFAULT_RETRY_DELAY_SECS);
    let network = || ModelError::RequestFailed("connection refused".to_string());
    assert!(ModelClient::is_retryable_error(&network()));
    assert!(ModelClient::is_retryable_error(&ModelError::ApiError(
        "HTTP 503: busy".to_string()
    )));
    assert!(ModelClient::is_retryable_error(&ModelError::ApiError(
        "HTTP 429".to_string()
    )));
    assert!(ModelClient::is_retryable_error(&ModelError::ApiError(
        "Gateway TIMEOUT".to_string()
    )));
    assert!(ModelClient::is_retryable_error(&ModelError::ApiError(
        "Rate Limit reached".to_string()
    )));
    assert!(!ModelClient::is_retryable_error(&ModelError::ApiError(
        "HTTP 401: no key".to_string()
    )));
    assert!(!ModelClient::is_retryable_error(&ModelError::ParseError(
        "500".to_string()
    )));
    assert!(!ModelClient::is_retryable_error(
        &ModelError::MaxRetriesExceeded(3, "x".to_string())
    ));

    for attempt in 1..=3 {
        assert_eq!(
            policy.after_failure(attempt, network()),
            RetryNext::Retry { delay_secs: 2 }
        );
    }
    assert_eq!(
        policy.after_failure(4, network()),
        RetryNext::GiveUp(ModelError::MaxRetriesExceeded(
            3,
            "HTTP request failed: connection refused".to_string()
        ))
    );
    assert_eq!(
        policy.after_failure(1, ModelError::ParseError("bad json".to_string())),
        RetryNext::GiveUp(ModelError::ParseError("bad json".to_string()))
    );
    let never = RetryPolicy {
        max_retries: 0,
        retry_delay_secs: 9,
    };
    assert!(matches!(
        never.after_failure(1, network()),
        RetryNext::GiveUp(ModelError::MaxRetriesExceeded(0, _))
    ));
    assert_eq!(
        ModelError::ApiError("x".to_string()).message(),
        "API error: x"
    );
    assert_eq!(
        ModelError::ParseError("x".to_string()).message(),
        "Failed to parse response: x"
    );
    assert_eq!(
        ModelError::MaxRetriesExceeded(3, "x".to_string()).message(),
        "Max retries exceeded after 3 attempts: x"
    );
}

#[test]
fn answers_are_found_wherever_the_service_puts_them() {
    let cases = [
        r#"{"choices":[{"message":{"content":"A"}}]}"#,
        r#"{"choices":[{"text":"A"}]}"#,
        r#"{"message":{"content":"A"}}"#,
        r#"{"content":"A"}"#,
        r#"{"output":"A"}"#,
        r#"{"outputs":[{"text":"A"}]}"#,
        r#"{"content":[{"text":"A"}]}"#,
        r#"{"response":{"text":"A"}}"#,
        r#"{"result":{"text":"A","content":"B"}}"#,
        r#"{"result":{"content":"A"}}"#,
        r#"{"choices":[{"message":{"content":5}}],"content":"A"}"#,
    ];
    for json in cases {
        assert_eq!(ModelClient::extract_content(json), Some("A".to_string()), "{}", json);
    }
    for json in [
        r#"{"choices":[]}"#,
        r#"{"result":{"text":5,"content":"A"}}"#,
        r#"{"other":"A"}"#,
        r#"["A"]"#,
        "not json",
    ] {
        assert_eq!(ModelClient::extract_content(json), None, "{}", json);
    }
}

#[test]
fn responses_are_read() {
    let ok = ModelClient::read_response(
        true,
        "200 OK",
        r#"{"choices":[{"message":{"content":"<think>t</think><answer>do(action=\"Back\")</answer>"}}]}"#,
    )
    .unwrap();
    assert_eq!(ok.thinking, "t");
    assert_eq!(ok.action, "do(action=\"Back\")");
    assert_eq!(ok.raw_content, "<think>t</think><answer>do(action=\"Back\")</answer>");

    assert_eq!(
        ModelClient::read_response(false, "503 Service Unavailable", "busy"),
        Err(ModelError::ApiError(
            "HTTP 503 Service Unavailable: busy".to_string()
        ))
    );
    match ModelClient::read_response(true, "200 OK", "{oops") {
        Err(ModelError::ParseError(text)) => {
            assert!(text.starts_with("Failed to parse JSON: "), "{}", text);
            assert!(text.ends_with(". Response: {oops"), "{}", text);
        }
        other => panic!("the body is no JSON: {:?}", other),
    }
    assert_eq!(
        ModelClient::read_response(true, "200 OK", r#"{"x":1}"#),
        Err(ModelError::ParseError(
            "Could not find content in response. Structure: {\"x\":1}".to_string()
        ))
    );

    let streamed = "data: {\"object\":\"chat.completion.chunk\",\"choices\":[{\"delta\":{\"content\":\"do(\"}}]}\n\n\
                    data: {\"choices\":[{\"delta\":{\"content\":\"action=\\\"Home\\\")\"}}]}\n\
                    data: {\"choices\":[{\"delta\":{}}]}\n\
                    data: [DONE]\n";
    let answer = ModelClient::read_response(true, "200 OK", streamed).unwrap();
    assert_eq!(answer.raw_content, "do(action=\"Home\")");
    assert_eq!(answer.action, "do(action=\"Home\")");
    let glued = r#"{"choices":[{"delta":{"content":"fin"}}]}{"choices":[{"message":{"content":"ish()"}}]}"#;
    assert_eq!(
        ModelClient::parse_streaming_response(glued),
        Ok("finish()".to_string())
    );
    assert_eq!(
        ModelClient::read_response(true, "200 OK", "{}{}"),
        Err(ModelError::ParseError(
            "No content found in streaming response. Chunks: {}{}".to_string()
        ))
    );
    let long = "é".repeat(600);
    assert_eq!(
        ModelClient::truncate_for_error(&long),
        format!("{}...(truncated)", "é".repeat(500))
    );
    assert_eq!(ModelClient::truncate_for_error("short"), "short");
}
