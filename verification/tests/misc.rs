use phone_agent::actions::coordinates::{CoordinateSystem, Scale};
use phone_agent::actions::parser::ActionError;
use phone_agent::adb::connection::AdbError;
use phone_agent::adb::screenshot::ScreenshotError;
use phone_agent::model::client::ModelError;
use phone_agent::agent::executor::{
    shorten, summarize_action, summarize_message, ExecutorCommand, ExecutorWrapper,
};
use phone_agent::agent::phone_agent::{AgentConfig, StepAction};
use phone_agent::calibration::{
    is_plausible, marker_prompt, parse_coordinates, read_pair, summarize_content, target_prompt,
    CalibrationMode, MockComment, TargetKind,
};
use phone_agent::clock::{current_timestamp, now_text, timestamp_text};
use phone_agent::gui::{
    AppState, AppView, CalibModeOption, CoordSystemOption, Language, LogLevel,
};
use phone_agent::json::{item, member, string_at, value_at, Step};
use phone_agent::model::message::MessageBuilder;
use phone_agent::number::{is_float_literal, parse_i64, push_decimal, push_signed_decimal};
use phone_agent::settings::{
    answer_or, chosen_calibration_mode, chosen_coordinate_system, chosen_language, env_flag,
    is_yes, AppSettings,
};
use phone_agent::text::{
    chars_less, find, from_chars, is_whitespace, nonempty_lines, remove_all_str,
    replace_all_str, str_eq, str_less, to_chars, trim_chars,
};

#[test]
fn test_parse_coordinates_bracket() {
    let result = parse_coordinates("[540, 960]");
    assert!(result.is_ok());
    let (x, y) = result.unwrap();
    assert_eq!(x, 540);
    assert_eq!(y, 960);
}

#[test]
fn test_parse_coordinates_element() {
    let result = parse_coordinates("do(action=\"Tap\", element=[270, 480])");
    assert!(result.is_ok());
    let (x, y) = result.unwrap();
    assert_eq!(x, 270);
    assert_eq!(y, 480);
}

#[test]
fn test_parse_coordinates_parenthesis() {
    let result = parse_coordinates("The marker is at (300, 500)");
    assert!(result.is_ok());
    let (x, y) = result.unwrap();
    assert_eq!(x, 300);
    assert_eq!(y, 500);
}

#[test]
fn coordinates_in_words_and_out_of_range() {
    assert_eq!(parse_coordinates("X = 12, then Y: 34"), Ok((12, 34)));
    assert_eq!(
        parse_coordinates("nothing to see"),
        Err("Could not parse coordinates from: nothing to see".to_string())
    );
    assert_eq!(
        parse_coordinates("[99999999999, 1]"),
        Err("Invalid X".to_string())
    );
    assert_eq!(
        parse_coordinates("[1, 2147483648]"),
        Err("Invalid Y".to_string())
    );
    assert_eq!(parse_coordinates("[1, 2147483647]"), Ok((1, 2147483647)));
    assert_eq!(read_pair("7", "x"), Err("Invalid Y".to_string()));
    assert_eq!(CalibrationMode::default(), CalibrationMode::Simple);
    let cn = MockComment::random_comments_cn();
    assert_eq!(cn.len(), 8);
    assert_eq!(cn[0].username, "张三");
    assert_eq!(cn[4].content, "学到了");
    assert!(!cn[4].has_reply_button);
    let en = MockComment::random_comments_en();
    assert_eq!(en.len(), 6);
    assert_eq!(en[0].likes, 128);
}

#[test]
fn choices_of_the_interface() {
    assert_eq!(AppView::default(), AppView::Main);
    assert_eq!(AppState::default(), AppState::Idle);
    assert_eq!(Language::from_code("en"), Language::English);
    assert_eq!(Language::from_code("de"), Language::Chinese);
    assert_eq!(Language::Chinese.as_code(), "cn");
    assert_eq!(Language::English.label(), "English");
    assert_eq!(CoordSystemOption::from_str("abs"), CoordSystemOption::Absolute);
    assert_eq!(CoordSystemOption::from_str("x"), CoordSystemOption::Relative);
    assert_eq!(CoordSystemOption::Absolute.as_str(), "absolute");
    assert_eq!(
        CoordSystemOption::Relative.as_coordinate_system(),
        CoordinateSystem::Relative
    );
    assert_eq!(CoordSystemOption::Relative.label(), "相对坐标 (0-999)");
    assert_eq!(CalibModeOption::from_str("complex"), CalibModeOption::Complex);
    assert_eq!(CalibModeOption::from_str(""), CalibModeOption::Simple);
    assert_eq!(CalibModeOption::Complex.as_str(), "complex");
    assert_eq!(
        CalibModeOption::Complex.as_calibration_mode(),
        CalibrationMode::Complex
    );
    assert_eq!(CalibModeOption::Simple.label(), "简单模式");
    assert_eq!(LogLevel::Warning.as_str(), "WARN");
    assert_eq!(LogLevel::Thinking.as_str(), "THINK");
    assert_eq!(LogLevel::Error.emoji(), "❌");
}

#[test]
fn settings_are_filled_in() {
    let mut settings = AppSettings::default();
    assert_eq!(settings.scale_x, Scale::identity());
    assert_eq!(settings.planner_model_name, "deepseek-chat");
    settings.planner_base_url.clear();
    settings.planner_api_key = "secret".to_string();
    settings.prompt_memory_path.clear();
    settings.planner_interval_ms = 0;
    settings.executor_interval_ms = 250;
    settings.lang = "en".to_string();
    let filled = settings.backfilled();
    assert_eq!(filled.planner_base_url, "https://api.deepseek.com/v1");
    assert_eq!(filled.planner_api_key, "secret");
    assert_eq!(filled.prompt_memory_path, "prompt_memory.json");
    assert_eq!(filled.planner_interval_ms, 2000);
    assert_eq!(filled.executor_interval_ms, 250);
    assert_eq!(filled.lang, "en");
}

#[test]
fn snapshots_are_short() {
    assert_eq!(shorten("abc"), "abc");
    let long = "界".repeat(405);
    assert_eq!(
        shorten(&long),
        format!("{}... <5 chars truncated>", "界".repeat(400))
    );
    assert_eq!(
        summarize_message(&MessageBuilder::create_user_message("hello", Some("x"))),
        "user: hello"
    );
    assert_eq!(
        summarize_action(&StepAction::ParseFailed {
            message: "bad".to_string()
        }),
        "error: bad"
    );
    let mut executor = ExecutorWrapper::new(AgentConfig::default());
    executor.enqueue(ExecutorCommand::Pause);
    assert_eq!(executor.pending_commands().len(), 1);
    let snapshot = executor.context_snapshot(None, true);
    assert!(snapshot.context.is_empty());
    assert!(snapshot.context_overflow);
    assert_eq!(snapshot.step, 0);
    assert_eq!(snapshot.action, None);
    assert_eq!(executor.agent_config().max_steps, 100);
}

#[test]
fn clocks_and_stamps() {
    assert!(current_timestamp() > 1_600_000_000);
    assert_eq!(timestamp_text(0, 0), "1970-01-01T00:00:00+00:00");
    assert_eq!(
        timestamp_text(1_700_000_000, 5),
        "2023-11-14T22:13:20.000000005+00:00"
    );
    assert_eq!(timestamp_text(u64::MAX, 0), "");
    assert_eq!(timestamp_text(1, 2_000_000_000), "");
    assert!(now_text().ends_with("+00:00"));
}

#[test]
fn json_is_taken_apart_level_by_level() {
    let text = r#"{"b":[1,{"c":"x\ny"}],"a":null,"b2":"s"}"#;
    assert_eq!(member(text, "a"), Some("null".to_string()));
    assert_eq!(member(text, "b"), Some(r#"[1,{"c":"x\ny"}]"#.to_string()));
    assert_eq!(member(text, "zzz"), None);
    assert_eq!(member("[1]", "a"), None);
    assert_eq!(item("[1, 2]", 1), Some("2".to_string()));
    assert_eq!(item("[1, 2]", 2), None);
    assert_eq!(item("{}", 0), None);
    let path = vec![Step::Key("b"), Step::Index(1), Step::Key("c")];
    assert_eq!(value_at(text, &path), Some("\"x\\ny\"".to_string()));
    assert_eq!(string_at(text, &path), Some("x\ny".to_string()));
    assert_eq!(string_at(text, &vec![Step::Key("a")]), None);
    assert_eq!(string_at(text, &vec![Step::Key("q"), Step::Index(0)]), None);
    assert_eq!(value_at("7", &vec![]), Some("7".to_string()));
}

#[test]
fn texts_and_numbers() {
    assert_eq!(from_chars(&trim_chars(&to_chars(" \u{3000}a b\t\n"))), "a b");
    for c in ['\u{9}', ' ', '\u{85}', '\u{a0}', '\u{1680}', '\u{2000}', '\u{200a}', '\u{2028}', '\u{202f}', '\u{205f}', '\u{3000}', 'a', '\u{200b}', '\u{180e}', '0', '\u{feff}'] {
        assert_eq!(is_whitespace(c), c.is_whitespace(), "{:?}", c);
    }
    assert_eq!(find(&to_chars("abcabc"), &to_chars("ca")), Some(2));
    assert_eq!(find(&to_chars("abc"), &to_chars("")), Some(0));
    assert_eq!(find(&to_chars("abc"), &to_chars("abcd")), None);
    assert!(str_eq("é", "é"));
    assert!(!str_eq("e", "é"));
    for (a, b) in [("a", "b"), ("a", "a"), ("", "a"), ("ab", "a"), ("z", "é"), ("Z", "a"), ("界", "\u{10000}")] {
        assert_eq!(str_less(a, b), a < b, "{} {}", a, b);
        assert_eq!(chars_less(&to_chars(b), &to_chars(a)), b < a, "{} {}", a, b);
    }
    assert_eq!(
        from_chars(&remove_all_str(&to_chars("aXXbXXXc"), 0, 8, "XX")),
        "aXXbXXXc".replace("XX", "")
    );
    assert_eq!(
        from_chars(&replace_all_str(&to_chars("}{}{{"), "}{", "}\n{")),
        "}{}{{".replace("}{", "}\n{")
    );
    let lines: Vec<String> = nonempty_lines(&to_chars(" a \r\n\n  \nb\n"))
        .iter()
        .map(from_chars)
        .collect();
    assert_eq!(lines, vec!["a", "b"]);
    let mut out = Vec::new();
    push_decimal(&mut out, 0);
    push_decimal(&mut out, u128::MAX);
    push_signed_decimal(&mut out, i128::MIN);
    push_signed_decimal(&mut out, -7);
    assert_eq!(
        from_chars(&out),
        format!("0{}{}-7", u128::MAX, i128::MIN)
    );
    assert_eq!(parse_i64(&to_chars("-0")), Some(0));
    assert_eq!(parse_i64(&to_chars("")), None);
    assert_eq!(parse_i64(&to_chars("１２")), None);
    assert!(is_float_literal(&to_chars("1.")));
    assert!(!is_float_literal(&to_chars("")));
    assert!(!is_float_literal(&to_chars("-")));
}

#[test]
fn every_error_has_its_text() {
    use_errors();
}

fn use_errors() {
    assert_eq!(
        ActionError::UnknownActionType("x".to_string()).message(),
        "Unknown action type: x"
    );
    assert_eq!(
        ActionError::UnknownAction("x".to_string()).message(),
        "Unknown action: x"
    );
    assert_eq!(
        ActionError::MissingParameter("x".to_string()).message(),
        "Missing required parameter: x"
    );
    assert_eq!(
        ActionError::ExecutionFailed("x".to_string()).message(),
        "Action failed: x"
    );
    assert_eq!(
        AdbError::CommandFailed("x".to_string()).message(),
        "Command execution failed: x"
    );
    assert_eq!(
        AdbError::Connection("x".to_string()).message(),
        "Connection error: x"
    );
    assert_eq!(
        ScreenshotError::PullFailed("x".to_string()).message(),
        "Failed to pull screenshot: x"
    );
    assert_eq!(
        ScreenshotError::ImageReadFailed("x".to_string()).message(),
        "Failed to read image: x"
    );
    assert_eq!(
        ModelError::RequestFailed("x".to_string()).message(),
        "HTTP request failed: x"
    );
}

#[test]
fn questions_about_calibration_pictures() {
    assert_eq!(
        marker_prompt("en", 2, 1080, 1920),
        "This is a coordinate calibration image. There is a red square with a yellow crosshair and a black center dot.\nThis is calibration point 2 (indicated by 2 green squares at top-left).\nScreen size is 1080x1920 pixels (width x height).\n\nPlease observe the center of the red marker (black dot) carefully and report its exact pixel coordinates.\nOrigin is at top-left, X increases rightward, Y increases downward.\n\nOnly output the coordinates in format: [x, y]\nExample: [540, 960]"
    );
    let zh = marker_prompt("cn", 3, 720, 1280);
    assert!(zh.starts_with("这是一张坐标校准图片。"));
    assert!(zh.contains("这是第 3 个校准点（图片左上角有 3 个绿色方块表示）。\n屏幕尺寸为 720x1280 像素（宽x高）。"));
    assert!(zh.ends_with("例如: [540, 960]"));

    assert_eq!(
        target_prompt("fr", 1080, 1920, "Avatar", "John"),
        "This is a screenshot of a comment section UI. Screen size is 1080x1920 pixels (width x height).\n\nThere is a small red dot marking the target position.\nTarget: Avatar - \"John\"\n\nPlease find the exact pixel coordinates of this red marker.\nOrigin is at top-left, X increases rightward, Y increases downward.\n\nOnly output the coordinates in format: [x, y]\nExample: [540, 960]"
    );
    let zh = target_prompt("cn", 1080, 1920, "头像", "张三");
    assert!(zh.contains("屏幕尺寸为 1080x1920 像素（宽x高）。"));
    assert!(zh.contains("目标是: 头像 - \"张三\"\n\n"));
}

#[test]
fn parts_of_a_comment_have_names() {
    assert_eq!(TargetKind::Avatar.label("cn"), "头像");
    assert_eq!(TargetKind::Username.label("cn"), "用户名");
    assert_eq!(TargetKind::Comment.label("cn"), "评论内容");
    assert_eq!(TargetKind::LikeButton.label("cn"), "点赞按钮");
    assert_eq!(TargetKind::ReplyButton.label("cn"), "回复按钮");
    assert_eq!(TargetKind::Avatar.label("en"), "Avatar");
    assert_eq!(TargetKind::Username.label("en"), "Username");
    assert_eq!(TargetKind::Comment.label("zh"), "Comment");
    assert_eq!(TargetKind::LikeButton.label(""), "Like button");
    assert_eq!(TargetKind::ReplyButton.label("en"), "Reply button");

    assert_eq!(summarize_content("学到了"), "学到了");
    assert_eq!(summarize_content("0123456789"), "0123456789");
    assert_eq!(summarize_content("0123456789a"), "0123456789...");
    assert_eq!(
        summarize_content("这个功能太好用了，感谢分享！"),
        "这个功能太好用了，感..."
    );
}

#[test]
fn reports_count_between_half_and_twice() {
    assert!(is_plausible(540, 540));
    assert!(is_plausible(540, 0));
    assert!(is_plausible(540, 335));
    assert!(is_plausible(540, 1079));
    assert!(!is_plausible(540, 1080));
    assert!(is_plausible(540, 271));
    assert!(!is_plausible(540, 270));
    assert!(!is_plausible(540, -540));
    assert!(!is_plausible(0, 5));
    assert!(is_plausible(-10, -10));
    assert!(!is_plausible(-10, -20));
    assert!(!is_plausible(i32::MAX, i32::MIN));
    assert!(is_plausible(i32::MAX, i32::MAX));
}

#[test]
fn answers_set_the_settings() {
    assert!(env_flag("1"));
    assert!(env_flag("true"));
    assert!(env_flag("TRUE"));
    assert!(!env_flag("yes"));
    assert!(!env_flag(" 1"));
    assert!(!env_flag(""));

    assert!(is_yes("y"));
    assert!(is_yes("Yes"));
    assert!(is_yes("TRUE"));
    assert!(is_yes("1"));
    assert!(!is_yes("n"));
    assert!(!is_yes(""));
    assert!(!is_yes("yes "));

    assert_eq!(answer_or("  deepseek-chat \n", "other"), "deepseek-chat");
    assert_eq!(answer_or("\n", "other"), "other");
    assert_eq!(answer_or("", ""), "");
    assert_eq!(answer_or(" a b ", "x"), "a b");

    assert_eq!(chosen_language("EN"), "en");
    assert_eq!(chosen_language("english"), "cn");
    assert_eq!(chosen_language(""), "cn");
    assert_eq!(chosen_coordinate_system("Absolute"), "absolute");
    assert_eq!(chosen_coordinate_system("abs"), "absolute");
    assert_eq!(chosen_coordinate_system("pixels"), "relative");
    assert_eq!(chosen_calibration_mode("COMPLEX"), "complex");
    assert_eq!(chosen_calibration_mode("complicated"), "simple");
}
