use phone_agent::config::apps::get_package;
use phone_agent::config::i18n::{get_message, get_messages};
use phone_agent::config::prompts::{
    get_system_prompt, get_system_prompt_en, get_system_prompt_relative,
    get_system_prompt_with_resolution, get_system_prompt_zh, LocalDate,
};

fn today() -> LocalDate {
    LocalDate::new(2025, 3, 7, 4).unwrap()
}

#[test]
fn test_get_package() {
    assert_eq!(get_package("微信"), Some("com.tencent.mm"));
    assert_eq!(get_package("Chrome"), Some("com.android.chrome"));
    assert_eq!(get_package("NonExistent"), None);
}

#[test]
fn test_get_messages() {
    let zh = get_messages("cn");
    assert_eq!(zh.thinking, "思考过程");

    let en = get_messages("en");
    assert_eq!(en.thinking, "Thinking");
}

#[test]
fn test_get_message() {
    assert_eq!(get_message("thinking", "cn"), "思考过程");
    assert_eq!(get_message("thinking", "en"), "Thinking");
}

#[test]
fn unknown_words_and_languages() {
    assert_eq!(get_message("nothing", "en"), "unknown");
    assert_eq!(get_message("result", "fr"), "结果");
    assert_eq!(get_message("press_enter_when_done", "en"), "Press Enter when done");
}

#[test]
fn test_get_system_prompt() {
    let zh = get_system_prompt("cn", &today());
    assert!(zh.contains("今天的日期是"));

    let en = get_system_prompt("en", &today());
    assert!(en.contains("Today's date is"));
}

#[test]
fn test_get_system_prompt_with_resolution() {
    let zh = get_system_prompt_with_resolution("cn", 1080, 1920, &today());
    assert!(zh.contains("今天的日期是"));
    assert!(zh.contains("当前屏幕分辨率: 1080x1920"));
    assert!(zh.contains("绝对像素坐标"));
    assert!(zh.contains("[0, 屏幕宽度]"));

    let en = get_system_prompt_with_resolution("en", 1080, 1920, &today());
    assert!(en.contains("Today's date is"));
    assert!(en.contains("Current screen resolution: 1080x1920"));
    assert!(en.contains("absolute pixel coordinates"));
    assert!(en.contains("[0, screen width]"));
}

#[test]
fn dates_are_written_out() {
    let zh = get_system_prompt_with_resolution("cn", 720, 1280, &today());
    assert!(zh.starts_with("今天的日期是: 2025年03月07日 星期五\n当前屏幕分辨率: 720x1280 (宽x高)\n"));
    let en = get_system_prompt_with_resolution("en", 720, 1280, &today());
    assert!(en.starts_with(
        "Today's date is: March 07, 2025\nCurrent screen resolution: 720x1280 (width x height)\n"
    ));
    let early = LocalDate::new(33, 12, 31, 6).unwrap();
    assert!(get_system_prompt("en", &early).starts_with("Today's date is: December 31, 0033\n"));
    let late = LocalDate::new(12345, 1, 1, 0).unwrap();
    assert!(get_system_prompt("cn", &late).starts_with("今天的日期是: +12345年01月01日 星期一\n"));
    let before = LocalDate::new(-5, 1, 1, 0).unwrap();
    assert!(get_system_prompt("en", &before).starts_with("Today's date is: January 01, -0005\n"));
    assert_eq!(LocalDate::new(2025, 13, 1, 0), None);
    assert_eq!(LocalDate::new(2025, 1, 0, 0), None);
    assert_eq!(LocalDate::new(2025, 1, 1, 7), None);
    assert!(get_system_prompt_relative("en", &today()).starts_with("Coordinates are relative"));
}

#[test]
fn prompts_by_language_assume_a_common_screen() {
    assert_eq!(
        get_system_prompt_zh(&today()),
        get_system_prompt_with_resolution("cn", 1080, 1920, &today())
    );
    assert_eq!(
        get_system_prompt_en(&today()),
        get_system_prompt_with_resolution("en", 1080, 1920, &today())
    );
    assert_eq!(get_system_prompt("cn", &today()), get_system_prompt_zh(&today()));
    assert_ne!(get_system_prompt_zh(&today()), get_system_prompt_en(&today()));
}
