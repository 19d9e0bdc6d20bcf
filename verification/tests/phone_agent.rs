use phone_agent::actions::coordinates::{CoordinateSystem, Scale};
use phone_agent::actions::handler::DeviceCommand;
use phone_agent::adb::screenshot::Screenshot;
use phone_agent::agent::phone_agent::{
    AgentConfig, AgentError, PhoneAgent, RunNext, StepAction,
};
use phone_agent::config::prompts::LocalDate;
use phone_agent::model::client::ModelResponse;

fn today() -> LocalDate {
    LocalDate::new(2025, 3, 7, 4).unwrap()
}

fn answer(thinking: &str, action: &str) -> Result<ModelResponse, String> {
    Ok(ModelResponse {
        thinking: thinking.to_string(),
        action: action.to_string(),
        raw_content: String::new(),
    })
}

#[test]
fn test_agent_config_default() {
    let config = AgentConfig::default();
    assert_eq!(config.max_steps, 100);
    assert_eq!(config.lang, "cn");
    assert!(config.verbose);
}

#[test]
fn test_agent_config_builder() {
    let config = AgentConfig::default()
        .with_device_id("device123")
        .with_lang("en")
        .with_max_steps(50)
        .quiet();

    assert_eq!(config.device_id, Some("device123".to_string()));
    assert_eq!(config.lang, "en");
    assert_eq!(config.max_steps, 50);
    assert!(!config.verbose);
}

#[test]
fn setups_and_their_prompts() {
    let relative = AgentConfig::relative();
    assert_eq!(relative.coordinate_system, CoordinateSystem::Relative);
    assert_eq!(relative.scale_x, Scale::identity());
    let back = relative.with_absolute_coordinates();
    assert_eq!(back.coordinate_system, CoordinateSystem::Absolute);
    assert_eq!(back.scale_y, Scale::standard());
    let other = back
        .with_scale(Scale::from_percent(150), Scale::from_percent(125))
        .with_uniform_scale(Scale::from_percent(200))
        .with_coordinate_system(CoordinateSystem::Relative)
        .with_relative_coordinates();
    assert_eq!(other.scale_x, Scale::identity());
    assert!(other
        .get_system_prompt(&today())
        .starts_with("坐标为相对坐标"));
    assert!(AgentConfig::default()
        .get_system_prompt_with_resolution(720, 1280, &today())
        .contains("当前屏幕分辨率: 720x1280"));
    assert!(AgentConfig::default()
        .get_system_prompt(&today())
        .contains("当前屏幕分辨率: 1080x1920"));
    let mut custom = AgentConfig::default();
    custom.system_prompt = Some("mine".to_string());
    assert_eq!(custom.get_system_prompt(&today()), "mine");
}

#[test]
fn a_first_step_needs_a_task() {
    let agent = PhoneAgent::new(AgentConfig::default());
    assert_eq!(agent.step(None), Err(AgentError::TaskRequired));
    assert_eq!(agent.step(Some("go")), Ok(true));
    assert_eq!(
        AgentError::TaskRequired.message(),
        "Task required for first step"
    );
    assert_eq!(AgentError::MaxStepsReached.message(), "Max steps reached");
    assert_eq!(
        AgentError::ModelError("x".to_string()).message(),
        "Model error: x"
    );
    assert_eq!(
        AgentError::ActionError("x".to_string()).message(),
        "Action error: x"
    );
}

#[test]
fn a_run_of_steps() {
    let mut agent = PhoneAgent::new(AgentConfig::default().with_max_steps(2));
    let screen = Screenshot::new("cGljdHVyZQ==".to_string(), 1080, 1920, false);
    agent.begin_step(Some("打开设置"), true, &screen, "System Home", &today());
    assert_eq!(agent.step_count(), 1);
    assert_eq!(agent.context().len(), 2);
    assert_eq!(agent.context()[1].image, Some("cGljdHVyZQ==".to_string()));
    assert_eq!(
        agent.confirmation_for("do(action=\"Tap\", element=[1, 2], message=\"sure?\")"),
        Some("sure?".to_string())
    );
    let outcome = agent
        .finish_step(
            answer("tap it", "do(action=\"Tap\", element=[1, 2], message=\"sure?\")"),
            1080,
            1920,
            false,
        )
        .unwrap();
    assert_eq!(outcome.command, None);
    assert!(!outcome.result.success);
    assert!(outcome.result.finished);
    assert_eq!(
        outcome.result.message,
        Some("User cancelled sensitive operation".to_string())
    );
    assert_eq!(
        agent.after_step(&outcome.result),
        RunNext::Finished("User cancelled sensitive operation".to_string())
    );
    assert_eq!(agent.context()[1].image, None);

    agent.begin_step(None, false, &screen, "Settings", &today());
    let outcome = agent
        .finish_step(
            answer("", "do(action=\"Swipe\", start=[100,200], end=[100,100], message=\"up\")"),
            1080,
            1920,
            true,
        )
        .unwrap();
    assert_eq!(
        outcome.command,
        Some(DeviceCommand::Swipe {
            start_x: 161,
            start_y: 322,
            end_x: 161,
            end_y: 161
        })
    );
    assert_eq!(outcome.result.message, Some("up".to_string()));
    assert_eq!(agent.after_step(&outcome.result), RunNext::MaxStepsReached);
    assert_eq!(agent.step(None), Ok(false));

    let failed = agent.finish_step(Err("timeout".to_string()), 1080, 1920, true);
    assert_eq!(failed, Err(AgentError::ModelError("timeout".to_string())));

    agent.begin_step(None, false, &screen, "Settings", &today());
    let long = "x".repeat(200);
    let outcome = agent.finish_step(answer("hm", &long), 1080, 1920, true).unwrap();
    assert!(outcome.result.is_parse_failure());
    match outcome.result.action {
        Some(StepAction::ParseFailed { message }) => assert_eq!(
            message,
            format!(
                "无法解析动作指令，请重新输出完整的 do(...) 或 finish(...) 指令。原始输出: {}...",
                "x".repeat(150)
            )
        ),
        other => panic!("the answer was no action: {:?}", other),
    }
    let n = agent.context().len();
    assert_eq!(agent.context()[n - 2].text, long);
    assert!(agent.context()[n - 1].text.starts_with("你的回复不完整"));

    let done = agent
        .finish_step(answer("", "finish()"), 1080, 1920, true)
        .unwrap();
    assert_eq!(
        agent.after_step(&done.result),
        RunNext::Finished("Task completed".to_string())
    );
    agent.reset();
    assert_eq!(agent.step_count(), 0);
    assert!(agent.context().is_empty());
    assert_eq!(agent.agent_config().max_steps, 2);
    let fresh = PhoneAgent::new(AgentConfig::default());
    let mut fresh = fresh;
    fresh.begin_step(Some("t"), true, &screen, "a", &today());
    let going = fresh.finish_step(answer("", "do(action=\"Back\")"), 1, 1, true).unwrap();
    assert_eq!(fresh.after_step(&going.result), RunNext::Continue);
}
