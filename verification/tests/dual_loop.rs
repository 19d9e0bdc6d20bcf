use phone_agent::agent::dual_loop::{
    select_event, ControlCommand, DualLoopBuilder, DualLoopConfig, DualLoopError, DualLoopRunner,
    LoopAction, LoopEvent, LoopState,
};
use phone_agent::agent::phone_agent::AgentConfig;
use phone_agent::agent::planner::{PlannerAgent, PlannerConfig};
use phone_agent::agent::prompt_memory::PromptMemory;

fn planner() -> PlannerAgent {
    PlannerAgent::new(
        PlannerConfig::default(),
        AgentConfig::default(),
        PromptMemory::new(),
    )
}

#[test]
fn test_dual_loop_config_default() {
    let config = DualLoopConfig::default();
    assert_eq!(config.planner_interval_ms, 2000);
    assert_eq!(config.executor_interval_ms, 500);
    assert!(config.auto_start);
}

#[test]
fn test_dual_loop_config_builder() {
    let config = DualLoopConfig::default()
        .with_planner_interval(3000)
        .with_executor_interval(1000)
        .with_auto_start(false);

    assert_eq!(config.planner_interval_ms, 3000);
    assert_eq!(config.executor_interval_ms, 1000);
    assert!(!config.auto_start);
}

#[test]
fn inputs_go_first_then_control_then_the_executor() {
    assert_eq!(
        select_event(true, Some(ControlCommand::Stop), true, true),
        Some(LoopEvent::UserInput)
    );
    assert_eq!(
        select_event(false, Some(ControlCommand::Pause), true, true),
        Some(LoopEvent::Control(ControlCommand::Pause))
    );
    assert_eq!(
        select_event(false, None, true, true),
        Some(LoopEvent::ExecutorTimer)
    );
    assert_eq!(
        select_event(false, None, false, true),
        Some(LoopEvent::PlannerTimer)
    );
    assert_eq!(select_event(false, None, false, false), None);
}

#[test]
fn a_pause_skips_ticks_and_a_stop_ends_the_loop() {
    let mut flags = LoopState::started();
    assert_eq!(flags.on_event(LoopEvent::ExecutorTimer), LoopAction::ExecutorTick);
    assert_eq!(flags.on_event(LoopEvent::PlannerTimer), LoopAction::PlannerPass);
    assert_eq!(flags.on_event(LoopEvent::UserInput), LoopAction::PlannerPass);
    assert_eq!(
        flags.on_event(LoopEvent::Control(ControlCommand::Pause)),
        LoopAction::Skip
    );
    assert!(flags.paused);
    assert_eq!(flags.on_event(LoopEvent::ExecutorTimer), LoopAction::Skip);
    assert_eq!(flags.on_event(LoopEvent::PlannerTimer), LoopAction::Skip);
    assert_eq!(flags.on_event(LoopEvent::UserInput), LoopAction::Skip);
    assert_eq!(
        flags.on_event(LoopEvent::Control(ControlCommand::Resume)),
        LoopAction::Skip
    );
    assert!(!flags.paused);
    assert!(flags.running);
    assert_eq!(
        flags.on_event(LoopEvent::Control(ControlCommand::Stop)),
        LoopAction::StopAndExit
    );
    assert!(!flags.running);
}

#[test]
fn the_runner_drives_the_planner() {
    let mut runner = DualLoopRunner::new(planner(), DualLoopConfig::default());
    assert!(!runner.is_running());
    runner.begin();
    assert!(runner.is_running());
    assert!(runner.planner().is_running());
    assert_eq!(runner.planner().context().len(), 1);
    assert!(runner.finished_after_pass());
    assert_eq!(
        runner.on_user_input("open the settings".to_string()),
        LoopAction::PlannerPass
    );
    assert!(runner.planner().has_pending_input());
    assert!(!runner.finished_after_pass());
    assert_eq!(
        runner.on_event(LoopEvent::Control(ControlCommand::Pause)),
        LoopAction::Skip
    );
    assert!(runner.is_paused());
    assert_eq!(runner.on_user_input("again".to_string()), LoopAction::Skip);
    assert_eq!(
        runner.on_event(LoopEvent::Control(ControlCommand::Stop)),
        LoopAction::StopAndExit
    );
    assert!(!runner.is_running());
    assert!(!runner.planner().is_running());
    assert!(runner.planner().executor().has_pending_commands());
    assert_eq!(runner.config().planner_interval_ms, 2000);
    assert!(runner.planner_mut().next_user_input());
}

#[test]
fn a_runner_needs_a_planner() {
    assert_eq!(DualLoopBuilder::new().build(), Err("Planner is required"));
    let runner = DualLoopBuilder::new()
        .with_planner(planner())
        .with_config(DualLoopConfig::default().with_auto_start(false))
        .with_planner_interval(10)
        .with_executor_interval(5)
        .build()
        .unwrap();
    assert_eq!(
        runner.config(),
        DualLoopConfig {
            planner_interval_ms: 10,
            executor_interval_ms: 5,
            auto_start: false
        }
    );
    assert_eq!(DualLoopError::ChannelClosed.message(), "Channel closed");
    assert_eq!(DualLoopError::AlreadyRunning.message(), "Already running");
    assert_eq!(DualLoopError::NotRunning.message(), "Not running");
}
