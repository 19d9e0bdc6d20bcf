use phone_agent::actions::handler::DeviceCommand;
use phone_agent::adb::screenshot::Screenshot;
use phone_agent::agent::executor::{
    ExecutorCommand, ExecutorStatus, ExecutorWrapper, StepResultSummary, TickStart,
};
use phone_agent::agent::phone_agent::{AgentConfig, StepAction, StepResult};
use phone_agent::actions::parser::parse_action;
use phone_agent::config::prompts::LocalDate;
use phone_agent::model::client::ModelResponse;
use phone_agent::model::message::Role;

fn started() -> ExecutorWrapper {
    let mut executor = ExecutorWrapper::new(AgentConfig::default());
    executor.enqueue(ExecutorCommand::StartTask {
        task_id: "test".to_string(),
        description: "Test task".to_string(),
        system_prompt: None,
    });
    executor.process_next_command();
    executor
}

fn screen() -> Screenshot {
    Screenshot::new("aW1hZ2U=".to_string(), 1080, 1920, false)
}

fn today() -> LocalDate {
    LocalDate::new(2025, 3, 7, 4).unwrap()
}

fn answer(action: &str) -> Result<ModelResponse, String> {
    Ok(ModelResponse {
        thinking: "thinking".to_string(),
        action: action.to_string(),
        raw_content: action.to_string(),
    })
}

fn full_tick(executor: &mut ExecutorWrapper, action: &str) -> phone_agent::agent::executor::TickEnd {
    match executor.tick_start() {
        TickStart::Step {
            instruction,
            is_first,
        } => {
            executor.tick_screen(instruction.as_deref(), is_first, &screen(), "微信", &today());
        }
        TickStart::Report(_) => panic!("the executor runs"),
    }
    executor.tick_finish(answer(action), 1080, 1920, true)
}

#[test]
fn test_executor_status_default() {
    let status = ExecutorStatus::default();
    assert_eq!(status, ExecutorStatus::Idle);
}

#[test]
fn test_executor_command_queue() {
    let mut executor = ExecutorWrapper::new(AgentConfig::default());

    executor.enqueue(ExecutorCommand::Pause);
    executor.enqueue(ExecutorCommand::Resume);

    assert!(executor.has_pending_commands());
    assert!(executor.process_next_command());
    assert!(executor.has_pending_commands());
    assert!(executor.process_next_command());
    assert!(!executor.has_pending_commands());
}

#[test]
fn test_executor_pause_resume() {
    let mut executor = started();
    assert_eq!(*executor.status(), ExecutorStatus::Running);

    executor.enqueue(ExecutorCommand::Pause);
    executor.process_next_command();
    assert_eq!(*executor.status(), ExecutorStatus::Paused);

    executor.enqueue(ExecutorCommand::Resume);
    executor.process_next_command();
    assert_eq!(*executor.status(), ExecutorStatus::Running);
}

#[test]
fn test_executor_inject_prompt_wakes_completed() {
    let mut executor = started();

    executor.set_status(ExecutorStatus::Completed);
    assert_eq!(*executor.status(), ExecutorStatus::Completed);

    executor.enqueue(ExecutorCommand::InjectPrompt {
        content: "Continue please".to_string(),
    });
    executor.process_next_command();
    assert_eq!(*executor.status(), ExecutorStatus::Running);
}

#[test]
fn test_executor_inject_prompt_wakes_idle() {
    let mut executor = started();

    executor.set_status(ExecutorStatus::Idle);
    assert_eq!(*executor.status(), ExecutorStatus::Idle);

    executor.enqueue(ExecutorCommand::InjectPrompt {
        content: "Do something".to_string(),
    });
    executor.process_next_command();
    assert_eq!(*executor.status(), ExecutorStatus::Running);
}

#[test]
fn test_executor_reset_context() {
    let mut executor = started();

    executor.enqueue(ExecutorCommand::ResetContext);
    executor.process_next_command();

    assert_eq!(*executor.status(), ExecutorStatus::Running);
}

#[test]
fn test_executor_feedback_creation() {
    let executor = ExecutorWrapper::new(AgentConfig::default());

    let feedback = executor.create_feedback(None, false, false);
    assert!(feedback.task_id.is_none());
    assert_eq!(feedback.step_count, 0);
    assert!(!feedback.screen_changed);
    assert!(!feedback.context_overflow_detected);
}

#[test]
fn test_step_result_summary() {
    let result = StepResult {
        thinking: "I need to click".to_string(),
        action: Some(StepAction::Parsed(
            parse_action("do(action=\"Tap\", element=[100, 200])").unwrap(),
        )),
        message: Some("Tapping button".to_string()),
        success: true,
        finished: false,
    };

    let summary = StepResultSummary::from(&result);
    assert_eq!(summary.thinking, "I need to click");
    assert!(summary.success);
    assert!(!summary.finished);
    assert_eq!(summary.action_type, Some("do".to_string()));
    assert_eq!(summary.message, Some("Tapping button".to_string()));
}

#[test]
fn an_idle_executor_without_a_task_stays_idle_on_a_prompt() {
    let mut executor = ExecutorWrapper::new(AgentConfig::default());
    executor.enqueue(ExecutorCommand::InjectPrompt {
        content: "hello".to_string(),
    });
    executor.process_next_command();
    assert_eq!(*executor.status(), ExecutorStatus::Idle);
    assert_eq!(executor.task_id(), None);
}

#[test]
fn a_stop_drops_the_task() {
    let mut executor = started();
    assert_eq!(executor.task_id(), Some("test"));
    executor.enqueue(ExecutorCommand::Stop);
    assert!(executor.process_next_command());
    assert_eq!(*executor.status(), ExecutorStatus::Idle);
    assert_eq!(executor.task_id(), None);
    assert!(!executor.process_next_command());
}

#[test]
fn three_unchanged_digests_make_the_executor_stuck() {
    let mut executor = started();
    assert!(executor.see_step(7, false, false));
    assert_eq!(*executor.status(), ExecutorStatus::Running);
    assert!(!executor.see_step(7, false, false));
    assert_eq!(*executor.status(), ExecutorStatus::Running);
    assert!(!executor.see_step(7, false, false));
    assert_eq!(*executor.status(), ExecutorStatus::Running);
    assert!(!executor.see_step(7, false, false));
    assert_eq!(*executor.status(), ExecutorStatus::Stuck);
}

#[test]
fn a_changed_digest_starts_the_count_anew() {
    let mut executor = started();
    executor.see_step(7, false, false);
    executor.see_step(7, false, false);
    executor.see_step(7, false, false);
    assert!(executor.see_step(8, false, false));
    executor.see_step(8, false, false);
    executor.see_step(8, false, false);
    assert_eq!(*executor.status(), ExecutorStatus::Running);
    executor.see_step(8, false, false);
    assert_eq!(*executor.status(), ExecutorStatus::Stuck);

    let mut other = started().with_stuck_threshold(2);
    other.see_step(1, false, false);
    other.see_step(1, false, false);
    // an answer that was no action ends the count too
    other.see_step(1, true, false);
    other.see_step(1, false, false);
    assert_eq!(*other.status(), ExecutorStatus::Running);
    other.see_step(1, false, false);
    assert_eq!(*other.status(), ExecutorStatus::Stuck);
    // a finished task completes even a stuck executor
    other.see_step(1, false, true);
    assert_eq!(*other.status(), ExecutorStatus::Completed);
}

#[test]
fn three_failures_in_a_row_overflow_the_conversation() {
    let mut executor = started();
    assert!(!executor.count_answer(true));
    assert!(!executor.count_answer(true));
    assert!(executor.count_answer(true));
    assert_eq!(*executor.status(), ExecutorStatus::Running);
    assert!(executor.context().is_empty());
    // the count started anew
    assert!(!executor.count_answer(true));
    assert!(!executor.count_answer(false));
    assert!(!executor.count_answer(true));
    assert!(!executor.count_answer(true));
    assert!(executor.count_answer(true));
    let one = started().with_parse_error_threshold(1);
    let mut one = one;
    assert!(one.count_answer(true));
}

#[test]
fn a_tick_takes_a_step_and_reports() {
    let mut executor = started();
    let end = full_tick(&mut executor, "do(action=\"Tap\", element=[300, 400])");
    assert_eq!(end.command, Some(DeviceCommand::Tap { x: 483, y: 644 }));
    assert_eq!(end.feedback.task_id, Some("test".to_string()));
    assert_eq!(end.feedback.step_count, 1);
    assert_eq!(end.feedback.status, ExecutorStatus::Running);
    assert!(end.feedback.screen_changed);
    assert!(!end.feedback.context_overflow_detected);
    assert_eq!(end.feedback.consecutive_parse_errors, 0);
    let summary = end.feedback.last_result.unwrap();
    assert!(summary.success);
    assert_eq!(summary.action_type, Some("do".to_string()));
    let context = executor.context();
    assert_eq!(context.len(), 3);
    assert_eq!(context[0].role, Role::System);
    assert_eq!(context[1].role, Role::User);
    assert_eq!(context[1].image, None);
    assert!(context[1].text.starts_with("Test task\n\n{\"current_app\":\"微信\"}"));
    assert_eq!(
        context[2].text,
        "<think>thinking</think><answer>do(action=\"Tap\", element=[300, 400])</answer>"
    );

    let end = full_tick(&mut executor, "finish(message=\"all done\")");
    assert_eq!(end.feedback.status, ExecutorStatus::Completed);
    assert_eq!(end.feedback.step_count, 2);
    assert_eq!(end.command, None);
    let summary = end.feedback.last_result.unwrap();
    assert!(summary.finished);
    assert_eq!(summary.message, Some("all done".to_string()));
    assert_eq!(summary.action_type, Some("finish".to_string()));
    assert_eq!(executor.context()[3].text, "** Screen Info **\n\n{\"current_app\":\"微信\"}");

    // a completed executor takes no step
    match executor.tick_start() {
        TickStart::Report(feedback) => {
            assert_eq!(feedback.status, ExecutorStatus::Completed);
            assert!(feedback.last_result.is_none());
            assert!(feedback.screen_changed);
        }
        TickStart::Step { .. } => panic!("the executor is completed"),
    }
}

#[test]
fn the_third_failed_tick_reports_the_overflow() {
    let mut executor = started();
    let first = full_tick(&mut executor, "I am not sure");
    assert!(!first.feedback.context_overflow_detected);
    assert_eq!(first.feedback.consecutive_parse_errors, 1);
    assert_eq!(first.feedback.status, ExecutorStatus::Running);
    let summary = first.feedback.last_result.unwrap();
    assert!(!summary.success);
    assert!(!summary.finished);
    assert_eq!(summary.action_type, Some("error".to_string()));
    assert_eq!(summary.message, Some("解析失败，等待模型重试".to_string()));
    assert_eq!(executor.context().len(), 4);
    let second = full_tick(&mut executor, "still not sure");
    assert!(!second.feedback.context_overflow_detected);
    assert_eq!(second.feedback.consecutive_parse_errors, 2);
    let third = full_tick(&mut executor, "no idea");
    assert!(third.feedback.context_overflow_detected);
    assert_eq!(third.feedback.status, ExecutorStatus::Running);
    assert_eq!(third.feedback.consecutive_parse_errors, 0);
    assert_eq!(third.feedback.step_count, 0);
    assert!(executor.context().is_empty());
    // the next step is a first step again, with the task as its instruction
    match executor.tick_start() {
        TickStart::Step {
            instruction,
            is_first,
        } => {
            assert!(is_first);
            assert_eq!(instruction, Some("Test task".to_string()));
        }
        TickStart::Report(_) => panic!("the executor runs"),
    }
}

#[test]
fn a_model_failure_fails_the_executor_at_once() {
    let mut executor = started();
    match executor.tick_start() {
        TickStart::Step {
            instruction,
            is_first,
        } => executor.tick_screen(instruction.as_deref(), is_first, &screen(), "x", &today()),
        TickStart::Report(_) => panic!("the executor runs"),
    }
    let end = executor.tick_finish(Err("unreachable".to_string()), 1080, 1920, true);
    assert_eq!(
        end.feedback.status,
        ExecutorStatus::Failed("Model error: unreachable".to_string())
    );
    assert!(end.feedback.last_result.is_none());
    assert_eq!(end.command, None);
}

#[test]
fn a_running_executor_without_anything_to_do_fails() {
    let mut executor = ExecutorWrapper::new(AgentConfig::default());
    executor.set_status(ExecutorStatus::Running);
    match executor.tick_start() {
        TickStart::Report(feedback) => assert_eq!(
            feedback.status,
            ExecutorStatus::Failed("Task required for first step".to_string())
        ),
        TickStart::Step { .. } => panic!("there is no task"),
    }
}

#[test]
fn commands_are_drained_before_a_tick_and_prompts_are_used_once() {
    let mut executor = started();
    full_tick(&mut executor, "do(action=\"Back\")");
    executor.enqueue(ExecutorCommand::Pause);
    executor.enqueue(ExecutorCommand::Resume);
    executor.enqueue(ExecutorCommand::InjectPrompt {
        content: "look left".to_string(),
    });
    match executor.tick_start() {
        TickStart::Step {
            instruction,
            is_first,
        } => {
            assert!(!is_first);
            assert_eq!(instruction, Some("look left".to_string()));
            executor.tick_screen(instruction.as_deref(), is_first, &screen(), "x", &today());
        }
        TickStart::Report(_) => panic!("the executor runs"),
    }
    assert!(!executor.has_pending_commands());
    let last = executor.context().last().unwrap();
    assert_eq!(
        last.text,
        "** 用户补充指令 **\nlook left\n\n** Screen Info **\n\n{\"current_app\":\"x\"}"
    );
    assert_eq!(last.image, Some("aW1hZ2U=".to_string()));
    executor.tick_finish(answer("do(action=\"Home\")"), 1080, 1920, true);
    match executor.tick_start() {
        TickStart::Step { instruction, .. } => assert_eq!(instruction, None),
        TickStart::Report(_) => panic!("the executor runs"),
    }
}

#[test]
fn the_digest_follows_the_conversation() {
    let mut a = started();
    let mut b = started();
    assert_eq!(a.calculate_context_hash(), b.calculate_context_hash());
    full_tick(&mut a, "do(action=\"Back\")");
    assert_ne!(a.calculate_context_hash(), b.calculate_context_hash());
    full_tick(&mut b, "do(action=\"Back\")");
    assert_eq!(a.calculate_context_hash(), b.calculate_context_hash());
    full_tick(&mut b, "do(action=\"Home\")");
    assert_ne!(a.calculate_context_hash(), b.calculate_context_hash());
}

#[test]
fn a_new_system_prompt_goes_with_the_task() {
    let mut executor = ExecutorWrapper::new(AgentConfig::default());
    executor.enqueue(ExecutorCommand::StartTask {
        task_id: "t".to_string(),
        description: "d".to_string(),
        system_prompt: Some("be brief".to_string()),
    });
    full_tick(&mut executor, "do(action=\"Back\")");
    assert_eq!(executor.context()[0].text, "be brief");
    assert_eq!(executor.step_count(), 1);
    assert_eq!(
        executor.confirmation_for("do(action=\"Tap\", element=[1,2], message=\"pay\")"),
        Some("pay".to_string())
    );
    assert_eq!(executor.confirmation_for("do(action=\"Tap\", element=[1,2])"), None);
}
