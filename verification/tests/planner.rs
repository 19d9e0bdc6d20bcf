use phone_agent::agent::executor::{ExecutorCommand, ExecutorFeedback, ExecutorStatus};
use phone_agent::agent::phone_agent::AgentConfig;
use phone_agent::agent::planner::{
    Consolidation, PlannerAgent, PlannerConfig, Supervision, MAX_CONVERSATION_TURNS,
};
use phone_agent::agent::planner_action::{
    action_from_fields, decode_action, extract_first_json_object, extract_json_from_response,
    parse_planner_action, PlannerAction,
};
use phone_agent::agent::planner_text::{
    build_executor_status_summary, build_todo_summary, generate_correction_prompt,
};
use phone_agent::agent::prompt_memory::PromptMemory;
use phone_agent::agent::todo::TodoStatus;
use phone_agent::model::message::Role;
use std::collections::VecDeque;

fn planner() -> PlannerAgent {
    PlannerAgent::new(
        PlannerConfig::default(),
        AgentConfig::default(),
        PromptMemory::new(),
    )
}

fn feedback(status: ExecutorStatus, overflow: bool) -> ExecutorFeedback {
    ExecutorFeedback {
        task_id: Some("task_1".to_string()),
        step_count: 4,
        status,
        last_result: None,
        screen_changed: false,
        timestamp: 0,
        context_overflow_detected: overflow,
        consecutive_parse_errors: 0,
    }
}

fn drain(planner: &mut PlannerAgent) -> Vec<ExecutorCommand> {
    planner.executor().pending_commands().iter().cloned().collect()
}

fn kinds(commands: &[ExecutorCommand]) -> Vec<&'static str> {
    commands
        .iter()
        .map(|c| match c {
            ExecutorCommand::StartTask { .. } => "start",
            ExecutorCommand::Pause => "pause",
            ExecutorCommand::Resume => "resume",
            ExecutorCommand::InjectPrompt { .. } => "inject",
            ExecutorCommand::ResetContext => "reset",
            ExecutorCommand::Stop => "stop",
        })
        .collect()
}

#[test]
fn test_planner_config_default() {
    let config = PlannerConfig::default();
    assert_eq!(config.max_executor_feedback_history, 2);
    assert_eq!(config.stuck_threshold, 3);
    assert_eq!(config.lang, "cn");
}

#[test]
fn test_planner_config_builder() {
    let config = PlannerConfig::default()
        .with_max_feedback_history(5)
        .with_stuck_threshold(4)
        .with_lang("en");

    assert_eq!(config.max_executor_feedback_history, 5);
    assert_eq!(config.stuck_threshold, 4);
    assert_eq!(config.lang, "en");
}

#[test]
fn test_parse_planner_action_json() {
    let json = r#"{"action": "add_todo", "description": "Test task", "task_type": "general"}"#;
    let action = parse_planner_action(json);

    assert!(matches!(action, Some(PlannerAction::AddTodo { .. })));
}

#[test]
fn every_tool_call_is_decoded() {
    let cases: Vec<(&str, PlannerAction)> = vec![
        (
            r#"{"action":"add_todo","description":"d","task_type":"t","extra":5}"#,
            PlannerAction::AddTodo {
                description: "d".to_string(),
                task_type: "t".to_string(),
            },
        ),
        (
            r#"{"action":"start_executor","task_id":"task_1"}"#,
            PlannerAction::StartExecutor {
                task_id: "task_1".to_string(),
            },
        ),
        (r#"{"action":"pause_executor"}"#, PlannerAction::PauseExecutor),
        (r#"{"action":"resume_executor"}"#, PlannerAction::ResumeExecutor),
        (
            r#"{"action":"inject_prompt","content":"look \"up\""}"#,
            PlannerAction::InjectPrompt {
                content: "look \"up\"".to_string(),
            },
        ),
        (r#"{"action":"reset_executor"}"#, PlannerAction::ResetExecutor),
        (
            r#"{"task_id":"task_2","action":"complete_todo"}"#,
            PlannerAction::CompleteTodo {
                task_id: "task_2".to_string(),
            },
        ),
        (
            r#"{"action":"fail_todo","task_id":"task_2","reason":"no"}"#,
            PlannerAction::FailTodo {
                task_id: "task_2".to_string(),
                reason: "no".to_string(),
            },
        ),
        (
            r#"{"action":"report","message":"m"}"#,
            PlannerAction::Report {
                message: "m".to_string(),
            },
        ),
        (r#"{"action":"wait"}"#, PlannerAction::Wait),
        (
            r#"{"action":"done","message":"m"}"#,
            PlannerAction::Done {
                message: "m".to_string(),
            },
        ),
    ];
    for (text, expected) in cases {
        assert_eq!(decode_action(text), Some(expected), "{}", text);
    }
    for text in [
        r#"{"action":"add_todo","description":"d"}"#,
        r#"{"action":"add_todo","description":"d","task_type":5}"#,
        r#"{"action":"fly"}"#,
        r#"{"description":"d","task_type":"t"}"#,
        r#"{"action":5}"#,
        r#"["action","wait"]"#,
        r#""wait""#,
        "{",
        "",
    ] {
        assert_eq!(decode_action(text), None, "{}", text);
    }
    assert_eq!(
        action_from_fields(&vec![
            ("action".to_string(), Some("report".to_string())),
            ("message".to_string(), None),
        ]),
        None
    );
    assert_eq!(
        action_from_fields(&vec![("action".to_string(), Some("wait".to_string()))]),
        Some(PlannerAction::Wait)
    );
}

#[test]
fn answers_are_read_in_four_stages() {
    assert_eq!(
        parse_planner_action("I will add it.\n```json\n{\"action\": \"wait\"}\n```\nthen more"),
        Some(PlannerAction::Wait)
    );
    assert_eq!(
        parse_planner_action("```\n{\"action\": \"pause_executor\"}\n```"),
        Some(PlannerAction::PauseExecutor)
    );
    assert_eq!(
        parse_planner_action("```{\"action\": \"resume_executor\"}```"),
        Some(PlannerAction::ResumeExecutor)
    );
    assert_eq!(
        parse_planner_action(
            "First {\"action\": \"report\", \"message\": \"a } b\"} and {\"action\": \"wait\"}"
        ),
        Some(PlannerAction::Report {
            message: "a } b".to_string()
        })
    );
    assert_eq!(
        parse_planner_action("{\"action\":\"report\",\"message\":\"x\"} {\"action\":\"wait\"}"),
        Some(PlannerAction::Report {
            message: "x".to_string()
        })
    );
    assert_eq!(
        parse_planner_action("Let us WAIT a little"),
        Some(PlannerAction::Wait)
    );
    assert_eq!(parse_planner_action("请等待"), Some(PlannerAction::Wait));
    assert_eq!(
        parse_planner_action("All Done here"),
        Some(PlannerAction::Done {
            message: "All Done here".to_string()
        })
    );
    assert_eq!(
        parse_planner_action("已完成"),
        Some(PlannerAction::Done {
            message: "已完成".to_string()
        })
    );
    assert_eq!(
        parse_planner_action("hello there"),
        Some(PlannerAction::Report {
            message: "hello there".to_string()
        })
    );
    assert_eq!(
        extract_json_from_response("a ```json {\"x\":1} ``` b"),
        Some("{\"x\":1}".to_string())
    );
    assert_eq!(extract_json_from_response("a ```json {\"x\":1}"), None);
    assert_eq!(extract_json_from_response("nothing"), None);
    assert_eq!(
        extract_first_json_object("a {\"b\": {\"c\": \"}\\\"}\"}} d {}"),
        Some("{\"b\": {\"c\": \"}\\\"}\"}}".to_string())
    );
    assert_eq!(extract_first_json_object("a { b"), None);
    assert_eq!(extract_first_json_object("a } b"), None);
}

#[test]
fn an_input_leads_to_tasks_and_to_the_executor() {
    let mut planner = planner();
    planner.start();
    assert!(planner.is_running());
    assert_eq!(planner.context().len(), 1);
    assert_eq!(planner.context()[0].role, Role::System);
    assert!(planner.context()[0].text.contains("（暂无已保存的任务类型记忆）"));
    assert!(!planner.should_continue());

    planner.queue_user_input("打开微信".to_string());
    assert!(planner.should_continue());
    assert!(planner.next_user_input());
    assert!(!planner.next_user_input());
    assert!(planner.context()[1]
        .text
        .starts_with("[用户输入]\n打开微信\n\n[当前执行器状态]\nExecutor状态: Idle\n步骤数: 0\n\n\n[当前任务列表]\n总任务: 0"));

    assert!(planner.may_ask());
    let turn = planner.planner_turn(Some(
        r#"{"action": "add_todo", "description": "打开微信应用", "task_type": "微信操作"}"#,
    ));
    assert!(turn.proceed);
    assert!(!turn.save_memory);
    assert_eq!(planner.todo_list().len(), 1);
    assert_eq!(planner.context().len(), 4);
    assert_eq!(planner.context()[2].role, Role::Assistant);
    assert!(planner.context()[3]
        .text
        .starts_with("[系统反馈] 任务已添加成功。\n- ID: task_1\n- 描述: 打开微信应用\n- 类型: 微信操作\n\n当前任务列表:\n总任务: 1 | 待执行: 1 | 执行中: 0 | 完成: 0 | 失败: 0\n\n⏳ [task_1] 打开微信应用 (类型: 微信操作)\n"));

    assert!(planner.may_ask());
    let turn = planner.planner_turn(Some(r#"{"action": "start_executor", "task_id": "task_1"}"#));
    assert!(!turn.proceed);
    assert_eq!(
        turn.action,
        Some(PlannerAction::StartExecutor {
            task_id: "task_1".to_string()
        })
    );
    assert_eq!(
        planner.todo_list().get("task_1").unwrap().status,
        TodoStatus::Running
    );
    assert_eq!(kinds(&drain(&mut planner)), vec!["start"]);
    assert_eq!(
        planner.context().last().unwrap().text,
        "[系统反馈] 执行器已启动，正在执行任务: task_1\n执行器将自动运行，完成后会自动执行下一个任务。"
    );
    let nothing = planner.planner_turn(None);
    assert_eq!(nothing.action, None);
    assert!(!nothing.proceed);
}

#[test]
fn the_model_gives_at_most_twenty_answers_to_an_input() {
    let mut planner = planner();
    planner.queue_user_input("x".to_string());
    planner.next_user_input();
    for _ in 0..MAX_CONVERSATION_TURNS {
        assert!(planner.may_ask());
    }
    assert!(!planner.may_ask());
    planner.queue_user_input("y".to_string());
    planner.next_user_input();
    assert!(planner.may_ask());
}

#[test]
fn the_history_keeps_the_last_reports() {
    let mut planner = planner();
    for step in 0..5 {
        let mut report = feedback(ExecutorStatus::Running, false);
        report.step_count = step;
        planner.collect_executor_feedback(report);
    }
    let steps: Vec<u32> = planner.feedback_history().iter().map(|f| f.step_count).collect();
    assert_eq!(steps, vec![3, 4]);
    planner.clear_feedback_history();
    assert!(planner.feedback_history().is_empty());
    let none = PlannerAgent::new(
        PlannerConfig::default().with_max_feedback_history(0),
        AgentConfig::default(),
        PromptMemory::new(),
    );
    let mut none = none;
    none.collect_executor_feedback(feedback(ExecutorStatus::Running, false));
    assert!(none.feedback_history().is_empty());
}

#[test]
fn an_overflow_restarts_the_task_without_advice() {
    let mut planner = planner();
    planner.todo_list_mut().add("a", "k");
    planner.todo_list_mut().add("b", "k");
    planner.todo_list_mut().get_mut("task_2").unwrap().start();
    // the report shows a stuck executor too, but the overflow goes first
    planner.collect_executor_feedback(feedback(ExecutorStatus::Stuck, true));
    let done = planner.supervise_executor();
    assert_eq!(
        done,
        Supervision {
            save_memory: false,
            optimize: None
        }
    );
    assert_eq!(kinds(&drain(&mut planner)), vec!["reset", "start"]);
    assert_eq!(
        planner.todo_list().get("task_2").unwrap().status,
        TodoStatus::Running
    );
    assert_eq!(
        planner.todo_list().get("task_1").unwrap().status,
        TodoStatus::Pending
    );
}

#[test]
fn an_overflow_without_a_running_task_starts_the_next_one() {
    let mut planner = planner();
    planner.todo_list_mut().add("a", "k");
    planner.collect_executor_feedback(feedback(ExecutorStatus::Running, true));
    planner.supervise_executor();
    assert_eq!(kinds(&drain(&mut planner)), vec!["reset", "start"]);
    assert_eq!(
        planner.todo_list().get("task_1").unwrap().status,
        TodoStatus::Running
    );
    let mut empty = self::planner();
    empty.collect_executor_feedback(feedback(ExecutorStatus::Running, true));
    empty.supervise_executor();
    assert_eq!(kinds(&drain(&mut empty)), vec!["reset"]);
}

#[test]
fn a_stuck_executor_gets_advice_and_then_a_retry() {
    let mut planner = planner();
    planner.todo_list_mut().add("a", "k");
    planner.todo_list_mut().get_mut("task_1").unwrap().start();
    planner.collect_executor_feedback(feedback(ExecutorStatus::Stuck, false));
    planner.supervise_executor();
    planner.supervise_executor();
    assert_eq!(kinds(&drain(&mut planner)), vec!["inject", "inject"]);
    assert_eq!(planner.todo_list().get("task_1").unwrap().retry_count, 0);
    planner.supervise_executor();
    assert_eq!(
        kinds(&drain(&mut planner)),
        vec!["inject", "inject", "reset"]
    );
    let task = planner.todo_list().get("task_1").unwrap();
    assert_eq!(task.retry_count, 1);
    assert_eq!(task.status, TodoStatus::Pending);
    // the count of stuck rounds started anew
    planner.supervise_executor();
    assert_eq!(
        kinds(&drain(&mut planner)),
        vec!["inject", "inject", "reset", "inject"]
    );
}

#[test]
fn a_completed_executor_moves_on_to_the_next_task() {
    let mut memory = PromptMemory::new();
    memory.update("k", "prompt for k");
    let mut planner = PlannerAgent::new(PlannerConfig::default(), AgentConfig::default(), memory);
    planner.todo_list_mut().add("a", "k");
    planner.todo_list_mut().add("b", "k");
    planner.todo_list_mut().get_mut("task_1").unwrap().start();
    planner.collect_executor_feedback(feedback(ExecutorStatus::Completed, false));
    let done = planner.supervise_executor();
    assert!(done.save_memory);
    assert_eq!(done.optimize, None);
    assert_eq!(
        planner.todo_list().get("task_1").unwrap().status,
        TodoStatus::Done
    );
    assert_eq!(
        planner.todo_list().get("task_2").unwrap().status,
        TodoStatus::Running
    );
    let entry = planner.prompt_memory().get("k").unwrap();
    assert_eq!((entry.success_count, entry.usage_count), (1, 1));
    assert_eq!(
        drain(&mut planner),
        vec![ExecutorCommand::StartTask {
            task_id: "task_2".to_string(),
            description: "b".to_string(),
            system_prompt: Some("prompt for k".to_string()),
        }]
    );
    // once more: nothing runs any longer but the second task
    planner.todo_list_mut().get_mut("task_2").unwrap().complete();
    let again = planner.supervise_executor();
    assert!(!again.save_memory);
    assert!(!planner.should_continue());
}

#[test]
fn a_failed_executor_retries_and_then_gives_up() {
    let mut planner = PlannerAgent::new(
        PlannerConfig::default(),
        AgentConfig::default(),
        PromptMemory::new(),
    );
    planner.prompt_memory_mut().update("k", "p");
    planner.todo_list_mut().add("a", "k");
    planner.todo_list_mut().add("b", "k");
    {
        let task = planner.todo_list_mut().get_mut("task_1").unwrap();
        task.max_retries = 1;
        task.start();
    }
    planner.collect_executor_feedback(feedback(
        ExecutorStatus::Failed("no network".to_string()),
        false,
    ));
    let first = planner.supervise_executor();
    assert_eq!(first.optimize, None);
    let task = planner.todo_list().get("task_1").unwrap();
    assert_eq!((task.status, task.retry_count), (TodoStatus::Running, 1));
    assert_eq!(kinds(&drain(&mut planner)), vec!["start"]);

    let second = planner.supervise_executor();
    assert_eq!(second.optimize, Some("k".to_string()));
    let task = planner.todo_list().get("task_1").unwrap();
    assert_eq!(task.status, TodoStatus::Failed);
    assert_eq!(task.error, Some("no network".to_string()));
    assert!(task.is_terminal());
    // the next task waits until the prompt is improved
    assert_eq!(
        planner.todo_list().get("task_2").unwrap().status,
        TodoStatus::Pending
    );
    let messages = planner.optimization_messages("k");
    assert_eq!(messages.len(), 2);
    assert_eq!(messages[0].text, "You are a prompt optimization assistant.");
    assert!(messages[1]
        .text
        .starts_with("任务类型: k\n\n执行日志:\n[FAILED] no network\n[FAILED] no network\n\n"));
    assert!(planner.finish_optimization("k", Some("  better prompt \n")));
    assert_eq!(planner.prompt_memory().get_prompt("k"), Some("better prompt"));
    assert_eq!(
        planner.todo_list().get("task_2").unwrap().status,
        TodoStatus::Running
    );
    assert_eq!(
        drain(&mut planner).last(),
        Some(&ExecutorCommand::StartTask {
            task_id: "task_2".to_string(),
            description: "b".to_string(),
            system_prompt: Some("better prompt".to_string()),
        })
    );
    let entry = planner.prompt_memory().get("k").unwrap();
    assert_eq!((entry.success_count, entry.usage_count), (0, 1));
}

#[test]
fn a_third_correction_calls_for_consolidation() {
    let mut planner = planner();
    planner.start();
    planner.todo_list_mut().add("看帖子", "小红书浏览");
    planner.todo_list_mut().get_mut("task_1").unwrap().start();
    for text in ["点进去", "往下滑", "看评论"] {
        let turn = planner.planner_turn(Some(&format!(
            "{{\"action\": \"inject_prompt\", \"content\": \"{}\"}}",
            text
        )));
        assert!(turn.save_memory);
        assert!(!turn.proceed);
    }
    assert_eq!(planner.prompt_memory().pending_corrections("小红书浏览"), 3);
    let entry = planner.prompt_memory().get("小红书浏览").unwrap();
    assert_eq!(
        entry.corrections[0].context,
        Some("任务: task_1 - 看帖子".to_string())
    );
    assert_eq!(kinds(&drain(&mut planner)), vec!["inject", "inject", "inject"]);
    match planner.next_consolidation() {
        Consolidation::Ask {
            task_type,
            messages,
        } => {
            assert_eq!(task_type, "小红书浏览");
            assert_eq!(
                messages[0].text,
                "You are a prompt optimization assistant. Generate concise, actionable system prompts."
            );
            assert!(messages[1].text.starts_with(
                "任务类型: 小红书浏览\n\n当前系统提示词:\n(无)\n\n用户纠偏记录:\n1. 点进去\n2. 往下滑\n3. 看评论\n\n请根据"
            ));
            assert!(!planner.finish_consolidation(&task_type, Some("   ")));
            assert!(!planner.finish_consolidation(&task_type, None));
            assert_eq!(planner.prompt_memory().pending_corrections("小红书浏览"), 3);
            assert!(planner.finish_consolidation(&task_type, Some(" 先点进去再看 ")));
        }
        other => panic!("consolidation was due: {:?}", other),
    }
    assert_eq!(planner.prompt_memory().pending_corrections("小红书浏览"), 0);
    assert_eq!(
        planner.prompt_memory().get_prompt("小红书浏览"),
        Some("先点进去再看")
    );
    assert!(planner.context()[0].text.contains("- **小红书浏览**: 先点进去再看 [使用0次]"));
    assert_eq!(planner.next_consolidation(), Consolidation::Nothing);
}

#[test]
fn a_correction_reopens_the_task_completed_last() {
    let mut planner = planner();
    planner.todo_list_mut().add("a", "k");
    planner.todo_list_mut().get_mut("task_1").unwrap().complete();
    // the executor is idle: the correction wakes the task
    let turn = planner.planner_turn(Some(r#"{"action":"inject_prompt","content":"once more"}"#));
    assert!(turn.save_memory);
    assert_eq!(
        planner.todo_list().get("task_1").unwrap().status,
        TodoStatus::Running
    );
    assert_eq!(planner.prompt_memory().pending_corrections("k"), 1);
    // without any task a correction is only handed on
    let mut empty = self::planner();
    let turn = empty.planner_turn(Some(r#"{"action":"inject_prompt","content":"hello"}"#));
    assert!(!turn.save_memory);
    assert!(empty.prompt_memory().is_empty());
    assert_eq!(kinds(&drain(&mut empty)), vec!["inject"]);
}

#[test]
fn the_other_tool_calls() {
    let mut planner = planner();
    planner.todo_list_mut().add("a", "k");
    planner.todo_list_mut().add("b", "k");
    planner.planner_turn(Some(r#"{"action":"complete_todo","task_id":"task_1"}"#));
    planner.planner_turn(Some(r#"{"action":"fail_todo","task_id":"task_2","reason":"gone"}"#));
    planner.planner_turn(Some(r#"{"action":"fail_todo","task_id":"task_9","reason":"gone"}"#));
    assert_eq!(
        planner.todo_list().get("task_1").unwrap().status,
        TodoStatus::Done
    );
    let failed = planner.todo_list().get("task_2").unwrap();
    assert_eq!(failed.status, TodoStatus::Failed);
    assert_eq!(failed.error, Some("gone".to_string()));
    planner.planner_turn(Some(r#"{"action":"pause_executor"}"#));
    planner.planner_turn(Some(r#"{"action":"resume_executor"}"#));
    planner.planner_turn(Some(r#"{"action":"reset_executor"}"#));
    assert!(planner.planner_turn(Some(r#"{"action":"report","message":"m"}"#)).proceed);
    assert!(!planner.planner_turn(Some(r#"{"action":"wait"}"#)).proceed);
    assert!(!planner.planner_turn(Some(r#"{"action":"done","message":"m"}"#)).proceed);
    assert_eq!(kinds(&drain(&mut planner)), vec!["pause", "resume", "reset"]);
    planner.stop();
    assert!(!planner.is_running());
    assert_eq!(
        kinds(&drain(&mut planner)),
        vec!["pause", "resume", "reset", "stop"]
    );
    assert_eq!(*planner.executor_status(), ExecutorStatus::Idle);
    assert_eq!(planner.config().max_stuck_retries, 3);
}

#[test]
fn summaries_are_written_out() {
    let mut history = VecDeque::new();
    history.push_back(feedback(ExecutorStatus::Running, false));
    history.push_back(feedback(ExecutorStatus::Failed("a \"b\"".to_string()), false));
    assert_eq!(
        generate_correction_prompt(&history, "en"),
        "Execution seems stuck. Recent status:\nStep 4: status=Running, screen_changed=false\n\
         Step 4: status=Failed(\"a \\\"b\\\"\"), screen_changed=false\n\nPlease try a different \
         approach:\n1. If button won't click, try scrolling\n2. If page not responding, try \
         going back\n3. If position incorrect, carefully observe element positions\nPlease \
         continue the task."
    );
    assert!(generate_correction_prompt(&history, "cn").starts_with("执行似乎卡住了。最近状态：\nStep 4"));
    let mut shown = feedback(ExecutorStatus::Stuck, false);
    shown.screen_changed = true;
    shown.last_result = Some(phone_agent::agent::executor::StepResultSummary {
        success: true,
        finished: false,
        thinking: "hm".to_string(),
        message: None,
        action_type: Some("do".to_string()),
    });
    let mut history = VecDeque::new();
    history.push_back(shown);
    assert_eq!(
        build_executor_status_summary(&ExecutorStatus::Stuck, 4, &history),
        "Executor状态: Stuck\n步骤数: 4\n\n=== 执行器最近输出 ===\n\n--- 第1条反馈 (step=4, 屏幕变化=是) ---\n\
         💭 思考过程:\nhm\n🎯 执行动作: do\n状态: success=true, finished=false\n=== 执行器输出结束 ===\n"
    );
    let mut planner = planner();
    planner.todo_list_mut().add("a", "k");
    planner.todo_list_mut().add("b", "k");
    planner.todo_list_mut().get_mut("task_2").unwrap().skip();
    assert_eq!(
        build_todo_summary(planner.todo_list()),
        "总任务: 2 | 待执行: 1 | 执行中: 0 | 完成: 0 | 失败: 0\n\n⏳ [task_1] a (类型: k)\n⏭️ [task_2] b (类型: k)\n"
    );
    assert!(PlannerConfig::default()
        .get_system_prompt()
        .starts_with("你是一个手机自动化任务规划和监督助手"));
    assert!(PlannerConfig::default()
        .with_lang("en")
        .get_system_prompt()
        .starts_with("You are a phone automation task planning"));
    assert_eq!(
        PlannerConfig::default()
            .with_system_prompt("mine")
            .with_prompt_memory_path("m.json")
            .get_system_prompt(),
        "mine"
    );
}
