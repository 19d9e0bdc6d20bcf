//! The words that are shown to the user, in Chinese and in English.

use crate::text::str_eq;
use vstd::prelude::*;

verus! {

/// The words that are shown to the user.
#[derive(Debug, Clone, Copy, PartialEq, Eq)]
pub struct Messages {
    /// The heading of the model's thinking.
    pub thinking: &'static str,
    /// The heading of the action.
    pub action: &'static str,
    /// Said when a task is completed.
    pub task_completed: &'static str,
    /// Said where a finished task has no message.
    pub done: &'static str,
    /// Said when a task starts.
    pub starting_task: &'static str,
    /// The heading of the final result.
    pub final_result: &'static str,
    /// The heading of a task's result.
    pub task_result: &'static str,
    /// Said where the user must confirm.
    pub confirmation_required: &'static str,
    /// The question whether to go on.
    pub continue_prompt: &'static str,
    /// Said where the user must act.
    pub manual_operation_required: &'static str,
    /// The hint for the user who must act.
    pub manual_operation_hint: &'static str,
    /// The request to press enter.
    pub press_enter_when_done: &'static str,
    /// Said where no connection was made.
    pub connection_failed: &'static str,
    /// Said where a connection was made.
    pub connection_successful: &'static str,
    /// The word for a step.
    pub step: &'static str,
    /// The word for a task.
    pub task: &'static str,
    /// The word for a result.
    pub result: &'static str,
}

/// The words in Chinese.
pub open spec fn messages_zh() -> Messages {
    Messages {
        thinking: "思考过程",
        action: "执行动作",
        task_completed: "任务完成",
        done: "完成",
        starting_task: "开始执行任务",
        final_result: "最终结果",
        task_result: "任务结果",
        confirmation_required: "需要确认",
        continue_prompt: "是否继续？(y/n)",
        manual_operation_required: "需要人工操作",
        manual_operation_hint: "请手动完成操作...",
        press_enter_when_done: "完成后按回车继续",
        connection_failed: "连接失败",
        connection_successful: "连接成功",
        step: "步骤",
        task: "任务",
        result: "结果",
    }
}

/// The words in English.
pub open spec fn messages_en() -> Messages {
    Messages {
        thinking: "Thinking",
        action: "Action",
        task_completed: "Task Completed",
        done: "Done",
        starting_task: "Starting task",
        final_result: "Final Result",
        task_result: "Task Result",
        confirmation_required: "Confirmation Required",
        continue_prompt: "Continue? (y/n)",
        manual_operation_required: "Manual Operation Required",
        manual_operation_hint: "Please complete the operation manually...",
        press_enter_when_done: "Press Enter when done",
        connection_failed: "Connection Failed",
        connection_successful: "Connection Successful",
        step: "Step",
        task: "Task",
        result: "Result",
    }
}

/// The words in the language `lang`: English for `en`, Chinese otherwise.
pub open spec fn messages_in(lang: Seq<char>) -> Messages {
    if lang == "en"@ {
        messages_en()
    } else {
        messages_zh()
    }
}

/// The words in the language `lang`.
pub fn get_messages(lang: &str) -> (r: Messages)
    ensures
        r == messages_in(lang@),
{
    if str_eq(lang, "en") {
        Messages {
            thinking: "Thinking",
            action: "Action",
            task_completed: "Task Completed",
            done: "Done",
            starting_task: "Starting task",
            final_result: "Final Result",
            task_result: "Task Result",
            confirmation_required: "Confirmation Required",
            continue_prompt: "Continue? (y/n)",
            manual_operation_required: "Manual Operation Required",
            manual_operation_hint: "Please complete the operation manually...",
            press_enter_when_done: "Press Enter when done",
            connection_failed: "Connection Failed",
            connection_successful: "Connection Successful",
            step: "Step",
            task: "Task",
            result: "Result",
        }
    } else {
        Messages {
            thinking: "思考过程",
            action: "执行动作",
            task_completed: "任务完成",
            done: "完成",
            starting_task: "开始执行任务",
            final_result: "最终结果",
            task_result: "任务结果",
            confirmation_required: "需要确认",
            continue_prompt: "是否继续？(y/n)",
            manual_operation_required: "需要人工操作",
            manual_operation_hint: "请手动完成操作...",
            press_enter_when_done: "完成后按回车继续",
            connection_failed: "连接失败",
            connection_successful: "连接成功",
            step: "步骤",
            task: "任务",
            result: "结果",
        }
    }
}

/// The word of `messages` that goes by the name `key`; "unknown" where no
/// word goes by that name.
pub open spec fn message_of(messages: Messages, key: Seq<char>) -> &'static str {
    if key == "thinking"@ {
        messages.thinking
    }     else if key == "action"@ {
        messages.action
    }     else if key == "task_completed"@ {
        messages.task_completed
    }     else if key == "done"@ {
        messages.done
    }     else if key == "starting_task"@ {
        messages.starting_task
    }     else if key == "final_result"@ {
        messages.final_result
    }     else if key == "task_result"@ {
        messages.task_result
    }     else if key == "confirmation_required"@ {
        messages.confirmation_required
    }     else if key == "continue_prompt"@ {
        messages.continue_prompt
    }     else if key == "manual_operation_required"@ {
        messages.manual_operation_required
    }     else if key == "manual_operation_hint"@ {
        messages.manual_operation_hint
    }     else if key == "press_enter_when_done"@ {
        messages.press_enter_when_done
    }     else if key == "connection_failed"@ {
        messages.connection_failed
    }     else if key == "connection_successful"@ {
        messages.connection_successful
    }     else if key == "step"@ {
        messages.step
    }     else if key == "task"@ {
        messages.task
    }     else if key == "result"@ {
        messages.result
    } else {
        "unknown"
    }
}

/// The word that goes by the name `key` in the language `lang`.
pub fn get_message(key: &str, lang: &str) -> (r: &'static str)
    ensures
        r == message_of(messages_in(lang@), key@),
{
    let messages = get_messages(lang);
    if str_eq(key, "thinking") {
        messages.thinking
    }     else if str_eq(key, "action") {
        messages.action
    }     else if str_eq(key, "task_completed") {
        messages.task_completed
    }     else if str_eq(key, "done") {
        messages.done
    }     else if str_eq(key, "starting_task") {
        messages.starting_task
    }     else if str_eq(key, "final_result") {
        messages.final_result
    }     else if str_eq(key, "task_result") {
        messages.task_result
    }     else if str_eq(key, "confirmation_required") {
        messages.confirmation_required
    }     else if str_eq(key, "continue_prompt") {
        messages.continue_prompt
    }     else if str_eq(key, "manual_operation_required") {
        messages.manual_operation_required
    }     else if str_eq(key, "manual_operation_hint") {
        messages.manual_operation_hint
    }     else if str_eq(key, "press_enter_when_done") {
        messages.press_enter_when_done
    }     else if str_eq(key, "connection_failed") {
        messages.connection_failed
    }     else if str_eq(key, "connection_successful") {
        messages.connection_successful
    }     else if str_eq(key, "step") {
        messages.step
    }     else if str_eq(key, "task") {
        messages.task
    }     else if str_eq(key, "result") {
        messages.result
    } else {
        "unknown"
    }
}

} // verus!
