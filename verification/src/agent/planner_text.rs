//! The texts that the planner writes: summaries of the executor and of the
//! task queue, and what it tells its own model and the executor.

use crate::agent::executor::{
    ExecutorFeedback, ExecutorStatus, FeedbackView, StatusView, SummaryView,
};
use crate::agent::todo::{count_with, TodoItem, TodoItemView, TodoList, TodoStatus, items_view};
use crate::number::{decimal, push_decimal};
use crate::text::{debug_quoted, debug_string, from_chars, push_str, str_eq, to_chars};
use std::collections::VecDeque;
use vstd::prelude::*;

verus! {

/// The status as its `Debug` format writes it: the name, and for a failure
/// the reason in quotes.
pub open spec fn status_text(status: StatusView) -> Seq<char> {
    match status {
        StatusView::Idle => "Idle"@,
        StatusView::Running => "Running"@,
        StatusView::Paused => "Paused"@,
        StatusView::Stuck => "Stuck"@,
        StatusView::Completed => "Completed"@,
        StatusView::Failed(reason) => "Failed("@ + debug_quoted(reason) + ")"@,
    }
}

/// Appends the status as its `Debug` format writes it.
pub fn push_status(dst: &mut Vec<char>, status: &ExecutorStatus)
    ensures
        final(dst)@ == old(dst)@ + status_text(status@),
{
    match status {
        ExecutorStatus::Idle => push_str(dst, "Idle"),
        ExecutorStatus::Running => push_str(dst, "Running"),
        ExecutorStatus::Paused => push_str(dst, "Paused"),
        ExecutorStatus::Stuck => push_str(dst, "Stuck"),
        ExecutorStatus::Completed => push_str(dst, "Completed"),
        ExecutorStatus::Failed(reason) => {
            push_str(dst, "Failed(");
            push_str(dst, debug_string(reason.as_str()).as_str());
            push_str(dst, ")");
            assert(dst@ =~= old(dst)@ + status_text(status@));
        },
    }
}

/// `true` or `false`.
pub open spec fn bool_text(b: bool) -> Seq<char> {
    if b {
        "true"@
    } else {
        "false"@
    }
}

/// Appends `true` or `false`.
pub fn push_bool(dst: &mut Vec<char>, b: bool)
    ensures
        final(dst)@ == old(dst)@ + bool_text(b),
{
    if b {
        push_str(dst, "true");
    } else {
        push_str(dst, "false");
    }
}

/// One line on a report of the executor: the step, the status and whether
/// the conversation changed.
pub open spec fn feedback_line(f: FeedbackView) -> Seq<char> {
    "Step "@ + decimal(f.step_count as nat) + ": status="@ + status_text(f.status)
        + ", screen_changed="@ + bool_text(f.screen_changed)
}

/// The lines on the reports `history`, joined by line breaks.
pub open spec fn feedback_lines(history: Seq<FeedbackView>) -> Seq<char>
    decreases history.len(),
{
    if history.len() == 0 {
        Seq::empty()
    } else if history.len() == 1 {
        feedback_line(history[0])
    } else {
        feedback_lines(history.drop_last()) + "\n"@ + feedback_line(history.last())
    }
}

/// What a stuck executor is told: the last reports and three things to try,
/// in Chinese for the language `cn` and in English otherwise.
pub open spec fn correction_prompt(history: Seq<FeedbackView>, lang: Seq<char>) -> Seq<char> {
    if lang == "cn"@ {
        "执行似乎卡住了。最近状态：\n"@ + feedback_lines(history)
            + "\n\n请尝试不同的方法：\n1. 如果按钮无法点击，尝试滑动屏幕\n2. 如果页面没有响应，尝试返回上一级\n3. 如果操作位置不正确，仔细观察界面元素位置\n请继续执行任务。"@
    } else {
        "Execution seems stuck. Recent status:\n"@ + feedback_lines(history)
            + "\n\nPlease try a different approach:\n1. If button won't click, try scrolling\n2. If page not responding, try going back\n3. If position incorrect, carefully observe element positions\nPlease continue the task."@
    }
}

/// The values of the reports of a history, in order.
pub open spec fn history_view(history: Seq<ExecutorFeedback>) -> Seq<FeedbackView> {
    history.map_values(|f: ExecutorFeedback| f@)
}

/// Appends the lines on the reports of a history.
fn push_feedback_lines(dst: &mut Vec<char>, history: &VecDeque<ExecutorFeedback>)
    ensures
        final(dst)@ == old(dst)@ + feedback_lines(history_view(history@)),
{
    let ghost all = history_view(history@);
    let ghost start = dst@;
    let mut i: usize = 0;
    assert(all.take(0) =~= Seq::empty());
    assert(dst@ =~= start + feedback_lines(all.take(0)));
    while i < history.len()
        invariant
            i <= history.len(),
            all == history_view(history@),
            dst@ == start + feedback_lines(all.take(i as int)),
        decreases history.len() - i,
    {
        let ghost next = all.take(i + 1);
        assert(next.drop_last() == all.take(i as int));
        assert(next.last() == history@[i as int]@);
        let f = &history[i];
        if i > 0 {
            push_str(dst, "\n");
        }
        push_str(dst, "Step ");
        push_decimal(dst, f.step_count as u128);
        push_str(dst, ": status=");
        push_status(dst, &f.status);
        push_str(dst, ", screen_changed=");
        push_bool(dst, f.screen_changed);
        assert(dst@ =~= start + feedback_lines(next));
        i += 1;
    }
    assert(all.take(history.len() as int) == all);
}

/// Writes what a stuck executor is told.
pub fn generate_correction_prompt(history: &VecDeque<ExecutorFeedback>, lang: &str) -> (r: String)
    ensures
        r@ == correction_prompt(history_view(history@), lang@),
{
    let mut out: Vec<char> = Vec::new();
    if str_eq(lang, "cn") {
        push_str(&mut out, "执行似乎卡住了。最近状态：\n");
        push_feedback_lines(&mut out, history);
        push_str(
            &mut out,
            "\n\n请尝试不同的方法：\n1. 如果按钮无法点击，尝试滑动屏幕\n2. 如果页面没有响应，尝试返回上一级\n3. 如果操作位置不正确，仔细观察界面元素位置\n请继续执行任务。",
        );
    } else {
        push_str(&mut out, "Execution seems stuck. Recent status:\n");
        push_feedback_lines(&mut out, history);
        push_str(
            &mut out,
            "\n\nPlease try a different approach:\n1. If button won't click, try scrolling\n2. If page not responding, try going back\n3. If position incorrect, carefully observe element positions\nPlease continue the task.",
        );
    }
    from_chars(&out)
}

/// The sign of a status in the summary of the queue.
pub open spec fn status_icon(status: TodoStatus) -> Seq<char> {
    match status {
        TodoStatus::Pending => "⏳"@,
        TodoStatus::Running => "🔄"@,
        TodoStatus::Done => "✅"@,
        TodoStatus::Failed => "❌"@,
        TodoStatus::Skipped => "⏭️"@,
    }
}

/// The line on a task in the summary of the queue.
pub open spec fn todo_line(item: TodoItemView) -> Seq<char> {
    status_icon(item.status) + " ["@ + item.id + "] "@ + item.description + " (类型: "@
        + item.task_type + ")\n"@
}

/// The lines on the tasks `items`.
pub open spec fn todo_lines(items: Seq<TodoItemView>) -> Seq<char>
    decreases items.len(),
{
    if items.len() == 0 {
        Seq::empty()
    } else {
        todo_lines(items.drop_last()) + todo_line(items.last())
    }
}

/// The summary of the queue: the counts, and a line on each task.
pub open spec fn todo_summary(items: Seq<TodoItemView>) -> Seq<char> {
    todo_heading(items) + todo_lines(items)
}

/// The counts that open the summary of the queue.
pub open spec fn todo_heading(items: Seq<TodoItemView>) -> Seq<char> {
    "总任务: "@ + decimal(items.len()) + " | 待执行: "@ + decimal(
        count_with(items, TodoStatus::Pending),
    ) + " | 执行中: "@ + decimal(count_with(items, TodoStatus::Running)) + " | 完成: "@ + decimal(
        count_with(items, TodoStatus::Done),
    ) + " | 失败: "@ + decimal(count_with(items, TodoStatus::Failed)) + "\n\n"@
}

/// Appends the line on a task.
fn push_todo_line(dst: &mut Vec<char>, item: &TodoItem)
    ensures
        final(dst)@ == old(dst)@ + todo_line(item@),
{
    match item.status {
        TodoStatus::Pending => push_str(dst, "⏳"),
        TodoStatus::Running => push_str(dst, "🔄"),
        TodoStatus::Done => push_str(dst, "✅"),
        TodoStatus::Failed => push_str(dst, "❌"),
        TodoStatus::Skipped => push_str(dst, "⏭️"),
    }
    push_str(dst, " [");
    push_str(dst, item.id.as_str());
    push_str(dst, "] ");
    push_str(dst, item.description.as_str());
    push_str(dst, " (类型: ");
    push_str(dst, item.task_type.as_str());
    push_str(dst, ")\n");
    assert(dst@ =~= old(dst)@ + todo_line(item@));
}

/// Writes the counts that open the summary of the queue.
fn todo_heading_text(list: &TodoList) -> (out: Vec<char>)
    ensures
        out@ == todo_heading(list.tasks()),
{
    let stats = list.stats();
    let mut out = to_chars("总任务: ");
    push_decimal(&mut out, stats.total as u128);
    push_str(&mut out, " | 待执行: ");
    push_decimal(&mut out, stats.pending as u128);
    push_str(&mut out, " | 执行中: ");
    push_decimal(&mut out, stats.running as u128);
    push_str(&mut out, " | 完成: ");
    push_decimal(&mut out, stats.done as u128);
    push_str(&mut out, " | 失败: ");
    push_decimal(&mut out, stats.failed as u128);
    push_str(&mut out, "\n\n");
    assert(out@ =~= todo_heading(list.tasks()));
    out
}

/// Writes the summary of the queue.
pub fn build_todo_summary(list: &TodoList) -> (r: String)
    ensures
        r@ == todo_summary(list.tasks()),
{
    let mut out = todo_heading_text(list);
    let items = list.items();
    let ghost all = items_view(items@);
    let ghost head = out@;
    let mut i: usize = 0;
    assert(all.take(0) =~= Seq::empty());
    assert(out@ =~= head + todo_lines(all.take(0)));
    while i < items.len()
        invariant
            i <= items.len(),
            all == items_view(items@),
            out@ == head + todo_lines(all.take(i as int)),
        decreases items.len() - i,
    {
        let ghost next = all.take(i + 1);
        assert(next.drop_last() == all.take(i as int));
        assert(next.last() == items@[i as int]@);
        push_todo_line(&mut out, &items[i]);
        assert(out@ =~= head + todo_lines(next));
        i += 1;
    }
    assert(all.take(items.len() as int) == all);
    from_chars(&out)
}

/// What is said of the thinking of a step, where there was any.
pub open spec fn thinking_part(thinking: Seq<char>) -> Seq<char> {
    if thinking.len() > 0 {
        "💭 思考过程:\n"@ + thinking + "\n"@
    } else {
        Seq::empty()
    }
}

/// A line made of a label and a text, where there is a text.
pub open spec fn labelled_line(label: Seq<char>, text: Option<Seq<char>>) -> Seq<char> {
    match text {
        Some(t) => label + t + "\n"@,
        None => Seq::empty(),
    }
}

/// The line on the success and the end of a step.
pub open spec fn flags_line(success: bool, finished: bool) -> Seq<char> {
    "状态: success="@ + bool_text(success) + ", finished="@ + bool_text(finished) + "\n"@
}

/// What is said of the result of a step in the summary of the executor.
pub open spec fn result_block(result: SummaryView) -> Seq<char> {
    thinking_part(result.thinking) + labelled_line("🎯 执行动作: "@, result.action_type)
        + labelled_line("💬 消息: "@, result.message) + flags_line(result.success, result.finished)
}

/// The heading of the `number`-th report in the summary of the executor.
pub open spec fn feedback_heading(number: nat, step_count: u32, screen_changed: bool) -> Seq<
    char,
> {
    "\n--- 第"@ + decimal(number) + "条反馈 (step="@ + decimal(step_count as nat) + ", 屏幕变化="@ + (
    if screen_changed {
        "是"@
    } else {
        "否"@
    }) + ") ---\n"@
}

/// What is said of the `number`-th report in the summary of the executor.
pub open spec fn feedback_block(number: nat, f: FeedbackView) -> Seq<char> {
    feedback_heading(number, f.step_count, f.screen_changed) + (match f.last_result {
        Some(result) => result_block(result),
        None => Seq::empty(),
    })
}

/// What is said of the reports `history`, one after the other.
pub open spec fn feedback_blocks(history: Seq<FeedbackView>) -> Seq<char>
    decreases history.len(),
{
    if history.len() == 0 {
        Seq::empty()
    } else {
        feedback_blocks(history.drop_last()) + feedback_block(history.len(), history.last())
    }
}

/// The opening of the summary of the executor: its status and its count of
/// steps.
pub open spec fn summary_heading(status: StatusView, steps: u32) -> Seq<char> {
    "Executor状态: "@ + status_text(status) + "\n步骤数: "@ + decimal(steps as nat) + "\n"@
}

/// The summary of the executor: its status, its count of steps and what
/// its last reports said.
pub open spec fn executor_summary(status: StatusView, steps: u32, history: Seq<FeedbackView>)
    -> Seq<char> {
    summary_heading(status, steps) + (if history.len() > 0 {
        "\n=== 执行器最近输出 ===\n"@ + feedback_blocks(history) + "=== 执行器输出结束 ===\n"@
    } else {
        Seq::empty()
    })
}

/// Appends what is said of the thinking of a step.
fn push_thinking_part(dst: &mut Vec<char>, thinking: &str)
    ensures
        final(dst)@ == old(dst)@ + thinking_part(thinking@),
{
    if !thinking.is_empty() {
        push_str(dst, "💭 思考过程:\n");
        push_str(dst, thinking);
        push_str(dst, "\n");
        assert(dst@ =~= old(dst)@ + thinking_part(thinking@));
    } else {
        assert(dst@ =~= old(dst)@ + thinking_part(thinking@));
    }
}

/// Appends a line made of a label and a text, where there is a text.
fn push_labelled_line(dst: &mut Vec<char>, label: &str, text: &Option<String>)
    ensures
        final(dst)@ == old(dst)@ + labelled_line(
            label@,
            crate::actions::parser::option_view(*text),
        ),
{
    match text {
        Some(t) => {
            push_str(dst, label);
            push_str(dst, t.as_str());
            push_str(dst, "\n");
            assert(dst@ =~= old(dst)@ + (label@ + t@ + "\n"@));
        },
        None => {
            assert(dst@ =~= old(dst)@ + Seq::<char>::empty());
        },
    }
}

/// Appends the line on the success and the end of a step.
fn push_flags_line(dst: &mut Vec<char>, success: bool, finished: bool)
    ensures
        final(dst)@ == old(dst)@ + flags_line(success, finished),
{
    push_str(dst, "状态: success=");
    push_bool(dst, success);
    push_str(dst, ", finished=");
    push_bool(dst, finished);
    push_str(dst, "\n");
    assert(dst@ =~= old(dst)@ + flags_line(success, finished));
}

/// Appends what is said of the result of a step.
fn push_result_block(dst: &mut Vec<char>, result: &crate::agent::executor::StepResultSummary)
    ensures
        final(dst)@ == old(dst)@ + result_block(result@),
{
    push_thinking_part(dst, result.thinking.as_str());
    push_labelled_line(dst, "🎯 执行动作: ", &result.action_type);
    push_labelled_line(dst, "💬 消息: ", &result.message);
    push_flags_line(dst, result.success, result.finished);
    assert(dst@ =~= old(dst)@ + result_block(result@));
}

/// Appends the heading of a report.
fn push_feedback_heading(dst: &mut Vec<char>, number: usize, step_count: u32, screen_changed: bool)
    ensures
        final(dst)@ == old(dst)@ + feedback_heading(number as nat, step_count, screen_changed),
{
    push_str(dst, "\n--- 第");
    push_decimal(dst, number as u128);
    push_str(dst, "条反馈 (step=");
    push_decimal(dst, step_count as u128);
    push_str(dst, ", 屏幕变化=");
    if screen_changed {
        push_str(dst, "是");
    } else {
        push_str(dst, "否");
    }
    push_str(dst, ") ---\n");
    assert(dst@ =~= old(dst)@ + feedback_heading(number as nat, step_count, screen_changed));
}

/// Appends what is said of a report.
fn push_feedback_block(dst: &mut Vec<char>, number: usize, f: &ExecutorFeedback)
    ensures
        final(dst)@ == old(dst)@ + feedback_block(number as nat, f@),
{
    push_feedback_heading(dst, number, f.step_count, f.screen_changed);
    match &f.last_result {
        Some(result) => {
            push_result_block(dst, result);
            assert(dst@ =~= old(dst)@ + feedback_block(number as nat, f@));
        },
        None => {
            assert(dst@ =~= old(dst)@ + feedback_block(number as nat, f@));
        },
    }
}

/// Writes the summary of the executor.
pub fn build_executor_status_summary(
    status: &ExecutorStatus,
    steps: u32,
    history: &VecDeque<ExecutorFeedback>,
) -> (r: String)
    ensures
        r@ == executor_summary(status@, steps, history_view(history@)),
{
    let mut out = to_chars("Executor状态: ");
    push_status(&mut out, status);
    push_str(&mut out, "\n步骤数: ");
    push_decimal(&mut out, steps as u128);
    push_str(&mut out, "\n");
    assert(out@ =~= summary_heading(status@, steps));
    if history.len() > 0 {
        push_str(&mut out, "\n=== 执行器最近输出 ===\n");
        let ghost all = history_view(history@);
        let ghost head = out@;
        let mut i: usize = 0;
        assert(all.take(0) =~= Seq::empty());
        assert(out@ =~= head + feedback_blocks(all.take(0)));
        while i < history.len()
            invariant
                i <= history.len(),
                all == history_view(history@),
                out@ == head + feedback_blocks(all.take(i as int)),
            decreases history.len() - i,
        {
            let ghost next = all.take(i + 1);
            assert(next.drop_last() == all.take(i as int));
            assert(next.last() == history@[i as int]@);
            push_feedback_block(&mut out, i + 1, &history[i]);
            assert(out@ =~= head + feedback_blocks(next));
            i += 1;
        }
        assert(all.take(history.len() as int) == all);
        push_str(&mut out, "=== 执行器输出结束 ===\n");
        assert(out@ =~= executor_summary(status@, steps, history_view(history@)));
    } else {
        assert(out@ =~= executor_summary(status@, steps, history_view(history@)));
    }
    from_chars(&out)
}

} // verus!
