//! The tool calls of the planner's model and how they are read from its
//! answers.
//!
//! An answer is read in four stages, each of which is tried only where the
//! one before found nothing: the whole answer as a JSON object, the first
//! fenced block, the first balanced `{...}`, and at last a few key words.

use crate::json::{json_object_members, json_string_value, pairs_view, parse_object, parse_string};
use crate::text::{
    contains, find, find_from, index_from, index_of, lowercase, str_eq, to_chars, to_lowercase,
    trim, trim_range,
};
use vstd::prelude::*;

verus! {

/// What the planner's model may ask for.
#[derive(Debug, Clone, PartialEq, Eq)]
pub enum PlannerAction {
    /// Add a task to the queue.
    AddTodo { description: String, task_type: String },
    /// Start the executor on a task.
    StartExecutor { task_id: String },
    /// Halt the executor.
    PauseExecutor,
    /// Let the executor go on.
    ResumeExecutor,
    /// Give the executor an instruction.
    InjectPrompt { content: String },
    /// Make the executor forget its conversation.
    ResetExecutor,
    /// Mark a task as done.
    CompleteTodo { task_id: String },
    /// Mark a task as failed.
    FailTodo { task_id: String, reason: String },
    /// Tell the user something.
    Report { message: String },
    /// Wait for more to happen.
    Wait,
    /// Planning is over.
    Done { message: String },
}

/// The mathematical value of a [`PlannerAction`].
pub enum PlannerActionView {
    AddTodo { description: Seq<char>, task_type: Seq<char> },
    StartExecutor { task_id: Seq<char> },
    PauseExecutor,
    ResumeExecutor,
    InjectPrompt { content: Seq<char> },
    ResetExecutor,
    CompleteTodo { task_id: Seq<char> },
    FailTodo { task_id: Seq<char>, reason: Seq<char> },
    Report { message: Seq<char> },
    Wait,
    Done { message: Seq<char> },
}

impl View for PlannerAction {
    type V = PlannerActionView;

    open spec fn view(&self) -> PlannerActionView {
        match self {
            PlannerAction::AddTodo { description, task_type } => PlannerActionView::AddTodo {
                description: description@,
                task_type: task_type@,
            },
            PlannerAction::StartExecutor { task_id } => PlannerActionView::StartExecutor {
                task_id: task_id@,
            },
            PlannerAction::PauseExecutor => PlannerActionView::PauseExecutor,
            PlannerAction::ResumeExecutor => PlannerActionView::ResumeExecutor,
            PlannerAction::InjectPrompt { content } => PlannerActionView::InjectPrompt {
                content: content@,
            },
            PlannerAction::ResetExecutor => PlannerActionView::ResetExecutor,
            PlannerAction::CompleteTodo { task_id } => PlannerActionView::CompleteTodo {
                task_id: task_id@,
            },
            PlannerAction::FailTodo { task_id, reason } => PlannerActionView::FailTodo {
                task_id: task_id@,
                reason: reason@,
            },
            PlannerAction::Report { message } => PlannerActionView::Report { message: message@ },
            PlannerAction::Wait => PlannerActionView::Wait,
            PlannerAction::Done { message } => PlannerActionView::Done { message: message@ },
        }
    }
}

/// The action of `r`, as a mathematical value.
pub open spec fn action_view(r: Option<PlannerAction>) -> Option<PlannerActionView> {
    match r {
        Some(a) => Some(a@),
        None => None,
    }
}

/// A field of a tool call: its name, and its text where its value is a
/// string.
pub type Field = (String, Option<String>);

/// The names and texts of a list of fields.
pub open spec fn fields_view(fields: Seq<Field>) -> Seq<(Seq<char>, Option<Seq<char>>)> {
    fields.map_values(
        |f: Field|
            (
                f.0@,
                match f.1 {
                    Some(t) => Some(t@),
                    None => None,
                },
            ),
    )
}

/// The text of the first field called `name`, where that field's value is
/// a string.
pub open spec fn field_text(fields: Seq<(Seq<char>, Option<Seq<char>>)>, name: Seq<char>)
    -> Option<Seq<char>>
    decreases fields.len(),
{
    if fields.len() == 0 {
        None
    } else if fields[0].0 == name {
        fields[0].1
    } else {
        field_text(fields.skip(1), name)
    }
}

/// The tool call that the fields make up. The field `action` names the
/// call, and each call needs its own fields as strings; other fields are
/// not looked at.
pub open spec fn action_of_fields(fields: Seq<(Seq<char>, Option<Seq<char>>)>) -> Option<
    PlannerActionView,
> {
    match field_text(fields, "action"@) {
        None => None,
        Some(tag) => if tag == "add_todo"@ {
            match (field_text(fields, "description"@), field_text(fields, "task_type"@)) {
                (Some(description), Some(task_type)) => Some(
                    PlannerActionView::AddTodo { description, task_type },
                ),
                _ => None,
            }
        } else if tag == "start_executor"@ {
            match field_text(fields, "task_id"@) {
                Some(task_id) => Some(PlannerActionView::StartExecutor { task_id }),
                None => None,
            }
        } else if tag == "pause_executor"@ {
            Some(PlannerActionView::PauseExecutor)
        } else if tag == "resume_executor"@ {
            Some(PlannerActionView::ResumeExecutor)
        } else if tag == "inject_prompt"@ {
            match field_text(fields, "content"@) {
                Some(content) => Some(PlannerActionView::InjectPrompt { content }),
                None => None,
            }
        } else if tag == "reset_executor"@ {
            Some(PlannerActionView::ResetExecutor)
        } else if tag == "complete_todo"@ {
            match field_text(fields, "task_id"@) {
                Some(task_id) => Some(PlannerActionView::CompleteTodo { task_id }),
                None => None,
            }
        } else if tag == "fail_todo"@ {
            match (field_text(fields, "task_id"@), field_text(fields, "reason"@)) {
                (Some(task_id), Some(reason)) => Some(
                    PlannerActionView::FailTodo { task_id, reason },
                ),
                _ => None,
            }
        } else if tag == "report"@ {
            match field_text(fields, "message"@) {
                Some(message) => Some(PlannerActionView::Report { message }),
                None => None,
            }
        } else if tag == "wait"@ {
            Some(PlannerActionView::Wait)
        } else if tag == "done"@ {
            match field_text(fields, "message"@) {
                Some(message) => Some(PlannerActionView::Done { message }),
                None => None,
            }
        } else {
            None
        },
    }
}

/// The text of the first field called `name`.
fn get_field(fields: &Vec<Field>, name: &str) -> (r: Option<String>)
    ensures
        crate::actions::parser::option_view(r) == field_text(fields_view(fields@), name@),
{
    let ghost all = fields_view(fields@);
    let mut i: usize = 0;
    assert(all.skip(0) == all);
    while i < fields.len()
        invariant
            i <= fields.len(),
            all == fields_view(fields@),
            field_text(all, name@) == field_text(all.skip(i as int), name@),
        decreases fields.len() - i,
    {
        let ghost rest = all.skip(i as int);
        assert(rest[0] == all[i as int]);
        assert(rest.skip(1) == all.skip(i + 1));
        if str_eq(fields[i].0.as_str(), name) {
            return match &fields[i].1 {
                Some(t) => Some(t.clone()),
                None => None,
            };
        }
        i += 1;
    }
    None
}

/// The tool call that the fields make up.
pub fn action_from_fields(fields: &Vec<Field>) -> (r: Option<PlannerAction>)
    ensures
        action_view(r) == action_of_fields(fields_view(fields@)),
{
    let tag = match get_field(fields, "action") {
        Some(tag) => tag,
        None => {
            return None;
        },
    };
    let tag = tag.as_str();
    if str_eq(tag, "add_todo") {
        match (get_field(fields, "description"), get_field(fields, "task_type")) {
            (Some(description), Some(task_type)) => Some(
                PlannerAction::AddTodo { description, task_type },
            ),
            _ => None,
        }
    } else if str_eq(tag, "start_executor") {
        match get_field(fields, "task_id") {
            Some(task_id) => Some(PlannerAction::StartExecutor { task_id }),
            None => None,
        }
    } else if str_eq(tag, "pause_executor") {
        Some(PlannerAction::PauseExecutor)
    } else if str_eq(tag, "resume_executor") {
        Some(PlannerAction::ResumeExecutor)
    } else if str_eq(tag, "inject_prompt") {
        match get_field(fields, "content") {
            Some(content) => Some(PlannerAction::InjectPrompt { content }),
            None => None,
        }
    } else if str_eq(tag, "reset_executor") {
        Some(PlannerAction::ResetExecutor)
    } else if str_eq(tag, "complete_todo") {
        match get_field(fields, "task_id") {
            Some(task_id) => Some(PlannerAction::CompleteTodo { task_id }),
            None => None,
        }
    } else if str_eq(tag, "fail_todo") {
        match (get_field(fields, "task_id"), get_field(fields, "reason")) {
            (Some(task_id), Some(reason)) => Some(PlannerAction::FailTodo { task_id, reason }),
            _ => None,
        }
    } else if str_eq(tag, "report") {
        match get_field(fields, "message") {
            Some(message) => Some(PlannerAction::Report { message }),
            None => None,
        }
    } else if str_eq(tag, "wait") {
        Some(PlannerAction::Wait)
    } else if str_eq(tag, "done") {
        match get_field(fields, "message") {
            Some(message) => Some(PlannerAction::Done { message }),
            None => None,
        }
    } else {
        None
    }
}

/// The fields of the members of a JSON object: each member's name, and its
/// text where its value is a JSON string.
pub open spec fn fields_of_members(members: Seq<(Seq<char>, Seq<char>)>) -> Seq<
    (Seq<char>, Option<Seq<char>>),
> {
    members.map_values(|m: (Seq<char>, Seq<char>)| (m.0, json_string_value(m.1)))
}

/// The tool call that `text` is as a JSON object, where it is one.
pub open spec fn decoded(text: Seq<char>) -> Option<PlannerActionView> {
    match json_object_members(text) {
        Some(members) => action_of_fields(fields_of_members(members)),
        None => None,
    }
}

/// Reads a tool call from JSON text.
pub fn decode_action(text: &str) -> (r: Option<PlannerAction>)
    ensures
        action_view(r) == decoded(text@),
{
    let members = match parse_object(text) {
        Some(members) => members,
        None => {
            return None;
        },
    };
    let ghost all = pairs_view(members@);
    let mut fields: Vec<Field> = Vec::new();
    let mut i: usize = 0;
    while i < members.len()
        invariant
            i <= members.len(),
            all == pairs_view(members@),
            fields_view(fields@) == fields_of_members(all).take(i as int),
        decreases members.len() - i,
    {
        let ghost before = fields_view(fields@);
        let value = parse_string(members[i].1.as_str());
        let field: Field = (members[i].0.clone(), value);
        fields.push(field);
        assert(fields_view(fields@) =~= before.push(
            (all[i as int].0, json_string_value(all[i as int].1)),
        ));
        assert(fields_of_members(all).take(i + 1) =~= fields_of_members(all).take(i as int).push(
            (all[i as int].0, json_string_value(all[i as int].1)),
        ));
        i += 1;
    }
    assert(fields_of_members(all).take(members.len() as int) == fields_of_members(all));
    action_from_fields(&fields)
}

/// What stands in the first block that opens with `fence` and, `skip`
/// characters later, goes on to the next three backticks; trimmed. None
/// where there is no such block.
pub open spec fn fenced_after(response: Seq<char>, fence: Seq<char>, skip: int) -> Option<
    Seq<char>,
> {
    let start = index_of(response, fence);
    if start < 0 {
        None
    } else {
        let end = index_from(response, "```"@, start + skip);
        if end < 0 {
            None
        } else {
            Some(trim(response.subrange(start + skip, end)))
        }
    }
}

/// The JSON text of the first fenced block of an answer: a block that opens
/// with three backticks and `json`, or else one that opens with three
/// backticks and goes on with a brace on the next line, or else one that
/// goes on with a brace at once.
pub open spec fn fenced_json(response: Seq<char>) -> Option<Seq<char>> {
    match fenced_after(response, "```json"@, "```json"@.len() as int) {
        Some(t) => Some(t),
        None => match fenced_after(response, "```\n{"@, "```\n"@.len() as int) {
            Some(t) => Some(t),
            None => fenced_after(response, "```{"@, "```"@.len() as int),
        },
    }
}

/// Reads a fenced block.
fn extract_fenced(v: &Vec<char>, fence: &str, opening: &str) -> (r: Option<String>)
    requires
        opening@.len() <= fence@.len(),
    ensures
        crate::actions::parser::option_view(r) == fenced_after(
            v@,
            fence@,
            opening@.len() as int,
        ),
{
    let pattern = to_chars(fence);
    let skip = to_chars(opening).len();
    let start = match find(v, &pattern) {
        Some(start) => start,
        None => {
            return None;
        },
    };
    proof {
        crate::text::lemma_index_from(v@, pattern@, 0);
        assert(crate::text::occurs_at(v@, pattern@, start as int));
        assert(start + pattern.len() <= v.len());
    }
    let ticks = to_chars("```");
    match find_from(v, &ticks, start + skip) {
        Some(end) => {
            proof {
                crate::text::lemma_index_from(v@, ticks@, start + skip);
            }
            let (a, b) = trim_range(v, start + skip, end);
            Some(crate::text::slice_to_string(v, a, b))
        },
        None => None,
    }
}

/// The JSON text of the first fenced block of an answer.
pub fn extract_json_from_response(response: &str) -> (r: Option<String>)
    ensures
        crate::actions::parser::option_view(r) == fenced_json(response@),
{
    proof {
        reveal_strlit("```json");
        reveal_strlit("```\n{");
        reveal_strlit("```\n");
        reveal_strlit("```{");
        reveal_strlit("```");
    }
    let v = to_chars(response);
    match extract_fenced(&v, "```json", "```json") {
        Some(t) => Some(t),
        None => match extract_fenced(&v, "```\n{", "```\n") {
            Some(t) => Some(t),
            None => extract_fenced(&v, "```{", "```"),
        },
    }
}

/// The index of the brace that closes the object that the scan is in, or
/// -1. The scan stands before the character at `i`, with `depth` braces
/// open, inside a string or not, and after a backslash or not.
///
/// A character after a backslash inside a string is skipped. A double quote
/// opens or closes a string. Outside a string an opening brace adds one to
/// the depth and a closing brace takes one away; the brace that brings the
/// depth to zero is the one looked for.
pub open spec fn closing_brace(s: Seq<char>, i: int, depth: int, in_string: bool, escaped: bool)
    -> int
    decreases s.len() - i,
{
    if i < 0 || i >= s.len() {
        -1
    } else if escaped {
        closing_brace(s, i + 1, depth, in_string, false)
    } else if s[i] == '\\' && in_string {
        closing_brace(s, i + 1, depth, in_string, true)
    } else if s[i] == '"' {
        closing_brace(s, i + 1, depth, !in_string, false)
    } else if s[i] == '{' && !in_string {
        closing_brace(s, i + 1, depth + 1, in_string, false)
    } else if s[i] == '}' && !in_string {
        if depth == 1 {
            i
        } else {
            closing_brace(s, i + 1, depth - 1, in_string, false)
        }
    } else {
        closing_brace(s, i + 1, depth, in_string, false)
    }
}

/// The first balanced `{...}` of a text: from its first opening brace to
/// the brace that closes it. None where there is no brace or it is never
/// closed.
pub open spec fn first_object(text: Seq<char>) -> Option<Seq<char>> {
    let start = index_of(text, seq!['{']);
    if start < 0 {
        None
    } else {
        let end = closing_brace(text, start, 0, false, false);
        if end < 0 {
            None
        } else {
            Some(text.subrange(start, end + 1))
        }
    }
}

/// The first balanced `{...}` of a text. Where a text holds several, the
/// first one counts.
pub fn extract_first_json_object(text: &str) -> (r: Option<String>)
    ensures
        crate::actions::parser::option_view(r) == first_object(text@),
{
    let v = to_chars(text);
    let mut brace: Vec<char> = Vec::new();
    brace.push('{');
    assert(brace@ =~= seq!['{']);
    let start = match find(&v, &brace) {
        Some(start) => start,
        None => {
            return None;
        },
    };
    proof {
        crate::text::lemma_index_from(v@, brace@, 0);
        assert(crate::text::occurs_at(v@, brace@, start as int));
        assert(v@.subrange(start as int, start + 1)[0] == brace@[0]);
    }
    let mut depth: usize = 0;
    let mut in_string = false;
    let mut escaped = false;
    let mut i: usize = start;
    while i < v.len()
        invariant
            start <= i <= v.len(),
            start < v.len(),
            v@ == text@,
            start as int == index_of(v@, seq!['{']),
            v@[start as int] == '{',
            depth <= i - start,
            i == start ==> depth == 0 && !in_string && !escaped,
            i > start ==> depth >= 1,
            closing_brace(v@, start as int, 0, false, false) == closing_brace(
                v@,
                i as int,
                depth as int,
                in_string,
                escaped,
            ),
        decreases v.len() - i,
    {
        let c = v[i];
        if escaped {
            escaped = false;
        } else if c == '\\' && in_string {
            escaped = true;
        } else if c == '"' {
            in_string = !in_string;
        } else if c == '{' && !in_string {
            depth += 1;
        } else if c == '}' && !in_string {
            if depth == 1 {
                return Some(crate::text::slice_to_string(&v, start, i + 1));
            }
            depth -= 1;
        }
        i += 1;
    }
    None
}

/// What the key words of an answer say: to wait, that planning is done, or
/// else that the answer is a report to the user.
pub open spec fn sniffed(response: Seq<char>) -> PlannerActionView {
    let lower = lowercase(response);
    if contains(lower, "wait"@) || contains(lower, "等待"@) {
        PlannerActionView::Wait
    } else if contains(lower, "done"@) || contains(lower, "完成"@) {
        PlannerActionView::Done { message: response }
    } else {
        PlannerActionView::Report { message: response }
    }
}

/// The tool call that an answer stands for, by the four stages.
pub open spec fn planner_action_of(response: Seq<char>) -> PlannerActionView {
    match decoded(response) {
        Some(a) => a,
        None => match (match fenced_json(response) {
            Some(block) => decoded(block),
            None => None,
        }) {
            Some(a) => a,
            None => match (match first_object(response) {
                Some(object) => decoded(object),
                None => None,
            }) {
                Some(a) => a,
                None => sniffed(response),
            },
        },
    }
}

/// Reads the tool call of an answer. Every answer stands for one.
pub fn parse_planner_action(response: &str) -> (r: Option<PlannerAction>)
    ensures
        r matches Some(a) && a@ == planner_action_of(response@),
{
    match decode_action(response) {
        Some(a) => {
            return Some(a);
        },
        None => {},
    }
    match extract_json_from_response(response) {
        Some(block) => match decode_action(block.as_str()) {
            Some(a) => {
                return Some(a);
            },
            None => {},
        },
        None => {},
    }
    match extract_first_json_object(response) {
        Some(object) => match decode_action(object.as_str()) {
            Some(a) => {
                return Some(a);
            },
            None => {},
        },
        None => {},
    }
    let lower = to_chars(to_lowercase(response).as_str());
    if crate::text::contains_str(&lower, "wait") || crate::text::contains_str(&lower, "等待") {
        Some(PlannerAction::Wait)
    } else if crate::text::contains_str(&lower, "done") || crate::text::contains_str(
        &lower,
        "完成",
    ) {
        Some(PlannerAction::Done { message: String::from_str(response) })
    } else {
        Some(PlannerAction::Report { message: String::from_str(response) })
    }
}

} // verus!
