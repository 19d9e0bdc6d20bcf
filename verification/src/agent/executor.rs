//! The executor: drives one task step by step and watches for trouble.
//!
//! The executor wraps the single-step agent. It takes commands from a queue,
//! counts answers that were no action and steps that changed nothing, and
//! reports after each tick. It calls neither the model nor the device: a
//! tick is begun, the caller shows the screen and asks the model, and the
//! tick is ended with the model's answer.

use crate::actions::handler::{DeviceCommand};
use crate::actions::parser::option_view;
use crate::adb::screenshot::Screenshot;
use crate::agent::phone_agent::{
    agent_error_text, concluded_messages, concluded_step, next_count, opening, AgentConfig,
    AgentConfigView, AgentErrorView, PhoneAgent, StepAction, StepActionView, StepOutcomeView,
    StepResult, StepResultView,
};
use crate::actions::parser::ActionView;
use crate::clock::current_timestamp;
use crate::config::prompts::LocalDate;
use crate::model::client::ModelResponse;
use crate::model::message::{messages_view, Message, MessageView};
use crate::model::message::Role;
use crate::number::{decimal, push_decimal};
use crate::text::{from_chars, push_str, slice_to_string, to_chars};
use std::collections::hash_map::DefaultHasher;
use std::collections::VecDeque;
use std::hash::Hasher;
use vstd::std_specs::hash::DefaultHasherAdditionalSpecFns;
use vstd::prelude::*;

verus! {

/// After how many steps in a row that changed nothing the executor counts
/// as stuck, where nothing else is configured.
pub const DEFAULT_STUCK_THRESHOLD: u32 = 3;

/// After how many answers in a row that were no action the conversation
/// counts as overflown, where nothing else is configured.
pub const DEFAULT_PARSE_ERROR_THRESHOLD: u32 = 3;

/// What the model is told after the conversation overflowed.
pub open spec fn corrective_prompt() -> Seq<char> {
    "请严格输出 do(...) 或 finish(...)，不要重复总结，直接给动作指令。"@
}

/// The status of the executor.
#[derive(Debug, Clone, PartialEq, Eq)]
pub enum ExecutorStatus {
    /// Waiting for a task.
    Idle,
    /// Working on a task.
    Running,
    /// Halted by a command.
    Paused,
    /// Working, but the steps change nothing.
    Stuck,
    /// The task is completed.
    Completed,
    /// The task failed, for the reason given.
    Failed(String),
}

/// The mathematical value of an [`ExecutorStatus`].
pub enum StatusView {
    Idle,
    Running,
    Paused,
    Stuck,
    Completed,
    Failed(Seq<char>),
}

impl View for ExecutorStatus {
    type V = StatusView;

    open spec fn view(&self) -> StatusView {
        match self {
            ExecutorStatus::Idle => StatusView::Idle,
            ExecutorStatus::Running => StatusView::Running,
            ExecutorStatus::Paused => StatusView::Paused,
            ExecutorStatus::Stuck => StatusView::Stuck,
            ExecutorStatus::Completed => StatusView::Completed,
            ExecutorStatus::Failed(reason) => StatusView::Failed(reason@),
        }
    }
}

impl Default for ExecutorStatus {
    fn default() -> (r: Self)
        ensures
            r@ == StatusView::Idle,
    {
        ExecutorStatus::Idle
    }
}

impl ExecutorStatus {
    /// A copy of the status.
    pub fn duplicate(&self) -> (r: Self)
        ensures
            r@ == self@,
    {
        match self {
            ExecutorStatus::Idle => ExecutorStatus::Idle,
            ExecutorStatus::Running => ExecutorStatus::Running,
            ExecutorStatus::Paused => ExecutorStatus::Paused,
            ExecutorStatus::Stuck => ExecutorStatus::Stuck,
            ExecutorStatus::Completed => ExecutorStatus::Completed,
            ExecutorStatus::Failed(reason) => ExecutorStatus::Failed(reason.clone()),
        }
    }

    /// Whether the executor is working on a task.
    pub fn is_running(&self) -> (r: bool)
        ensures
            r == (self@ == StatusView::Running),
    {
        match self {
            ExecutorStatus::Running => true,
            _ => false,
        }
    }
}

/// What the planner may tell the executor.
#[derive(Debug, Clone, PartialEq, Eq)]
pub enum ExecutorCommand {
    /// Start a task.
    StartTask { task_id: String, description: String, system_prompt: Option<String> },
    /// Halt.
    Pause,
    /// Go on after a halt.
    Resume,
    /// Use the text as the next step's instruction.
    InjectPrompt { content: String },
    /// Forget the conversation.
    ResetContext,
    /// Drop the task.
    Stop,
}

/// The mathematical value of an [`ExecutorCommand`].
pub enum CommandView {
    StartTask { task_id: Seq<char>, description: Seq<char>, system_prompt: Option<Seq<char>> },
    Pause,
    Resume,
    InjectPrompt { content: Seq<char> },
    ResetContext,
    Stop,
}

impl View for ExecutorCommand {
    type V = CommandView;

    open spec fn view(&self) -> CommandView {
        match self {
            ExecutorCommand::StartTask { task_id, description, system_prompt } => {
                CommandView::StartTask {
                    task_id: task_id@,
                    description: description@,
                    system_prompt: option_view(*system_prompt),
                }
            },
            ExecutorCommand::Pause => CommandView::Pause,
            ExecutorCommand::Resume => CommandView::Resume,
            ExecutorCommand::InjectPrompt { content } => CommandView::InjectPrompt {
                content: content@,
            },
            ExecutorCommand::ResetContext => CommandView::ResetContext,
            ExecutorCommand::Stop => CommandView::Stop,
        }
    }
}

/// The values of the commands of a queue, in order.
pub open spec fn commands_view(queue: Seq<ExecutorCommand>) -> Seq<CommandView> {
    queue.map_values(|c: ExecutorCommand| c@)
}

/// What is reported of a step, without the large parts.
#[derive(Debug, Clone, PartialEq, Eq)]
pub struct StepResultSummary {
    pub success: bool,
    pub finished: bool,
    pub thinking: String,
    pub message: Option<String>,
    pub action_type: Option<String>,
}

/// The mathematical value of a [`StepResultSummary`].
pub struct SummaryView {
    pub success: bool,
    pub finished: bool,
    pub thinking: Seq<char>,
    pub message: Option<Seq<char>>,
    pub action_type: Option<Seq<char>>,
}

impl View for StepResultSummary {
    type V = SummaryView;

    open spec fn view(&self) -> SummaryView {
        SummaryView {
            success: self.success,
            finished: self.finished,
            thinking: self.thinking@,
            message: option_view(self.message),
            action_type: option_view(self.action_type),
        }
    }
}

/// The kind of what a step made of the model's answer: `do`, `finish` or
/// `error`.
pub open spec fn action_kind(action: Option<StepActionView>) -> Option<Seq<char>> {
    match action {
        Some(StepActionView::Parsed(ActionView::Do { .. })) => Some("do"@),
        Some(StepActionView::Parsed(ActionView::Finish { .. })) => Some("finish"@),
        Some(StepActionView::ParseFailed { .. }) => Some("error"@),
        None => None,
    }
}

/// What is reported of the step with the result `result`.
pub open spec fn summary_of(result: StepResultView) -> SummaryView {
    SummaryView {
        success: result.success,
        finished: result.finished,
        thinking: result.thinking,
        message: result.message,
        action_type: action_kind(result.action),
    }
}

impl StepResultSummary {
    /// What is reported of the step with the result `result`.
    pub fn from(result: &StepResult) -> (r: Self)
        ensures
            r@ == summary_of(result@),
    {
        let action_type = match &result.action {
            Some(StepAction::Parsed(crate::actions::parser::Action::Do { .. })) => Some(
                String::from_str("do"),
            ),
            Some(StepAction::Parsed(crate::actions::parser::Action::Finish { .. })) => Some(
                String::from_str("finish"),
            ),
            Some(StepAction::ParseFailed { .. }) => Some(String::from_str("error")),
            None => None,
        };
        StepResultSummary {
            success: result.success,
            finished: result.finished,
            thinking: result.thinking.clone(),
            message: match &result.message {
                Some(m) => Some(m.clone()),
                None => None,
            },
            action_type,
        }
    }
}

/// What the executor reports after a tick.
#[derive(Debug, Clone, PartialEq, Eq)]
pub struct ExecutorFeedback {
    /// The task, if there is one.
    pub task_id: Option<String>,
    /// The number of steps taken.
    pub step_count: u32,
    /// The status.
    pub status: ExecutorStatus,
    /// What the last step gave, if there was one.
    pub last_result: Option<StepResultSummary>,
    /// Whether the conversation changed with the last step.
    pub screen_changed: bool,
    /// When the report was made.
    pub timestamp: u64,
    /// Whether the conversation overflowed.
    pub context_overflow_detected: bool,
    /// How many answers in a row were no action.
    pub consecutive_parse_errors: u32,
}

/// The mathematical value of an [`ExecutorFeedback`].
pub struct FeedbackView {
    pub task_id: Option<Seq<char>>,
    pub step_count: u32,
    pub status: StatusView,
    pub last_result: Option<SummaryView>,
    pub screen_changed: bool,
    pub timestamp: u64,
    pub context_overflow_detected: bool,
    pub consecutive_parse_errors: u32,
}

impl View for ExecutorFeedback {
    type V = FeedbackView;

    open spec fn view(&self) -> FeedbackView {
        FeedbackView {
            task_id: option_view(self.task_id),
            step_count: self.step_count,
            status: self.status@,
            last_result: match self.last_result {
                Some(s) => Some(s@),
                None => None,
            },
            screen_changed: self.screen_changed,
            timestamp: self.timestamp,
            context_overflow_detected: self.context_overflow_detected,
            consecutive_parse_errors: self.consecutive_parse_errors,
        }
    }
}

impl ExecutorFeedback {
    /// A copy of the report.
    pub fn duplicate(&self) -> (r: Self)
        ensures
            r@ == self@,
    {
        ExecutorFeedback {
            task_id: match &self.task_id {
                Some(t) => Some(t.clone()),
                None => None,
            },
            step_count: self.step_count,
            status: self.status.duplicate(),
            last_result: match &self.last_result {
                Some(s) => Some(
                    StepResultSummary {
                        success: s.success,
                        finished: s.finished,
                        thinking: s.thinking.clone(),
                        message: match &s.message {
                            Some(m) => Some(m.clone()),
                            None => None,
                        },
                        action_type: match &s.action_type {
                            Some(m) => Some(m.clone()),
                            None => None,
                        },
                    },
                ),
                None => None,
            },
            screen_changed: self.screen_changed,
            timestamp: self.timestamp,
            context_overflow_detected: self.context_overflow_detected,
            consecutive_parse_errors: self.consecutive_parse_errors,
        }
    }
}

/// What a hasher has been given once the text `text` is hashed into one
/// that had been given `state`, as `Hash::hash` of a string does it.
pub uninterp spec fn hashed_text(state: Seq<Seq<u8>>, text: Seq<char>) -> Seq<Seq<u8>>;

/// Calls `Hash::hash` of a string on the hasher. What the hasher has been
/// given afterwards is a function of what it had been given before and of
/// the text alone.
#[verifier::external_body]
fn hash_text(text: &String, hasher: &mut DefaultHasher)
    ensures
        final(hasher)@ == hashed_text(old(hasher)@, text@),
{
    std::hash::Hash::hash(text, hasher)
}

/// What a new hasher has been given once the texts `parts` are hashed into
/// it, one after the other.
pub open spec fn hashed_texts(parts: Seq<Seq<char>>) -> Seq<Seq<u8>>
    decreases parts.len(),
{
    if parts.len() == 0 {
        Seq::empty()
    } else {
        hashed_text(hashed_texts(parts.drop_last()), parts.last())
    }
}

/// The digest that a hasher made with `DefaultHasher::new` gives for the
/// texts `parts`, hashed one after the other.
pub open spec fn context_digest(parts: Seq<Seq<char>>) -> u64 {
    DefaultHasher::spec_finish(hashed_texts(parts))
}

/// The digest of the texts `parts`.
fn digest(parts: &Vec<String>) -> (h: u64)
    ensures
        h == context_digest(crate::json::texts_view(parts@)),
{
    let ghost texts = crate::json::texts_view(parts@);
    let mut hasher = DefaultHasher::new();
    let mut i: usize = 0;
    assert(texts.take(0) =~= Seq::<Seq<char>>::empty());
    while i < parts.len()
        invariant
            i <= parts.len(),
            texts == crate::json::texts_view(parts@),
            hasher@ == hashed_texts(texts.take(i as int)),
        decreases parts.len() - i,
    {
        hash_text(&parts[i], &mut hasher);
        assert(texts.take(i + 1).drop_last() =~= texts.take(i as int));
        assert(texts.take(i + 1).last() == parts@[i as int]@);
        i += 1;
    }
    assert(texts.take(parts.len() as int) =~= texts);
    hasher.finish()
}

/// The first `limit` characters of `s`.
pub open spec fn head(s: Seq<char>, limit: int) -> Seq<char> {
    if s.len() > limit {
        s.take(limit)
    } else {
        s
    }
}

/// What is hashed of a conversation: the first thousand characters of each
/// of its last three messages, the last message first.
pub open spec fn digest_input(messages: Seq<MessageView>) -> Seq<Seq<char>> {
    let n = if messages.len() < 3 {
        messages.len() as int
    } else {
        3
    };
    Seq::new(n as nat, |i: int| head(messages[messages.len() - 1 - i].text, 1000))
}

/// The digest of a conversation.
pub open spec fn digest_of(messages: Seq<MessageView>) -> u64 {
    context_digest(digest_input(messages))
}

/// The state of the executor.
pub struct ExecutorState {
    /// The status.
    pub status: StatusView,
    /// The task, if there is one.
    pub task_id: Option<Seq<char>>,
    /// What the task is, if there is one.
    pub description: Option<Seq<char>>,
    /// The commands that wait.
    pub queue: Seq<CommandView>,
    /// The digest of the conversation after the last step.
    pub last_hash: Option<u64>,
    /// How many steps in a row changed nothing.
    pub stuck_count: u32,
    /// At which count of such steps the executor is stuck.
    pub stuck_threshold: u32,
    /// How many answers in a row were no action.
    pub parse_errors: u32,
    /// At which count of such answers the conversation has overflowed.
    pub parse_threshold: u32,
    /// The instruction for the next step, if one waits.
    pub pending_prompt: Option<Seq<char>>,
    /// The agent's setup.
    pub config: AgentConfigView,
    /// The agent's conversation.
    pub messages: Seq<MessageView>,
    /// The number of steps taken.
    pub steps: u32,
}

impl ExecutorState {
    /// The state with the conversation forgotten: no messages, no steps, no
    /// digest, no count of idle steps and no waiting instruction.
    pub open spec fn cleared(self) -> ExecutorState {
        ExecutorState {
            messages: Seq::empty(),
            steps: 0,
            last_hash: None,
            stuck_count: 0,
            pending_prompt: None,
            ..self
        }
    }

    /// The state after a task was started: the conversation is forgotten,
    /// the system prompt is replaced where one is given, and the executor
    /// runs.
    pub open spec fn started(
        self,
        task_id: Seq<char>,
        description: Seq<char>,
        system_prompt: Option<Seq<char>>,
    ) -> ExecutorState {
        ExecutorState {
            status: StatusView::Running,
            task_id: Some(task_id),
            description: Some(description),
            config: match system_prompt {
                Some(p) => AgentConfigView { system_prompt: Some(p), ..self.config },
                None => self.config,
            },
            ..self.cleared()
        }
    }

    /// The state after an instruction was injected: it waits for the next
    /// step. A stuck executor runs again and counts anew; a completed one
    /// runs again; an idle one runs again where it has a task.
    pub open spec fn injected(self, content: Seq<char>) -> ExecutorState {
        let waiting = ExecutorState { pending_prompt: Some(content), ..self };
        match self.status {
            StatusView::Stuck => ExecutorState {
                status: StatusView::Running,
                stuck_count: 0,
                ..waiting
            },
            StatusView::Completed => ExecutorState { status: StatusView::Running, ..waiting },
            StatusView::Idle => if self.task_id is Some {
                ExecutorState { status: StatusView::Running, ..waiting }
            } else {
                waiting
            },
            _ => waiting,
        }
    }

    /// The state after a stop: idle, without a task and without a
    /// conversation.
    pub open spec fn stopped(self) -> ExecutorState {
        ExecutorState {
            status: StatusView::Idle,
            task_id: None,
            description: None,
            messages: Seq::empty(),
            steps: 0,
            ..self
        }
    }

    /// The state after the command `command` was carried out.
    pub open spec fn handled(self, command: CommandView) -> ExecutorState {
        match command {
            CommandView::StartTask { task_id, description, system_prompt } => self.started(
                task_id,
                description,
                system_prompt,
            ),
            CommandView::Pause => if self.status == StatusView::Running {
                ExecutorState { status: StatusView::Paused, ..self }
            } else {
                self
            },
            CommandView::Resume => if self.status == StatusView::Paused {
                ExecutorState { status: StatusView::Running, ..self }
            } else {
                self
            },
            CommandView::InjectPrompt { content } => self.injected(content),
            CommandView::ResetContext => self.cleared(),
            CommandView::Stop => self.stopped(),
        }
    }

    /// The state after the first waiting command was carried out.
    pub open spec fn after_next_command(self) -> ExecutorState {
        if self.queue.len() == 0 {
            self
        } else {
            (ExecutorState { queue: self.queue.skip(1), ..self }).handled(self.queue[0])
        }
    }

    /// The state after all waiting commands were carried out, in order.
    pub open spec fn drained(self) -> ExecutorState
        decreases self.queue.len(),
    {
        if self.queue.len() == 0 {
            self
        } else {
            self.after_next_command().drained()
        }
    }

    /// The instruction of the next step: the task on the first step, the
    /// waiting instruction afterwards.
    pub open spec fn next_instruction(self) -> Option<Seq<char>> {
        if self.steps == 0 {
            self.description
        } else {
            self.pending_prompt
        }
    }

    /// The state after the next step's instruction was taken: the waiting
    /// instruction is used up unless the step is the first.
    pub open spec fn instruction_taken(self) -> ExecutorState {
        if self.steps == 0 {
            self
        } else {
            ExecutorState { pending_prompt: None, ..self }
        }
    }

    /// Whether a step cannot be taken: the conversation is empty and there
    /// is no instruction.
    pub open spec fn lacks_task(self) -> bool {
        self.messages.len() == 0 && self.next_instruction() is None
    }

    /// The state after an answer was counted. An answer that was an action
    /// ends the run of answers that were not. One that was not adds to it,
    /// and at the threshold the conversation has overflowed: it is
    /// forgotten, the corrective prompt waits for the next step, and the
    /// count starts anew. The status is not touched.
    pub open spec fn answer_counted(self, parse_failure: bool) -> ExecutorState {
        if !parse_failure {
            ExecutorState { parse_errors: 0, ..self }
        } else if self.overflows() {
            ExecutorState {
                messages: Seq::empty(),
                steps: 0,
                stuck_count: 0,
                pending_prompt: Some(corrective_prompt()),
                parse_errors: 0,
                ..self
            }
        } else {
            ExecutorState { parse_errors: next_count(self.parse_errors), ..self }
        }
    }

    /// Whether one more answer that is no action makes the conversation
    /// overflow.
    pub open spec fn overflows(self) -> bool {
        next_count(self.parse_errors) >= self.parse_threshold
    }

    /// Whether the digest `hash` differs from the one seen last; the first
    /// digest counts as a change.
    pub open spec fn changed_by(self, hash: u64) -> bool {
        match self.last_hash {
            Some(last) => last != hash,
            None => true,
        }
    }

    /// The state after a step with the digest `hash` was looked at. A step
    /// whose answer was an action and that changed nothing adds to the
    /// count of idle steps, and at the threshold the executor is stuck; any
    /// other step ends the count. A step that finished the task completes
    /// the executor, stuck or not.
    pub open spec fn step_seen(self, hash: u64, parse_failure: bool, finished: bool)
        -> ExecutorState {
        let idle = !self.changed_by(hash) && !parse_failure;
        let count = if idle {
            next_count(self.stuck_count)
        } else {
            0
        };
        ExecutorState {
            last_hash: Some(hash),
            stuck_count: count,
            status: if finished {
                StatusView::Completed
            } else if idle && count >= self.stuck_threshold {
                StatusView::Stuck
            } else {
                self.status
            },
            ..self
        }
    }

    /// The state after a step without an answer of the model: the executor
    /// has failed, for the reason given.
    pub open spec fn failed(self, reason: Seq<char>) -> ExecutorState {
        ExecutorState { status: StatusView::Failed(reason), ..self }
    }

    /// The report on the state, with the summary `last` of the last step,
    /// made at the time `now`.
    pub open spec fn report(
        self,
        last: Option<SummaryView>,
        screen_changed: bool,
        overflow: bool,
        now: u64,
    ) -> FeedbackView {
        FeedbackView {
            task_id: self.task_id,
            step_count: self.steps,
            status: self.status,
            last_result: last,
            screen_changed,
            timestamp: now,
            context_overflow_detected: overflow,
            consecutive_parse_errors: self.parse_errors,
        }
    }
}

/// The executor.
#[derive(Debug, Clone, PartialEq, Eq)]
pub struct ExecutorWrapper {
    inner: PhoneAgent,
    status: ExecutorStatus,
    current_task_id: Option<String>,
    current_task_description: Option<String>,
    command_queue: VecDeque<ExecutorCommand>,
    last_screen_hash: Option<u64>,
    stuck_count: u32,
    stuck_threshold: u32,
    pending_prompt: Option<String>,
    consecutive_parse_errors: u32,
    parse_error_threshold: u32,
}

/// How a tick begins.
#[derive(Debug, Clone, PartialEq, Eq)]
pub enum TickStart {
    /// No step is taken; the tick ends with this report.
    Report(ExecutorFeedback),
    /// A step is to be taken, with this instruction.
    Step { instruction: Option<String>, is_first: bool },
}

/// How a tick ends: the report, the command to carry out on the device, if
/// there is one, and the result of the step, where the model answered.
#[derive(Debug, Clone, PartialEq, Eq)]
pub struct TickEnd {
    pub feedback: ExecutorFeedback,
    pub command: Option<DeviceCommand>,
    pub result: Option<StepResult>,
}

impl ExecutorWrapper {
    /// The state of the executor.
    pub closed spec fn state(self) -> ExecutorState {
        ExecutorState {
            status: self.status@,
            task_id: option_view(self.current_task_id),
            description: option_view(self.current_task_description),
            queue: commands_view(self.command_queue@),
            last_hash: self.last_screen_hash,
            stuck_count: self.stuck_count,
            stuck_threshold: self.stuck_threshold,
            parse_errors: self.consecutive_parse_errors,
            parse_threshold: self.parse_error_threshold,
            pending_prompt: option_view(self.pending_prompt),
            config: self.inner.config(),
            messages: self.inner.messages(),
            steps: self.inner.steps(),
        }
    }

    /// The dispatcher of the executor's agent.
    pub closed spec fn dispatcher(self) -> crate::actions::handler::ActionHandler {
        self.inner.handler()
    }

    /// The state of a new executor with the setup `config`: idle, with the
    /// standard thresholds.
    pub open spec fn initial(config: AgentConfigView) -> ExecutorState {
        ExecutorState {
            status: StatusView::Idle,
            task_id: None,
            description: None,
            queue: Seq::empty(),
            last_hash: None,
            stuck_count: 0,
            stuck_threshold: DEFAULT_STUCK_THRESHOLD,
            parse_errors: 0,
            parse_threshold: DEFAULT_PARSE_ERROR_THRESHOLD,
            pending_prompt: None,
            config,
            messages: Seq::empty(),
            steps: 0,
        }
    }

    /// A new executor.
    pub fn new(agent_config: AgentConfig) -> (r: Self)
        ensures
            r.state() == Self::initial(agent_config@),
            r.dispatcher().policy() == agent_config.coordinate_system,
            r.dispatcher().scales() == (agent_config.scale_x, agent_config.scale_y),
            r.dispatcher().device() == option_view(agent_config.device_id),
    {
        let r = ExecutorWrapper {
            inner: PhoneAgent::new(agent_config),
            status: ExecutorStatus::Idle,
            current_task_id: None,
            current_task_description: None,
            command_queue: VecDeque::new(),
            last_screen_hash: None,
            stuck_count: 0,
            stuck_threshold: DEFAULT_STUCK_THRESHOLD,
            pending_prompt: None,
            consecutive_parse_errors: 0,
            parse_error_threshold: DEFAULT_PARSE_ERROR_THRESHOLD,
        };
        assert(commands_view(r.command_queue@) =~= Seq::empty());
        r
    }

    /// The executor with another threshold for being stuck.
    pub fn with_stuck_threshold(self, threshold: u32) -> (r: Self)
        ensures
            r.state() == (ExecutorState { stuck_threshold: threshold, ..self.state() }),
            r.dispatcher() == self.dispatcher(),
    {
        let mut r = self;
        r.stuck_threshold = threshold;
        r
    }

    /// The executor with another threshold for an overflown conversation.
    pub fn with_parse_error_threshold(self, threshold: u32) -> (r: Self)
        ensures
            r.state() == (ExecutorState { parse_threshold: threshold, ..self.state() }),
            r.dispatcher() == self.dispatcher(),
    {
        let mut r = self;
        r.parse_error_threshold = threshold;
        r
    }

    /// The status.
    pub fn status(&self) -> (r: &ExecutorStatus)
        ensures
            r@ == self.state().status,
    {
        &self.status
    }

    /// Sets the status.
    pub fn set_status(&mut self, status: ExecutorStatus)
        ensures
            final(self).state() == (ExecutorState { status: status@, ..old(self).state() }),
            final(self).dispatcher() == old(self).dispatcher(),
    {
        self.status = status;
    }

    /// The task, if there is one.
    pub fn task_id(&self) -> (r: Option<&str>)
        ensures
            match r {
                Some(t) => self.state().task_id == Some(t@),
                None => self.state().task_id is None,
            },
    {
        match &self.current_task_id {
            Some(t) => Some(t.as_str()),
            None => None,
        }
    }

    /// The number of steps taken.
    pub fn step_count(&self) -> (r: u32)
        ensures
            r == self.state().steps,
    {
        self.inner.step_count()
    }

    /// The agent's conversation.
    pub fn context(&self) -> (r: &Vec<Message>)
        ensures
            messages_view(r@) == self.state().messages,
    {
        self.inner.context()
    }

    /// Puts a command at the end of the queue.
    pub fn enqueue(&mut self, cmd: ExecutorCommand)
        ensures
            final(self).state() == (ExecutorState {
                queue: old(self).state().queue.push(cmd@),
                ..old(self).state()
            }),
            final(self).dispatcher() == old(self).dispatcher(),
    {
        let ghost before = commands_view(self.command_queue@);
        self.command_queue.push_back(cmd);
        assert(commands_view(self.command_queue@) =~= before.push(cmd@));
    }

    /// Whether commands wait.
    pub fn has_pending_commands(&self) -> (r: bool)
        ensures
            r == (self.state().queue.len() > 0),
    {
        self.command_queue.len() > 0
    }

    /// Carries out the first waiting command, and says whether there was
    /// one.
    pub fn process_next_command(&mut self) -> (r: bool)
        ensures
            r == (old(self).state().queue.len() > 0),
            final(self).state() == old(self).state().after_next_command(),
            final(self).dispatcher() == old(self).dispatcher(),
    {
        let ghost before = commands_view(self.command_queue@);
        match self.command_queue.pop_front() {
            Some(cmd) => {
                assert(commands_view(self.command_queue@) =~= before.skip(1));
                assert(before[0] == cmd@);
                self.handle_command(cmd);
                true
            },
            None => false,
        }
    }

    /// Carries out a command.
    fn handle_command(&mut self, cmd: ExecutorCommand)
        ensures
            final(self).state() == old(self).state().handled(cmd@),
            final(self).dispatcher() == old(self).dispatcher(),
    {
        match cmd {
            ExecutorCommand::StartTask { task_id, description, system_prompt } => {
                self.start_task(task_id, description, system_prompt);
            },
            ExecutorCommand::Pause => {
                if self.status.is_running() {
                    self.status = ExecutorStatus::Paused;
                }
            },
            ExecutorCommand::Resume => {
                let paused = match &self.status {
                    ExecutorStatus::Paused => true,
                    _ => false,
                };
                if paused {
                    self.status = ExecutorStatus::Running;
                }
            },
            ExecutorCommand::InjectPrompt { content } => {
                self.pending_prompt = Some(content);
                let wake = match &self.status {
                    ExecutorStatus::Stuck => {
                        self.stuck_count = 0;
                        true
                    },
                    ExecutorStatus::Completed => true,
                    ExecutorStatus::Idle => self.current_task_id.is_some(),
                    _ => false,
                };
                if wake {
                    self.status = ExecutorStatus::Running;
                }
            },
            ExecutorCommand::ResetContext => {
                self.reset_context();
            },
            ExecutorCommand::Stop => {
                self.status = ExecutorStatus::Idle;
                self.current_task_id = None;
                self.current_task_description = None;
                self.inner.reset();
            },
        }
    }

    /// Starts a task.
    fn start_task(&mut self, task_id: String, description: String, system_prompt: Option<String>)
        ensures
            final(self).state() == old(self).state().started(
                task_id@,
                description@,
                option_view(system_prompt),
            ),
            final(self).dispatcher() == old(self).dispatcher(),
    {
        match system_prompt {
            Some(prompt) => self.inner.restart_with_prompt(prompt),
            None => self.inner.reset(),
        }
        self.last_screen_hash = None;
        self.stuck_count = 0;
        self.pending_prompt = None;
        self.current_task_id = Some(task_id);
        self.current_task_description = Some(description);
        self.status = ExecutorStatus::Running;
    }

    /// Forgets the conversation; the status and the task stay.
    fn reset_context(&mut self)
        ensures
            final(self).state() == old(self).state().cleared(),
            final(self).dispatcher() == old(self).dispatcher(),
    {
        self.inner.reset();
        self.last_screen_hash = None;
        self.stuck_count = 0;
        self.pending_prompt = None;
    }

    /// The report on the executor after a step with the result `result`, or
    /// after none.
    pub fn create_feedback(
        &self,
        result: Option<&StepResult>,
        screen_changed: bool,
        context_overflow: bool,
    ) -> (r: ExecutorFeedback)
        ensures
            r@ == self.state().report(
                match result {
                    Some(s) => Some(summary_of(s@)),
                    None => None,
                },
                screen_changed,
                context_overflow,
                r.timestamp,
            ),
    {
        ExecutorFeedback {
            task_id: match &self.current_task_id {
                Some(t) => Some(t.clone()),
                None => None,
            },
            step_count: self.inner.step_count(),
            status: self.status.duplicate(),
            last_result: match result {
                Some(s) => Some(StepResultSummary::from(s)),
                None => None,
            },
            screen_changed,
            timestamp: current_timestamp(),
            context_overflow_detected: context_overflow,
            consecutive_parse_errors: self.consecutive_parse_errors,
        }
    }
}

/// The text of the first thousand characters of a message.
fn message_head(message: &Message) -> (r: String)
    ensures
        r@ == head(message@.text, 1000),
{
    let chars = to_chars(message.text.as_str());
    if chars.len() > 1000 {
        assert(chars@.take(1000) == chars@.subrange(0, 1000));
        slice_to_string(&chars, 0, 1000)
    } else {
        message.text.clone()
    }
}

impl ExecutorState {
    /// Whether a tick that begins in this state takes a step: once the
    /// waiting commands are carried out the executor runs and has a
    /// conversation or an instruction.
    pub open spec fn takes_step(self) -> bool {
        self.drained().status == StatusView::Running && !self.drained().lacks_task()
    }

    /// The state after a tick was begun: the waiting commands are carried
    /// out; a running executor takes its next instruction, and fails where
    /// it has neither a conversation nor an instruction.
    pub open spec fn tick_begun(self) -> ExecutorState {
        let ready = self.drained();
        if ready.status != StatusView::Running {
            ready
        } else if ready.lacks_task() {
            ready.instruction_taken().failed(agent_error_text(AgentErrorView::TaskRequired))
        } else {
            ready.instruction_taken()
        }
    }

    /// The state after a tick was ended with the model's answer `answer`,
    /// or with the reason why there is none. `outcome` is the outcome of
    /// the step that the answer ends.
    pub open spec fn tick_ended(
        self,
        outcome: StepOutcomeView,
        answer: Result<(Seq<char>, Seq<char>), Seq<char>>,
    ) -> ExecutorState {
        match answer {
            Ok((thinking, action)) => tick_answered(self, outcome, thinking, action),
            Err(reason) => self.failed(agent_error_text(AgentErrorView::ModelError(reason))),
        }
    }

    /// The report after a tick was ended, made at the time `now`.
    pub open spec fn tick_end_report(
        self,
        outcome: StepOutcomeView,
        answer: Result<(Seq<char>, Seq<char>), Seq<char>>,
        now: u64,
    ) -> FeedbackView {
        match answer {
            Ok((thinking, action)) => tick_report(self, outcome, thinking, action, now),
            Err(reason) => self.tick_ended(outcome, answer).report(None, true, false, now),
        }
    }
}

/// The thinking and the action of an answer, or the reason why there is no
/// answer, as mathematical values.
pub open spec fn answer_view(response: Result<ModelResponse, String>) -> Result<
    (Seq<char>, Seq<char>),
    Seq<char>,
> {
    match response {
        Ok(answer) => Ok((answer.thinking@, answer.action@)),
        Err(reason) => Err(reason@),
    }
}

/// The outcome of the step that an answer ends; without an answer there is
/// no step, and the outcome is of no account.
pub open spec fn step_of(
    handler: crate::actions::handler::ActionHandler,
    response: Result<ModelResponse, String>,
    width: u32,
    height: u32,
    confirmed: bool,
) -> StepOutcomeView {
    match response {
        Ok(answer) => concluded_step(
            handler,
            answer.thinking@,
            answer.action@,
            width,
            height,
            confirmed,
        ),
        Err(reason) => concluded_step(handler, Seq::empty(), Seq::empty(), width, height, confirmed),
    }
}

/// The state after a tick whose step ended with the model's answer: the
/// conversation is brought up to date, the answer is counted and the step
/// is looked at.
pub open spec fn tick_answered(
    start: ExecutorState,
    outcome: StepOutcomeView,
    thinking: Seq<char>,
    answer: Seq<char>,
) -> ExecutorState {
    let said = ExecutorState {
        messages: concluded_messages(start.messages, thinking, answer),
        ..start
    };
    let counted = said.answer_counted(outcome.result.is_parse_failure());
    counted.step_seen(
        digest_of(counted.messages),
        outcome.result.is_parse_failure(),
        outcome.result.finished,
    )
}

/// The report after a tick whose step ended with the model's answer, made
/// at the time `now`.
pub open spec fn tick_report(
    start: ExecutorState,
    outcome: StepOutcomeView,
    thinking: Seq<char>,
    answer: Seq<char>,
    now: u64,
) -> FeedbackView {
    let said = ExecutorState {
        messages: concluded_messages(start.messages, thinking, answer),
        ..start
    };
    let counted = said.answer_counted(outcome.result.is_parse_failure());
    tick_answered(start, outcome, thinking, answer).report(
        Some(summary_of(outcome.result)),
        counted.changed_by(digest_of(counted.messages)),
        outcome.result.is_parse_failure() && said.overflows(),
        now,
    )
}

impl ExecutorWrapper {
    /// Counts an answer of the model, and says whether the conversation has
    /// overflowed with it.
    pub fn count_answer(&mut self, parse_failure: bool) -> (overflow: bool)
        ensures
            final(self).state() == old(self).state().answer_counted(parse_failure),
            overflow == (parse_failure && old(self).state().overflows()),
            final(self).dispatcher() == old(self).dispatcher(),
    {
        if !parse_failure {
            self.consecutive_parse_errors = 0;
            return false;
        }
        let count = if self.consecutive_parse_errors < u32::MAX {
            self.consecutive_parse_errors + 1
        } else {
            self.consecutive_parse_errors
        };
        if count >= self.parse_error_threshold {
            self.inner.reset();
            self.stuck_count = 0;
            self.pending_prompt = Some(
                String::from_str("请严格输出 do(...) 或 finish(...)，不要重复总结，直接给动作指令。"),
            );
            self.consecutive_parse_errors = 0;
            true
        } else {
            self.consecutive_parse_errors = count;
            false
        }
    }

    /// Looks at a step by the digest of the conversation after it, and says
    /// whether the conversation changed.
    pub fn see_step(&mut self, hash: u64, parse_failure: bool, finished: bool) -> (changed: bool)
        ensures
            final(self).state() == old(self).state().step_seen(hash, parse_failure, finished),
            changed == old(self).state().changed_by(hash),
            final(self).dispatcher() == old(self).dispatcher(),
    {
        let changed = match self.last_screen_hash {
            Some(last) => last != hash,
            None => true,
        };
        self.last_screen_hash = Some(hash);
        if !changed && !parse_failure {
            if self.stuck_count < u32::MAX {
                self.stuck_count = self.stuck_count + 1;
            }
            if self.stuck_count >= self.stuck_threshold {
                self.status = ExecutorStatus::Stuck;
            }
        } else {
            self.stuck_count = 0;
        }
        if finished {
            self.status = ExecutorStatus::Completed;
        }
        changed
    }

    /// The digest of the conversation.
    pub fn calculate_context_hash(&self) -> (r: u64)
        ensures
            r == digest_of(self.state().messages),
    {
        let context = self.inner.context();
        let n = context.len();
        let take: usize = if n < 3 {
            n
        } else {
            3
        };
        let mut parts: Vec<String> = Vec::new();
        let mut i: usize = 0;
        while i < take
            invariant
                i <= take <= n == context.len(),
                take <= 3,
                parts.len() == i,
                forall|j: int|
                    0 <= j < i ==> (#[trigger] parts@[j])@ == head(context@[n - 1 - j]@.text, 1000),
            decreases take - i,
        {
            let part = message_head(&context[n - 1 - i]);
            parts.push(part);
            i += 1;
        }
        assert(crate::json::texts_view(parts@) =~= digest_input(messages_view(context@)));
        digest(&parts)
    }

    /// Begins a tick: carries out the waiting commands and says whether a
    /// step is to be taken.
    ///
    /// No step is taken unless the executor runs. A running executor takes
    /// a step with its next instruction; where it has neither a
    /// conversation nor an instruction it fails.
    pub fn tick_start(&mut self) -> (r: TickStart)
        ensures
            final(self).dispatcher() == old(self).dispatcher(),
            final(self).state() == old(self).state().tick_begun(),
            (r is Step) == old(self).state().takes_step(),
            r matches TickStart::Report(fb) ==> fb@ == final(self).state().report(
                None,
                true,
                false,
                fb.timestamp,
            ),
            ({
                let ready = old(self).state().drained();
                if ready.status != StatusView::Running {
                    &&& final(self).state() == ready
                    &&& r matches TickStart::Report(fb)
                    &&& fb@ == ready.report(None, true, false, fb.timestamp)
                } else if ready.lacks_task() {
                    let failed = ready.instruction_taken().failed(
                        agent_error_text(AgentErrorView::TaskRequired),
                    );
                    &&& final(self).state() == failed
                    &&& r matches TickStart::Report(fb)
                    &&& fb@ == failed.report(None, true, false, fb.timestamp)
                } else {
                    &&& final(self).state() == ready.instruction_taken()
                    &&& r matches TickStart::Step { instruction, is_first }
                    &&& option_view(instruction) == ready.next_instruction()
                    &&& is_first == (ready.messages.len() == 0)
                }
            }),
    {
        loop
            invariant
                self.state().drained() == old(self).state().drained(),
                self.dispatcher() == old(self).dispatcher(),
            ensures
                self.state().queue.len() == 0,
                self.state().drained() == old(self).state().drained(),
                self.dispatcher() == old(self).dispatcher(),
            decreases self.state().queue.len(),
        {
            if !self.process_next_command() {
                break ;
            }
        }
        if !self.status.is_running() {
            return TickStart::Report(self.create_feedback(None, true, false));
        }
        let instruction = if self.inner.step_count() == 0 {
            match &self.current_task_description {
                Some(d) => Some(d.clone()),
                None => None,
            }
        } else {
            self.pending_prompt.take()
        };
        let kind = match &instruction {
            Some(i) => self.inner.step(Some(i.as_str())),
            None => self.inner.step(None),
        };
        match kind {
            Ok(is_first) => TickStart::Step { instruction, is_first },
            Err(e) => {
                self.status = ExecutorStatus::Failed(e.message());
                TickStart::Report(self.create_feedback(None, true, false))
            },
        }
    }

    /// Shows the screen to the model: adds to the conversation what opens
    /// the step.
    pub fn tick_screen(
        &mut self,
        instruction: Option<&str>,
        is_first: bool,
        screenshot: &Screenshot,
        current_app: &str,
        today: &LocalDate,
    )
        ensures
            final(self).dispatcher() == old(self).dispatcher(),
            final(self).state() == (ExecutorState {
                steps: next_count(old(self).state().steps),
                messages: old(self).state().messages + opening(
                    old(self).state().config,
                    match instruction {
                        Some(p) => Some(p@),
                        None => None,
                    },
                    is_first,
                    screenshot.base64_data@,
                    screenshot.width,
                    screenshot.height,
                    current_app@,
                    *today,
                ),
                ..old(self).state()
            }),
    {
        self.inner.begin_step(instruction, is_first, screenshot, current_app, today);
    }

    /// The message that the user must confirm before the action that
    /// `answer` asks for is carried out, if it asks for a sensitive one.
    pub fn confirmation_for(&self, answer: &str) -> (r: Option<String>)
        ensures
            option_view(r) == match crate::actions::parser::parse(answer@) {
                Ok(action) => crate::actions::handler::confirmation_message(action),
                Err(_) => None,
            },
    {
        self.inner.confirmation_for(answer)
    }

    /// Ends a tick with the model's answer, or with the reason why there is
    /// none.
    ///
    /// Without an answer the executor fails at once. With one, the step is
    /// ended, the answer is counted, the conversation's digest is compared
    /// with the last one, and the report says what was found.
    pub fn tick_finish(
        &mut self,
        response: Result<ModelResponse, String>,
        screen_width: u32,
        screen_height: u32,
        confirmed: bool,
    ) -> (r: TickEnd)
        ensures
            final(self).dispatcher() == old(self).dispatcher(),
            final(self).state() == old(self).state().tick_ended(
                step_of(old(self).dispatcher(), response, screen_width, screen_height, confirmed),
                answer_view(response),
            ),
            r.feedback@ == old(self).state().tick_end_report(
                step_of(old(self).dispatcher(), response, screen_width, screen_height, confirmed),
                answer_view(response),
                r.feedback.timestamp,
            ),
            match response {
                Err(reason) => {
                    let failed = old(self).state().failed(
                        agent_error_text(AgentErrorView::ModelError(reason@)),
                    );
                    &&& final(self).state() == failed
                    &&& r.command is None
                    &&& r.result is None
                    &&& r.feedback@ == failed.report(None, true, false, r.feedback.timestamp)
                },
                Ok(answer) => {
                    let outcome = concluded_step(
                        old(self).dispatcher(),
                        answer.thinking@,
                        answer.action@,
                        screen_width,
                        screen_height,
                        confirmed,
                    );
                    &&& final(self).state() == tick_answered(
                        old(self).state(),
                        outcome,
                        answer.thinking@,
                        answer.action@,
                    )
                    &&& r.feedback@ == tick_report(
                        old(self).state(),
                        outcome,
                        answer.thinking@,
                        answer.action@,
                        r.feedback.timestamp,
                    )
                    &&& (match r.command {
                        Some(c) => outcome.command == Some(c@),
                        None => outcome.command is None,
                    })
                    &&& r.result matches Some(result) && result@ == outcome.result
                },
            },
    {
        match self.inner.finish_step(response, screen_width, screen_height, confirmed) {
            Ok(outcome) => {
                let parse_failure = outcome.result.is_parse_failure();
                let overflow = self.count_answer(parse_failure);
                let hash = self.calculate_context_hash();
                let changed = self.see_step(hash, parse_failure, outcome.result.finished);
                let feedback = self.create_feedback(Some(&outcome.result), changed, overflow);
                TickEnd { feedback, command: outcome.command, result: Some(outcome.result) }
            },
            Err(e) => {
                self.status = ExecutorStatus::Failed(e.message());
                TickEnd {
                    feedback: self.create_feedback(None, true, false),
                    command: None,
                    result: None,
                }
            },
        }
    }
}

/// The state after `n` more steps that answered with an action, did not
/// finish the task, and left the conversation with the digest `hash`.
pub open spec fn idle_steps(st: ExecutorState, hash: u64, n: nat) -> ExecutorState
    decreases n,
{
    if n == 0 {
        st
    } else {
        idle_steps(st, hash, (n - 1) as nat).step_seen(hash, false, false)
    }
}

/// A running executor that keeps seeing the digest it saw last is stuck
/// exactly when the count of such steps reaches the threshold: with the
/// threshold 3 and the count at 0, on the third step and not before.
pub proof fn law_stuck_at_threshold(st: ExecutorState, hash: u64, n: nat)
    requires
        st.status == StatusView::Running,
        st.last_hash == Some(hash),
        st.stuck_count == 0,
        n <= st.stuck_threshold,
    ensures
        idle_steps(st, hash, n).stuck_count == n,
        idle_steps(st, hash, n).last_hash == Some(hash),
        n < st.stuck_threshold ==> idle_steps(st, hash, n).status == StatusView::Running,
        n == st.stuck_threshold && n > 0 ==> idle_steps(st, hash, n).status == StatusView::Stuck,
        idle_steps(st, hash, n).stuck_threshold == st.stuck_threshold,
    decreases n,
{
    if n > 0 {
        law_stuck_at_threshold(st, hash, (n - 1) as nat);
    }
}

/// With the standard threshold, three steps in a row that leave the digest
/// as it was make a running executor stuck, on the third step and not
/// before.
pub proof fn law_stuck_on_third_step(st: ExecutorState, hash: u64)
    requires
        st.status == StatusView::Running,
        st.last_hash == Some(hash),
        st.stuck_count == 0,
        st.stuck_threshold == DEFAULT_STUCK_THRESHOLD,
    ensures
        st.step_seen(hash, false, false).status == StatusView::Running,
        st.step_seen(hash, false, false).step_seen(hash, false, false).status
            == StatusView::Running,
        st.step_seen(hash, false, false).step_seen(hash, false, false).step_seen(
            hash,
            false,
            false,
        ).status == StatusView::Stuck,
{
}

/// A step that leaves another digest than the one seen last, and a step
/// whose answer was no action, end the count of idle steps, whatever it
/// was; neither makes the executor stuck.
pub proof fn law_change_resets_count(
    st: ExecutorState,
    hash: u64,
    parse_failure: bool,
    finished: bool,
)
    requires
        st.changed_by(hash) || parse_failure,
    ensures
        st.step_seen(hash, parse_failure, finished).stuck_count == 0,
        !finished ==> st.step_seen(hash, parse_failure, finished).status == st.status,
{
}

/// With the standard threshold, three answers in a row that are no action
/// make the conversation overflow, on the third answer and not before. The
/// status is the same after each of them; after the third the conversation
/// is forgotten and the corrective prompt waits.
pub proof fn law_overflow_on_third_failure(st: ExecutorState)
    requires
        st.parse_errors == 0,
        st.parse_threshold == DEFAULT_PARSE_ERROR_THRESHOLD,
    ensures
        !st.overflows(),
        !st.answer_counted(true).overflows(),
        st.answer_counted(true).answer_counted(true).overflows(),
        st.answer_counted(true).status == st.status,
        st.answer_counted(true).answer_counted(true).status == st.status,
        st.answer_counted(true).answer_counted(true).answer_counted(true).status == st.status,
        st.answer_counted(true).answer_counted(true).answer_counted(true).messages
            == Seq::<MessageView>::empty(),
        st.answer_counted(true).answer_counted(true).answer_counted(true).pending_prompt == Some(
            corrective_prompt(),
        ),
        st.answer_counted(true).answer_counted(true).answer_counted(true).parse_errors == 0,
{
}

/// An answer that is an action ends the run of answers that were not.
pub proof fn law_action_ends_failures(st: ExecutorState)
    ensures
        st.answer_counted(false).parse_errors == 0,
        st.answer_counted(false).status == st.status,
        st.answer_counted(false).messages == st.messages,
{
}

/// An injected instruction makes a completed executor run again, and an
/// idle one where it has a task; an idle executor without a task stays
/// idle. In each case the instruction waits for the next step.
pub proof fn law_inject_revives(st: ExecutorState, content: Seq<char>)
    ensures
        st.status == StatusView::Completed ==> st.handled(
            CommandView::InjectPrompt { content },
        ).status == StatusView::Running,
        st.status == StatusView::Idle && st.task_id is Some ==> st.handled(
            CommandView::InjectPrompt { content },
        ).status == StatusView::Running,
        st.status == StatusView::Idle && st.task_id is None ==> st.handled(
            CommandView::InjectPrompt { content },
        ).status == StatusView::Idle,
        st.handled(CommandView::InjectPrompt { content }).pending_prompt == Some(content),
{
}

/// A pause, a resume, a reset of the conversation and a stop never make a
/// completed or an idle executor run.
pub proof fn law_only_prompts_and_tasks_revive(st: ExecutorState, command: CommandView)
    requires
        st.status == StatusView::Completed || st.status == StatusView::Idle,
        command is Pause || command is Resume || command is ResetContext || command is Stop,
    ensures
        st.handled(command).status != StatusView::Running,
{
}

/// A reset of the conversation touches neither the status nor the task
/// nor the waiting commands.
pub proof fn law_reset_keeps_status(st: ExecutorState)
    ensures
        st.handled(CommandView::ResetContext).status == st.status,
        st.handled(CommandView::ResetContext).task_id == st.task_id,
        st.handled(CommandView::ResetContext).queue == st.queue,
        st.handled(CommandView::ResetContext).messages == Seq::<MessageView>::empty(),
{
}

/// `s`, cut after four hundred characters, with a note on how many were
/// left out where it is longer.
pub open spec fn shortened(s: Seq<char>) -> Seq<char> {
    if s.len() > 400 {
        s.take(400) + "... <"@ + decimal((s.len() - 400) as nat) + " chars truncated>"@
    } else {
        s
    }
}

/// The name of a role.
pub open spec fn role_name(role: Role) -> Seq<char> {
    match role {
        Role::System => "system"@,
        Role::User => "user"@,
        Role::Assistant => "assistant"@,
    }
}

/// What a snapshot shows of a message: who spoke, and the shortened text.
pub open spec fn message_summary(message: MessageView) -> Seq<char> {
    role_name(message.role) + ": "@ + shortened(message.text)
}

/// What a snapshot shows of an action: its kind, and the name of an action
/// that was to be done.
pub open spec fn action_summary(action: StepActionView) -> Seq<char> {
    match action {
        StepActionView::Parsed(ActionView::Do { name, params }) => "do: "@ + shortened(name),
        StepActionView::Parsed(ActionView::Finish { message }) => "finish"@,
        StepActionView::ParseFailed { message } => "error: "@ + shortened(message),
    }
}

/// What a snapshot shows of a conversation: its last four messages, the
/// last one first.
pub open spec fn recent_summaries(messages: Seq<MessageView>) -> Seq<Seq<char>> {
    let n = if messages.len() < 4 {
        messages.len() as int
    } else {
        4
    };
    Seq::new(n as nat, |i: int| message_summary(messages[messages.len() - 1 - i]))
}

/// A small picture of the executor after a tick, for the record.
#[derive(Debug, Clone, PartialEq, Eq)]
pub struct ContextSnapshot {
    pub timestamp: u64,
    pub step: u32,
    pub status: ExecutorStatus,
    pub context_overflow: bool,
    pub consecutive_parse_errors: u32,
    pub context: Vec<String>,
    pub thinking: Option<String>,
    pub message: Option<String>,
    pub action: Option<String>,
}

/// Shortens a text.
pub fn shorten(s: &str) -> (r: String)
    ensures
        r@ == shortened(s@),
{
    let chars = to_chars(s);
    if chars.len() > 400 {
        let mut out = crate::text::copy_range(&chars, 0, 400);
        assert(chars@.take(400) == chars@.subrange(0, 400));
        push_str(&mut out, "... <");
        push_decimal(&mut out, (chars.len() - 400) as u128);
        push_str(&mut out, " chars truncated>");
        from_chars(&out)
    } else {
        String::from_str(s)
    }
}

/// What a snapshot shows of a message.
pub fn summarize_message(message: &Message) -> (r: String)
    ensures
        r@ == message_summary(message@),
{
    let mut out: Vec<char> = Vec::new();
    match message.role {
        Role::System => push_str(&mut out, "system"),
        Role::User => push_str(&mut out, "user"),
        Role::Assistant => push_str(&mut out, "assistant"),
    }
    push_str(&mut out, ": ");
    push_str(&mut out, shorten(message.text.as_str()).as_str());
    from_chars(&out)
}

/// What a snapshot shows of an action.
pub fn summarize_action(action: &StepAction) -> (r: String)
    ensures
        r@ == action_summary(action@),
{
    match action {
        StepAction::Parsed(crate::actions::parser::Action::Do { name, .. }) => {
            let mut out = to_chars("do: ");
            push_str(&mut out, shorten(name.as_str()).as_str());
            from_chars(&out)
        },
        StepAction::Parsed(crate::actions::parser::Action::Finish { .. }) => String::from_str(
            "finish",
        ),
        StepAction::ParseFailed { message } => {
            let mut out = to_chars("error: ");
            push_str(&mut out, shorten(message.as_str()).as_str());
            from_chars(&out)
        },
    }
}

impl ExecutorWrapper {
    /// The setup of the executor's agent.
    pub fn agent_config(&self) -> (r: &AgentConfig)
        ensures
            r@ == self.state().config,
    {
        self.inner.agent_config()
    }

    /// The commands that wait.
    pub fn pending_commands(&self) -> (r: &VecDeque<ExecutorCommand>)
        ensures
            commands_view(r@) == self.state().queue,
    {
        &self.command_queue
    }

    /// A small picture of the executor after a step with the result
    /// `result`, or after none.
    pub fn context_snapshot(&self, result: Option<&StepResult>, context_overflow: bool) -> (r:
        ContextSnapshot)
        ensures
            r.step == self.state().steps,
            r.status@ == self.state().status,
            r.context_overflow == context_overflow,
            r.consecutive_parse_errors == self.state().parse_errors,
            crate::json::texts_view(r.context@) == recent_summaries(self.state().messages),
            option_view(r.thinking) == (match result {
                Some(s) => Some(shortened(s@.thinking)),
                None => None,
            }),
            option_view(r.message) == (match result {
                Some(s) => s@.message,
                None => None,
            }),
            option_view(r.action) == (match result {
                Some(s) => match s@.action {
                    Some(a) => Some(action_summary(a)),
                    None => None,
                },
                None => None,
            }),
    {
        let context = self.inner.context();
        let n = context.len();
        let take: usize = if n < 4 {
            n
        } else {
            4
        };
        let mut recent: Vec<String> = Vec::new();
        let mut i: usize = 0;
        while i < take
            invariant
                i <= take <= n == context.len(),
                take <= 4,
                recent.len() == i,
                forall|j: int|
                    0 <= j < i ==> (#[trigger] recent@[j])@ == message_summary(
                        context@[n - 1 - j]@,
                    ),
            decreases take - i,
        {
            recent.push(summarize_message(&context[n - 1 - i]));
            i += 1;
        }
        assert(crate::json::texts_view(recent@) =~= recent_summaries(messages_view(context@)));
        ContextSnapshot {
            timestamp: current_timestamp(),
            step: self.inner.step_count(),
            status: self.status.duplicate(),
            context_overflow,
            consecutive_parse_errors: self.consecutive_parse_errors,
            context: recent,
            thinking: match result {
                Some(s) => Some(shorten(s.thinking.as_str())),
                None => None,
            },
            message: match result {
                Some(s) => match &s.message {
                    Some(m) => Some(m.clone()),
                    None => None,
                },
                None => None,
            },
            action: match result {
                Some(s) => match &s.action {
                    Some(a) => Some(summarize_action(a)),
                    None => None,
                },
                None => None,
            },
        }
    }
}

/// A tick whose answer is no action, the third such answer in a row under
/// the standard threshold, reports the overflow and leaves the status as
/// it was; the ticks before it report none. A tick whose answer is an
/// action never reports an overflow.
pub proof fn law_tick_reports_overflow(
    st: ExecutorState,
    handler: crate::actions::handler::ActionHandler,
    thinking: Seq<char>,
    answer: Seq<char>,
    width: u32,
    height: u32,
    confirmed: bool,
    now: u64,
)
    requires
        st.parse_threshold == DEFAULT_PARSE_ERROR_THRESHOLD,
        st.parse_errors < DEFAULT_PARSE_ERROR_THRESHOLD,
    ensures
        ({
            let outcome = concluded_step(handler, thinking, answer, width, height, confirmed);
            let report = tick_report(st, outcome, thinking, answer, now);
            let after = tick_answered(st, outcome, thinking, answer);
            &&& report.context_overflow_detected == (crate::actions::parser::parse(answer) is Err
                && st.parse_errors == 2)
            &&& crate::actions::parser::parse(answer) is Err ==> after.status == st.status
                && report.status == st.status
            &&& report.context_overflow_detected ==> after.messages == Seq::<MessageView>::empty()
                && after.pending_prompt == Some(corrective_prompt()) && after.parse_errors == 0
            &&& crate::actions::parser::parse(answer) is Ok ==> after.parse_errors == 0
        }),
{
}

/// A tick whose answer is an action that does not finish the task, and
/// that leaves the conversation with the digest seen last, counts as idle:
/// the report says that nothing changed, and the executor is stuck exactly
/// where this is the idle tick that reaches the threshold. A tick that
/// leaves another digest starts the count anew.
pub proof fn law_tick_counts_idle_steps(
    st: ExecutorState,
    handler: crate::actions::handler::ActionHandler,
    thinking: Seq<char>,
    answer: Seq<char>,
    width: u32,
    height: u32,
    confirmed: bool,
    now: u64,
)
    requires
        st.status == StatusView::Running,
        st.stuck_count < u32::MAX,
        crate::actions::parser::parse(answer) is Ok,
        !concluded_step(handler, thinking, answer, width, height, confirmed).result.finished,
    ensures
        ({
            let outcome = concluded_step(handler, thinking, answer, width, height, confirmed);
            let report = tick_report(st, outcome, thinking, answer, now);
            let after = tick_answered(st, outcome, thinking, answer);
            let digest = digest_of(concluded_messages(st.messages, thinking, answer));
            &&& after.last_hash == Some(digest)
            &&& report.screen_changed == (st.last_hash != Some(digest))
            &&& st.last_hash == Some(digest) ==> after.stuck_count == st.stuck_count + 1 && (
            after.status == StatusView::Stuck) == (st.stuck_count + 1 >= st.stuck_threshold)
            &&& st.last_hash != Some(digest) ==> after.stuck_count == 0 && after.status
                == StatusView::Running
        }),
{
}

} // verus!
