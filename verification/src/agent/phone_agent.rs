//! The single-step agent: one look at the screen, one answer of the model,
//! one action.
//!
//! The agent takes no screenshot and calls no model itself. A step has two
//! halves: [`PhoneAgent::begin_step`] adds what the model is to see to the
//! conversation, and [`PhoneAgent::finish_step`] takes the model's answer,
//! checks the action and says what is to be done on the device.

use crate::actions::coordinates::{CoordinateSystem, Scale};
use crate::actions::handler::{
    confirmation_message, ActionHandler, ActionResultView, DeviceCommand, DeviceCommandView,
    text_param,
};
use crate::actions::parser::{option_view, parse, parse_action, Action, ActionError, ActionView};
use crate::adb::screenshot::Screenshot;
use crate::config::prompts::{
    get_system_prompt, get_system_prompt_relative, get_system_prompt_with_resolution, prompt,
    prompt_relative, LocalDate,
};
use crate::model::client::ModelResponse;
use crate::model::message::{
    messages_view, plain, screen_info, Message, MessageBuilder, MessageView, Role,
};
use crate::text::{from_chars, push_str, slice_to_string, to_chars};
use vstd::prelude::*;

verus! {

/// Why the agent could not go on.
#[derive(Debug, Clone, PartialEq, Eq)]
pub enum AgentError {
    ModelError(String),
    ActionError(String),
    TaskRequired,
    MaxStepsReached,
}

/// The mathematical value of an [`AgentError`].
pub enum AgentErrorView {
    ModelError(Seq<char>),
    ActionError(Seq<char>),
    TaskRequired,
    MaxStepsReached,
}

impl View for AgentError {
    type V = AgentErrorView;

    open spec fn view(&self) -> AgentErrorView {
        match self {
            AgentError::ModelError(t) => AgentErrorView::ModelError(t@),
            AgentError::ActionError(t) => AgentErrorView::ActionError(t@),
            AgentError::TaskRequired => AgentErrorView::TaskRequired,
            AgentError::MaxStepsReached => AgentErrorView::MaxStepsReached,
        }
    }
}

/// The text of an error, as it is shown to a reader.
pub open spec fn agent_error_text(e: AgentErrorView) -> Seq<char> {
    match e {
        AgentErrorView::ModelError(t) => "Model error: "@ + t,
        AgentErrorView::ActionError(t) => "Action error: "@ + t,
        AgentErrorView::TaskRequired => "Task required for first step"@,
        AgentErrorView::MaxStepsReached => "Max steps reached"@,
    }
}

impl AgentError {
    /// The text of the error, as it is shown to a reader.
    pub fn message(&self) -> (r: String)
        ensures
            r@ == agent_error_text(self@),
    {
        match self {
            AgentError::ModelError(t) => {
                let mut out = to_chars("Model error: ");
                push_str(&mut out, t.as_str());
                from_chars(&out)
            },
            AgentError::ActionError(t) => {
                let mut out = to_chars("Action error: ");
                push_str(&mut out, t.as_str());
                from_chars(&out)
            },
            AgentError::TaskRequired => String::from_str("Task required for first step"),
            AgentError::MaxStepsReached => String::from_str("Max steps reached"),
        }
    }
}

/// How the agent is set up.
#[derive(Debug, Clone, PartialEq, Eq)]
pub struct AgentConfig {
    /// After how many steps a run gives up.
    pub max_steps: u32,
    /// The device, where there are several.
    pub device_id: Option<String>,
    /// The language: "cn" or "en".
    pub lang: String,
    /// The system prompt, where the standard one is not wanted.
    pub system_prompt: Option<String>,
    /// Whether progress is to be shown.
    pub verbose: bool,
    /// The scale of the model's x coordinates under the absolute policy.
    pub scale_x: Scale,
    /// The scale of the model's y coordinates under the absolute policy.
    pub scale_y: Scale,
    /// The coordinate policy.
    pub coordinate_system: CoordinateSystem,
}

/// The mathematical value of an [`AgentConfig`].
pub struct AgentConfigView {
    pub max_steps: u32,
    pub device_id: Option<Seq<char>>,
    pub lang: Seq<char>,
    pub system_prompt: Option<Seq<char>>,
    pub verbose: bool,
    pub scale_x: Scale,
    pub scale_y: Scale,
    pub coordinate_system: CoordinateSystem,
}

impl View for AgentConfig {
    type V = AgentConfigView;

    open spec fn view(&self) -> AgentConfigView {
        AgentConfigView {
            max_steps: self.max_steps,
            device_id: option_view(self.device_id),
            lang: self.lang@,
            system_prompt: option_view(self.system_prompt),
            verbose: self.verbose,
            scale_x: self.scale_x,
            scale_y: self.scale_y,
            coordinate_system: self.coordinate_system,
        }
    }
}

impl AgentConfigView {
    /// The standard setup: a hundred steps, Chinese, progress shown, the
    /// absolute policy with the standard scale.
    pub open spec fn standard() -> AgentConfigView {
        AgentConfigView {
            max_steps: 100,
            device_id: None,
            lang: "cn"@,
            system_prompt: None,
            verbose: true,
            scale_x: Scale::standard_spec(),
            scale_y: Scale::standard_spec(),
            coordinate_system: CoordinateSystem::Absolute,
        }
    }

    /// The system prompt: the configured one, or the standard one of the
    /// language and the policy for a screen of `width` by `height` pixels.
    pub open spec fn system_prompt_for(self, width: u32, height: u32, today: LocalDate) -> Seq<
        char,
    > {
        match self.system_prompt {
            Some(p) => p,
            None => match self.coordinate_system {
                CoordinateSystem::Relative => prompt_relative(self.lang, today),
                CoordinateSystem::Absolute => prompt(self.lang, width, height, today),
            },
        }
    }
}

impl Default for AgentConfig {
    fn default() -> (r: Self)
        ensures
            r@ == AgentConfigView::standard(),
    {
        AgentConfig {
            max_steps: 100,
            device_id: None,
            lang: String::from_str("cn"),
            system_prompt: None,
            verbose: true,
            scale_x: Scale::standard(),
            scale_y: Scale::standard(),
            coordinate_system: CoordinateSystem::Absolute,
        }
    }
}

impl AgentConfig {
    /// The standard setup under the relative policy, with the scale 1.
    pub fn relative() -> (r: Self)
        ensures
            r@ == (AgentConfigView {
                scale_x: r.scale_x,
                scale_y: r.scale_y,
                coordinate_system: CoordinateSystem::Relative,
                ..AgentConfigView::standard()
            }),
            r.scale_x.numerator() == 1 && r.scale_x.denominator() == 1,
            r.scale_y.numerator() == 1 && r.scale_y.denominator() == 1,
    {
        AgentConfig {
            max_steps: 100,
            device_id: None,
            lang: String::from_str("cn"),
            system_prompt: None,
            verbose: true,
            scale_x: Scale::identity(),
            scale_y: Scale::identity(),
            coordinate_system: CoordinateSystem::Relative,
        }
    }

    /// The setup for the device `device_id`.
    pub fn with_device_id(self, device_id: &str) -> (r: Self)
        ensures
            r@ == (AgentConfigView { device_id: Some(device_id@), ..self@ }),
    {
        let mut r = self;
        r.device_id = Some(String::from_str(device_id));
        r
    }

    /// The setup in the language `lang`.
    pub fn with_lang(self, lang: &str) -> (r: Self)
        ensures
            r@ == (AgentConfigView { lang: lang@, ..self@ }),
    {
        let mut r = self;
        r.lang = String::from_str(lang);
        r
    }

    /// The setup with another limit of steps.
    pub fn with_max_steps(self, max_steps: u32) -> (r: Self)
        ensures
            r@ == (AgentConfigView { max_steps, ..self@ }),
    {
        let mut r = self;
        r.max_steps = max_steps;
        r
    }

    /// The setup that shows no progress.
    pub fn quiet(self) -> (r: Self)
        ensures
            r@ == (AgentConfigView { verbose: false, ..self@ }),
    {
        let mut r = self;
        r.verbose = false;
        r
    }

    /// The setup with other scales.
    pub fn with_scale(self, scale_x: Scale, scale_y: Scale) -> (r: Self)
        ensures
            r@ == (AgentConfigView { scale_x, scale_y, ..self@ }),
    {
        let mut r = self;
        r.scale_x = scale_x;
        r.scale_y = scale_y;
        r
    }

    /// The setup with one scale for both axes.
    pub fn with_uniform_scale(self, scale: Scale) -> (r: Self)
        ensures
            r@ == (AgentConfigView { scale_x: scale, scale_y: scale, ..self@ }),
    {
        let mut r = self;
        r.scale_x = scale;
        r.scale_y = scale;
        r
    }

    /// The setup with another coordinate policy.
    pub fn with_coordinate_system(self, coordinate_system: CoordinateSystem) -> (r: Self)
        ensures
            r@ == (AgentConfigView { coordinate_system, ..self@ }),
    {
        let mut r = self;
        r.coordinate_system = coordinate_system;
        r
    }

    /// The setup under the relative policy, with the scale 1.
    pub fn with_relative_coordinates(self) -> (r: Self)
        ensures
            r@ == (AgentConfigView {
                coordinate_system: CoordinateSystem::Relative,
                scale_x: r.scale_x,
                scale_y: r.scale_y,
                ..self@
            }),
            r.scale_x.numerator() == 1 && r.scale_x.denominator() == 1,
            r.scale_y.numerator() == 1 && r.scale_y.denominator() == 1,
    {
        let mut r = self;
        r.coordinate_system = CoordinateSystem::Relative;
        r.scale_x = Scale::identity();
        r.scale_y = Scale::identity();
        r
    }

    /// The setup under the absolute policy, with the standard scale.
    pub fn with_absolute_coordinates(self) -> (r: Self)
        ensures
            r@ == (AgentConfigView {
                coordinate_system: CoordinateSystem::Absolute,
                scale_x: Scale::standard_spec(),
                scale_y: Scale::standard_spec(),
                ..self@
            }),
    {
        let mut r = self;
        r.coordinate_system = CoordinateSystem::Absolute;
        r.scale_x = Scale::standard();
        r.scale_y = Scale::standard();
        r
    }

    /// The system prompt for a screen of 1080 by 1920 pixels.
    pub fn get_system_prompt(&self, today: &LocalDate) -> (r: String)
        ensures
            r@ == self@.system_prompt_for(1080, 1920, *today),
    {
        self.get_system_prompt_with_resolution(1080, 1920, today)
    }

    /// The system prompt for a screen of `width` by `height` pixels.
    pub fn get_system_prompt_with_resolution(&self, width: u32, height: u32, today: &LocalDate)
        -> (r: String)
        ensures
            r@ == self@.system_prompt_for(width, height, *today),
    {
        match &self.system_prompt {
            Some(p) => p.clone(),
            None => match self.coordinate_system {
                CoordinateSystem::Relative => get_system_prompt_relative(self.lang.as_str(), today),
                CoordinateSystem::Absolute => get_system_prompt_with_resolution(
                    self.lang.as_str(),
                    width,
                    height,
                    today,
                ),
            },
        }
    }
}

/// What a step made of the model's answer.
#[derive(Debug, Clone, PartialEq, Eq)]
pub enum StepAction {
    /// The action that the answer asked for.
    Parsed(Action),
    /// The answer was no action; `message` says so to the model.
    ParseFailed { message: String },
}

/// The mathematical value of a [`StepAction`].
pub enum StepActionView {
    Parsed(ActionView),
    ParseFailed { message: Seq<char> },
}

impl View for StepAction {
    type V = StepActionView;

    open spec fn view(&self) -> StepActionView {
        match self {
            StepAction::Parsed(a) => StepActionView::Parsed(a@),
            StepAction::ParseFailed { message } => StepActionView::ParseFailed {
                message: message@,
            },
        }
    }
}

/// The result of one step.
#[derive(Debug, Clone, PartialEq, Eq)]
pub struct StepResult {
    /// Whether the action was accepted.
    pub success: bool,
    /// Whether the task is over.
    pub finished: bool,
    /// What the step made of the model's answer.
    pub action: Option<StepAction>,
    /// What the model thought.
    pub thinking: String,
    /// What there is to say about the step.
    pub message: Option<String>,
}

/// The mathematical value of a [`StepResult`].
pub struct StepResultView {
    pub success: bool,
    pub finished: bool,
    pub action: Option<StepActionView>,
    pub thinking: Seq<char>,
    pub message: Option<Seq<char>>,
}

impl View for StepResult {
    type V = StepResultView;

    open spec fn view(&self) -> StepResultView {
        StepResultView {
            success: self.success,
            finished: self.finished,
            action: match self.action {
                Some(a) => Some(a@),
                None => None,
            },
            thinking: self.thinking@,
            message: option_view(self.message),
        }
    }
}

impl StepResultView {
    /// Whether the step found no action in the model's answer.
    pub open spec fn is_parse_failure(self) -> bool {
        self.action matches Some(StepActionView::ParseFailed { .. })
    }
}

impl StepResult {
    /// Whether the step found no action in the model's answer.
    pub fn is_parse_failure(&self) -> (r: bool)
        ensures
            r == self@.is_parse_failure(),
    {
        match &self.action {
            Some(StepAction::ParseFailed { .. }) => true,
            _ => false,
        }
    }
}

/// The result of a step and the command to carry out, if there is one.
#[derive(Debug, Clone, PartialEq, Eq)]
pub struct StepOutcome {
    pub result: StepResult,
    pub command: Option<DeviceCommand>,
}

/// The mathematical value of a [`StepOutcome`].
pub struct StepOutcomeView {
    pub result: StepResultView,
    pub command: Option<DeviceCommandView>,
}

impl View for StepOutcome {
    type V = StepOutcomeView;

    open spec fn view(&self) -> StepOutcomeView {
        StepOutcomeView {
            result: self.result@,
            command: match self.command {
                Some(c) => Some(c@),
                None => None,
            },
        }
    }
}

/// `s`, cut after `limit` characters and marked with three dots where it is
/// longer.
pub open spec fn clipped(s: Seq<char>, limit: int) -> Seq<char> {
    if s.len() > limit {
        s.take(limit) + "..."@
    } else {
        s
    }
}

/// What the model is told where its answer was no action.
pub open spec fn retry_request() -> Seq<char> {
    "你的回复不完整或格式不正确，没有包含有效的 do(...) 或 finish(...) 指令。请继续输出或重新输出完整的动作指令。"@
}

/// What is noted of an answer that was no action.
pub open spec fn parse_failure_note(answer: Seq<char>) -> Seq<char> {
    "无法解析动作指令，请重新输出完整的 do(...) 或 finish(...) 指令。原始输出: "@ + clipped(answer, 150)
}

/// The text of the user's message that opens a step.
pub open spec fn step_text(user_prompt: Option<Seq<char>>, is_first: bool, current_app: Seq<char>)
    -> Seq<char> {
    if is_first {
        (match user_prompt {
            Some(p) => p,
            None => Seq::empty(),
        }) + "\n\n"@ + screen_info(current_app)
    } else {
        match user_prompt {
            Some(p) => "** 用户补充指令 **\n"@ + p + "\n\n** Screen Info **\n\n"@ + screen_info(
                current_app,
            ),
            None => "** Screen Info **\n\n"@ + screen_info(current_app),
        }
    }
}

/// The messages that open a step: on the first step the system prompt, and
/// always the user's message with the screenshot.
pub open spec fn opening(
    config: AgentConfigView,
    user_prompt: Option<Seq<char>>,
    is_first: bool,
    image: Seq<char>,
    width: u32,
    height: u32,
    current_app: Seq<char>,
    today: LocalDate,
) -> Seq<MessageView> {
    let user = MessageView {
        role: Role::User,
        text: step_text(user_prompt, is_first, current_app),
        image: Some(image),
    };
    if is_first {
        seq![plain(Role::System, config.system_prompt_for(width, height, today)), user]
    } else {
        seq![user]
    }
}

/// The conversation with the image taken out of its last message.
pub open spec fn without_last_image(context: Seq<MessageView>) -> Seq<MessageView> {
    if context.len() == 0 {
        context
    } else {
        context.update(context.len() - 1, MessageView { image: None, ..context.last() })
    }
}

/// What the assistant is recorded to have said: its thinking and its
/// answer, in their tags.
pub open spec fn tagged_answer(thinking: Seq<char>, action: Seq<char>) -> Seq<char> {
    "<think>"@ + thinking + "</think><answer>"@ + action + "</answer>"@
}

/// The message that an action carries: that of a finish, or the text under
/// `message` of a do.
pub open spec fn action_message(action: ActionView) -> Option<Seq<char>> {
    match action {
        ActionView::Finish { message } => message,
        ActionView::Do { name, params } => text_param(params, "message"@),
    }
}

/// The result of a step whose action was dispatched with the verdict
/// `verdict`: the task is over where the action is a finish or the verdict
/// says so, and the verdict's message goes before the action's.
pub open spec fn dispatched(action: ActionView, verdict: ActionResultView, thinking: Seq<char>)
    -> StepResultView {
    StepResultView {
        success: verdict.success,
        finished: action is Finish || verdict.should_finish,
        action: Some(StepActionView::Parsed(action)),
        thinking,
        message: match verdict.message {
            Some(m) => Some(m),
            None => action_message(action),
        },
    }
}

/// The result of a step whose answer was no action.
pub open spec fn unparsed(answer: Seq<char>, thinking: Seq<char>) -> StepResultView {
    StepResultView {
        success: false,
        finished: false,
        action: Some(StepActionView::ParseFailed { message: parse_failure_note(answer) }),
        thinking,
        message: Some("解析失败，等待模型重试"@),
    }
}

/// The agent.
#[derive(Debug, Clone, PartialEq, Eq)]
pub struct PhoneAgent {
    agent_config: AgentConfig,
    action_handler: ActionHandler,
    context: Vec<Message>,
    step_count: u32,
}

/// `n` plus one, or `n` where that does not fit.
pub open spec fn next_count(n: u32) -> u32 {
    if n < u32::MAX {
        (n + 1) as u32
    } else {
        n
    }
}

impl PhoneAgent {
    /// The conversation so far.
    pub closed spec fn messages(self) -> Seq<MessageView> {
        messages_view(self.context@)
    }

    /// The number of steps begun since the last reset.
    pub closed spec fn steps(self) -> u32 {
        self.step_count
    }

    /// The agent's setup.
    pub closed spec fn config(self) -> AgentConfigView {
        self.agent_config@
    }

    /// The agent's dispatcher.
    pub closed spec fn handler(self) -> ActionHandler {
        self.action_handler
    }

    /// An agent is well formed where its dispatcher follows its setup.
    pub open spec fn wf(self) -> bool {
        &&& self.handler().policy() == self.config().coordinate_system
        &&& self.handler().scales() == (self.config().scale_x, self.config().scale_y)
        &&& self.handler().device() == self.config().device_id
    }

    /// An agent with the setup `agent_config`, before its first step.
    pub fn new(agent_config: AgentConfig) -> (r: Self)
        ensures
            r.wf(),
            r.config() == agent_config@,
            r.messages() == Seq::<MessageView>::empty(),
            r.steps() == 0,
    {
        let device_id = match &agent_config.device_id {
            Some(d) => Some(d.clone()),
            None => None,
        };
        let action_handler = ActionHandler::with_options(
            device_id,
            agent_config.scale_x,
            agent_config.scale_y,
            agent_config.coordinate_system,
        );
        let r = PhoneAgent { agent_config, action_handler, context: Vec::new(), step_count: 0 };
        assert(messages_view(r.context@) =~= Seq::empty());
        r
    }

    /// Forgets the conversation and the count of steps.
    pub fn reset(&mut self)
        ensures
            final(self).messages() == Seq::<MessageView>::empty(),
            final(self).steps() == 0,
            final(self).config() == old(self).config(),
            final(self).handler() == old(self).handler(),
    {
        self.context.clear();
        self.step_count = 0;
        assert(messages_view(self.context@) =~= Seq::empty());
    }

    /// Replaces the system prompt of the setup and forgets the conversation
    /// and the count of steps.
    pub fn restart_with_prompt(&mut self, system_prompt: String)
        ensures
            final(self).messages() == Seq::<MessageView>::empty(),
            final(self).steps() == 0,
            final(self).config() == (AgentConfigView {
                system_prompt: Some(system_prompt@),
                ..old(self).config()
            }),
            final(self).handler() == old(self).handler(),
    {
        self.agent_config.system_prompt = Some(system_prompt);
        self.context.clear();
        self.step_count = 0;
        assert(messages_view(self.context@) =~= Seq::empty());
    }

    /// The conversation so far.
    pub fn context(&self) -> (r: &Vec<Message>)
        ensures
            messages_view(r@) == self.messages(),
    {
        &self.context
    }

    /// The number of steps begun since the last reset.
    pub fn step_count(&self) -> (r: u32)
        ensures
            r == self.steps(),
    {
        self.step_count
    }

    /// The agent's setup.
    pub fn agent_config(&self) -> (r: &AgentConfig)
        ensures
            r@ == self.config(),
    {
        &self.agent_config
    }

    /// Whether the next step is the first of a conversation. A first step
    /// needs a task.
    pub fn step(&self, task: Option<&str>) -> (r: Result<bool, AgentError>)
        ensures
            match r {
                Ok(is_first) => is_first == (self.messages().len() == 0) && !(is_first
                    && task is None),
                Err(e) => e@ == AgentErrorView::TaskRequired && self.messages().len() == 0
                    && task is None,
            },
    {
        let is_first = self.context.len() == 0;
        if is_first && task.is_none() {
            Err(AgentError::TaskRequired)
        } else {
            Ok(is_first)
        }
    }

    /// Begins a step: counts it and adds to the conversation what the model
    /// is to see.
    pub fn begin_step(
        &mut self,
        user_prompt: Option<&str>,
        is_first: bool,
        screenshot: &Screenshot,
        current_app: &str,
        today: &LocalDate,
    )
        ensures
            final(self).steps() == next_count(old(self).steps()),
            final(self).messages() == old(self).messages() + opening(
                old(self).config(),
                match user_prompt {
                    Some(p) => Some(p@),
                    None => None,
                },
                is_first,
                screenshot.base64_data@,
                screenshot.width,
                screenshot.height,
                current_app@,
                *today,
            ),
            final(self).config() == old(self).config(),
            final(self).handler() == old(self).handler(),
    {
        if self.step_count < u32::MAX {
            self.step_count = self.step_count + 1;
        }
        let info = MessageBuilder::build_screen_info(current_app);
        let ghost before = messages_view(self.context@);
        let mut text: Vec<char> = Vec::new();
        if is_first {
            let system = MessageBuilder::create_system_message(
                self.agent_config.get_system_prompt_with_resolution(
                    screenshot.width,
                    screenshot.height,
                    today,
                ).as_str(),
            );
            self.context.push(system);
            assert(messages_view(self.context@) =~= before.push(system@));
            match user_prompt {
                Some(p) => push_str(&mut text, p),
                None => {},
            }
            push_str(&mut text, "\n\n");
            push_str(&mut text, info.as_str());
        } else {
            match user_prompt {
                Some(p) => {
                    push_str(&mut text, "** 用户补充指令 **\n");
                    push_str(&mut text, p);
                    push_str(&mut text, "\n\n** Screen Info **\n\n");
                },
                None => {
                    push_str(&mut text, "** Screen Info **\n\n");
                },
            }
            push_str(&mut text, info.as_str());
        }
        let ghost middle = messages_view(self.context@);
        let user = MessageBuilder::create_user_message(
            from_chars(&text).as_str(),
            Some(screenshot.base64_data.as_str()),
        );
        self.context.push(user);
        assert(messages_view(self.context@) =~= middle.push(user@));
        assert(text@ =~= step_text(
            match user_prompt {
                Some(p) => Some(p@),
                None => None,
            },
            is_first,
            current_app@,
        ));
        assert(messages_view(self.context@) =~= before + opening(
            old(self).config(),
            match user_prompt {
                Some(p) => Some(p@),
                None => None,
            },
            is_first,
            screenshot.base64_data@,
            screenshot.width,
            screenshot.height,
            current_app@,
            *today,
        ));
    }
}

/// The conversation after a step whose answer had the thinking `thinking`
/// and asked for `answer`: the last image is taken out; an answer that was
/// an action is recorded in its tags, one that was not is recorded as it
/// came, followed by the request to answer again.
pub open spec fn concluded_messages(
    context: Seq<MessageView>,
    thinking: Seq<char>,
    answer: Seq<char>,
) -> Seq<MessageView> {
    match parse(answer) {
        Ok(_) => without_last_image(context).push(
            plain(Role::Assistant, tagged_answer(thinking, answer)),
        ),
        Err(_) => without_last_image(context).push(plain(Role::Assistant, answer)).push(
            plain(Role::User, retry_request()),
        ),
    }
}

/// The outcome of a step whose answer had the thinking `thinking` and asked
/// for `answer`, on a screen of `width` by `height` pixels.
pub open spec fn concluded_step(
    handler: ActionHandler,
    thinking: Seq<char>,
    answer: Seq<char>,
    width: u32,
    height: u32,
    confirmed: bool,
) -> StepOutcomeView {
    match parse(answer) {
        Ok(action) => {
            let done = handler.outcome(action, width, height, confirmed);
            StepOutcomeView { result: dispatched(action, done.result, thinking), command: done.command }
        },
        Err(_) => StepOutcomeView { result: unparsed(answer, thinking), command: None },
    }
}

/// What a run does after a step.
#[derive(Debug, Clone, PartialEq, Eq)]
pub enum RunNext {
    /// The task is over; the text is the run's result.
    Finished(String),
    /// Another step is to be taken.
    Continue,
    /// The limit of steps is reached.
    MaxStepsReached,
}

impl PhoneAgent {
    /// The message that the user must confirm before the action that
    /// `answer` asks for is carried out, if it asks for a sensitive one.
    pub fn confirmation_for(&self, answer: &str) -> (r: Option<String>)
        ensures
            option_view(r) == match parse(answer@) {
                Ok(action) => confirmation_message(action),
                Err(_) => None,
            },
    {
        match parse_action(answer) {
            Ok(action) => match self.action_handler.pending_confirmation(&action) {
                Some(m) => Some(m.clone()),
                None => None,
            },
            Err(_) => None,
        }
    }

    /// Ends a step with the model's answer, or with the reason why there is
    /// none.
    ///
    /// Without an answer the step fails with a model error and nothing
    /// changes. With one, the conversation is brought up to date, the
    /// action is checked against a screen of `screen_width` by
    /// `screen_height` pixels, and the outcome says what is to be done.
    /// `confirmed` is the user's answer where [`Self::confirmation_for`]
    /// gave a message to confirm.
    pub fn finish_step(
        &mut self,
        response: Result<ModelResponse, String>,
        screen_width: u32,
        screen_height: u32,
        confirmed: bool,
    ) -> (r: Result<StepOutcome, AgentError>)
        ensures
            final(self).steps() == old(self).steps(),
            final(self).config() == old(self).config(),
            final(self).handler() == old(self).handler(),
            match response {
                Err(reason) => r matches Err(e) && e@ == AgentErrorView::ModelError(reason@)
                    && final(self).messages() == old(self).messages(),
                Ok(answer) => r matches Ok(outcome) && outcome@ == concluded_step(
                    old(self).handler(),
                    answer.thinking@,
                    answer.action@,
                    screen_width,
                    screen_height,
                    confirmed,
                ) && final(self).messages() == concluded_messages(
                    old(self).messages(),
                    answer.thinking@,
                    answer.action@,
                ),
            },
    {
        let answer = match response {
            Ok(answer) => answer,
            Err(reason) => {
                return Err(AgentError::ModelError(reason));
            },
        };
        let parsed = parse_action(answer.action.as_str());
        let ghost start = messages_view(self.context@);
        let n = self.context.len();
        if n > 0 {
            let mut last = self.context[n - 1].duplicate();
            MessageBuilder::remove_images_from_message(&mut last);
            self.context.set(n - 1, last);
        }
        assert(messages_view(self.context@) =~= without_last_image(start));
        let ghost stripped = messages_view(self.context@);
        match parsed {
            Err(_) => {
                let said = MessageBuilder::create_assistant_message(answer.action.as_str());
                self.context.push(said);
                assert(messages_view(self.context@) =~= stripped.push(said@));
                let ghost middle = messages_view(self.context@);
                let again = MessageBuilder::create_user_message(
                    "你的回复不完整或格式不正确，没有包含有效的 do(...) 或 finish(...) 指令。请继续输出或重新输出完整的动作指令。",
                    None,
                );
                self.context.push(again);
                assert(messages_view(self.context@) =~= middle.push(again@));
                let mut note = to_chars(
                    "无法解析动作指令，请重新输出完整的 do(...) 或 finish(...) 指令。原始输出: ",
                );
                let chars = to_chars(answer.action.as_str());
                if chars.len() > 150 {
                    let head = slice_to_string(&chars, 0, 150);
                    assert(chars@.take(150) == chars@.subrange(0, 150));
                    push_str(&mut note, head.as_str());
                    push_str(&mut note, "...");
                } else {
                    push_str(&mut note, answer.action.as_str());
                }
                assert(note@ =~= parse_failure_note(answer.action@));
                Ok(
                    StepOutcome {
                        result: StepResult {
                            success: false,
                            finished: false,
                            action: Some(StepAction::ParseFailed { message: from_chars(&note) }),
                            thinking: answer.thinking,
                            message: Some(String::from_str("解析失败，等待模型重试")),
                        },
                        command: None,
                    },
                )
            },
            Ok(action) => {
                let done = self.action_handler.execute(
                    &action,
                    screen_width,
                    screen_height,
                    confirmed,
                );
                let mut tagged = to_chars("<think>");
                push_str(&mut tagged, answer.thinking.as_str());
                push_str(&mut tagged, "</think><answer>");
                push_str(&mut tagged, answer.action.as_str());
                push_str(&mut tagged, "</answer>");
                let said = MessageBuilder::create_assistant_message(from_chars(&tagged).as_str());
                self.context.push(said);
                assert(messages_view(self.context@) =~= stripped.push(said@));
                let is_finish = match &action {
                    Action::Finish { .. } => true,
                    Action::Do { .. } => false,
                };
                let finished = is_finish || done.result.should_finish;
                let message = match done.result.message {
                    Some(m) => Some(m),
                    None => match &action {
                        Action::Finish { message } => match message {
                            Some(m) => Some(m.clone()),
                            None => None,
                        },
                        Action::Do { params, .. } => match crate::actions::handler::get_text(
                            params,
                            "message",
                        ) {
                            Some(m) => Some(m.clone()),
                            None => None,
                        },
                    },
                };
                Ok(
                    StepOutcome {
                        result: StepResult {
                            success: done.result.success,
                            finished,
                            action: Some(StepAction::Parsed(action)),
                            thinking: answer.thinking,
                            message,
                        },
                        command: done.command,
                    },
                )
            },
        }
    }

    /// What a run does after a step with the result `result`: it ends with
    /// the result's message, or "Task completed", where the task is over,
    /// goes on while the limit of steps is not reached, and gives up
    /// otherwise.
    pub fn after_step(&self, result: &StepResult) -> (r: RunNext)
        ensures
            match r {
                RunNext::Finished(text) => result.finished && text@ == (match result@.message {
                    Some(m) => m,
                    None => "Task completed"@,
                }),
                RunNext::Continue => !result.finished && self.steps() < self.config().max_steps,
                RunNext::MaxStepsReached => !result.finished && self.steps()
                    >= self.config().max_steps,
            },
    {
        if result.finished {
            RunNext::Finished(
                match &result.message {
                    Some(m) => m.clone(),
                    None => String::from_str("Task completed"),
                },
            )
        } else if self.step_count < self.agent_config.max_steps {
            RunNext::Continue
        } else {
            RunNext::MaxStepsReached
        }
    }
}

} // verus!
