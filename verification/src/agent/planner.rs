//! The planner: takes the user's wishes apart into tasks, starts the
//! executor on them, and steps in where the executor is in trouble.
//!
//! The planner owns the task queue, the prompt memory and the executor. It
//! calls no model itself: the caller asks the planner's model and hands the
//! answers in.

use crate::actions::parser::option_view;
use crate::agent::executor::{
    answer_view, step_of, TickEnd, TickStart, CommandView, ExecutorCommand, ExecutorFeedback, ExecutorState, ExecutorStatus,
    ExecutorWrapper, FeedbackView, StatusView,
};
use crate::agent::phone_agent::{next_count, AgentConfig, AgentConfigView};
use crate::agent::planner_action::{parse_planner_action, planner_action_of, PlannerAction,
    PlannerActionView};
use crate::agent::planner_text::{
    build_executor_status_summary, build_todo_summary, correction_prompt, executor_summary,
    generate_correction_prompt, history_view, todo_summary,
};
use crate::agent::prompt_memory::{
    consolidated, numbered_lines, pending_in, slot_entry, task_types_summary, with_correction,
    with_prompt_set, CorrectionView, PromptEntryView, PromptMemory, put,
};
use crate::agent::todo::{
    all_terminal, first_with, last_completed_index, position_of, task_id, TodoItemView,
    TodoList, TodoStatus,
};
use crate::model::message::{messages_view, plain, Message, MessageBuilder, MessageView, Role};
use crate::number::{decimal, push_decimal};
use crate::text::{from_chars, push_str, str_eq, to_chars, trim, trim_chars};
use std::collections::VecDeque;
use vstd::prelude::*;

verus! {

/// The planner's standard system prompt, in Chinese.
pub const DEFAULT_PLANNER_SYSTEM_PROMPT_CN: &'static str = r#"你是一个手机自动化任务规划和监督助手。你的职责是将用户需求拆分成子任务，监督执行，并在出问题时介入。

## 重要：你不直接操作手机

你是规划者(Planner)，不是执行者(Executor)。你的工作是：
- 拆分任务并添加到任务列表
- 启动执行器来实际操作手机
- 监督执行过程，必要时给予纠偏指导

执行器(Executor)是另一个 AI，它会：
- 看手机屏幕截图
- 决定点击、滑动、输入等操作
- 自动执行直到任务完成或卡住

## 工具调用格式

**每次回复只输出一个 JSON 工具调用，不要用代码块包裹！**

### 添加任务
{"action": "add_todo", "description": "任务描述-要具体清晰", "task_type": "任务类型"}

**task_type 是动态的！**
- 你可以使用已有的任务类型（系统会提供列表）
- 也可以创建新的任务类型（描述性的中文名称，如 "微信聊天"、"淘宝购物"、"地图导航" 等）
- 相似任务使用相同的 task_type，系统会自动学习并记忆优化提示词
- 新 task_type 会被自动保存供以后使用

### 启动执行器
{"action": "start_executor", "task_id": "task_1"}

### 暂停/恢复执行器
{"action": "pause_executor"}
{"action": "resume_executor"}

### 注入提示词（用于给执行器纠偏）
{"action": "inject_prompt", "content": "具体的纠偏指导"}

示例：当用户说"你要点进去看看"时，用 inject_prompt 告诉执行器：
{"action": "inject_prompt", "content": "用户要求点开帖子查看详情，请点击当前屏幕上的一个有趣帖子进入详情页"}

### 重置执行器（清除历史上下文，重新开始）
{"action": "reset_executor"}

注意：重置不会改变任务列表，只是清除执行器的对话历史。

### 标记任务完成/失败
{"action": "complete_todo", "task_id": "task_1"}
{"action": "fail_todo", "task_id": "task_1", "reason": "失败原因"}

### 汇报进度
{"action": "report", "message": "汇报内容"}

## 完整工作流示例

**用户请求**: "帮我打开小红书看看最近的帖子"

**第1步**: 添加第一个任务
我来规划这个任务。首先需要打开小红书。
{"action": "add_todo", "description": "打开小红书应用", "task_type": "小红书浏览"}

**第2步**: 系统确认后，继续添加
继续添加浏览任务。
{"action": "add_todo", "description": "浏览首页帖子，点开几个有趣的查看详情", "task_type": "小红书浏览"}

**第3步**: 任务列表完整，启动执行
任务列表已完整，现在启动执行器。
{"action": "start_executor", "task_id": "task_1"}

**用户中途反馈**: "你要点进去看看呀"

**响应**: 用 inject_prompt 给执行器纠偏
好的，我来告诉执行器需要点开帖子查看。
{"action": "inject_prompt", "content": "用户要求点开帖子查看详情，请点击当前屏幕上最有趣或热门的一个帖子进入详情页，阅读内容后再返回"}

## 关键规则

1. **每次只输出一个 JSON**，等待系统反馈后再进行下一步
2. **不要用代码块**，直接输出 JSON 对象
3. **任务描述要具体**，包含清晰的操作指导
4. **用户中途反馈时**，使用 inject_prompt 而不是添加新任务
5. **reset_executor 只清除对话历史**，不会影响任务列表
6. **task_type 要有描述性**，方便系统学习和复用记忆"#;

/// The planner's standard system prompt, in English.
pub const DEFAULT_PLANNER_SYSTEM_PROMPT_EN: &'static str = r#"You are a phone automation task planning and supervision assistant. Your job is to break down user requests into sub-tasks, supervise execution, and intervene when needed.

## Tool Call Format

You must use JSON format to call tools. Only call one tool per response. Format:

### Add Task
```json
{"action": "add_todo", "description": "Task description", "task_type": "task_type"}
```
task_type options: "wechat", "xiaohongshu", "douyin", "system", "general"

### Start Executor
```json
{"action": "start_executor", "task_id": "task_id"}
```
task_id is auto-generated after add_todo, format: "task_1", "task_2", etc.

### Pause/Resume Executor
```json
{"action": "pause_executor"}
{"action": "resume_executor"}
```

### Inject Prompt (correction)
```json
{"action": "inject_prompt", "content": "prompt content"}
```

### Reset Executor
```json
{"action": "reset_executor"}
```

### Mark Task Complete/Failed
```json
{"action": "complete_todo", "task_id": "task_id"}
{"action": "fail_todo", "task_id": "task_id", "reason": "failure reason"}
```

### Report Progress (no action)
```json
{"action": "report", "message": "report content"}
```

### Wait
```json
{"action": "wait"}
```

## Workflow

1. After receiving user request, use add_todo to add all sub-tasks
2. Then use start_executor to start the first task
3. Monitor execution feedback, use inject_prompt to correct if needed
4. Next task starts automatically after completion

## Important Rules

- Output only one JSON tool call per response
- Briefly explain your thinking, then output JSON
- Do not use code blocks, output JSON object directly
- When receiving user request, first add the first task, wait for confirmation, then add next or start execution"#;

/// How many answers of its model the planner takes for one input of the
/// user.
pub const MAX_CONVERSATION_TURNS: u32 = 20;

/// How many corrections must wait for a kind of task before they are
/// worked into its prompt.
pub const CONSOLIDATION_THRESHOLD: usize = 3;

/// How the planner is set up.
#[derive(Debug, Clone, PartialEq, Eq)]
pub struct PlannerConfig {
    /// How many reports of the executor the planner keeps.
    pub max_executor_feedback_history: usize,
    /// After how many idle steps the executor counts as stuck.
    pub stuck_threshold: u32,
    /// Where the prompt memory is kept.
    pub prompt_memory_path: Option<String>,
    /// How often a stuck executor is given advice before its task is tried
    /// again.
    pub max_stuck_retries: u32,
    /// Whether prompts are improved after a task failed for good.
    pub auto_optimize_prompts: bool,
    /// The system prompt, where the standard one is not wanted.
    pub system_prompt: Option<String>,
    /// The language: "cn" or "en".
    pub lang: String,
}

/// The mathematical value of a [`PlannerConfig`].
pub struct PlannerConfigView {
    pub max_executor_feedback_history: usize,
    pub stuck_threshold: u32,
    pub prompt_memory_path: Option<Seq<char>>,
    pub max_stuck_retries: u32,
    pub auto_optimize_prompts: bool,
    pub system_prompt: Option<Seq<char>>,
    pub lang: Seq<char>,
}

impl View for PlannerConfig {
    type V = PlannerConfigView;

    open spec fn view(&self) -> PlannerConfigView {
        PlannerConfigView {
            max_executor_feedback_history: self.max_executor_feedback_history,
            stuck_threshold: self.stuck_threshold,
            prompt_memory_path: option_view(self.prompt_memory_path),
            max_stuck_retries: self.max_stuck_retries,
            auto_optimize_prompts: self.auto_optimize_prompts,
            system_prompt: option_view(self.system_prompt),
            lang: self.lang@,
        }
    }
}

impl PlannerConfigView {
    /// The standard setup.
    pub open spec fn standard() -> PlannerConfigView {
        PlannerConfigView {
            max_executor_feedback_history: 2,
            stuck_threshold: 3,
            prompt_memory_path: Some("prompt_memory.json"@),
            max_stuck_retries: 3,
            auto_optimize_prompts: true,
            system_prompt: None,
            lang: "cn"@,
        }
    }

    /// The system prompt: the configured one, or the standard one of the
    /// language.
    pub open spec fn base_prompt(self) -> Seq<char> {
        match self.system_prompt {
            Some(p) => p,
            None => if self.lang == "cn"@ {
                DEFAULT_PLANNER_SYSTEM_PROMPT_CN@
            } else {
                DEFAULT_PLANNER_SYSTEM_PROMPT_EN@
            },
        }
    }
}

impl Default for PlannerConfig {
    fn default() -> (r: Self)
        ensures
            r@ == PlannerConfigView::standard(),
    {
        PlannerConfig {
            max_executor_feedback_history: 2,
            stuck_threshold: 3,
            prompt_memory_path: Some(String::from_str("prompt_memory.json")),
            max_stuck_retries: 3,
            auto_optimize_prompts: true,
            system_prompt: None,
            lang: String::from_str("cn"),
        }
    }
}

impl PlannerConfig {
    /// The setup with another length of the history of reports.
    pub fn with_max_feedback_history(self, max: usize) -> (r: Self)
        ensures
            r@ == (PlannerConfigView { max_executor_feedback_history: max, ..self@ }),
    {
        let mut r = self;
        r.max_executor_feedback_history = max;
        r
    }

    /// The setup with another threshold for a stuck executor.
    pub fn with_stuck_threshold(self, threshold: u32) -> (r: Self)
        ensures
            r@ == (PlannerConfigView { stuck_threshold: threshold, ..self@ }),
    {
        let mut r = self;
        r.stuck_threshold = threshold;
        r
    }

    /// The setup with the prompt memory kept at `path`.
    pub fn with_prompt_memory_path(self, path: &str) -> (r: Self)
        ensures
            r@ == (PlannerConfigView { prompt_memory_path: Some(path@), ..self@ }),
    {
        let mut r = self;
        r.prompt_memory_path = Some(String::from_str(path));
        r
    }

    /// The setup with the system prompt `prompt`.
    pub fn with_system_prompt(self, prompt: &str) -> (r: Self)
        ensures
            r@ == (PlannerConfigView { system_prompt: Some(prompt@), ..self@ }),
    {
        let mut r = self;
        r.system_prompt = Some(String::from_str(prompt));
        r
    }

    /// The setup in the language `lang`.
    pub fn with_lang(self, lang: &str) -> (r: Self)
        ensures
            r@ == (PlannerConfigView { lang: lang@, ..self@ }),
    {
        let mut r = self;
        r.lang = String::from_str(lang);
        r
    }

    /// The system prompt: the configured one, or the standard one of the
    /// language.
    pub fn get_system_prompt(&self) -> (r: String)
        ensures
            r@ == self@.base_prompt(),
    {
        match &self.system_prompt {
            Some(p) => p.clone(),
            None => if str_eq(self.lang.as_str(), "cn") {
                String::from_str(DEFAULT_PLANNER_SYSTEM_PROMPT_CN)
            } else {
                String::from_str(DEFAULT_PLANNER_SYSTEM_PROMPT_EN)
            },
        }
    }
}

/// The state of the planner.
pub struct PlannerState {
    /// The setup.
    pub config: PlannerConfigView,
    /// The tasks of the queue.
    pub todo: Seq<TodoItemView>,
    /// The number from which the next task's identifier is made.
    pub next_number: u32,
    /// The state of the executor.
    pub executor: ExecutorState,
    /// The last reports of the executor, the latest at the end.
    pub history: Seq<FeedbackView>,
    /// The inputs of the user that wait.
    pub inputs: Seq<Seq<char>>,
    /// The conversation with the planner's model.
    pub context: Seq<MessageView>,
    /// The prompt memory.
    pub memory: Seq<(Seq<char>, PromptEntryView)>,
    /// The version of the memory's format.
    pub memory_version: Seq<char>,
    /// How often in a row the executor was found stuck.
    pub stuck_rounds: u32,
    /// What went wrong during execution, for the improvement of prompts.
    pub log: Seq<Seq<char>>,
    /// Whether the planner runs.
    pub running: bool,
    /// The kinds of task whose corrections wait to be worked into their
    /// prompts.
    pub consolidations: Seq<Seq<char>>,
    /// How many answers the planner's model gave to the current input.
    pub turns: u32,
}

/// What the system tells the planner's model first: the system prompt and
/// the kinds of task that the memory knows.
pub open spec fn system_context(base: Seq<char>, summary: Seq<char>) -> Seq<char> {
    base + "\n\n## 已保存的任务类型记忆\n\n以下是系统已学习的任务类型，优先使用这些类型以便复用记忆：\n\n"@ + summary
        + "\n\n你也可以创建新的任务类型，系统会自动学习。"@
}

impl PlannerState {
    /// The state with one more command for the executor.
    pub open spec fn sent(self, command: CommandView) -> PlannerState {
        PlannerState {
            executor: ExecutorState {
                queue: self.executor.queue.push(command),
                ..self.executor
            },
            ..self
        }
    }

    /// The prompt that the memory holds for the kind `task_type`.
    pub open spec fn prompt_for(self, task_type: Seq<char>) -> Option<Seq<char>> {
        match slot_entry(self.memory, task_type) {
            Some(e) => Some(e.system_prompt),
            None => None,
        }
    }

    /// The state after the task at the index `i` was started: the task
    /// runs, and the executor is told to start it with the prompt that the
    /// memory holds for its kind. `then` is the queue afterwards, from which
    /// the time of the change is taken.
    pub open spec fn task_started(self, i: int, then: Seq<TodoItemView>) -> PlannerState {
        let item = self.todo[i];
        (PlannerState {
            todo: self.todo.update(i, item.moved_to(TodoStatus::Running, then[i].updated_at)),
            ..self
        }).sent(
            CommandView::StartTask {
                task_id: item.id,
                description: item.description,
                system_prompt: self.prompt_for(item.task_type),
            },
        )
    }

    /// The state after the first task called `id` was started; nothing
    /// happens where there is none.
    pub open spec fn started_by_id(self, id: Seq<char>, then: Seq<TodoItemView>) -> PlannerState {
        let i = position_of(self.todo, id);
        if i < 0 {
            self
        } else {
            self.task_started(i, then)
        }
    }

    /// The state after the first pending task was started; nothing happens
    /// where none is pending.
    pub open spec fn next_started(self, then: Seq<TodoItemView>) -> PlannerState {
        let i = first_with(self.todo, TodoStatus::Pending);
        if i < 0 {
            self
        } else {
            self.task_started(i, then)
        }
    }

    /// The first message of the conversation with the planner's model.
    pub open spec fn system_message(self) -> MessageView {
        plain(
            Role::System,
            system_context(self.config.base_prompt(), task_types_summary(self.memory)),
        )
    }
}

/// The planner.
#[derive(Debug, Clone, PartialEq, Eq)]
pub struct PlannerAgent {
    config: PlannerConfig,
    todo_list: TodoList,
    executor: ExecutorWrapper,
    executor_feedback_history: VecDeque<ExecutorFeedback>,
    user_input_queue: VecDeque<String>,
    context: Vec<Message>,
    prompt_memory: PromptMemory,
    consecutive_stuck_count: u32,
    execution_log: Vec<String>,
    is_running: bool,
    pending_consolidation_task_types: Vec<String>,
    turns: u32,
}

/// The characters of each string of a queue.
pub open spec fn inputs_view(queue: Seq<String>) -> Seq<Seq<char>> {
    queue.map_values(|s: String| s@)
}

impl PlannerAgent {
    /// The state of the planner.
    pub closed spec fn state(self) -> PlannerState {
        PlannerState {
            config: self.config@,
            todo: self.todo_list.tasks(),
            next_number: self.todo_list.next_number(),
            executor: self.executor.state(),
            history: history_view(self.executor_feedback_history@),
            inputs: inputs_view(self.user_input_queue@),
            context: messages_view(self.context@),
            memory: self.prompt_memory.slots(),
            memory_version: self.prompt_memory.format_version(),
            stuck_rounds: self.consecutive_stuck_count,
            log: inputs_view(self.execution_log@),
            running: self.is_running,
            consolidations: inputs_view(self.pending_consolidation_task_types@),
            turns: self.turns,
        }
    }

    /// The dispatcher of the executor's agent.
    pub closed spec fn dispatcher(self) -> crate::actions::handler::ActionHandler {
        self.executor.dispatcher()
    }

    /// The state of a new planner: an empty queue, an idle executor with
    /// the planner's threshold for being stuck, the memory as given, with
    /// the version of its format, and nothing else.
    pub open spec fn initial(
        config: PlannerConfigView,
        agent: AgentConfigView,
        memory: Seq<(Seq<char>, PromptEntryView)>,
        memory_version: Seq<char>,
    ) -> PlannerState {
        PlannerState {
            config,
            todo: Seq::empty(),
            next_number: 1,
            executor: ExecutorState {
                stuck_threshold: config.stuck_threshold,
                ..ExecutorWrapper::initial(agent)
            },
            history: Seq::empty(),
            inputs: Seq::empty(),
            context: Seq::empty(),
            memory,
            memory_version,
            stuck_rounds: 0,
            log: Seq::empty(),
            running: false,
            consolidations: Seq::empty(),
            turns: 0,
        }
    }

    /// A new planner with the memory `prompt_memory`.
    pub fn new(
        planner_config: PlannerConfig,
        executor_agent_config: AgentConfig,
        prompt_memory: PromptMemory,
    ) -> (r: Self)
        ensures
            r.state() == Self::initial(
                planner_config@,
                executor_agent_config@,
                prompt_memory.slots(),
                prompt_memory.format_version(),
            ),
            r.dispatcher().policy() == executor_agent_config.coordinate_system,
            r.dispatcher().scales() == (executor_agent_config.scale_x, executor_agent_config.scale_y),
            r.dispatcher().device() == option_view(executor_agent_config.device_id),
    {
        let executor = ExecutorWrapper::new(executor_agent_config).with_stuck_threshold(
            planner_config.stuck_threshold,
        );
        let r = PlannerAgent {
            config: planner_config,
            todo_list: TodoList::new(),
            executor,
            executor_feedback_history: VecDeque::new(),
            user_input_queue: VecDeque::new(),
            context: Vec::new(),
            prompt_memory,
            consecutive_stuck_count: 0,
            execution_log: Vec::new(),
            is_running: false,
            pending_consolidation_task_types: Vec::new(),
            turns: 0,
        };
        assert(history_view(r.executor_feedback_history@) =~= Seq::empty());
        assert(inputs_view(r.user_input_queue@) =~= Seq::empty());
        assert(messages_view(r.context@) =~= Seq::empty());
        assert(inputs_view(r.execution_log@) =~= Seq::empty());
        assert(inputs_view(r.pending_consolidation_task_types@) =~= Seq::empty());
        r
    }

    /// Puts an input of the user at the end of the queue.
    pub fn queue_user_input(&mut self, input: String)
        ensures
            final(self).state() == (PlannerState {
                inputs: old(self).state().inputs.push(input@),
                ..old(self).state()
            }),
            final(self).dispatcher() == old(self).dispatcher(),
    {
        let ghost before = inputs_view(self.user_input_queue@);
        self.user_input_queue.push_back(input);
        assert(inputs_view(self.user_input_queue@) =~= before.push(input@));
    }

    /// Whether inputs of the user wait.
    pub fn has_pending_input(&self) -> (r: bool)
        ensures
            r == (self.state().inputs.len() > 0),
    {
        self.user_input_queue.len() > 0
    }

    /// The task queue.
    pub fn todo_list(&self) -> (r: &TodoList)
        ensures
            r.tasks() == self.state().todo,
            r.next_number() == self.state().next_number,
    {
        &self.todo_list
    }

    /// The task queue, to be changed in place.
    pub fn todo_list_mut(&mut self) -> (r: &mut TodoList)
        ensures
            r.tasks() == old(self).state().todo,
            r.next_number() == old(self).state().next_number,
            final(self).state() == (PlannerState {
                todo: final(r).tasks(),
                next_number: final(r).next_number(),
                ..old(self).state()
            }),
            final(self).dispatcher() == old(self).dispatcher(),
    {
        &mut self.todo_list
    }

    /// The status of the executor.
    pub fn executor_status(&self) -> (r: &ExecutorStatus)
        ensures
            r@ == self.state().executor.status,
    {
        self.executor.status()
    }

    /// The executor.
    pub fn executor(&self) -> (r: &ExecutorWrapper)
        ensures
            r.state() == self.state().executor,
            r.dispatcher() == self.dispatcher(),
    {
        &self.executor
    }

    /// Whether the planner runs.
    pub fn is_running(&self) -> (r: bool)
        ensures
            r == self.state().running,
    {
        self.is_running
    }

    /// The prompt memory.
    pub fn prompt_memory(&self) -> (r: &PromptMemory)
        ensures
            r.slots() == self.state().memory,
            r.format_version() == self.state().memory_version,
    {
        &self.prompt_memory
    }

    /// The prompt memory, to be changed in place.
    pub fn prompt_memory_mut(&mut self) -> (r: &mut PromptMemory)
        ensures
            r.slots() == old(self).state().memory,
            r.format_version() == old(self).state().memory_version,
            final(self).state() == (PlannerState {
                memory: final(r).slots(),
                memory_version: final(r).format_version(),
                ..old(self).state()
            }),
            final(self).dispatcher() == old(self).dispatcher(),
    {
        &mut self.prompt_memory
    }

    /// The last reports of the executor.
    pub fn feedback_history(&self) -> (r: &VecDeque<ExecutorFeedback>)
        ensures
            history_view(r@) == self.state().history,
    {
        &self.executor_feedback_history
    }

    /// Forgets the reports of the executor.
    pub fn clear_feedback_history(&mut self)
        ensures
            final(self).state() == (PlannerState {
                history: Seq::empty(),
                ..old(self).state()
            }),
            final(self).dispatcher() == old(self).dispatcher(),
    {
        self.executor_feedback_history.clear();
        assert(history_view(self.executor_feedback_history@) =~= Seq::empty());
    }

    /// The conversation with the planner's model.
    pub fn context(&self) -> (r: &Vec<Message>)
        ensures
            messages_view(r@) == self.state().context,
    {
        &self.context
    }

    /// The setup.
    pub fn config(&self) -> (r: &PlannerConfig)
        ensures
            r@ == self.state().config,
    {
        &self.config
    }

    /// Tells the executor to do `command`.
    fn send(&mut self, command: ExecutorCommand)
        ensures
            final(self).state() == old(self).state().sent(command@),
            final(self).dispatcher() == old(self).dispatcher(),
    {
        self.executor.enqueue(command);
    }

    /// Starts the task at the index `i`.
    fn start_at(&mut self, i: usize)
        requires
            i < old(self).state().todo.len(),
        ensures
            final(self).state() == old(self).state().task_started(
                i as int,
                final(self).state().todo,
            ),
            final(self).dispatcher() == old(self).dispatcher(),
    {
        let item = self.todo_list.item_mut(i);
        item.start();
        let task_id = item.id.clone();
        let description = item.description.clone();
        let system_prompt = match self.prompt_memory.get_prompt(item.task_type.as_str()) {
            Some(p) => Some(String::from_str(p)),
            None => None,
        };
        self.send(ExecutorCommand::StartTask { task_id, description, system_prompt });
    }

    /// Starts the first task called `task_id`; nothing happens where there
    /// is none.
    fn start_task(&mut self, task_id: &str)
        ensures
            final(self).state() == old(self).state().started_by_id(
                task_id@,
                final(self).state().todo,
            ),
            final(self).dispatcher() == old(self).dispatcher(),
    {
        match self.todo_list.position(task_id) {
            Some(i) => self.start_at(i),
            None => {},
        }
    }

    /// Starts the first pending task; nothing happens where none is
    /// pending.
    fn start_next(&mut self)
        ensures
            final(self).state() == old(self).state().next_started(final(self).state().todo),
            final(self).dispatcher() == old(self).dispatcher(),
    {
        match self.todo_list.first_index_with(TodoStatus::Pending) {
            Some(i) => self.start_at(i),
            None => {},
        }
    }
}

/// The last `max` reports of `history`.
pub open spec fn kept(history: Seq<FeedbackView>, max: usize) -> Seq<FeedbackView> {
    if history.len() > max {
        history.skip(history.len() - max)
    } else {
        history
    }
}

/// The line that is logged where the executor is found stuck for the `n`-th
/// time in a row.
pub open spec fn stuck_line(n: u32) -> Seq<char> {
    "[STUCK] Consecutive stuck count: "@ + decimal(n as nat)
}

/// The line that is logged where the executor failed for the reason
/// `reason`.
pub open spec fn failed_line(reason: Seq<char>) -> Seq<char> {
    "[FAILED] "@ + reason
}

/// `memory` after one more use of the prompt of the kind `task_type`.
pub open spec fn usage_recorded(
    memory: Seq<(Seq<char>, PromptEntryView)>,
    task_type: Seq<char>,
    success: bool,
) -> Seq<(Seq<char>, PromptEntryView)> {
    match slot_entry(memory, task_type) {
        Some(e) => put(memory, task_type, e.used(success)),
        None => memory,
    }
}

impl PlannerState {
    /// The state after a report of the executor was taken in: it stands at
    /// the end of the history, which keeps no more reports than the setup
    /// allows.
    pub open spec fn collected(self, feedback: FeedbackView) -> PlannerState {
        PlannerState {
            history: kept(self.history.push(feedback), self.config.max_executor_feedback_history),
            ..self
        }
    }

    /// The state after an overflown conversation was dealt with: the
    /// executor is told to forget its conversation and to start the running
    /// task again, or else the first pending one.
    pub open spec fn overflow_handled(self, then: Seq<TodoItemView>) -> PlannerState {
        let reset = self.sent(CommandView::ResetContext);
        let i = first_with(reset.todo, TodoStatus::Running);
        if i >= 0 {
            reset.task_started(i, then)
        } else {
            reset.next_started(then)
        }
    }

    /// The state after a stuck executor was dealt with. Below the ceiling
    /// of the setup the executor is given advice. At the ceiling it is told
    /// to forget its conversation, the running task counts a retry, and the
    /// count of stuck rounds starts anew.
    pub open spec fn stuck_handled(self, then: Seq<TodoItemView>) -> PlannerState {
        let rounds = next_count(self.stuck_rounds);
        let logged = PlannerState {
            log: self.log.push(stuck_line(rounds)),
            stuck_rounds: rounds,
            ..self
        };
        if rounds >= self.config.max_stuck_retries {
            let reset = logged.sent(CommandView::ResetContext);
            let i = first_with(reset.todo, TodoStatus::Running);
            PlannerState {
                stuck_rounds: 0,
                todo: if i >= 0 {
                    reset.todo.update(i, reset.todo[i].retried(then[i].updated_at))
                } else {
                    reset.todo
                },
                ..reset
            }
        } else {
            logged.sent(
                CommandView::InjectPrompt {
                    content: correction_prompt(self.history, self.config.lang),
                },
            )
        }
    }

    /// The state after the running task was marked as done and its success
    /// was counted in the memory; the state itself where no task runs.
    pub open spec fn running_completed(self, then: Seq<TodoItemView>) -> PlannerState {
        let i = first_with(self.todo, TodoStatus::Running);
        if i >= 0 {
            PlannerState {
                todo: self.todo.update(
                    i,
                    self.todo[i].moved_to(TodoStatus::Done, then[i].updated_at),
                ),
                memory: usage_recorded(self.memory, self.todo[i].task_type, true),
                ..self
            }
        } else {
            self
        }
    }

    /// The state after a completed executor was dealt with: the running
    /// task is done, and the first pending task is started.
    pub open spec fn completion_handled(self, then: Seq<TodoItemView>) -> PlannerState {
        self.running_completed(then).next_started(then)
    }

    /// Whether the memory is to be saved after a completed executor was
    /// dealt with.
    pub open spec fn completion_saves(self) -> bool {
        first_with(self.todo, TodoStatus::Running) >= 0 && self.config.prompt_memory_path is Some
    }

    /// Whether a failure of the executor ends the running task for good
    /// and calls for an improvement of its prompt.
    pub open spec fn failure_optimizes(self) -> bool {
        let i = first_with(self.todo, TodoStatus::Running);
        i >= 0 && !self.todo[i].can_retry() && self.config.auto_optimize_prompts
    }

    /// The state after a failed executor was dealt with. The failure is
    /// logged. A running task that can be tried again counts a retry and is
    /// started again. One that cannot has failed, the failure is counted in
    /// the memory, and the first pending task is started, unless the prompt
    /// is to be improved first.
    pub open spec fn failure_handled(self, reason: Seq<char>, then: Seq<TodoItemView>)
        -> PlannerState {
        let logged = PlannerState { log: self.log.push(failed_line(reason)), ..self };
        let i = first_with(logged.todo, TodoStatus::Running);
        if i < 0 {
            logged
        } else if logged.todo[i].can_retry() {
            (PlannerState {
                todo: logged.todo.update(i, logged.todo[i].retried(then[i].updated_at)),
                ..logged
            }).task_started(i, then)
        } else {
            let failed = PlannerState {
                todo: logged.todo.update(i, logged.todo[i].failed(reason, then[i].updated_at)),
                memory: usage_recorded(logged.memory, logged.todo[i].task_type, false),
                ..logged
            };
            if self.config.auto_optimize_prompts {
                failed
            } else {
                failed.next_started(then)
            }
        }
    }

    /// The state after one pass of supervision. The last report decides:
    /// an overflown conversation goes before everything else; then a stuck,
    /// a completed and a failed executor are dealt with; any other status
    /// ends the count of stuck rounds. Nothing happens without a report.
    pub open spec fn supervised(self, then: Seq<TodoItemView>) -> PlannerState {
        if self.history.len() == 0 {
            self
        } else if self.history.last().context_overflow_detected {
            self.overflow_handled(then)
        } else {
            match self.history.last().status {
                StatusView::Stuck => self.stuck_handled(then),
                StatusView::Completed => self.completion_handled(then),
                StatusView::Failed(reason) => self.failure_handled(reason, then),
                _ => PlannerState { stuck_rounds: 0, ..self },
            }
        }
    }

    /// The kind of task whose prompt is to be improved after one pass of
    /// supervision, if there is one.
    pub open spec fn supervision_optimizes(self) -> Option<Seq<char>> {
        if self.history.len() > 0 && !self.history.last().context_overflow_detected
            && self.history.last().status is Failed && self.failure_optimizes() {
            Some(self.todo[first_with(self.todo, TodoStatus::Running)].task_type)
        } else {
            None
        }
    }

    /// Whether the memory is to be saved after one pass of supervision.
    pub open spec fn supervision_saves(self) -> bool {
        self.history.len() > 0 && !self.history.last().context_overflow_detected
            && self.history.last().status is Completed && self.completion_saves()
    }
}

/// What a pass of supervision asks of the caller.
#[derive(Debug, Clone, PartialEq, Eq)]
pub struct Supervision {
    /// Whether the memory is to be saved.
    pub save_memory: bool,
    /// The kind of task whose prompt is to be improved, if there is one.
    pub optimize: Option<String>,
}

impl PlannerAgent {
    /// Takes in a report of the executor.
    pub fn collect_executor_feedback(&mut self, feedback: ExecutorFeedback)
        ensures
            final(self).state() == old(self).state().collected(feedback@),
            final(self).dispatcher() == old(self).dispatcher(),
    {
        let ghost before = history_view(self.executor_feedback_history@);
        let ghost target = before.push(feedback@);
        self.executor_feedback_history.push_back(feedback);
        assert(history_view(self.executor_feedback_history@) =~= target);
        assert(target.skip(0) == target);
        let max = self.config.max_executor_feedback_history;
        while self.executor_feedback_history.len() > max
            invariant
                self.config == old(self).config,
                self.todo_list == old(self).todo_list,
                self.executor == old(self).executor,
                self.user_input_queue == old(self).user_input_queue,
                self.context == old(self).context,
                self.prompt_memory == old(self).prompt_memory,
                self.consecutive_stuck_count == old(self).consecutive_stuck_count,
                self.execution_log == old(self).execution_log,
                self.is_running == old(self).is_running,
                self.pending_consolidation_task_types == old(self).pending_consolidation_task_types,
                self.turns == old(self).turns,
                max == self.config.max_executor_feedback_history,
                self.executor_feedback_history.len() <= target.len(),
                self.executor_feedback_history.len() == target.len()
                    || self.executor_feedback_history.len() >= max,
                history_view(self.executor_feedback_history@) == target.skip(
                    target.len() - self.executor_feedback_history.len(),
                ),
            decreases self.executor_feedback_history.len(),
        {
            let ghost current = history_view(self.executor_feedback_history@);
            self.executor_feedback_history.pop_front();
            assert(history_view(self.executor_feedback_history@) =~= current.skip(1));
            assert(current.skip(1) =~= target.skip(
                target.len() - self.executor_feedback_history.len(),
            ));
        }
        assert(history_view(self.executor_feedback_history@) =~= kept(target, max)) by {
            if target.len() <= max {
                assert(target.skip(0) == target);
            }
        }
    }

    /// Deals with an overflown conversation.
    fn handle_context_overflow(&mut self)
        ensures
            final(self).state() == old(self).state().overflow_handled(final(self).state().todo),
            final(self).dispatcher() == old(self).dispatcher(),
    {
        let running = self.todo_list.first_index_with(TodoStatus::Running);
        self.send(ExecutorCommand::ResetContext);
        match running {
            Some(i) => self.start_at(i),
            None => self.start_next(),
        }
    }

    /// Deals with a stuck executor.
    fn handle_stuck(&mut self)
        ensures
            final(self).state() == old(self).state().stuck_handled(final(self).state().todo),
            final(self).dispatcher() == old(self).dispatcher(),
    {
        if self.consecutive_stuck_count < u32::MAX {
            self.consecutive_stuck_count = self.consecutive_stuck_count + 1;
        }
        let mut line = to_chars("[STUCK] Consecutive stuck count: ");
        push_decimal(&mut line, self.consecutive_stuck_count as u128);
        let ghost before = inputs_view(self.execution_log@);
        let text = from_chars(&line);
        self.execution_log.push(text);
        assert(inputs_view(self.execution_log@) =~= before.push(text@));
        if self.consecutive_stuck_count >= self.config.max_stuck_retries {
            self.send(ExecutorCommand::ResetContext);
            match self.todo_list.first_index_with(TodoStatus::Running) {
                Some(i) => {
                    let item = self.todo_list.item_mut(i);
                    item.retry();
                },
                None => {},
            }
            self.consecutive_stuck_count = 0;
        } else {
            let content = generate_correction_prompt(
                &self.executor_feedback_history,
                self.config.lang.as_str(),
            );
            self.send(ExecutorCommand::InjectPrompt { content });
        }
    }

    /// Deals with a completed executor, and says whether the memory is to
    /// be saved.
    fn handle_executor_completed(&mut self) -> (save: bool)
        ensures
            final(self).state() == old(self).state().completion_handled(final(self).state().todo),
            save == old(self).state().completion_saves(),
            final(self).dispatcher() == old(self).dispatcher(),
    {
        let mut save = false;
        match self.todo_list.first_index_with(TodoStatus::Running) {
            Some(i) => {
                let item = self.todo_list.item_mut(i);
                item.complete();
                let task_type = item.task_type.clone();
                self.prompt_memory.record_usage(task_type.as_str(), true);
                save = self.config.prompt_memory_path.is_some();
            },
            None => {},
        }
        let ghost middle = self.state();
        self.start_next();
        proof {
            let then = self.state().todo;
            let i = first_with(old(self).state().todo, TodoStatus::Running);
            if i >= 0 {
                let j = first_with(middle.todo, TodoStatus::Pending);
                crate::agent::todo::lemma_indices(middle.todo, Seq::empty(), TodoStatus::Pending);
                assert(j != i);
                assert(then[i] == middle.todo[i]);
            }
            assert(middle == old(self).state().running_completed(then));
        }
        save
    }

    /// Deals with a failed executor, and says whether the prompt of the
    /// failed task's kind is to be improved.
    fn handle_executor_failed(&mut self, reason: &str) -> (optimize: Option<String>)
        ensures
            final(self).state() == old(self).state().failure_handled(
                reason@,
                final(self).state().todo,
            ),
            match optimize {
                Some(t) => old(self).state().failure_optimizes() && t@ == old(
                    self,
                ).state().todo[first_with(old(self).state().todo, TodoStatus::Running)].task_type,
                None => !old(self).state().failure_optimizes(),
            },
            final(self).dispatcher() == old(self).dispatcher(),
    {
        let mut line = to_chars("[FAILED] ");
        push_str(&mut line, reason);
        let ghost before = inputs_view(self.execution_log@);
        let text = from_chars(&line);
        self.execution_log.push(text);
        assert(inputs_view(self.execution_log@) =~= before.push(text@));
        let i = match self.todo_list.first_index_with(TodoStatus::Running) {
            Some(i) => i,
            None => {
                return None;
            },
        };
        if self.todo_list.item(i).can_retry() {
            let item = self.todo_list.item_mut(i);
            item.retry();
            let ghost middle = self.state();
            self.start_at(i);
            proof {
                let then = self.state().todo;
                let logged = PlannerState {
                    log: old(self).state().log.push(failed_line(reason@)),
                    ..old(self).state()
                };
                let target = PlannerState {
                    todo: logged.todo.update(i as int, logged.todo[i as int].retried(then[i as int].updated_at)),
                    ..logged
                };
                assert(middle.task_started(i as int, then) == target.task_started(i as int, then))
                    by {
                    assert(middle.todo.update(
                        i as int,
                        middle.todo[i as int].moved_to(TodoStatus::Running, then[i as int].updated_at),
                    ) =~= target.todo.update(
                        i as int,
                        target.todo[i as int].moved_to(TodoStatus::Running, then[i as int].updated_at),
                    ));
                }
            }
            None
        } else {
            let item = self.todo_list.item_mut(i);
            item.fail(reason);
            let task_type = item.task_type.clone();
            self.prompt_memory.record_usage(task_type.as_str(), false);
            if self.config.auto_optimize_prompts {
                Some(task_type)
            } else {
                let ghost middle = self.state();
                self.start_next();
                proof {
                    let then = self.state().todo;
                    let j = first_with(middle.todo, TodoStatus::Pending);
                    crate::agent::todo::lemma_indices(middle.todo, Seq::empty(), TodoStatus::Pending);
                    assert(j != i);
                    assert(then[i as int] == middle.todo[i as int]);
                }
                None
            }
        }
    }

    /// Looks at the last report of the executor and steps in where that is
    /// called for.
    pub fn supervise_executor(&mut self) -> (r: Supervision)
        ensures
            final(self).state() == old(self).state().supervised(final(self).state().todo),
            r.save_memory == old(self).state().supervision_saves(),
            option_view(r.optimize) == old(self).state().supervision_optimizes(),
            final(self).dispatcher() == old(self).dispatcher(),
    {
        let n = self.executor_feedback_history.len();
        if n == 0 {
            return Supervision { save_memory: false, optimize: None };
        }
        let last = &self.executor_feedback_history[n - 1];
        assert(history_view(self.executor_feedback_history@).last() == last@);
        if last.context_overflow_detected {
            self.handle_context_overflow();
            return Supervision { save_memory: false, optimize: None };
        }
        let status = last.status.duplicate();
        match status {
            ExecutorStatus::Stuck => {
                self.handle_stuck();
                Supervision { save_memory: false, optimize: None }
            },
            ExecutorStatus::Completed => {
                let save_memory = self.handle_executor_completed();
                Supervision { save_memory, optimize: None }
            },
            ExecutorStatus::Failed(reason) => {
                let optimize = self.handle_executor_failed(reason.as_str());
                Supervision { save_memory: false, optimize }
            },
            _ => {
                self.consecutive_stuck_count = 0;
                Supervision { save_memory: false, optimize: None }
            },
        }
    }
}

/// An input of the user as the planner's model sees it: the input, the
/// summary of the executor and the summary of the queue.
pub open spec fn enriched_input(input: Seq<char>, executor: Seq<char>, todo: Seq<char>) -> Seq<
    char,
> {
    "[用户输入]\n"@ + input + "\n\n[当前执行器状态]\n"@ + executor + "\n\n[当前任务列表]\n"@ + todo
}

/// What the planner's model is told after a task was added.
pub open spec fn added_feedback(
    id: Seq<char>,
    description: Seq<char>,
    task_type: Seq<char>,
    summary: Seq<char>,
) -> Seq<char> {
    "[系统反馈] 任务已添加成功。\n- ID: "@ + id + "\n- 描述: "@ + description + "\n- 类型: "@ + task_type
        + "\n\n当前任务列表:\n"@ + summary
        + "\n\n请继续: 如果还有更多子任务，请继续使用 add_todo 添加。如果任务列表已完整，请使用 start_executor 启动执行第一个任务。"@
}

/// What the planner's model is told after the executor was started.
pub open spec fn started_feedback(id: Seq<char>) -> Seq<char> {
    "[系统反馈] 执行器已启动，正在执行任务: "@ + id + "\n执行器将自动运行，完成后会自动执行下一个任务。"@
}

/// What is noted with a correction: the task it was given for.
pub open spec fn correction_context(id: Seq<char>, description: Seq<char>) -> Seq<char> {
    "任务: "@ + id + " - "@ + description
}

impl PlannerState {
    /// The state with one more message in the conversation.
    pub open spec fn told(self, message: MessageView) -> PlannerState {
        PlannerState { context: self.context.push(message), ..self }
    }

    /// The summary of the executor as the planner sees it.
    pub open spec fn executor_report(self) -> Seq<char> {
        executor_summary(self.executor.status, self.executor.steps, self.history)
    }

    /// The state after the planner was started: it runs, and its
    /// conversation holds the system's first message and nothing else.
    pub open spec fn begun(self) -> PlannerState {
        PlannerState { running: true, context: seq![self.system_message()], ..self }
    }

    /// The state after the planner was stopped: it does not run, and the
    /// executor is told to stop.
    pub open spec fn halted(self) -> PlannerState {
        (PlannerState { running: false, ..self }).sent(CommandView::Stop)
    }

    /// The state with the system's first message brought up to date;
    /// nothing happens where the conversation is empty.
    pub open spec fn refreshed(self) -> PlannerState {
        if self.context.len() == 0 {
            self
        } else {
            PlannerState { context: self.context.update(0, self.system_message()), ..self }
        }
    }

    /// The state after the first waiting input was taken up: it stands in
    /// the conversation, with the summaries of the executor and the queue,
    /// and the count of answers starts anew.
    pub open spec fn input_taken(self) -> PlannerState {
        if self.inputs.len() == 0 {
            self
        } else {
            (PlannerState { inputs: self.inputs.skip(1), turns: 0, ..self }).told(
                plain(
                    Role::User,
                    enriched_input(self.inputs[0], self.executor_report(), todo_summary(self.todo)),
                ),
            )
        }
    }

    /// The state after a task was added on the model's request: the task
    /// stands at the end of the queue, and the model is shown the queue.
    pub open spec fn todo_added(
        self,
        description: Seq<char>,
        task_type: Seq<char>,
        then: Seq<TodoItemView>,
    ) -> PlannerState {
        let id = task_id(self.next_number);
        let todo = self.todo.push(
            TodoItemView::created(id, description, task_type, then.last().created_at),
        );
        (PlannerState { todo, next_number: next_count(self.next_number), ..self }).told(
            plain(Role::User, added_feedback(id, description, task_type, todo_summary(todo))),
        )
    }

    /// The state after the first task called `id` was given the status
    /// `status`.
    pub open spec fn marked(self, id: Seq<char>, status: TodoStatus, then: Seq<TodoItemView>)
        -> PlannerState {
        let i = position_of(self.todo, id);
        if i < 0 {
            self
        } else {
            PlannerState {
                todo: self.todo.update(i, self.todo[i].moved_to(status, then[i].updated_at)),
                ..self
            }
        }
    }

    /// The state after the first task called `id` was marked as failed for
    /// the reason `reason`.
    pub open spec fn marked_failed(self, id: Seq<char>, reason: Seq<char>, then: Seq<TodoItemView>)
        -> PlannerState {
        let i = position_of(self.todo, id);
        if i < 0 {
            self
        } else {
            PlannerState {
                todo: self.todo.update(i, self.todo[i].failed(reason, then[i].updated_at)),
                ..self
            }
        }
    }

    /// The task that a correction is meant for: the running task, or else
    /// the task that was completed last; -1 where there is neither.
    pub open spec fn corrected_task(self) -> int {
        let i = first_with(self.todo, TodoStatus::Running);
        if i >= 0 {
            i
        } else {
            last_completed_index(self.todo)
        }
    }

    /// Whether the executor has come to rest: it is completed or idle.
    pub open spec fn executor_rests(self) -> bool {
        self.executor.status == StatusView::Completed || self.executor.status == StatusView::Idle
    }

    /// The state after a correction was learnt: it is stored in the memory
    /// for the kind of the task it is meant for; where three or more
    /// corrections wait for that kind, the kind awaits consolidation; and
    /// where the executor had come to rest the task runs again. Nothing
    /// happens where there is no task to correct. `then` and `memory_then`
    /// are the queue and the memory afterwards, from which the times are
    /// taken.
    pub open spec fn correction_learnt(
        self,
        content: Seq<char>,
        then: Seq<TodoItemView>,
        memory_then: Seq<(Seq<char>, PromptEntryView)>,
    ) -> PlannerState {
        let k = self.corrected_task();
        if k < 0 {
            self
        } else {
            let task = self.todo[k];
            let stored = slot_entry(memory_then, task.task_type)->0;
            let memory = with_correction(
                self.memory,
                task.task_type,
                CorrectionView {
                    content,
                    context: Some(correction_context(task.id, task.description)),
                    timestamp: stored.corrections.last().timestamp,
                },
                stored.last_updated,
            );
            let woken = if self.executor_rests() {
                self.marked(task.id, TodoStatus::Running, then)
            } else {
                self
            };
            PlannerState {
                memory,
                consolidations: if pending_in(memory, task.task_type) >= CONSOLIDATION_THRESHOLD {
                    self.consolidations.push(task.task_type)
                } else {
                    self.consolidations
                },
                ..woken
            }
        }
    }

    /// The state after the tool call `action` was carried out.
    pub open spec fn acted(
        self,
        action: PlannerActionView,
        then: Seq<TodoItemView>,
        memory_then: Seq<(Seq<char>, PromptEntryView)>,
    ) -> PlannerState {
        match action {
            PlannerActionView::AddTodo { description, task_type } => self.todo_added(
                description,
                task_type,
                then,
            ),
            PlannerActionView::StartExecutor { task_id } => self.started_by_id(task_id, then).told(
                plain(Role::User, started_feedback(task_id)),
            ),
            PlannerActionView::PauseExecutor => self.sent(CommandView::Pause),
            PlannerActionView::ResumeExecutor => self.sent(CommandView::Resume),
            PlannerActionView::InjectPrompt { content } => self.correction_learnt(
                content,
                then,
                memory_then,
            ).sent(CommandView::InjectPrompt { content }),
            PlannerActionView::ResetExecutor => self.sent(CommandView::ResetContext),
            PlannerActionView::CompleteTodo { task_id } => self.marked(
                task_id,
                TodoStatus::Done,
                then,
            ),
            PlannerActionView::FailTodo { task_id, reason } => self.marked_failed(
                task_id,
                reason,
                then,
            ),
            PlannerActionView::Report { .. } => self,
            PlannerActionView::Wait => self,
            PlannerActionView::Done { .. } => self,
        }
    }

    /// Whether the memory is to be saved after the tool call `action`.
    pub open spec fn action_saves(self, action: PlannerActionView) -> bool {
        action is InjectPrompt && self.corrected_task() >= 0 && self.config.prompt_memory_path
            is Some
    }
}

/// Whether the planner's model is asked again after the tool call
/// `action`: after a task was added and after a report.
pub open spec fn continues_after(action: PlannerActionView) -> bool {
    action is AddTodo || action is Report
}

impl PlannerAgent {
    /// Writes the system's first message.
    fn system_message(&self) -> (r: Message)
        ensures
            r@ == self.state().system_message(),
    {
        let mut text = to_chars(self.config.get_system_prompt().as_str());
        push_str(
            &mut text,
            "\n\n## 已保存的任务类型记忆\n\n以下是系统已学习的任务类型，优先使用这些类型以便复用记忆：\n\n",
        );
        push_str(&mut text, self.prompt_memory.get_task_types_summary().as_str());
        push_str(&mut text, "\n\n你也可以创建新的任务类型，系统会自动学习。");
        MessageBuilder::create_system_message(from_chars(&text).as_str())
    }

    /// Starts the planner.
    pub fn start(&mut self)
        ensures
            final(self).state() == old(self).state().begun(),
            final(self).dispatcher() == old(self).dispatcher(),
    {
        self.is_running = true;
        let first = self.system_message();
        self.context.clear();
        self.context.push(first);
        assert(messages_view(self.context@) =~= seq![first@]);
    }

    /// Stops the planner.
    pub fn stop(&mut self)
        ensures
            final(self).state() == old(self).state().halted(),
            final(self).dispatcher() == old(self).dispatcher(),
    {
        self.is_running = false;
        self.send(ExecutorCommand::Stop);
    }

    /// Brings the system's first message up to date with the memory.
    pub fn refresh_context_with_task_types(&mut self)
        ensures
            final(self).state() == old(self).state().refreshed(),
            final(self).dispatcher() == old(self).dispatcher(),
    {
        if self.context.len() > 0 {
            let first = self.system_message();
            let ghost before = messages_view(self.context@);
            self.context.set(0, first);
            assert(messages_view(self.context@) =~= before.update(0, first@));
        }
    }

    /// Adds a message to the conversation.
    fn tell(&mut self, message: Message)
        ensures
            final(self).state() == old(self).state().told(message@),
            final(self).dispatcher() == old(self).dispatcher(),
    {
        let ghost before = messages_view(self.context@);
        self.context.push(message);
        assert(messages_view(self.context@) =~= before.push(message@));
    }

    /// Takes up the first waiting input of the user, and says whether
    /// there was one.
    pub fn next_user_input(&mut self) -> (r: bool)
        ensures
            r == (old(self).state().inputs.len() > 0),
            final(self).state() == old(self).state().input_taken(),
            final(self).dispatcher() == old(self).dispatcher(),
    {
        let ghost before = inputs_view(self.user_input_queue@);
        let input = match self.user_input_queue.pop_front() {
            Some(input) => input,
            None => {
                return false;
            },
        };
        assert(inputs_view(self.user_input_queue@) =~= before.skip(1));
        assert(before[0] == input@);
        let executor = build_executor_status_summary(
            self.executor.status(),
            self.executor.step_count(),
            &self.executor_feedback_history,
        );
        let todo = build_todo_summary(&self.todo_list);
        let mut text = to_chars("[用户输入]\n");
        push_str(&mut text, input.as_str());
        push_str(&mut text, "\n\n[当前执行器状态]\n");
        push_str(&mut text, executor.as_str());
        push_str(&mut text, "\n\n[当前任务列表]\n");
        push_str(&mut text, todo.as_str());
        self.turns = 0;
        self.tell(MessageBuilder::create_user_message(from_chars(&text).as_str(), None));
        true
    }

    /// Counts one more question to the planner's model, and says whether
    /// it may be asked: the model gives at most twenty answers to one
    /// input.
    pub fn may_ask(&mut self) -> (r: bool)
        ensures
            r == (old(self).state().turns < MAX_CONVERSATION_TURNS),
            final(self).state() == (PlannerState {
                turns: next_count(old(self).state().turns),
                ..old(self).state()
            }),
            final(self).dispatcher() == old(self).dispatcher(),
    {
        let allowed = self.turns < MAX_CONVERSATION_TURNS;
        if self.turns < u32::MAX {
            self.turns = self.turns + 1;
        }
        allowed
    }

    /// Whether there is work left: a task that is not terminal, or an
    /// input that waits.
    pub fn should_continue(&self) -> (r: bool)
        ensures
            r == (!all_terminal(self.state().todo) || self.state().inputs.len() > 0),
    {
        !self.todo_list.is_all_done() || self.has_pending_input()
    }
}

/// What a turn of the conversation with the planner's model gave.
#[derive(Debug, Clone, PartialEq, Eq)]
pub struct TurnOutcome {
    /// The tool call that was carried out, where the model answered.
    pub action: Option<PlannerAction>,
    /// Whether the model is to be asked again.
    pub proceed: bool,
    /// Whether the memory is to be saved.
    pub save_memory: bool,
}

impl PlannerAgent {
    /// Adds a task on the model's request.
    fn add_todo(&mut self, description: &str, task_type: &str)
        ensures
            final(self).state() == old(self).state().todo_added(
                description@,
                task_type@,
                final(self).state().todo,
            ),
            final(self).dispatcher() == old(self).dispatcher(),
    {
        let id = self.todo_list.add(description, task_type);
        let summary = build_todo_summary(&self.todo_list);
        let mut text = to_chars("[系统反馈] 任务已添加成功。\n- ID: ");
        push_str(&mut text, id.as_str());
        push_str(&mut text, "\n- 描述: ");
        push_str(&mut text, description);
        push_str(&mut text, "\n- 类型: ");
        push_str(&mut text, task_type);
        push_str(&mut text, "\n\n当前任务列表:\n");
        push_str(&mut text, summary.as_str());
        push_str(
            &mut text,
            "\n\n请继续: 如果还有更多子任务，请继续使用 add_todo 添加。如果任务列表已完整，请使用 start_executor 启动执行第一个任务。",
        );
        self.tell(MessageBuilder::create_user_message(from_chars(&text).as_str(), None));
    }

    /// Gives the first task called `task_id` the status `status`.
    fn mark(&mut self, task_id: &str, status: TodoStatus)
        requires
            status == TodoStatus::Done || status == TodoStatus::Running,
        ensures
            final(self).state() == old(self).state().marked(
                task_id@,
                status,
                final(self).state().todo,
            ),
            final(self).dispatcher() == old(self).dispatcher(),
    {
        match self.todo_list.position(task_id) {
            Some(i) => {
                let item = self.todo_list.item_mut(i);
                match status {
                    TodoStatus::Done => item.complete(),
                    _ => item.start(),
                }
            },
            None => {},
        }
    }

    /// Marks the first task called `task_id` as failed.
    fn mark_failed(&mut self, task_id: &str, reason: &str)
        ensures
            final(self).state() == old(self).state().marked_failed(
                task_id@,
                reason@,
                final(self).state().todo,
            ),
            final(self).dispatcher() == old(self).dispatcher(),
    {
        match self.todo_list.position(task_id) {
            Some(i) => {
                let item = self.todo_list.item_mut(i);
                item.fail(reason);
            },
            None => {},
        }
    }

    /// Learns a correction, and says whether the memory is to be saved.
    fn learn_correction(&mut self, content: &str) -> (save: bool)
        ensures
            final(self).state() == old(self).state().correction_learnt(
                content@,
                final(self).state().todo,
                final(self).state().memory,
            ),
            save == (old(self).state().corrected_task() >= 0 && old(
                self,
            ).state().config.prompt_memory_path is Some),
            final(self).dispatcher() == old(self).dispatcher(),
    {
        let rests = match self.executor.status() {
            ExecutorStatus::Completed => true,
            ExecutorStatus::Idle => true,
            _ => false,
        };
        let k = match self.todo_list.first_index_with(TodoStatus::Running) {
            Some(k) => Some(k),
            None => self.todo_list.last_completed_position(),
        };
        let k = match k {
            Some(k) => k,
            None => {
                return false;
            },
        };
        let task = self.todo_list.item(k);
        let task_type = task.task_type.clone();
        let id = task.id.clone();
        let mut note = to_chars("任务: ");
        push_str(&mut note, id.as_str());
        push_str(&mut note, " - ");
        push_str(&mut note, task.description.as_str());
        let ghost start = self.state();
        self.prompt_memory.add_correction(task_type.as_str(), content, Some(from_chars(&note)));
        if self.prompt_memory.pending_corrections(task_type.as_str()) >= CONSOLIDATION_THRESHOLD {
            let ghost before = inputs_view(self.pending_consolidation_task_types@);
            self.pending_consolidation_task_types.push(task_type.clone());
            assert(inputs_view(self.pending_consolidation_task_types@) =~= before.push(task_type@));
        }
        if rests {
            self.mark(id.as_str(), TodoStatus::Running);
        }
        proof {
            let stored = slot_entry(self.state().memory, task_type@)->0;
            crate::agent::prompt_memory::lemma_put(
                start.memory,
                task_type@,
                crate::agent::prompt_memory::amended(
                    slot_entry(start.memory, task_type@),
                    stored.corrections.last(),
                    stored.last_updated,
                ),
                task_type@,
            );
        }
        self.config.prompt_memory_path.is_some()
    }

    /// Carries out a tool call of the planner's model, and says whether the
    /// memory is to be saved.
    pub fn execute_planner_action(&mut self, action: &PlannerAction) -> (save: bool)
        ensures
            final(self).state() == old(self).state().acted(
                action@,
                final(self).state().todo,
                final(self).state().memory,
            ),
            save == old(self).state().action_saves(action@),
            final(self).dispatcher() == old(self).dispatcher(),
    {
        match action {
            PlannerAction::AddTodo { description, task_type } => {
                self.add_todo(description.as_str(), task_type.as_str());
                false
            },
            PlannerAction::StartExecutor { task_id } => {
                self.start_task(task_id.as_str());
                let mut text = to_chars("[系统反馈] 执行器已启动，正在执行任务: ");
                push_str(&mut text, task_id.as_str());
                push_str(&mut text, "\n执行器将自动运行，完成后会自动执行下一个任务。");
                self.tell(MessageBuilder::create_user_message(from_chars(&text).as_str(), None));
                false
            },
            PlannerAction::PauseExecutor => {
                self.send(ExecutorCommand::Pause);
                false
            },
            PlannerAction::ResumeExecutor => {
                self.send(ExecutorCommand::Resume);
                false
            },
            PlannerAction::InjectPrompt { content } => {
                let save = self.learn_correction(content.as_str());
                self.send(ExecutorCommand::InjectPrompt { content: content.clone() });
                save
            },
            PlannerAction::ResetExecutor => {
                self.send(ExecutorCommand::ResetContext);
                false
            },
            PlannerAction::CompleteTodo { task_id } => {
                self.mark(task_id.as_str(), TodoStatus::Done);
                false
            },
            PlannerAction::FailTodo { task_id, reason } => {
                self.mark_failed(task_id.as_str(), reason.as_str());
                false
            },
            PlannerAction::Report { .. } => false,
            PlannerAction::Wait => false,
            PlannerAction::Done { .. } => false,
        }
    }

    /// Whether the planner's model is asked again after the tool call
    /// `action`.
    pub fn should_continue_after_action(action: &PlannerAction) -> (r: bool)
        ensures
            r == continues_after(action@),
    {
        match action {
            PlannerAction::AddTodo { .. } => true,
            PlannerAction::Report { .. } => true,
            _ => false,
        }
    }

    /// Takes an answer of the planner's model, given as the text of its
    /// action, or none where the model gave no answer.
    ///
    /// An answer is added to the conversation, read as a tool call, and
    /// the tool call is carried out. Without an answer nothing happens and
    /// the model is not asked again.
    pub fn planner_turn(&mut self, answer: Option<&str>) -> (r: TurnOutcome)
        ensures
            final(self).dispatcher() == old(self).dispatcher(),
            match answer {
                None => final(self).state() == old(self).state() && r.action is None && !r.proceed
                    && !r.save_memory,
                Some(text) => {
                    let action = planner_action_of(text@);
                    let heard = old(self).state().told(plain(Role::Assistant, text@));
                    &&& final(self).state() == heard.acted(
                        action,
                        final(self).state().todo,
                        final(self).state().memory,
                    )
                    &&& r.action matches Some(a) && a@ == action
                    &&& r.proceed == continues_after(action)
                    &&& r.save_memory == heard.action_saves(action)
                },
            },
    {
        let text = match answer {
            Some(text) => text,
            None => {
                return TurnOutcome { action: None, proceed: false, save_memory: false };
            },
        };
        self.tell(MessageBuilder::create_assistant_message(text));
        match parse_planner_action(text) {
            Some(action) => {
                let proceed = Self::should_continue_after_action(&action);
                let save_memory = self.execute_planner_action(&action);
                TurnOutcome { action: Some(action), proceed, save_memory }
            },
            None => TurnOutcome { action: None, proceed: false, save_memory: false },
        }
    }
}

/// What the planner's model is asked where the corrections of a kind of
/// task are to be worked into its prompt.
pub open spec fn consolidation_request(
    lang: Seq<char>,
    task_type: Seq<char>,
    prompt: Seq<char>,
    corrections: Seq<char>,
) -> Seq<char> {
    if lang == "cn"@ {
        "任务类型: "@ + task_type + "\n\n当前系统提示词:\n"@ + (if prompt.len() == 0 {
            "(无)"@
        } else {
            prompt
        }) + "\n\n用户纠偏记录:\n"@ + corrections
            + "\n\n请根据用户的纠偏记录，生成一个优化后的系统提示词。\n这个提示词应该包含用户反复强调的操作规范和注意事项。\n确保新的提示词简洁明了，能够帮助执行器在未来避免同样的错误。\n只输出优化后的提示词内容，不要其他解释。"@
    } else {
        "Task type: "@ + task_type + "\n\nCurrent system prompt:\n"@ + (if prompt.len() == 0 {
            "(none)"@
        } else {
            prompt
        }) + "\n\nUser corrections:\n"@ + corrections
            + "\n\nBased on user corrections, generate an optimized system prompt.\nInclude the operational guidelines that users have repeatedly emphasized.\nEnsure the new prompt is concise and helps the executor avoid similar mistakes.\nOnly output the optimized prompt content, no explanations."@
    }
}

/// What the planner's model is asked where a prompt is to be improved
/// after a failure.
pub open spec fn optimization_request(lang: Seq<char>, task_type: Seq<char>, log: Seq<char>)
    -> Seq<char> {
    if lang == "cn"@ {
        "任务类型: "@ + task_type + "\n\n执行日志:\n"@ + log
            + "\n\n请根据执行中遇到的问题，生成一个优化后的系统提示词，帮助未来执行同类任务时避免这些问题。只输出优化后的提示词内容，不要其他解释。"@
    } else {
        "Task type: "@ + task_type + "\n\nExecution log:\n"@ + log
            + "\n\nBased on the issues encountered, generate an optimized system prompt to help avoid these problems in future executions of similar tasks.Only output the optimized prompt content, no explanations."@
    }
}

/// The two messages of a request to improve a prompt.
pub open spec fn request_messages(system: Seq<char>, request: Seq<char>) -> Seq<MessageView> {
    seq![plain(Role::System, system), plain(Role::User, request)]
}

/// What is to be done about the corrections that wait.
#[derive(Debug, Clone, PartialEq, Eq)]
pub enum Consolidation {
    /// No kind of task awaits consolidation.
    Nothing,
    /// The first kind that waited has no corrections; it waits no longer.
    Skipped,
    /// The planner's model is to be asked with these messages, and its
    /// answer handed to [`PlannerAgent::finish_consolidation`].
    Ask { task_type: String, messages: Vec<Message> },
}

impl PlannerState {
    /// The corrections of the first kind that awaits consolidation, as
    /// numbered lines; none where that kind has none.
    pub open spec fn waiting_corrections(self) -> Option<Seq<char>> {
        if self.consolidations.len() == 0 {
            None
        } else {
            match slot_entry(self.memory, self.consolidations[0]) {
                Some(e) => if e.corrections.len() > 0 {
                    Some(numbered_lines(e.corrections))
                } else {
                    None
                },
                None => None,
            }
        }
    }

    /// The state after an answer to a request for consolidation came in.
    /// An answer that is not empty once trimmed becomes the prompt of the
    /// kind, whose corrections are forgotten, and the system's first
    /// message is brought up to date.
    pub open spec fn consolidation_finished(
        self,
        task_type: Seq<char>,
        answer: Option<Seq<char>>,
        memory_then: Seq<(Seq<char>, PromptEntryView)>,
    ) -> PlannerState {
        match answer {
            Some(text) => if trim(text).len() > 0 {
                (PlannerState {
                    memory: consolidated(
                        self.memory,
                        task_type,
                        trim(text),
                        slot_entry(memory_then, task_type)->0.last_updated,
                    ),
                    ..self
                }).refreshed()
            } else {
                self
            },
            None => self,
        }
    }

    /// The state after an answer to a request for a better prompt came in.
    /// An answer that is not empty once trimmed becomes the prompt of the
    /// kind. The log is forgotten, and the first pending task is started.
    pub open spec fn optimization_finished(
        self,
        task_type: Seq<char>,
        answer: Option<Seq<char>>,
        then: Seq<TodoItemView>,
        memory_then: Seq<(Seq<char>, PromptEntryView)>,
    ) -> PlannerState {
        let learnt = match answer {
            Some(text) => if trim(text).len() > 0 {
                PlannerState {
                    memory: with_prompt_set(
                        self.memory,
                        task_type,
                        trim(text),
                        slot_entry(memory_then, task_type)->0.last_updated,
                    ),
                    ..self
                }
            } else {
                self
            },
            None => self,
        };
        (PlannerState { log: Seq::empty(), ..learnt }).next_started(then)
    }

    /// Whether an answer changes a prompt, so that the memory is to be
    /// saved.
    pub open spec fn answer_saves(self, answer: Option<Seq<char>>) -> bool {
        answer matches Some(text) && trim(text).len() > 0 && self.config.prompt_memory_path
            is Some
    }
}

/// The answer once trimmed, where there is one and it is not empty then.
fn usable_answer(answer: Option<&str>) -> (r: Option<String>)
    ensures
        match r {
            Some(t) => answer matches Some(text) && trim(text@).len() > 0 && t@ == trim(text@),
            None => !(answer matches Some(text) && trim(text@).len() > 0),
        },
{
    match answer {
        Some(text) => {
            let trimmed = trim_chars(&to_chars(text));
            if trimmed.len() > 0 {
                Some(from_chars(&trimmed))
            } else {
                None
            }
        },
        None => None,
    }
}

impl PlannerAgent {
    /// Takes up the first kind of task that awaits consolidation and says
    /// what is to be done about it.
    pub fn next_consolidation(&mut self) -> (r: Consolidation)
        ensures
            final(self).dispatcher() == old(self).dispatcher(),
            final(self).state() == (PlannerState {
                consolidations: if old(self).state().consolidations.len() > 0 {
                    old(self).state().consolidations.skip(1)
                } else {
                    old(self).state().consolidations
                },
                ..old(self).state()
            }),
            match r {
                Consolidation::Nothing => old(self).state().consolidations.len() == 0,
                Consolidation::Skipped => old(self).state().consolidations.len() > 0 && old(
                    self,
                ).state().waiting_corrections() is None,
                Consolidation::Ask { task_type, messages } => {
                    &&& old(self).state().consolidations.len() > 0
                    &&& task_type@ == old(self).state().consolidations[0]
                    &&& old(self).state().waiting_corrections() matches Some(lines)
                    &&& messages_view(messages@) == request_messages(
                        "You are a prompt optimization assistant. Generate concise, actionable system prompts."@,
                        consolidation_request(
                            old(self).state().config.lang,
                            task_type@,
                            match old(self).state().prompt_for(task_type@) {
                                Some(p) => p,
                                None => Seq::empty(),
                            },
                            lines,
                        ),
                    )
                },
            },
    {
        if self.pending_consolidation_task_types.len() == 0 {
            return Consolidation::Nothing;
        }
        let ghost before = inputs_view(self.pending_consolidation_task_types@);
        let task_type = self.pending_consolidation_task_types.remove(0);
        assert(inputs_view(self.pending_consolidation_task_types@) =~= before.skip(1));
        assert(before[0] == task_type@);
        let lines = match self.prompt_memory.get(task_type.as_str()) {
            Some(e) => {
                if e.pending_corrections_count() == 0 {
                    return Consolidation::Skipped;
                }
                e.corrections_summary()
            },
            None => {
                return Consolidation::Skipped;
            },
        };
        let prompt = match self.prompt_memory.get_prompt(task_type.as_str()) {
            Some(p) => p,
            None => "",
        };
        proof {
            reveal_strlit("");
            assert(""@ =~= Seq::<char>::empty());
        }
        let request = consolidation_text(
            self.config.lang.as_str(),
            task_type.as_str(),
            prompt,
            lines.as_str(),
        );
        let mut messages: Vec<Message> = Vec::new();
        messages.push(
            MessageBuilder::create_system_message(
                "You are a prompt optimization assistant. Generate concise, actionable system prompts.",
            ),
        );
        messages.push(MessageBuilder::create_user_message(request.as_str(), None));
        assert(messages_view(messages@) =~= request_messages(
            "You are a prompt optimization assistant. Generate concise, actionable system prompts."@,
            request@,
        ));
        Consolidation::Ask { task_type, messages }
    }

    /// Takes the answer to a request for consolidation, or none where the
    /// model gave no answer, and says whether the memory is to be saved.
    pub fn finish_consolidation(&mut self, task_type: &str, answer: Option<&str>) -> (save: bool)
        ensures
            final(self).state() == old(self).state().consolidation_finished(
                task_type@,
                match answer {
                    Some(t) => Some(t@),
                    None => None,
                },
                final(self).state().memory,
            ),
            save == old(self).state().answer_saves(
                match answer {
                    Some(t) => Some(t@),
                    None => None,
                },
            ),
            final(self).dispatcher() == old(self).dispatcher(),
    {
        match usable_answer(answer) {
            Some(prompt) => {
                self.prompt_memory.consolidate(task_type, prompt.as_str());
                self.refresh_context_with_task_types();
                self.config.prompt_memory_path.is_some()
            },
            None => false,
        }
    }

    /// The messages with which the planner's model is asked for a better
    /// prompt for the kind `task_type`.
    pub fn optimization_messages(&self, task_type: &str) -> (r: Vec<Message>)
        ensures
            messages_view(r@) == request_messages(
                "You are a prompt optimization assistant."@,
                optimization_request(
                    self.state().config.lang,
                    task_type@,
                    crate::agent::prompt_memory::join_lines(self.state().log),
                ),
            ),
    {
        let log = join_log(&self.execution_log);
        let request = optimization_text(self.config.lang.as_str(), task_type, log.as_str());
        let mut messages: Vec<Message> = Vec::new();
        messages.push(
            MessageBuilder::create_system_message("You are a prompt optimization assistant."),
        );
        messages.push(MessageBuilder::create_user_message(request.as_str(), None));
        assert(messages_view(messages@) =~= request_messages(
            "You are a prompt optimization assistant."@,
            request@,
        ));
        messages
    }

    /// Takes the answer to a request for a better prompt, or none where
    /// the model gave no answer, and says whether the memory is to be
    /// saved.
    pub fn finish_optimization(&mut self, task_type: &str, answer: Option<&str>) -> (save: bool)
        ensures
            final(self).state() == old(self).state().optimization_finished(
                task_type@,
                match answer {
                    Some(t) => Some(t@),
                    None => None,
                },
                final(self).state().todo,
                final(self).state().memory,
            ),
            save == old(self).state().answer_saves(
                match answer {
                    Some(t) => Some(t@),
                    None => None,
                },
            ),
            final(self).dispatcher() == old(self).dispatcher(),
    {
        let save = match usable_answer(answer) {
            Some(prompt) => {
                self.prompt_memory.update(task_type, prompt.as_str());
                self.config.prompt_memory_path.is_some()
            },
            None => false,
        };
        self.execution_log.clear();
        assert(inputs_view(self.execution_log@) =~= Seq::empty());
        self.start_next();
        save
    }
}

/// Joins the lines of the log by line breaks.
fn join_log(log: &Vec<String>) -> (r: String)
    ensures
        r@ == crate::agent::prompt_memory::join_lines(inputs_view(log@)),
{
    let ghost all = inputs_view(log@);
    let mut out: Vec<char> = Vec::new();
    let mut i: usize = 0;
    assert(all.take(0) =~= Seq::empty());
    while i < log.len()
        invariant
            i <= log.len(),
            all == inputs_view(log@),
            out@ == crate::agent::prompt_memory::join_lines(all.take(i as int)),
        decreases log.len() - i,
    {
        let ghost next = all.take(i + 1);
        assert(next.drop_last() == all.take(i as int));
        assert(next.last() == log@[i as int]@);
        if i > 0 {
            push_str(&mut out, "\n");
        }
        push_str(&mut out, log[i].as_str());
        assert(out@ =~= crate::agent::prompt_memory::join_lines(next)) by {
            if i == 0 {
                assert(next[0] == next.last());
            }
        }
        i += 1;
    }
    assert(all.take(log.len() as int) == all);
    from_chars(&out)
}

/// Writes the request for consolidation.
fn consolidation_text(lang: &str, task_type: &str, prompt: &str, corrections: &str) -> (r: String)
    ensures
        r@ == consolidation_request(lang@, task_type@, prompt@, corrections@),
{
    let mut out: Vec<char> = Vec::new();
    if str_eq(lang, "cn") {
        push_str(&mut out, "任务类型: ");
        push_str(&mut out, task_type);
        push_str(&mut out, "\n\n当前系统提示词:\n");
        if prompt.is_empty() {
            push_str(&mut out, "(无)");
        } else {
            push_str(&mut out, prompt);
        }
        push_str(&mut out, "\n\n用户纠偏记录:\n");
        push_str(&mut out, corrections);
        push_str(
            &mut out,
            "\n\n请根据用户的纠偏记录，生成一个优化后的系统提示词。\n这个提示词应该包含用户反复强调的操作规范和注意事项。\n确保新的提示词简洁明了，能够帮助执行器在未来避免同样的错误。\n只输出优化后的提示词内容，不要其他解释。",
        );
    } else {
        push_str(&mut out, "Task type: ");
        push_str(&mut out, task_type);
        push_str(&mut out, "\n\nCurrent system prompt:\n");
        if prompt.is_empty() {
            push_str(&mut out, "(none)");
        } else {
            push_str(&mut out, prompt);
        }
        push_str(&mut out, "\n\nUser corrections:\n");
        push_str(&mut out, corrections);
        push_str(
            &mut out,
            "\n\nBased on user corrections, generate an optimized system prompt.\nInclude the operational guidelines that users have repeatedly emphasized.\nEnsure the new prompt is concise and helps the executor avoid similar mistakes.\nOnly output the optimized prompt content, no explanations.",
        );
    }
    assert(out@ =~= consolidation_request(lang@, task_type@, prompt@, corrections@));
    from_chars(&out)
}

/// Writes the request for a better prompt.
fn optimization_text(lang: &str, task_type: &str, log: &str) -> (r: String)
    ensures
        r@ == optimization_request(lang@, task_type@, log@),
{
    let mut out: Vec<char> = Vec::new();
    if str_eq(lang, "cn") {
        push_str(&mut out, "任务类型: ");
        push_str(&mut out, task_type);
        push_str(&mut out, "\n\n执行日志:\n");
        push_str(&mut out, log);
        push_str(
            &mut out,
            "\n\n请根据执行中遇到的问题，生成一个优化后的系统提示词，帮助未来执行同类任务时避免这些问题。只输出优化后的提示词内容，不要其他解释。",
        );
    } else {
        push_str(&mut out, "Task type: ");
        push_str(&mut out, task_type);
        push_str(&mut out, "\n\nExecution log:\n");
        push_str(&mut out, log);
        push_str(
            &mut out,
            "\n\nBased on the issues encountered, generate an optimized system prompt to help avoid these problems in future executions of similar tasks.Only output the optimized prompt content, no explanations.",
        );
    }
    assert(out@ =~= optimization_request(lang@, task_type@, log@));
    from_chars(&out)
}

impl PlannerAgent {
    /// Begins a tick of the executor. A tick that takes no step ends at
    /// once, and its report is taken in.
    pub fn tick_executor_start(&mut self) -> (r: TickStart)
        ensures
            final(self).dispatcher() == old(self).dispatcher(),
            (r is Step) == old(self).state().executor.takes_step(),
            final(self).state() == (PlannerState {
                executor: old(self).state().executor.tick_begun(),
                history: match r {
                    TickStart::Report(fb) => kept(
                        old(self).state().history.push(fb@),
                        old(self).state().config.max_executor_feedback_history,
                    ),
                    TickStart::Step { .. } => old(self).state().history,
                },
                ..old(self).state()
            }),
            r matches TickStart::Report(fb) ==> fb@ == old(
                self,
            ).state().executor.tick_begun().report(None, true, false, fb.timestamp),
    {
        let r = self.executor.tick_start();
        match &r {
            TickStart::Report(fb) => {
                self.collect_executor_feedback(fb.duplicate());
            },
            TickStart::Step { .. } => {},
        }
        r
    }

    /// Shows the screen to the executor's model: adds to the executor's
    /// conversation what opens the step.
    pub fn tick_executor_screen(
        &mut self,
        instruction: Option<&str>,
        is_first: bool,
        screenshot: &crate::adb::screenshot::Screenshot,
        current_app: &str,
        today: &crate::config::prompts::LocalDate,
    )
        ensures
            final(self).dispatcher() == old(self).dispatcher(),
            final(self).state() == (PlannerState {
                executor: ExecutorState {
                    steps: next_count(old(self).state().executor.steps),
                    messages: old(self).state().executor.messages
                        + crate::agent::phone_agent::opening(
                        old(self).state().executor.config,
                        match instruction {
                            Some(p) => Some(p@),
                            None => None,
                        },
                        is_first,
                        screenshot.base64_data@,
                        screenshot.width,
                        screenshot.height,
                        current_app@,
                        *today,
                    ),
                    ..old(self).state().executor
                },
                ..old(self).state()
            }),
    {
        self.executor.tick_screen(instruction, is_first, screenshot, current_app, today);
    }

    /// Ends a tick of the executor with the model's answer, or with the
    /// reason why there is none, and takes in the executor's report.
    pub fn tick_executor_finish(
        &mut self,
        response: Result<crate::model::client::ModelResponse, String>,
        screen_width: u32,
        screen_height: u32,
        confirmed: bool,
    ) -> (r: TickEnd)
        ensures
            final(self).dispatcher() == old(self).dispatcher(),
            final(self).state() == (PlannerState {
                executor: old(self).state().executor.tick_ended(
                    step_of(old(self).dispatcher(), response, screen_width, screen_height, confirmed),
                    answer_view(response),
                ),
                history: kept(
                    old(self).state().history.push(r.feedback@),
                    old(self).state().config.max_executor_feedback_history,
                ),
                ..old(self).state()
            }),
            r.feedback@ == old(self).state().executor.tick_end_report(
                step_of(old(self).dispatcher(), response, screen_width, screen_height, confirmed),
                answer_view(response),
                r.feedback.timestamp,
            ),
            match r.command {
                Some(c) => step_of(
                    old(self).dispatcher(),
                    response,
                    screen_width,
                    screen_height,
                    confirmed,
                ).command == Some(c@) && response is Ok,
                None => response is Err || step_of(
                    old(self).dispatcher(),
                    response,
                    screen_width,
                    screen_height,
                    confirmed,
                ).command is None,
            },
            match r.result {
                Some(result) => response is Ok && result@ == step_of(
                    old(self).dispatcher(),
                    response,
                    screen_width,
                    screen_height,
                    confirmed,
                ).result,
                None => response is Err,
            },
    {
        let r = self.executor.tick_finish(response, screen_width, screen_height, confirmed);
        self.collect_executor_feedback(r.feedback.duplicate());
        r
    }
}

/// Where the last report says that the conversation overflowed, a pass of
/// supervision tells the executor to forget its conversation and then to
/// start a task again: the running one, or else the first pending one. No
/// advice is given, the count of stuck rounds and the log stay as they
/// were, and this holds whatever status the report shows.
pub proof fn law_overflow_restarts_task(st: PlannerState, then: Seq<TodoItemView>)
    requires
        st.history.len() > 0,
        st.history.last().context_overflow_detected,
    ensures
        st.supervised(then) == st.overflow_handled(then),
        st.supervised(then).stuck_rounds == st.stuck_rounds,
        st.supervised(then).log == st.log,
        st.supervised(then).memory == st.memory,
        st.supervised(then).executor.queue.len() >= st.executor.queue.len() + 1,
        st.supervised(then).executor.queue[st.executor.queue.len() as int]
            == CommandView::ResetContext,
        first_with(st.todo, TodoStatus::Running) >= 0 ==> {
            let i = first_with(st.todo, TodoStatus::Running);
            &&& st.supervised(then).executor.queue == st.executor.queue.push(
                CommandView::ResetContext,
            ).push(
                CommandView::StartTask {
                    task_id: st.todo[i].id,
                    description: st.todo[i].description,
                    system_prompt: st.prompt_for(st.todo[i].task_type),
                },
            )
            &&& st.supervised(then).todo[i].status == TodoStatus::Running
        },
        first_with(st.todo, TodoStatus::Running) < 0 && first_with(st.todo, TodoStatus::Pending)
            < 0 ==> st.supervised(then).executor.queue == st.executor.queue.push(
            CommandView::ResetContext,
        ),
        forall|k: int|
            st.executor.queue.len() <= k < st.supervised(then).executor.queue.len() ==> !(
            #[trigger] st.supervised(then).executor.queue[k] is InjectPrompt),
{
    crate::agent::todo::lemma_indices(st.todo, Seq::empty(), TodoStatus::Running);
    crate::agent::todo::lemma_indices(st.todo, Seq::empty(), TodoStatus::Pending);
}

/// Whether at most one task of the queue runs.
pub open spec fn at_most_one_running(todo: Seq<TodoItemView>) -> bool {
    forall|i: int, j: int|
        0 <= i < todo.len() && 0 <= j < todo.len() && (#[trigger] todo[i]).status
            == TodoStatus::Running && (#[trigger] todo[j]).status == TodoStatus::Running ==> i
            == j
}

/// Supervision never makes two tasks run at once: where at most one task
/// runs before a pass of supervision, at most one runs after it.
pub proof fn law_supervision_keeps_one_running(st: PlannerState, then: Seq<TodoItemView>)
    requires
        at_most_one_running(st.todo),
    ensures
        at_most_one_running(st.supervised(then).todo),
        st.supervised(then).todo.len() == st.todo.len(),
{
    let after = st.supervised(then).todo;
    let running = first_with(st.todo, TodoStatus::Running);
    let pending = first_with(st.todo, TodoStatus::Pending);
    crate::agent::todo::lemma_indices(st.todo, Seq::empty(), TodoStatus::Running);
    crate::agent::todo::lemma_indices(st.todo, Seq::empty(), TodoStatus::Pending);
    lemma_first_running_is_the_only_one(st.todo);
    if st.history.len() == 0 {
    } else if st.history.last().context_overflow_detected {
        assert(after.len() == st.todo.len());
        assert forall|i: int, j: int|
            0 <= i < after.len() && 0 <= j < after.len() && (#[trigger] after[i]).status
                == TodoStatus::Running && (#[trigger] after[j]).status
                == TodoStatus::Running implies i == j by {
            if running >= 0 {
                assert(after[i].status == TodoStatus::Running ==> i == running);
                assert(after[j].status == TodoStatus::Running ==> j == running);
            } else if pending >= 0 {
                assert(i == pending || after[i] == st.todo[i]);
                assert(j == pending || after[j] == st.todo[j]);
            }
        }
    } else {
        match st.history.last().status {
            StatusView::Stuck => {
                assert forall|i: int, j: int|
                    0 <= i < after.len() && 0 <= j < after.len() && (#[trigger] after[i]).status
                        == TodoStatus::Running && (#[trigger] after[j]).status
                        == TodoStatus::Running implies i == j by {
                    assert(after[i].status == TodoStatus::Running ==> st.todo[i].status
                        == TodoStatus::Running);
                    assert(after[j].status == TodoStatus::Running ==> st.todo[j].status
                        == TodoStatus::Running);
                }
            },
            StatusView::Completed => {
                let done = st.running_completed(then);
                crate::agent::todo::lemma_indices(done.todo, Seq::empty(), TodoStatus::Pending);
                let next = first_with(done.todo, TodoStatus::Pending);
                assert forall|k: int| 0 <= k < done.todo.len() implies (
                #[trigger] done.todo[k]).status != TodoStatus::Running by {
                    if running >= 0 && k != running {
                        assert(done.todo[k] == st.todo[k]);
                    }
                }
                assert forall|i: int, j: int|
                    0 <= i < after.len() && 0 <= j < after.len() && (#[trigger] after[i]).status
                        == TodoStatus::Running && (#[trigger] after[j]).status
                        == TodoStatus::Running implies i == j by {
                    if next >= 0 {
                        assert(i == next || after[i] == done.todo[i]);
                        assert(j == next || after[j] == done.todo[j]);
                    }
                }
            },
            StatusView::Failed(reason) => {
                if running >= 0 {
                    if st.todo[running].can_retry() {
                        assert forall|i: int, j: int|
                            0 <= i < after.len() && 0 <= j < after.len() && (
                            #[trigger] after[i]).status == TodoStatus::Running && (
                            #[trigger] after[j]).status == TodoStatus::Running implies i == j by {
                            assert(i == running || after[i] == st.todo[i]);
                            assert(j == running || after[j] == st.todo[j]);
                        }
                    } else {
                        let failed = st.todo.update(
                            running,
                            st.todo[running].failed(reason, then[running].updated_at),
                        );
                        crate::agent::todo::lemma_indices(failed, Seq::empty(), TodoStatus::Pending);
                        let next = first_with(failed, TodoStatus::Pending);
                        assert forall|k: int| 0 <= k < failed.len() implies (
                        #[trigger] failed[k]).status != TodoStatus::Running by {
                            if k != running {
                                assert(failed[k] == st.todo[k]);
                            }
                        }
                        assert forall|i: int, j: int|
                            0 <= i < after.len() && 0 <= j < after.len() && (
                            #[trigger] after[i]).status == TodoStatus::Running && (
                            #[trigger] after[j]).status == TodoStatus::Running implies i == j by {
                            if !st.config.auto_optimize_prompts && next >= 0 {
                                assert(i == next || after[i] == failed[i]);
                                assert(j == next || after[j] == failed[j]);
                            }
                        }
                    }
                }
            },
            _ => {},
        }
    }
}

/// Where at most one task runs, the first running task is the only one.
pub proof fn lemma_first_running_is_the_only_one(todo: Seq<TodoItemView>)
    requires
        at_most_one_running(todo),
    ensures
        forall|k: int|
            0 <= k < todo.len() && (#[trigger] todo[k]).status == TodoStatus::Running ==> k
                == first_with(todo, TodoStatus::Running),
{
    crate::agent::todo::lemma_indices(todo, Seq::empty(), TodoStatus::Running);
    assert forall|k: int|
        0 <= k < todo.len() && (#[trigger] todo[k]).status == TodoStatus::Running implies k
            == first_with(todo, TodoStatus::Running) by {
        lemma_first_with_finds(todo, TodoStatus::Running, k);
        let f = first_with(todo, TodoStatus::Running);
        assert(todo[f].status == TodoStatus::Running);
    }
}

/// Where a task has the status, `first_with` finds a task.
pub proof fn lemma_first_with_finds(todo: Seq<TodoItemView>, status: TodoStatus, k: int)
    requires
        0 <= k < todo.len(),
        todo[k].status == status,
    ensures
        0 <= first_with(todo, status) <= k,
    decreases todo.len(),
{
    if k < todo.len() - 1 {
        assert(todo.drop_last()[k] == todo[k]);
        lemma_first_with_finds(todo.drop_last(), status, k);
    } else {
        crate::agent::todo::lemma_indices(todo.drop_last(), Seq::empty(), status);
    }
}

/// The history of reports never holds more reports than the setup allows,
/// and it always ends with the report that came last, where it may hold
/// any.
pub proof fn law_history_is_bounded(st: PlannerState, feedback: FeedbackView)
    ensures
        st.collected(feedback).history.len() <= st.config.max_executor_feedback_history,
        st.config.max_executor_feedback_history > 0 ==> st.collected(feedback).history.len() > 0
            && st.collected(feedback).history.last() == feedback,
{
}

/// The turns of the conversation after `n` more questions to the model.
pub open spec fn turns_after(turns: u32, n: nat) -> u32
    decreases n,
{
    if n == 0 {
        turns
    } else {
        next_count(turns_after(turns, (n - 1) as nat))
    }
}

/// After an input was taken up the planner's model may be asked twenty
/// times and no more: the question after the `n`-th is allowed exactly
/// where `n` is below twenty.
pub proof fn law_twenty_answers(n: nat)
    requires
        n <= u32::MAX,
    ensures
        turns_after(0, n) == n,
        (turns_after(0, n) < MAX_CONVERSATION_TURNS) == (n < 20),
    decreases n,
{
    if n > 0 {
        law_twenty_answers((n - 1) as nat);
    }
}

} // verus!
