//! The scheduler of the two loops: what is done when an input, a control
//! command or a timer comes in.
//!
//! The scheduler waits for nothing itself. The caller owns the timers and
//! the channels, tells the scheduler what became ready, and does what the
//! scheduler answers.

use crate::agent::planner::{PlannerAgent, PlannerState};
use vstd::prelude::*;

verus! {

/// The cadence of the two loops.
#[derive(Debug, Clone, Copy, PartialEq, Eq, Structural)]
pub struct DualLoopConfig {
    /// The time between two passes of the planner, in milliseconds.
    pub planner_interval_ms: u64,
    /// The time between two ticks of the executor, in milliseconds.
    pub executor_interval_ms: u64,
    /// Whether the loops start at once.
    pub auto_start: bool,
}

impl Default for DualLoopConfig {
    fn default() -> (r: Self)
        ensures
            r == (DualLoopConfig {
                planner_interval_ms: 2000,
                executor_interval_ms: 500,
                auto_start: true,
            }),
    {
        DualLoopConfig { planner_interval_ms: 2000, executor_interval_ms: 500, auto_start: true }
    }
}

impl DualLoopConfig {
    /// The cadence with another time between two passes of the planner.
    pub fn with_planner_interval(self, ms: u64) -> (r: Self)
        ensures
            r == (DualLoopConfig { planner_interval_ms: ms, ..self }),
    {
        DualLoopConfig { planner_interval_ms: ms, ..self }
    }

    /// The cadence with another time between two ticks of the executor.
    pub fn with_executor_interval(self, ms: u64) -> (r: Self)
        ensures
            r == (DualLoopConfig { executor_interval_ms: ms, ..self }),
    {
        DualLoopConfig { executor_interval_ms: ms, ..self }
    }

    /// The cadence that starts at once, or not.
    pub fn with_auto_start(self, auto_start: bool) -> (r: Self)
        ensures
            r == (DualLoopConfig { auto_start, ..self }),
    {
        DualLoopConfig { auto_start, ..self }
    }
}

/// Why the loops could not be reached.
#[derive(Debug, Clone, Copy, PartialEq, Eq, Structural)]
pub enum DualLoopError {
    ChannelClosed,
    AlreadyRunning,
    NotRunning,
}

/// The text of an error, as it is shown to a reader.
pub open spec fn loop_error_text(e: DualLoopError) -> Seq<char> {
    match e {
        DualLoopError::ChannelClosed => "Channel closed"@,
        DualLoopError::AlreadyRunning => "Already running"@,
        DualLoopError::NotRunning => "Not running"@,
    }
}

impl DualLoopError {
    /// The text of the error, as it is shown to a reader.
    pub fn message(&self) -> (r: String)
        ensures
            r@ == loop_error_text(*self),
    {
        match self {
            DualLoopError::ChannelClosed => String::from_str("Channel closed"),
            DualLoopError::AlreadyRunning => String::from_str("Already running"),
            DualLoopError::NotRunning => String::from_str("Not running"),
        }
    }
}

/// What can be asked of the loops from outside.
#[derive(Debug, Clone, Copy, PartialEq, Eq, Structural)]
pub enum ControlCommand {
    Stop,
    Pause,
    Resume,
}

/// What became ready.
#[derive(Debug, Clone, Copy, PartialEq, Eq, Structural)]
pub enum LoopEvent {
    /// An input of the user came in.
    UserInput,
    /// A control command came in.
    Control(ControlCommand),
    /// The executor's timer fired.
    ExecutorTimer,
    /// The planner's timer fired.
    PlannerTimer,
}

/// What the caller is to do.
#[derive(Debug, Clone, Copy, PartialEq, Eq, Structural)]
pub enum LoopAction {
    /// Pass the waiting inputs through the planner and supervise.
    PlannerPass,
    /// Run one tick of the executor and hand its report on.
    ExecutorTick,
    /// Do nothing.
    Skip,
    /// Stop the planner and leave the loop.
    StopAndExit,
}

/// The flags of the scheduler.
#[derive(Debug, Clone, Copy, PartialEq, Eq, Structural)]
pub struct LoopState {
    /// Whether the loop runs.
    pub running: bool,
    /// Whether ticks are held back.
    pub paused: bool,
}

/// Which of the things that are ready is taken up: an input of the user
/// before everything else, then a control command, then the executor's
/// timer, then the planner's.
pub open spec fn preferred(
    input_waits: bool,
    control: Option<ControlCommand>,
    executor_due: bool,
    planner_due: bool,
) -> Option<LoopEvent> {
    if input_waits {
        Some(LoopEvent::UserInput)
    } else if control is Some {
        Some(LoopEvent::Control(control->0))
    } else if executor_due {
        Some(LoopEvent::ExecutorTimer)
    } else if planner_due {
        Some(LoopEvent::PlannerTimer)
    } else {
        None
    }
}

/// Which of the things that are ready is taken up.
pub fn select_event(
    input_waits: bool,
    control: Option<ControlCommand>,
    executor_due: bool,
    planner_due: bool,
) -> (r: Option<LoopEvent>)
    ensures
        r == preferred(input_waits, control, executor_due, planner_due),
{
    if input_waits {
        Some(LoopEvent::UserInput)
    } else {
        match control {
            Some(c) => Some(LoopEvent::Control(c)),
            None => if executor_due {
                Some(LoopEvent::ExecutorTimer)
            } else if planner_due {
                Some(LoopEvent::PlannerTimer)
            } else {
                None
            },
        }
    }
}

impl LoopState {
    /// The flags after `event`: a stop ends the run, a pause holds ticks
    /// back and a resume lets them go again; nothing else touches them.
    pub open spec fn after(self, event: LoopEvent) -> LoopState {
        match event {
            LoopEvent::Control(ControlCommand::Stop) => LoopState { running: false, ..self },
            LoopEvent::Control(ControlCommand::Pause) => LoopState { paused: true, ..self },
            LoopEvent::Control(ControlCommand::Resume) => LoopState { paused: false, ..self },
            _ => self,
        }
    }

    /// What is done about `event`: a stop stops the planner and leaves the
    /// loop; an input and the planner's timer call for a pass of the
    /// planner and the executor's timer for a tick, unless ticks are held
    /// back, in which case they are skipped.
    pub open spec fn reaction(self, event: LoopEvent) -> LoopAction {
        match event {
            LoopEvent::Control(ControlCommand::Stop) => LoopAction::StopAndExit,
            LoopEvent::Control(_) => LoopAction::Skip,
            LoopEvent::UserInput => if self.paused {
                LoopAction::Skip
            } else {
                LoopAction::PlannerPass
            },
            LoopEvent::PlannerTimer => if self.paused {
                LoopAction::Skip
            } else {
                LoopAction::PlannerPass
            },
            LoopEvent::ExecutorTimer => if self.paused {
                LoopAction::Skip
            } else {
                LoopAction::ExecutorTick
            },
        }
    }

    /// The flags of a loop that was just started.
    pub fn started() -> (r: Self)
        ensures
            r == (LoopState { running: true, paused: false }),
    {
        LoopState { running: true, paused: false }
    }

    /// Takes up an event and says what is to be done.
    pub fn on_event(&mut self, event: LoopEvent) -> (r: LoopAction)
        ensures
            *final(self) == old(self).after(event),
            r == old(self).reaction(event),
    {
        match event {
            LoopEvent::Control(ControlCommand::Stop) => {
                self.running = false;
                LoopAction::StopAndExit
            },
            LoopEvent::Control(ControlCommand::Pause) => {
                self.paused = true;
                LoopAction::Skip
            },
            LoopEvent::Control(ControlCommand::Resume) => {
                self.paused = false;
                LoopAction::Skip
            },
            LoopEvent::UserInput => if self.paused {
                LoopAction::Skip
            } else {
                LoopAction::PlannerPass
            },
            LoopEvent::PlannerTimer => if self.paused {
                LoopAction::Skip
            } else {
                LoopAction::PlannerPass
            },
            LoopEvent::ExecutorTimer => if self.paused {
                LoopAction::Skip
            } else {
                LoopAction::ExecutorTick
            },
        }
    }
}

/// While ticks are held back no timer and no input leads to a pass or a
/// tick, and the flags stay as they are; a control command is taken up
/// before any timer that is due at the same time.
pub proof fn law_pause_skips_ticks(st: LoopState, event: LoopEvent)
    requires
        st.paused,
        !(event is Control),
    ensures
        st.reaction(event) == LoopAction::Skip,
        st.after(event) == st,
{
}

/// A control command is taken up before any timer that is due at the same
/// time, and an input of the user before everything else.
pub proof fn law_control_goes_first(
    control: ControlCommand,
    executor_due: bool,
    planner_due: bool,
    input_waits: bool,
)
    ensures
        preferred(false, Some(control), executor_due, planner_due) == Some(
            LoopEvent::Control(control),
        ),
        input_waits ==> preferred(input_waits, Some(control), executor_due, planner_due) == Some(
            LoopEvent::UserInput,
        ),
{
}

/// The runner of the two loops: the planner, the cadence and the flags.
#[derive(Debug, Clone, PartialEq, Eq)]
pub struct DualLoopRunner {
    planner: PlannerAgent,
    config: DualLoopConfig,
    flags: LoopState,
}

impl DualLoopRunner {
    /// The state of the planner.
    pub closed spec fn planner_state(self) -> PlannerState {
        self.planner.state()
    }

    /// The dispatcher of the agent inside the planner's executor.
    pub closed spec fn dispatcher(self) -> crate::actions::handler::ActionHandler {
        self.planner.dispatcher()
    }

    /// The cadence.
    pub closed spec fn cadence(self) -> DualLoopConfig {
        self.config
    }

    /// The flags.
    pub closed spec fn loop_state(self) -> LoopState {
        self.flags
    }

    /// A runner that does not run yet.
    pub fn new(planner: PlannerAgent, config: DualLoopConfig) -> (r: Self)
        ensures
            r.planner_state() == planner.state(),
            r.dispatcher() == planner.dispatcher(),
            r.cadence() == config,
            r.loop_state() == (LoopState { running: false, paused: false }),
    {
        DualLoopRunner { planner, config, flags: LoopState { running: false, paused: false } }
    }

    /// Starts the loop: the flags say that it runs, and the planner is
    /// started.
    pub fn begin(&mut self)
        ensures
            final(self).planner_state() == old(self).planner_state().begun(),
            final(self).dispatcher() == old(self).dispatcher(),
            final(self).cadence() == old(self).cadence(),
            final(self).loop_state() == (LoopState { running: true, ..old(self).loop_state() }),
    {
        self.flags.running = true;
        self.planner.start();
    }

    /// Takes up an input of the user: it is queued for the planner, and a
    /// pass of the planner is called for unless ticks are held back.
    pub fn on_user_input(&mut self, input: String) -> (r: LoopAction)
        ensures
            final(self).planner_state() == (PlannerState {
                inputs: old(self).planner_state().inputs.push(input@),
                ..old(self).planner_state()
            }),
            final(self).dispatcher() == old(self).dispatcher(),
            final(self).cadence() == old(self).cadence(),
            final(self).loop_state() == old(self).loop_state(),
            r == old(self).loop_state().reaction(LoopEvent::UserInput),
    {
        self.planner.queue_user_input(input);
        self.flags.on_event(LoopEvent::UserInput)
    }

    /// Takes up a control command or a timer and says what is to be done.
    /// A stop also stops the planner.
    pub fn on_event(&mut self, event: LoopEvent) -> (r: LoopAction)
        ensures
            final(self).dispatcher() == old(self).dispatcher(),
            final(self).cadence() == old(self).cadence(),
            final(self).loop_state() == old(self).loop_state().after(event),
            r == old(self).loop_state().reaction(event),
            final(self).planner_state() == if r == LoopAction::StopAndExit {
                old(self).planner_state().halted()
            } else {
                old(self).planner_state()
            },
    {
        let action = self.flags.on_event(event);
        match action {
            LoopAction::StopAndExit => {
                self.planner.stop();
            },
            _ => {},
        }
        action
    }

    /// Whether the blocking variant of the loop ends after a pass of the
    /// planner: it does once every task is terminal and no input waits.
    pub fn finished_after_pass(&self) -> (r: bool)
        ensures
            r == (crate::agent::todo::all_terminal(self.planner_state().todo)
                && self.planner_state().inputs.len() == 0),
    {
        !self.planner.should_continue()
    }

    /// Whether the loop runs.
    pub fn is_running(&self) -> (r: bool)
        ensures
            r == self.loop_state().running,
    {
        self.flags.running
    }

    /// Whether ticks are held back.
    pub fn is_paused(&self) -> (r: bool)
        ensures
            r == self.loop_state().paused,
    {
        self.flags.paused
    }

    /// The cadence.
    pub fn config(&self) -> (r: DualLoopConfig)
        ensures
            r == self.cadence(),
    {
        self.config
    }

    /// The planner.
    pub fn planner(&self) -> (r: &PlannerAgent)
        ensures
            r.state() == self.planner_state(),
            r.dispatcher() == self.dispatcher(),
    {
        &self.planner
    }

    /// The planner, to be driven by the caller.
    pub fn planner_mut(&mut self) -> (r: &mut PlannerAgent)
        ensures
            r.state() == old(self).planner_state(),
            r.dispatcher() == old(self).dispatcher(),
            final(self).planner_state() == final(r).state(),
            final(self).dispatcher() == final(r).dispatcher(),
            final(self).cadence() == old(self).cadence(),
            final(self).loop_state() == old(self).loop_state(),
    {
        &mut self.planner
    }
}

/// Puts a runner together.
#[derive(Debug, Clone, PartialEq, Eq)]
pub struct DualLoopBuilder {
    planner: Option<PlannerAgent>,
    config: DualLoopConfig,
}

impl DualLoopBuilder {
    /// The planner chosen so far.
    pub closed spec fn chosen_planner(self) -> Option<PlannerAgent> {
        self.planner
    }

    /// The cadence chosen so far.
    pub closed spec fn chosen_config(self) -> DualLoopConfig {
        self.config
    }

    /// A builder without a planner and with the standard cadence.
    pub fn new() -> (r: Self)
        ensures
            r.chosen_planner() is None,
            r.chosen_config() == (DualLoopConfig {
                planner_interval_ms: 2000,
                executor_interval_ms: 500,
                auto_start: true,
            }),
    {
        DualLoopBuilder {
            planner: None,
            config: DualLoopConfig {
                planner_interval_ms: 2000,
                executor_interval_ms: 500,
                auto_start: true,
            },
        }
    }

    /// The builder with the planner `planner`.
    pub fn with_planner(self, planner: PlannerAgent) -> (r: Self)
        ensures
            r.chosen_planner() == Some(planner),
            r.chosen_config() == self.chosen_config(),
    {
        DualLoopBuilder { planner: Some(planner), config: self.config }
    }

    /// The builder with the cadence `config`.
    pub fn with_config(self, config: DualLoopConfig) -> (r: Self)
        ensures
            r.chosen_planner() == self.chosen_planner(),
            r.chosen_config() == config,
    {
        DualLoopBuilder { planner: self.planner, config }
    }

    /// The builder with another time between two passes of the planner.
    pub fn with_planner_interval(self, ms: u64) -> (r: Self)
        ensures
            r.chosen_planner() == self.chosen_planner(),
            r.chosen_config() == (DualLoopConfig { planner_interval_ms: ms, ..self.chosen_config() }),
    {
        DualLoopBuilder { planner: self.planner, config: self.config.with_planner_interval(ms) }
    }

    /// The builder with another time between two ticks of the executor.
    pub fn with_executor_interval(self, ms: u64) -> (r: Self)
        ensures
            r.chosen_planner() == self.chosen_planner(),
            r.chosen_config() == (DualLoopConfig {
                executor_interval_ms: ms,
                ..self.chosen_config()
            }),
    {
        DualLoopBuilder { planner: self.planner, config: self.config.with_executor_interval(ms) }
    }

    /// The runner, where a planner was chosen.
    pub fn build(self) -> (r: Result<DualLoopRunner, &'static str>)
        ensures
            match r {
                Ok(runner) => self.chosen_planner() matches Some(p) && runner.planner_state()
                    == p.state() && runner.dispatcher() == p.dispatcher() && runner.cadence()
                    == self.chosen_config()
                    && runner.loop_state() == (LoopState { running: false, paused: false }),
                Err(e) => self.chosen_planner() is None && e@ == "Planner is required"@,
            },
    {
        match self.planner {
            Some(planner) => Ok(DualLoopRunner::new(planner, self.config)),
            None => Err("Planner is required"),
        }
    }
}

} // verus!
