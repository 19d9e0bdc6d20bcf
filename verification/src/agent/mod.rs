//! The supervision core: the task queue, the prompt memory, the executor and
//! planner state machines and the scheduler's decisions.

pub mod todo;
pub mod prompt_memory;
pub mod phone_agent;
pub mod executor;
pub mod planner_action;
pub mod planner_text;
pub mod planner;
pub mod dual_loop;
