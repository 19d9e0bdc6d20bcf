//! Supervision core of a phone automation agent.
//!
//! A remote vision-language model looks at screenshots and answers with short
//! action commands. This crate holds the logic between that model and the
//! device: the action language and its parser, the coordinate policies, the
//! task queue, the prompt memory, the executor and planner state machines
//! and the decisions of the scheduler.
//!
//! The crate waits for nothing and talks to nobody. Wherever the outside
//! world comes in, a function hands back what is to be done and takes the
//! outcome as an argument: a step of the agent is begun and finished, a tick
//! of the executor is started and ended, a turn of the planner takes the
//! model's answer.
//!
//! Every function is verified against its contract, with these exceptions,
//! whose contracts are taken on trust: `String::push`; the wall clock and
//! the text of a point in time in [`clock`]; lower case, the `Debug` form of
//! a string and the test for letters and digits in [`text`]; the reading and
//! writing of JSON in [`json`]; the hashing of a string in
//! [`agent::executor`]; base64 and pictures in [`adb::encoding`]; and the
//! regular expressions in [`calibration`].

pub mod actions;
pub mod adb;
pub mod agent;
pub mod calibration;
pub mod clock;
pub mod config;
pub mod gui;
pub mod json;
pub mod model;
pub mod number;
pub mod settings;
pub mod text;
