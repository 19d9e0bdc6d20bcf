//! The action language: what the model may answer, how its text is parsed,
//! and how a parsed action is checked before it reaches the device.

pub mod value;
pub mod parser;
pub mod coordinates;
pub mod handler;
pub mod laws;
