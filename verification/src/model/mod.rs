//! What is said to the model and what it answers.

pub mod message;
pub mod client;
