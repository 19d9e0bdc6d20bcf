//! Fixed data: the known applications, the words shown to the user and the
//! system prompts.

pub mod apps;
pub mod prompts;
pub mod i18n;
