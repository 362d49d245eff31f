//! Verified core of a command-line assistant that turns a source-control
//! diff into a conventional-commit message by asking a chat-completion API.
pub mod error;
pub mod models;
pub mod prompt;
pub mod settings;
pub mod client;
pub mod flow;
