//! The command core of a small interactive shell: splitting a line into
//! words, classifying it as a command, and deciding what each command does.

pub mod command;
pub mod dispatch;
pub mod laws;
pub mod resolver;
pub mod text;
pub mod tokenizer;
