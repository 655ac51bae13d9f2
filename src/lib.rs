//! Core of a command-line client that sends a prompt, optionally grounded in
//! piped text, to a local chat-completion service and prints the reply.

pub mod prompt;
pub mod cli;
pub mod request;
pub mod response;
