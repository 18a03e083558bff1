//! The core of a command-line code assistant: prompt templates, the request
//! sent to a chat-completion endpoint, the handling of its reply and the
//! transcript of past exchanges. Nothing here performs I/O; the caller sends
//! the request and stores the transcript.

pub mod client;
pub mod history;
pub mod menu;
pub mod payload;
pub mod prompt;
pub mod text;
