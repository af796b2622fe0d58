//! Launching subprocesses with full diagnostic context: an invocation
//! descriptor, its textual description, coloured terminal banners, and the
//! rules that turn a finished process into a result or a self-contained error.

pub mod text;
pub mod command;
pub mod color;
pub mod output;
pub mod exec;
