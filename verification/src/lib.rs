//! Session orchestration for a research worker that speaks newline-delimited
//! JSON: the protocol codec, the event router, the artifact layout and the
//! interactive controller's phase machine.

pub mod text;
pub mod json;
pub mod cli;
pub mod protocol;
pub mod tui;
pub mod run;
pub mod session;
pub mod output;
