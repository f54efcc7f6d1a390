//! Verified core of the flow-core command line tools: command decisions,
//! configuration edits, model selection for image description, the
//! summarizer's file protocol and the clipboard report format.

pub mod global_args;
pub mod text;
pub mod config;
pub mod model_selection;
pub mod describe;
pub mod summarizer;
pub mod clipboard;
pub mod standalone;
pub mod cli;
