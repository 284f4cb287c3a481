//! A tool-using conversational agent, without its input and output.
//!
//! A run sends a growing conversation to a completion endpoint, reads the
//! answer as it streams in, looks for a tool directive in it, has the tool do
//! its work, hands the tool's observation back to the model, and goes on
//! until the model asks for no tool or the budget of completions is spent.
//! The library decides every step of that; the caller talks to the network,
//! the file system and the shell, and tells the library what came back.

pub mod agent;
pub mod directive;
pub mod html;
pub mod json;
pub mod message;
pub mod registry;
pub mod run;
pub mod stream;
pub mod text;
pub mod tool;
pub mod tools;
