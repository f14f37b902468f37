//! A verified core for an agentic bug-fixing session: a token-bounded
//! conversation log, a closed tool catalog with its dispatch rules, the
//! executor-side validation and result envelopes, and the iteration state
//! machine that drives them.

pub mod agent;
pub mod cli;
pub mod config;
pub mod conversation;
pub mod errors;
pub mod index;
pub mod json;
pub mod prompt;
pub mod text;
pub mod tools;
pub mod utils;
