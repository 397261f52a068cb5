//! A verified core for a document-driven development workflow tool: the
//! roadmap state machine, prompt rendering, plan acceptance in natural order,
//! the command registry, and the decisions of each subcommand.
pub mod text;
pub mod clock;
pub mod prompts;
pub mod state;
pub mod commands;
