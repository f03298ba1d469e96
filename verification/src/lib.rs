//! Core pipeline of an AI-assisted git commit message generator.
//!
//! The library holds the decision logic of the tool, fully verified:
//! choosing which repository comparison to make, filtering noise out of a
//! diff, bounding it to a character budget, assembling the model prompt,
//! classifying the remote response, and sequencing the commit decision.
//! All I/O (git access, HTTP, configuration files, the terminal) lives in
//! the surrounding application, which feeds plain values into these
//! functions and acts on the returned decisions.

pub mod assemble;
pub mod bound;
pub mod changes;
pub mod client;
pub mod commands;
pub mod config;
pub mod error;
pub mod filter;
pub mod hooks;
pub mod lines;
pub mod orchestrator;
pub mod prompts;
pub mod text;

pub use text::chars_of;
pub use text::string_of;
