//! Configuration values the pipeline reads.
//!
//! The surrounding application loads these from its configuration store
//! and passes them in; within one invocation they are read-only. Values
//! that only the application uses (endpoint, credential, hook wiring)
//! stay with the application.

use vstd::prelude::*;

verus! {

/// Commit-related tunables: confirmation behaviour and the ignore rules.
#[derive(Debug, Clone)]
pub struct CommitConfig {
    pub auto_confirm: bool,
    pub dry_run_by_default: bool,
    pub gpg_sign: Option<bool>,
    pub ignore_lock_files: bool,
    pub custom_ignore_patterns: Vec<String>,
}

/// Hook wiring: whether hooks are enabled and which kinds are installed.
#[derive(Debug, Clone)]
pub struct HookConfig {
    pub enabled: bool,
    pub hook_types: Vec<String>,
}

/// Operator overrides for the three prompt templates.
#[derive(Debug, Clone)]
pub struct PromptConfig {
    pub system_prompt: String,
    pub user_prompt_template: String,
    pub simple_prompt_template: String,
}

} // verus!
