//! Prompt assembler: chooses templates and substitutes the bounded diff.
//!
//! Each template is either the operator's override from configuration or
//! a built-in default. Substitution is a literal replacement of the first
//! `{diff}` placeholder; a template without the placeholder leaves the
//! diff out — a documented quirk kept as is.

use vstd::prelude::*;
use crate::config::PromptConfig;
use crate::text::{
    replace_first, replace_first_chars, chars_of, string_of, contains_seq, contains_sub,
};

verus! {

pub const DEFAULT_SYSTEM_PROMPT: &'static str = r#"You are an expert software developer and git commit message writer.

Generate concise, clear commit messages following the Conventional Commits specification:
- feat: A new feature
- fix: A bug fix
- docs: Documentation only changes
- style: Changes that do not affect the meaning of the code
- refactor: A code change that neither fixes a bug nor adds a feature
- perf: A code change that improves performance
- test: Adding missing tests or correcting existing tests
- chore: Changes to the build process or auxiliary tools

Format: type(scope): description

PREFERRED FORMAT: Single line under 72 characters
Use bullet points ONLY when there are truly MULTIPLE UNRELATED functional changes.

WHEN TO USE SINGLE LINE (preferred):
- Adding one feature (even across multiple files)
- Fixing one bug (even if it affects multiple files)
- Refactoring one area/component (even with many files)
- Making changes for one single purpose
- Updating configuration for one goal
- Adding tests for one feature

WHEN TO USE BULLET POINTS (rare):
- Adding authentication system AND payment processing (2 unrelated features)
- Fixing database bug AND adding new API endpoints (unrelated changes)
- Multiple completely different functional areas modified

Default to single line. Only use bullets for truly unrelated changes."#;

pub const DEFAULT_USER_PROMPT_TEMPLATE: &'static str = r#"Analyze the following git diff and generate a commit message.

IMPORTANT: Default to a single descriptive line under 72 characters.
Only use bullet points if there are multiple COMPLETELY UNRELATED functional changes.

Most commits should be single-line format like:
- feat: add user profile management
- fix: resolve memory leak in image processing
- refactor: simplify authentication middleware

Git diff:
```diff
{diff}
```

Provide only the commit message."#;

pub const DEFAULT_SIMPLE_PROMPT_TEMPLATE: &'static str = r#"Generate a concise single-line commit message for the following changes.

Focus on the main purpose/goal of these changes in under 72 characters.

Git diff:
```diff
{diff}
```

Provide only the commit message (single line, no bullet points)."#;

/// The system text of one invocation: override or built-in default.
pub open spec fn system_prompt_of(cfg: Option<PromptConfig>) -> Seq<char> {
    match cfg {
        Some(c) => c.system_prompt@,
        None => DEFAULT_SYSTEM_PROMPT@,
    }
}

/// The user template of one invocation: override or built-in default.
pub open spec fn user_template_of(cfg: Option<PromptConfig>) -> Seq<char> {
    match cfg {
        Some(c) => c.user_prompt_template@,
        None => DEFAULT_USER_PROMPT_TEMPLATE@,
    }
}

/// The simple template of one invocation: override or built-in default.
pub open spec fn simple_template_of(cfg: Option<PromptConfig>) -> Seq<char> {
    match cfg {
        Some(c) => c.simple_prompt_template@,
        None => DEFAULT_SIMPLE_PROMPT_TEMPLATE@,
    }
}

/// The built-in system prompt.
pub fn get_default_system_prompt() -> (r: String)
    ensures
        r@ == DEFAULT_SYSTEM_PROMPT@,
{
    DEFAULT_SYSTEM_PROMPT.to_owned()
}

/// The built-in user prompt template.
pub fn get_default_user_prompt_template() -> (r: String)
    ensures
        r@ == DEFAULT_USER_PROMPT_TEMPLATE@,
{
    DEFAULT_USER_PROMPT_TEMPLATE.to_owned()
}

/// The built-in simple prompt template.
pub fn get_default_simple_prompt_template() -> (r: String)
    ensures
        r@ == DEFAULT_SIMPLE_PROMPT_TEMPLATE@,
{
    DEFAULT_SIMPLE_PROMPT_TEMPLATE.to_owned()
}

/// The system text: the configured override, or the default when no
/// configuration was loaded.
pub fn get_system_prompt(cfg: &Option<PromptConfig>) -> (r: String)
    ensures
        r@ == system_prompt_of(*cfg),
{
    match cfg {
        Some(c) => c.system_prompt.clone(),
        None => get_default_system_prompt(),
    }
}

/// The user template: the configured override, or the default.
pub fn get_user_prompt_template(cfg: &Option<PromptConfig>) -> (r: String)
    ensures
        r@ == user_template_of(*cfg),
{
    match cfg {
        Some(c) => c.user_prompt_template.clone(),
        None => get_default_user_prompt_template(),
    }
}

/// The simple template: the configured override, or the default.
pub fn get_simple_prompt_template(cfg: &Option<PromptConfig>) -> (r: String)
    ensures
        r@ == simple_template_of(*cfg),
{
    match cfg {
        Some(c) => c.simple_prompt_template.clone(),
        None => get_default_simple_prompt_template(),
    }
}

/// The user text: the chosen template with the first `{diff}` placeholder
/// replaced by the diff.
pub open spec fn user_prompt_of(cfg: Option<PromptConfig>, diff: Seq<char>) -> Seq<char> {
    replace_first(user_template_of(cfg), "{diff}"@, diff)
}

/// The user prompt for `diff` under the chosen template.
pub fn format_commit_prompt(cfg: &Option<PromptConfig>, diff: &str) -> (r: String)
    ensures
        r@ == user_prompt_of(*cfg, diff@),
{
    let template = get_user_prompt_template(cfg);
    let t = chars_of(template.as_str());
    let pat = chars_of("{diff}");
    let d = chars_of(diff);
    let out = replace_first_chars(&t, &pat, &d);
    string_of(&out)
}

/// The simple user prompt for `diff` under the chosen simple template.
pub fn format_simple_commit_prompt(cfg: &Option<PromptConfig>, diff: &str) -> (r: String)
    ensures
        r@ == replace_first(simple_template_of(*cfg), "{diff}"@, diff@),
{
    let template = get_simple_prompt_template(cfg);
    let t = chars_of(template.as_str());
    let pat = chars_of("{diff}");
    let d = chars_of(diff);
    let out = replace_first_chars(&t, &pat, &d);
    string_of(&out)
}

/// Whether a template holds the `{diff}` placeholder. A template without
/// it silently omits the diff, so the configuration loader checks this
/// and surfaces a configuration warning.
pub fn template_has_placeholder(template: &str) -> (r: bool)
    ensures
        r == contains_seq(template@, "{diff}"@),
{
    let t = chars_of(template);
    let pat = chars_of("{diff}");
    contains_sub(&t, &pat)
}

/// The two prompt texts of one request: the system instruction and the
/// user instruction carrying the diff.
#[derive(Debug, Clone)]
pub struct PromptPair {
    pub system: String,
    pub user: String,
}

/// Assemble the prompt pair for one bounded diff.
pub fn assemble(cfg: &Option<PromptConfig>, bounded_diff: &str) -> (r: PromptPair)
    ensures
        r.system@ == system_prompt_of(*cfg),
        r.user@ == user_prompt_of(*cfg, bounded_diff@),
{
    let system = get_system_prompt(cfg);
    let user = format_commit_prompt(cfg, bounded_diff);
    PromptPair { system, user }
}

} // verus!
