//! Commit orchestrator: sequences resolve, filter, bound, assemble,
//! generate, and decide.
//!
//! The surrounding application performs the outside work (fetching diffs,
//! the HTTP call, the console, the commit itself) and calls these
//! functions between the steps; every decision of the flow is made here.
//! Empty changes stop the pipeline before any request is planned; a
//! failed or empty generation is only ever reported; the write path is
//! reached only through an explicit confirmation.

use vstd::prelude::*;
use crate::assemble::{assemble, system_prompt_of, user_prompt_of};
use crate::bound::{bound, bound_spec};
use crate::changes::ChangeSet;
use crate::client::{ChatRequest, FailureKind, GenerationResult, build_chat_request};
use crate::config::PromptConfig;
use crate::filter::{IgnoreRules, filter_diff, filter_spec};
use crate::text::{trim_spec, chars_of, trim_chars, chars_eq};

verus! {

/// Everything one invocation needs, loaded once and threaded through.
pub struct PipelineConfig {
    pub model: String,
    pub max_tokens: Option<usize>,
    pub context_limit: usize,
    pub rules: IgnoreRules,
    pub prompts: Option<PromptConfig>,
    pub dry_run: bool,
}

/// The diff text actually sent: the raw text filtered, then bounded to
/// the context limit.
pub open spec fn prepared_diff(raw: Seq<char>, cfg: PipelineConfig) -> Seq<char> {
    bound_spec(
        filter_spec(raw, cfg.rules.ignore_lock_files, cfg.rules.pats()),
        cfg.context_limit as int,
    )
}

/// `req` is exactly the request the pipeline plans for raw text `raw`
/// under `cfg`: the configured model and output budget, reasoning
/// disabled, and the system message followed by the user message carrying
/// the prepared diff.
pub open spec fn is_planned_request(req: ChatRequest, raw: Seq<char>, cfg: PipelineConfig) -> bool {
    &&& req.model@ == cfg.model@
    &&& req.max_tokens == cfg.max_tokens
    &&& req.thinking.kind@ == "disabled"@
    &&& req.messages@.len() == 2
    &&& req.messages@[0].role@ == "system"@
    &&& req.messages@[0].content@ == system_prompt_of(cfg.prompts)
    &&& req.messages@[1].role@ == "user"@
    &&& req.messages@[1].content@ == user_prompt_of(cfg.prompts, prepared_diff(raw, cfg))
}

/// What the pipeline does after resolving the changes: stop, or send one
/// request.
#[derive(Debug)]
pub enum CommitPlan {
    /// Nothing to consider: the invocation stops with a notice, and no
    /// network call is made.
    NothingToDo,
    /// Send `request`; when `dry_run` holds, the result is only shown.
    Generate { request: ChatRequest, dry_run: bool },
}

/// Build the request for one raw diff text: filter, bound, assemble.
pub fn build_request_for(raw: &str, cfg: &PipelineConfig) -> (r: ChatRequest)
    ensures
        is_planned_request(r, raw@, *cfg),
{
    let filtered = filter_diff(raw, &cfg.rules);
    let bounded = bound(filtered.as_str(), cfg.context_limit);
    let prompts = assemble(&cfg.prompts, bounded.as_str());
    build_chat_request(&cfg.model, &prompts, cfg.max_tokens)
}

/// Plan the commit flow: staged changes are preferred; with none, unstaged
/// changes run as a forced dry run; with neither, the pipeline stops and
/// no request exists to send.
pub fn plan_commit(staged: &ChangeSet, unstaged: &ChangeSet, cfg: &PipelineConfig) -> (r:
    CommitPlan)
    ensures
        staged.is_empty && unstaged.is_empty ==> r is NothingToDo,
        !staged.is_empty ==> (r matches CommitPlan::Generate { request, dry_run } && dry_run
            == cfg.dry_run && is_planned_request(request, staged.raw_text@, *cfg)),
        staged.is_empty && !unstaged.is_empty ==> (r matches CommitPlan::Generate {
            request,
            dry_run,
        } && dry_run && is_planned_request(request, unstaged.raw_text@, *cfg)),
{
    if !staged.is_empty {
        CommitPlan::Generate {
            request: build_request_for(staged.raw_text.as_str(), cfg),
            dry_run: cfg.dry_run,
        }
    } else if !unstaged.is_empty {
        CommitPlan::Generate {
            request: build_request_for(unstaged.raw_text.as_str(), cfg),
            dry_run: true,
        }
    } else {
        CommitPlan::NothingToDo
    }
}

/// Plan the amend flow: the amend-target changes, or a stop when they are
/// empty; again no request exists when the pipeline stops.
pub fn plan_amend(amend: &ChangeSet, cfg: &PipelineConfig) -> (r: CommitPlan)
    ensures
        amend.is_empty ==> r is NothingToDo,
        !amend.is_empty ==> (r matches CommitPlan::Generate { request, dry_run } && dry_run
            == cfg.dry_run && is_planned_request(request, amend.raw_text@, *cfg)),
{
    if !amend.is_empty {
        CommitPlan::Generate {
            request: build_request_for(amend.raw_text.as_str(), cfg),
            dry_run: cfg.dry_run,
        }
    } else {
        CommitPlan::NothingToDo
    }
}

/// What the pipeline does once the generation outcome is known.
#[derive(Debug)]
pub enum AfterGeneration {
    /// Report the failure and stop; the write path is never reached.
    Report(FailureKind, String),
    /// The service returned an empty message: report and stop.
    EmptyMessage,
    /// Dry run: present the message and stop without writing.
    ShowDryRun(String),
    /// Present the message and ask for confirmation.
    Confirm(String),
}

/// The step after generation: failures and empty messages are reported;
/// a usable message is shown (dry run) or put to the operator.
pub open spec fn after_generation_spec(result: GenerationResult, dry_run: bool) -> AfterGeneration {
    match result {
        GenerationResult::Failure(k, d) => AfterGeneration::Report(k, d),
        GenerationResult::Success(m) => if m@.len() == 0 {
            AfterGeneration::EmptyMessage
        } else if dry_run {
            AfterGeneration::ShowDryRun(m)
        } else {
            AfterGeneration::Confirm(m)
        },
    }
}

/// Decide the step after one generation outcome.
pub fn next_after_generation(result: GenerationResult, dry_run: bool) -> (r: AfterGeneration)
    ensures
        r == after_generation_spec(result, dry_run),
{
    match result {
        GenerationResult::Failure(k, d) => AfterGeneration::Report(k, d),
        GenerationResult::Success(m) => {
            if m.as_str().is_empty() {
                AfterGeneration::EmptyMessage
            } else if dry_run {
                AfterGeneration::ShowDryRun(m)
            } else {
                AfterGeneration::Confirm(m)
            }
        },
    }
}

/// A failed generation is only ever reported: whatever the failure and
/// whether or not this is a dry run, the step after generation is a
/// report, never a confirmation or a dry-run display, so the write path
/// cannot be reached from it.
pub proof fn lemma_failure_is_reported(k: FailureKind, d: String, dry_run: bool)
    ensures
        after_generation_spec(GenerationResult::Failure(k, d), dry_run)
            == AfterGeneration::Report(k, d),
        !(after_generation_spec(GenerationResult::Failure(k, d), dry_run) is Confirm),
        !(after_generation_spec(GenerationResult::Failure(k, d), dry_run) is ShowDryRun),
{
}

/// How the operator answered (or how flags answered for them).
#[derive(Debug, PartialEq, Eq, Structural, Clone, Copy)]
pub enum CommitDecision {
    Confirmed,
    Declined,
    DryRun,
}

/// Which write the backend performs.
#[derive(Debug, PartialEq, Eq, Structural, Clone, Copy)]
pub enum WriteKind {
    Commit,
    Amend,
}

/// Whether to invoke the write path.
#[derive(Debug)]
pub enum WriteStep {
    /// No write: declined or dry run.
    Skip,
    /// Write a commit or amend with this message.
    Write(WriteKind, String),
}

/// Only an explicit confirmation writes.
pub open spec fn decide_write_spec(
    kind: WriteKind,
    message: String,
    decision: CommitDecision,
) -> WriteStep {
    match decision {
        CommitDecision::Confirmed => WriteStep::Write(kind, message),
        CommitDecision::Declined => WriteStep::Skip,
        CommitDecision::DryRun => WriteStep::Skip,
    }
}

/// Decide whether the write path runs: only a confirmed decision writes,
/// and it writes exactly the presented message.
pub fn decide_write(kind: WriteKind, message: String, decision: CommitDecision) -> (r: WriteStep)
    ensures
        r == decide_write_spec(kind, message, decision),
{
    match decision {
        CommitDecision::Confirmed => WriteStep::Write(kind, message),
        CommitDecision::Declined => WriteStep::Skip,
        CommitDecision::DryRun => WriteStep::Skip,
    }
}

/// `c` is one of the two cases of a letter.
pub open spec fn either_case(c: char, lower: char, upper: char) -> bool {
    c == lower || c == upper
}

/// The trimmed input reads `y` or `yes` in any letter case.
pub open spec fn affirmative_spec(s: Seq<char>) -> bool {
    let t = trim_spec(s);
    ||| (t.len() == 1 && either_case(t[0], 'y', 'Y'))
    ||| (t.len() == 3 && either_case(t[0], 'y', 'Y') && either_case(t[1], 'e', 'E')
        && either_case(t[2], 's', 'S'))
}

/// Whether a console answer confirms: `y` or `yes`, any letter case,
/// surrounding whitespace ignored.
pub fn is_affirmative(input: &str) -> (r: bool)
    ensures
        r == affirmative_spec(input@),
{
    let v = chars_of(input);
    let t = trim_chars(&v);
    if t.len() == 1 {
        let c0 = t[0];
        c0 == 'y' || c0 == 'Y'
    } else if t.len() == 3 {
        let c0 = t[0];
        let c1 = t[1];
        let c2 = t[2];
        (c0 == 'y' || c0 == 'Y') && (c1 == 'e' || c1 == 'E') && (c2 == 's' || c2 == 'S')
    } else {
        false
    }
}

/// A configuration value that switches a toggle on: `true` once trimmed.
pub open spec fn config_true(v: Seq<char>) -> bool {
    trim_spec(v) == "true"@
}

/// Whether a configuration query output switches a toggle on.
pub fn config_value_is_true(v: &str) -> (r: bool)
    ensures
        r == config_true(v@),
{
    let c = chars_of(v);
    let t = trim_chars(&c);
    let needle = chars_of("true");
    chars_eq(&t, &needle)
}

/// Whether commit signing is configured, from the outputs of the local
/// and global configuration queries (`None` when a query failed): the
/// local answer wins; a missing answer falls back to the global one, then
/// to off. The result only selects an informational note — it never
/// changes which write path runs.
pub fn gpg_enabled_from(local: Option<String>, global: Option<String>) -> (r: bool)
    ensures
        r == match local {
            Some(v) => config_true(v@),
            None => match global {
                Some(w) => config_true(w@),
                None => false,
            },
        },
{
    match local {
        Some(v) => config_value_is_true(v.as_str()),
        None => match global {
            Some(w) => config_value_is_true(w.as_str()),
            None => false,
        },
    }
}

} // verus!
