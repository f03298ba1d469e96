//! Change-set resolver: which repository comparison to make, and the
//! change set it yields.
//!
//! The version-control backend performs the comparisons; this module
//! decides which two states to compare for each mode and wraps the raw
//! diff text it returns. Every mode tolerates a repository with no
//! commits by substituting an empty-tree baseline.

use vstd::prelude::*;
use crate::text::{is_blank_text, str_is_blank, trim_spec, lemma_trim_blank_iff};

verus! {

/// Which pending changes one invocation considers.
#[derive(Debug, PartialEq, Eq, Structural, Clone, Copy)]
pub enum DiffMode {
    /// Committed tree (HEAD) against the staging index.
    Staged,
    /// Staging index against the working directory, untracked files
    /// excluded.
    Unstaged,
    /// Parent of HEAD (or an empty tree) against index plus working
    /// directory: what the amended commit's content would be.
    AmendTarget,
}

/// The baseline state of a comparison.
#[derive(Debug, PartialEq, Eq, Structural, Clone, Copy)]
pub enum BaselineState {
    HeadTree,
    ParentOfHead,
    EmptyTree,
    Index,
}

/// The target state of a comparison.
#[derive(Debug, PartialEq, Eq, Structural, Clone, Copy)]
pub enum TargetState {
    Index,
    WorkingTree,
    IndexAndWorkingTree,
}

/// One comparison for the version-control backend to perform.
#[derive(Debug, PartialEq, Eq, Structural, Clone, Copy)]
pub struct DiffRequest {
    pub baseline: BaselineState,
    pub target: TargetState,
    pub context_lines: u32,
    pub include_untracked: bool,
}

/// The comparison each mode needs. `has_parent` says whether HEAD exists
/// and has a parent commit; when it does not, the amend target compares
/// against an empty tree instead of failing.
pub fn diff_request_for(mode: DiffMode, has_parent: bool) -> (r: DiffRequest)
    ensures
        r.context_lines == 3,
        !r.include_untracked,
        mode == DiffMode::Staged ==> r.baseline == BaselineState::HeadTree && r.target
            == TargetState::Index,
        mode == DiffMode::Unstaged ==> r.baseline == BaselineState::Index && r.target
            == TargetState::WorkingTree,
        mode == DiffMode::AmendTarget ==> r.target == TargetState::IndexAndWorkingTree
            && r.baseline == (if has_parent {
            BaselineState::ParentOfHead
        } else {
            BaselineState::EmptyTree
        }),
{
    match mode {
        DiffMode::Staged => DiffRequest {
            baseline: BaselineState::HeadTree,
            target: TargetState::Index,
            context_lines: 3,
            include_untracked: false,
        },
        DiffMode::Unstaged => DiffRequest {
            baseline: BaselineState::Index,
            target: TargetState::WorkingTree,
            context_lines: 3,
            include_untracked: false,
        },
        DiffMode::AmendTarget => DiffRequest {
            baseline: if has_parent {
                BaselineState::ParentOfHead
            } else {
                BaselineState::EmptyTree
            },
            target: TargetState::IndexAndWorkingTree,
            context_lines: 3,
            include_untracked: false,
        },
    }
}

/// The pending changes of one invocation: the mode, the raw diff text the
/// backend produced, and whether that text is effectively empty.
#[derive(Debug)]
pub struct ChangeSet {
    pub mode: DiffMode,
    pub raw_text: String,
    pub is_empty: bool,
}

impl ChangeSet {
    /// The emptiness flag agrees with the text: set exactly when the
    /// trimmed text is empty.
    pub open spec fn wf(&self) -> bool {
        self.is_empty == (trim_spec(self.raw_text@).len() == 0)
    }
}

/// An empty raw text always yields an empty change set, so the pipeline
/// stops at the empty-changes check before any request is planned.
pub proof fn lemma_empty_raw_text_means_empty(cs: ChangeSet)
    requires
        cs.wf(),
        cs.raw_text@.len() == 0,
    ensures
        cs.is_empty,
{
}

/// Wrap one raw diff text, computing the emptiness flag.
pub fn make_change_set(mode: DiffMode, raw_text: String) -> (cs: ChangeSet)
    ensures
        cs.wf(),
        cs.mode == mode,
        cs.raw_text@ == raw_text@,
        cs.is_empty == is_blank_text(raw_text@),
{
    let is_empty = str_is_blank(raw_text.as_str());
    proof {
        lemma_trim_blank_iff(raw_text@);
    }
    ChangeSet { mode, raw_text, is_empty }
}

} // verus!
