//! Fixed prompt texts and diff complexity estimation.
//!
//! The texts here are the built-in instructions sent alongside a diff;
//! the complexity estimate classifies a diff by how many kinds of change
//! it touches and how many files it spans.

use vstd::prelude::*;
use crate::text::{
    contains_seq, count_matches, chars_of, contains_sub, count_occurrences, replace_first,
    replace_first_chars, string_of,
};

verus! {

pub const SYSTEM_PROMPT: &'static str = r#"You are an expert software developer and git commit message writer.

Generate concise, clear commit messages following the Conventional Commits specification:
- feat: A new feature
- fix: A bug fix
- docs: Documentation only changes
- style: Changes that do not affect the meaning of the code
- refactor: A code change that neither fixes a bug nor adds a feature
- perf: A code change that improves performance
- test: Adding missing tests or correcting existing tests
- chore: Changes to the build process or auxiliary tools

Format: type(scope): description

SMART FORMAT SELECTION:
- Single feature/fix/refactor (even across multiple files): Use only title line under 72 characters
- Multiple unrelated features or different functional changes: Add blank line + bullet points

Use bullet points ONLY when the commit contains multiple DIFFERENT functional changes, not when:
- Refactoring one feature across multiple files
- Adding one feature with supporting files
- Fixing one issue that affects multiple files
- Making related changes for a single purpose

BULLET POINT GUIDELINES:
- Focus on WHAT functionality was added/changed/fixed, not which files
- Describe user-facing features, API changes, or system improvements
- Avoid mentioning specific file names or paths
- Keep each point concise and focused on the functional impact

Examples:

Single purpose (no bullet points needed):
```
refactor: improve error handling in authentication module
```

Multiple purposes (needs bullet points):
```
feat: add user management and notification system

- Implement user CRUD operations with validation
- Add email notification service for user events
- Create admin dashboard for user management
```

WRONG format (don't do this):
```
feat: add user system

- Update UserController.js to add CRUD methods
- Modify database schema in migration files
- Add new routes in routes/users.js
```

Focus on functional purpose and impact, not file-level changes."#;

pub const USER_PROMPT_TEMPLATE: &'static str = r#"Analyze the following git diff and determine if it represents:
1. A SINGLE functional purpose (one feature, fix, or refactor) - use title only
2. MULTIPLE different functional purposes - use title + bullet points

When using bullet points:
- Describe WHAT functionality was implemented/changed/fixed
- Focus on features, capabilities, or system improvements
- Do NOT mention specific file names or paths
- Keep each point focused on user or system impact

Git diff:
```diff
{diff}
```

Provide only the commit message in the appropriate format."#;

/// How many kinds of change a diff touches and how many files it spans,
/// bucketed for prompt selection.
#[derive(Debug, PartialEq, Eq, Structural)]
pub enum DiffComplexity {
    Simple,
    Medium,
    Complex,
}

/// The diff adds or changes code constructs.
pub open spec fn has_code_markers(d: Seq<char>) -> bool {
    contains_seq(d, "class "@) || contains_seq(d, "function "@) || contains_seq(d, "def "@)
}

/// The diff touches tests.
pub open spec fn has_test_markers(d: Seq<char>) -> bool {
    contains_seq(d, "test"@) || contains_seq(d, "spec"@)
}

/// The diff touches configuration.
pub open spec fn has_config_markers(d: Seq<char>) -> bool {
    contains_seq(d, "config"@) || contains_seq(d, ".toml"@) || contains_seq(d, ".json"@)
}

/// The diff touches documentation.
pub open spec fn has_doc_markers(d: Seq<char>) -> bool {
    contains_seq(d, "README"@) || contains_seq(d, ".md"@)
}

/// How many of the four kinds of change the diff touches.
pub open spec fn change_type_count(d: Seq<char>) -> int {
    (if has_code_markers(d) {
        1int
    } else {
        0int
    }) + (if has_test_markers(d) {
        1int
    } else {
        0int
    }) + (if has_config_markers(d) {
        1int
    } else {
        0int
    }) + (if has_doc_markers(d) {
        1int
    } else {
        0int
    })
}

/// How many per-file sections the diff holds.
pub open spec fn files_changed_count(d: Seq<char>) -> nat {
    count_matches(d, "diff --git"@)
}

/// The complexity bucket of a diff: few kinds of change and few files is
/// simple; two kinds is medium; more kinds or many files is complex.
pub open spec fn complexity_spec(d: Seq<char>) -> DiffComplexity {
    let types = change_type_count(d);
    let files = files_changed_count(d);
    if types <= 1 && files <= 10 {
        DiffComplexity::Simple
    } else if types == 2 && files <= 15 {
        DiffComplexity::Medium
    } else if types > 2 || files > 15 {
        DiffComplexity::Complex
    } else {
        DiffComplexity::Simple
    }
}

/// Estimate the complexity bucket of `diff`.
pub fn estimate_diff_complexity(diff: &str) -> (r: DiffComplexity)
    ensures
        r == complexity_spec(diff@),
{
    let d = chars_of(diff);

    let git_marker = chars_of("diff --git");
    let files_changed = count_occurrences(&d, &git_marker);

    let m_class = chars_of("class ");
    let m_function = chars_of("function ");
    let m_def = chars_of("def ");
    let has_new_features = contains_sub(&d, &m_class) || contains_sub(&d, &m_function)
        || contains_sub(&d, &m_def);

    let m_test = chars_of("test");
    let m_spec = chars_of("spec");
    let has_test_changes = contains_sub(&d, &m_test) || contains_sub(&d, &m_spec);

    let m_config = chars_of("config");
    let m_toml = chars_of(".toml");
    let m_json = chars_of(".json");
    let has_config_changes = contains_sub(&d, &m_config) || contains_sub(&d, &m_toml)
        || contains_sub(&d, &m_json);

    let m_readme = chars_of("README");
    let m_md = chars_of(".md");
    let has_documentation = contains_sub(&d, &m_readme) || contains_sub(&d, &m_md);

    let mut change_types: u64 = 0;
    if has_new_features {
        change_types = change_types + 1;
    }
    if has_test_changes {
        change_types = change_types + 1;
    }
    if has_config_changes {
        change_types = change_types + 1;
    }
    if has_documentation {
        change_types = change_types + 1;
    }
    proof {
        assert(change_types as int == change_type_count(diff@));
        assert(files_changed as nat == files_changed_count(diff@));
    }

    if change_types <= 1 && files_changed <= 10 {
        DiffComplexity::Simple
    } else if change_types == 2 && files_changed <= 15 {
        DiffComplexity::Medium
    } else if change_types > 2 || files_changed > 15 {
        DiffComplexity::Complex
    } else {
        DiffComplexity::Simple
    }
}

/// The built-in user prompt with the diff substituted for the first
/// `{diff}` placeholder.
pub fn format_commit_prompt(diff: &str) -> (r: String)
    ensures
        r@ == replace_first(USER_PROMPT_TEMPLATE@, "{diff}"@, diff@),
{
    let t = chars_of(USER_PROMPT_TEMPLATE);
    let pat = chars_of("{diff}");
    let d = chars_of(diff);
    let out = replace_first_chars(&t, &pat, &d);
    string_of(&out)
}

} // verus!
