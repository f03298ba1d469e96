use ai_commit::bound::{bound, DEFAULT_CONTEXT_LIMIT};
use ai_commit::changes::{make_change_set, diff_request_for, BaselineState, DiffMode, TargetState};
use ai_commit::client::{classify_response, FailureKind, GenerationResult};
use ai_commit::filter::{filter_diff, should_ignore_by_custom_patterns, should_ignore_file, IgnoreRules};
use ai_commit::orchestrator::{
    decide_write, gpg_enabled_from, is_affirmative, next_after_generation, plan_amend, plan_commit,
    AfterGeneration, CommitDecision, CommitPlan, PipelineConfig, WriteKind, WriteStep,
};

fn test_config(dry_run: bool) -> PipelineConfig {
    PipelineConfig {
        model: "test-model".to_string(),
        max_tokens: Some(512),
        context_limit: DEFAULT_CONTEXT_LIMIT,
        rules: IgnoreRules { ignore_lock_files: true, custom_patterns: Vec::new() },
        prompts: None,
        dry_run,
    }
}

// --- Context bounder ---

#[test]
fn bound_is_identity_when_text_fits() {
    assert_eq!(bound("short text", 100), "short text");
    assert_eq!(bound("exact", 5), "exact");
    assert_eq!(bound("", 0), "");
}

#[test]
fn bound_cuts_only_at_line_boundaries() {
    // five lines of 40 characters each (39 letters + newline), 200 in all;
    // a limit of 50 keeps exactly the first line, never a mid-line cut
    let line = format!("{}\n", "a".repeat(39));
    let text = line.repeat(5);
    assert_eq!(text.len(), 200);
    let out = bound(&text, 50);
    assert_eq!(out, line);
    assert_eq!(out.len(), 40);
}

#[test]
fn bound_is_empty_when_first_line_exceeds_limit() {
    let text = format!("{}\nrest\n", "x".repeat(80));
    assert_eq!(bound(&text, 50), "");
}

#[test]
fn bound_keeps_as_many_whole_lines_as_fit() {
    let text = "one\ntwo\nthree\n";
    assert_eq!(bound(text, 9), "one\ntwo\n");
    assert_eq!(bound(text, 7), "one\n");
    assert_eq!(bound(text, 13), "one\ntwo\n");
    assert_eq!(bound(text, 14), "one\ntwo\nthree\n");
}

#[test]
fn bound_result_is_a_prefix() {
    let text = "alpha\nbeta\ngamma";
    let out = bound(text, 12);
    assert!(text.starts_with(&out));
    assert!(out.len() <= 12);
    assert!(out.ends_with('\n'));
}

// --- Content filter ---

fn two_file_diff() -> String {
    let mut d = String::new();
    d.push_str("diff --git a/vendor/lib.go b/vendor/lib.go\n");
    d.push_str("index 1111111..2222222 100644\n");
    d.push_str("--- a/vendor/lib.go\n");
    d.push_str("+++ b/vendor/lib.go\n");
    d.push_str("+vendored line\n");
    d.push_str("diff --git a/main.go b/main.go\n");
    d.push_str("index 3333333..4444444 100644\n");
    d.push_str("--- a/main.go\n");
    d.push_str("+++ b/main.go\n");
    d.push_str("+real change\n");
    d
}

#[test]
fn filter_drops_sections_matching_custom_pattern() {
    let rules = IgnoreRules {
        ignore_lock_files: false,
        custom_patterns: vec!["vendor/".to_string()],
    };
    let out = filter_diff(&two_file_diff(), &rules);
    let expected =
        "diff --git a/main.go b/main.go\nindex 3333333..4444444 100644\n--- a/main.go\n+++ b/main.go\n+real change\n";
    assert_eq!(out, expected);
}

#[test]
fn filter_without_rules_is_a_no_op() {
    let rules = IgnoreRules { ignore_lock_files: false, custom_patterns: Vec::new() };
    let diff = two_file_diff();
    assert_eq!(filter_diff(&diff, &rules), diff);
}

#[test]
fn filter_drops_lock_file_sections_only_when_enabled() {
    let diff =
        "diff --git a/Cargo.lock b/Cargo.lock\n+locked\ndiff --git a/src/main.rs b/src/main.rs\n+code\n";
    let on = IgnoreRules { ignore_lock_files: true, custom_patterns: Vec::new() };
    let off = IgnoreRules { ignore_lock_files: false, custom_patterns: Vec::new() };
    assert_eq!(
        filter_diff(diff, &on),
        "diff --git a/src/main.rs b/src/main.rs\n+code\n"
    );
    assert_eq!(filter_diff(diff, &off), diff);
}

#[test]
fn filter_is_idempotent_on_a_concrete_diff() {
    let rules = IgnoreRules {
        ignore_lock_files: true,
        custom_patterns: vec!["vendor/".to_string()],
    };
    let once = filter_diff(&two_file_diff(), &rules);
    let twice = filter_diff(&once, &rules);
    assert_eq!(once, twice);
}

#[test]
fn filter_output_lines_are_a_subsequence_of_the_input_lines() {
    let rules = IgnoreRules {
        ignore_lock_files: true,
        custom_patterns: vec!["vendor/".to_string()],
    };
    let input = two_file_diff();
    let out = filter_diff(&input, &rules);
    let mut input_lines = input.lines();
    for out_line in out.lines() {
        // each surviving line appears in the input, later than the previous one
        assert!(input_lines.any(|l| l == out_line), "line reordered or rewritten: {out_line}");
    }
}

#[test]
fn filter_keeps_lines_before_the_first_header() {
    let rules = IgnoreRules {
        ignore_lock_files: false,
        custom_patterns: vec!["gone".to_string()],
    };
    let diff = "preamble\ndiff --git a/gone.txt b/gone.txt\n+dropped\n";
    assert_eq!(filter_diff(diff, &rules), "preamble\n");
}

#[test]
fn lock_file_names_are_recognized() {
    assert!(should_ignore_file("Cargo.lock"));
    assert!(should_ignore_file("a/b/package-lock.json"));
    assert!(should_ignore_file("yarn.lock"));
    assert!(should_ignore_file("go.sum"));
    assert!(!should_ignore_file("Cargo.toml"));
    assert!(!should_ignore_file("src/main.rs"));
    assert!(!should_ignore_file("locks/Cargo.lock/readme"));
}

#[test]
fn custom_patterns_match_by_substring() {
    let pats = vec!["vendor/".to_string(), ".min.js".to_string()];
    assert!(should_ignore_by_custom_patterns("vendor/lib.go", &pats));
    assert!(should_ignore_by_custom_patterns("dist/app.min.js", &pats));
    assert!(!should_ignore_by_custom_patterns("src/vendorless.go", &pats));
    assert!(!should_ignore_by_custom_patterns("anything", &Vec::new()));
}

// --- Change-set resolver ---

#[test]
fn amend_resolution_with_no_commits_uses_empty_baseline() {
    let r = diff_request_for(DiffMode::AmendTarget, false);
    assert_eq!(r.baseline, BaselineState::EmptyTree);
    assert_eq!(r.target, TargetState::IndexAndWorkingTree);
    assert_eq!(r.context_lines, 3);
    assert!(!r.include_untracked);
}

#[test]
fn diff_requests_match_each_mode() {
    let s = diff_request_for(DiffMode::Staged, true);
    assert_eq!(s.baseline, BaselineState::HeadTree);
    assert_eq!(s.target, TargetState::Index);
    let u = diff_request_for(DiffMode::Unstaged, true);
    assert_eq!(u.baseline, BaselineState::Index);
    assert_eq!(u.target, TargetState::WorkingTree);
    let a = diff_request_for(DiffMode::AmendTarget, true);
    assert_eq!(a.baseline, BaselineState::ParentOfHead);
}

#[test]
fn change_set_emptiness_follows_trimmed_text() {
    assert!(make_change_set(DiffMode::Staged, "".to_string()).is_empty);
    assert!(make_change_set(DiffMode::Staged, " \n\t \n".to_string()).is_empty);
    assert!(!make_change_set(DiffMode::Staged, "+x\n".to_string()).is_empty);
}

// --- Generation client ---

#[test]
fn http_error_status_is_an_api_error_with_the_body() {
    let r = classify_response(401, "unauthorized: bad key".to_string(), None);
    match r {
        GenerationResult::Failure(kind, detail) => {
            assert_eq!(kind, FailureKind::ApiError);
            assert_eq!(detail, "unauthorized: bad key");
        }
        GenerationResult::Success(_) => panic!("a 401 must not classify as success"),
    }
}

#[test]
fn zero_choices_classify_as_empty_response() {
    let r = classify_response(200, "{\"choices\":[]}".to_string(), Some(Vec::new()));
    match r {
        GenerationResult::Failure(kind, detail) => {
            assert_eq!(kind, FailureKind::EmptyResponse);
            assert_eq!(detail, "no choices returned");
        }
        GenerationResult::Success(_) => panic!("zero choices must not classify as success"),
    }
}

#[test]
fn first_choice_text_is_the_success_message() {
    let choices = vec!["feat: add parser".to_string(), "second".to_string()];
    let r = classify_response(201, "body".to_string(), Some(choices));
    match r {
        GenerationResult::Success(m) => assert_eq!(m, "feat: add parser"),
        GenerationResult::Failure(_, _) => panic!("a parsed 2xx response must succeed"),
    }
}

#[test]
fn unparsed_success_body_is_an_api_error() {
    let r = classify_response(200, "not json".to_string(), None);
    assert!(matches!(r, GenerationResult::Failure(FailureKind::ApiError, _)));
}

// --- Orchestrator ---

#[test]
fn empty_changes_stop_the_pipeline_before_any_request() {
    let cfg = test_config(false);
    let staged = make_change_set(DiffMode::Staged, "".to_string());
    let unstaged = make_change_set(DiffMode::Unstaged, "".to_string());
    assert!(matches!(plan_commit(&staged, &unstaged, &cfg), CommitPlan::NothingToDo));
    let amend = make_change_set(DiffMode::AmendTarget, "".to_string());
    assert!(matches!(plan_amend(&amend, &cfg), CommitPlan::NothingToDo));
}

#[test]
fn staged_changes_generate_with_the_configured_dry_run() {
    let cfg = test_config(false);
    let staged = make_change_set(DiffMode::Staged, "+line\n".to_string());
    let unstaged = make_change_set(DiffMode::Unstaged, "".to_string());
    match plan_commit(&staged, &unstaged, &cfg) {
        CommitPlan::Generate { request, dry_run } => {
            assert!(!dry_run);
            assert_eq!(request.model, "test-model");
            assert_eq!(request.max_tokens, Some(512));
            assert_eq!(request.thinking.kind, "disabled");
            assert_eq!(request.messages.len(), 2);
            assert_eq!(request.messages[0].role, "system");
            assert_eq!(request.messages[1].role, "user");
            assert!(request.messages[1].content.contains("+line\n"));
        }
        CommitPlan::NothingToDo => panic!("staged changes must plan a request"),
    }
}

#[test]
fn unstaged_only_changes_force_a_dry_run() {
    let cfg = test_config(false);
    let staged = make_change_set(DiffMode::Staged, "".to_string());
    let unstaged = make_change_set(DiffMode::Unstaged, "+u\n".to_string());
    match plan_commit(&staged, &unstaged, &cfg) {
        CommitPlan::Generate { dry_run, .. } => assert!(dry_run),
        CommitPlan::NothingToDo => panic!("unstaged changes must plan a request"),
    }
}

#[test]
fn planned_request_carries_the_filtered_and_bounded_diff() {
    let mut cfg = test_config(false);
    cfg.rules.custom_patterns = vec!["vendor/".to_string()];
    let staged = make_change_set(DiffMode::Staged, two_file_diff());
    let unstaged = make_change_set(DiffMode::Unstaged, "".to_string());
    match plan_commit(&staged, &unstaged, &cfg) {
        CommitPlan::Generate { request, .. } => {
            let user = &request.messages[1].content;
            assert!(user.contains("main.go"));
            assert!(!user.contains("vendor"));
        }
        CommitPlan::NothingToDo => panic!("expected a request"),
    }
}

#[test]
fn failures_are_reported_and_never_confirmed() {
    let failure = GenerationResult::Failure(FailureKind::EmptyResponse, "no choices returned".to_string());
    match next_after_generation(failure, false) {
        AfterGeneration::Report(kind, detail) => {
            assert_eq!(kind, FailureKind::EmptyResponse);
            assert_eq!(detail, "no choices returned");
        }
        _ => panic!("a failure must be reported, not presented or written"),
    }
    let api = GenerationResult::Failure(FailureKind::ApiError, "unauthorized".to_string());
    assert!(matches!(next_after_generation(api, true), AfterGeneration::Report(FailureKind::ApiError, _)));
}

#[test]
fn empty_message_stops_without_confirmation() {
    let r = next_after_generation(GenerationResult::Success("".to_string()), false);
    assert!(matches!(r, AfterGeneration::EmptyMessage));
}

#[test]
fn usable_message_is_shown_or_confirmed() {
    let dry = next_after_generation(GenerationResult::Success("fix: x".to_string()), true);
    match dry {
        AfterGeneration::ShowDryRun(m) => assert_eq!(m, "fix: x"),
        _ => panic!("dry run must only show the message"),
    }
    let live = next_after_generation(GenerationResult::Success("fix: x".to_string()), false);
    match live {
        AfterGeneration::Confirm(m) => assert_eq!(m, "fix: x"),
        _ => panic!("a live run must ask for confirmation"),
    }
}

#[test]
fn only_confirmation_reaches_the_write_path() {
    let w = decide_write(WriteKind::Commit, "msg".to_string(), CommitDecision::Confirmed);
    match w {
        WriteStep::Write(kind, m) => {
            assert_eq!(kind, WriteKind::Commit);
            assert_eq!(m, "msg");
        }
        WriteStep::Skip => panic!("confirmation must write"),
    }
    assert!(matches!(
        decide_write(WriteKind::Amend, "msg".to_string(), CommitDecision::Declined),
        WriteStep::Skip
    ));
    assert!(matches!(
        decide_write(WriteKind::Commit, "msg".to_string(), CommitDecision::DryRun),
        WriteStep::Skip
    ));
}

#[test]
fn affirmative_answers_are_y_or_yes_any_case() {
    assert!(is_affirmative("y"));
    assert!(is_affirmative("Y"));
    assert!(is_affirmative("yes"));
    assert!(is_affirmative("YES"));
    assert!(is_affirmative(" Yes \n"));
    assert!(!is_affirmative(""));
    assert!(!is_affirmative("n"));
    assert!(!is_affirmative("yess"));
    assert!(!is_affirmative("maybe"));
}

#[test]
fn gpg_query_prefers_local_then_global_then_off() {
    assert!(gpg_enabled_from(Some("true\n".to_string()), None));
    assert!(gpg_enabled_from(Some(" true ".to_string()), Some("false".to_string())));
    assert!(!gpg_enabled_from(Some("false".to_string()), Some("true".to_string())));
    assert!(gpg_enabled_from(None, Some("true".to_string())));
    assert!(!gpg_enabled_from(None, Some("0".to_string())));
    assert!(!gpg_enabled_from(None, None));
}
