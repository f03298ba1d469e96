use ai_commit::assemble::{
    assemble, format_commit_prompt as format_configured_prompt, format_simple_commit_prompt,
    get_default_simple_prompt_template, get_default_system_prompt,
    get_default_user_prompt_template, get_simple_prompt_template, get_system_prompt,
    get_user_prompt_template, template_has_placeholder,
};
use ai_commit::commands::{parse_command, CommandKind};
use ai_commit::config::PromptConfig;
use ai_commit::error::AppError;
use ai_commit::hooks::append_assist_note;
use ai_commit::prompts::{
    estimate_diff_complexity, format_commit_prompt, DiffComplexity, SYSTEM_PROMPT,
    USER_PROMPT_TEMPLATE,
};
use ai_commit::{chars_of, string_of};

fn override_config() -> PromptConfig {
    PromptConfig {
        system_prompt: "custom system".to_string(),
        user_prompt_template: "before {diff} after".to_string(),
        simple_prompt_template: "short: {diff}".to_string(),
    }
}

// --- Character utilities ---

#[test]
fn chars_round_trip_through_string_of() {
    let v = chars_of("héllo\nwörld");
    assert_eq!(v.len(), 11);
    assert_eq!(string_of(&v), "héllo\nwörld");
    assert_eq!(string_of(&chars_of("")), "");
}

// --- Diff complexity ---

#[test]
fn single_purpose_small_diff_is_simple() {
    let diff = "diff --git a/x.rs b/x.rs\n+let a = 1;\n";
    assert_eq!(estimate_diff_complexity(diff), DiffComplexity::Simple);
}

#[test]
fn two_change_kinds_are_medium() {
    // code markers and documentation markers, few files
    let diff = "diff --git a/x.py b/x.py\n+def f():\n+see README\n";
    assert_eq!(estimate_diff_complexity(diff), DiffComplexity::Medium);
}

#[test]
fn many_change_kinds_are_complex() {
    let diff =
        "diff --git a/x.py b/x.py\n+def f():\n+test added\n+config in app.toml\n+README updated\n";
    assert_eq!(estimate_diff_complexity(diff), DiffComplexity::Complex);
}

#[test]
fn many_files_with_one_purpose_stay_simple_until_sixteen() {
    let one = "diff --git a/f b/f\n+x\n";
    assert_eq!(estimate_diff_complexity(&one.repeat(10)), DiffComplexity::Simple);
    assert_eq!(estimate_diff_complexity(&one.repeat(16)), DiffComplexity::Complex);
}

// --- Prompt formatting ---

#[test]
fn builtin_prompt_substitutes_the_placeholder() {
    let out = format_commit_prompt("+added line\n");
    assert_eq!(out, USER_PROMPT_TEMPLATE.replacen("{diff}", "+added line\n", 1));
    assert!(out.contains("+added line\n"));
    assert!(!out.contains("{diff}"));
}

#[test]
fn fixed_prompts_hold_the_expected_markers() {
    assert!(SYSTEM_PROMPT.contains("Conventional Commits"));
    assert!(USER_PROMPT_TEMPLATE.contains("{diff}"));
}

#[test]
fn default_templates_hold_the_placeholder() {
    assert!(get_default_user_prompt_template().contains("{diff}"));
    assert!(get_default_simple_prompt_template().contains("{diff}"));
    assert!(get_default_system_prompt().contains("Conventional Commits"));
}

#[test]
fn placeholder_validation_finds_the_token() {
    assert!(template_has_placeholder(&get_default_user_prompt_template()));
    assert!(template_has_placeholder("x {diff} y"));
    assert!(!template_has_placeholder("no token"));
    assert!(!template_has_placeholder("{dif f}"));
    assert!(!template_has_placeholder(""));
}

#[test]
fn configured_templates_override_the_defaults() {
    let cfg = Some(override_config());
    assert_eq!(get_system_prompt(&cfg), "custom system");
    assert_eq!(get_user_prompt_template(&cfg), "before {diff} after");
    assert_eq!(get_simple_prompt_template(&cfg), "short: {diff}");
    assert_eq!(get_system_prompt(&None), get_default_system_prompt());
    assert_eq!(get_user_prompt_template(&None), get_default_user_prompt_template());
    assert_eq!(get_simple_prompt_template(&None), get_default_simple_prompt_template());
}

#[test]
fn configured_prompt_substitution_replaces_first_occurrence_only() {
    let cfg = Some(PromptConfig {
        system_prompt: "s".to_string(),
        user_prompt_template: "a {diff} b {diff}".to_string(),
        simple_prompt_template: "{diff}".to_string(),
    });
    assert_eq!(format_configured_prompt(&cfg, "X"), "a X b {diff}");
    assert_eq!(format_simple_commit_prompt(&cfg, "Y"), "Y");
}

#[test]
fn template_without_placeholder_omits_the_diff() {
    let cfg = Some(PromptConfig {
        system_prompt: "s".to_string(),
        user_prompt_template: "no placeholder here".to_string(),
        simple_prompt_template: "none".to_string(),
    });
    assert_eq!(format_configured_prompt(&cfg, "DIFF"), "no placeholder here");
}

#[test]
fn assemble_builds_both_texts() {
    let cfg = Some(override_config());
    let pair = assemble(&cfg, "+d\n");
    assert_eq!(pair.system, "custom system");
    assert_eq!(pair.user, "before +d\n after");
}

// --- Command dispatch ---

#[test]
fn known_commands_parse_and_unknown_ones_do_not() {
    assert_eq!(parse_command("install"), Some(CommandKind::Install));
    assert_eq!(parse_command("uninstall"), Some(CommandKind::Uninstall));
    assert_eq!(parse_command("commit"), Some(CommandKind::Commit));
    assert_eq!(parse_command("amend"), Some(CommandKind::Amend));
    assert_eq!(parse_command("config-init"), Some(CommandKind::ConfigInit));
    assert_eq!(parse_command("config-show"), Some(CommandKind::ConfigShow));
    assert_eq!(parse_command("config-edit-prompts"), Some(CommandKind::ConfigEditPrompts));
    assert_eq!(parse_command("push"), None);
    assert_eq!(parse_command(""), None);
    assert_eq!(parse_command("Commit"), None);
}

// --- Hook content ---

#[test]
fn assist_note_is_appended_verbatim() {
    let out = append_assist_note("fix: y".to_string());
    assert_eq!(out, "fix: y\n\n[AI-assisted commit message]");
}

// --- Errors ---

#[test]
fn error_messages_carry_their_detail() {
    assert_eq!(AppError::ParseError("bad toml".to_string()).message(), "Parse Error: bad toml");
    assert_eq!(AppError::Other("boom".to_string()).message(), "Error: boom");
    let io = std::io::Error::new(std::io::ErrorKind::NotFound, "gone");
    let e = AppError::from(io);
    let m = e.message();
    assert!(m.starts_with("IO Error: "));
    assert!(m.contains("gone"));
}

#[test]
fn io_errors_convert_into_the_io_variant() {
    let io = std::io::Error::new(std::io::ErrorKind::Other, "disk");
    match AppError::from(io) {
        AppError::IoError(_) => {}
        _ => panic!("an I/O error must convert to the I/O variant"),
    }
}
