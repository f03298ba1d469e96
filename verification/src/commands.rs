//! Command dispatch: which flow one invocation runs.
//!
//! The command-line front end hands the chosen subcommand name in; this
//! module maps it to the flow to run. An unrecognized name is an error
//! for the front end to report.

use vstd::prelude::*;
use crate::text::{chars_of, chars_eq};

verus! {

/// The flows the tool offers.
#[derive(Debug, PartialEq, Eq, Structural, Clone, Copy)]
pub enum CommandKind {
    Install,
    Uninstall,
    Commit,
    Amend,
    ConfigInit,
    ConfigShow,
    ConfigEditPrompts,
}

/// The flow a command name selects, if any.
pub open spec fn command_of(s: Seq<char>) -> Option<CommandKind> {
    if s == "install"@ {
        Some(CommandKind::Install)
    } else if s == "uninstall"@ {
        Some(CommandKind::Uninstall)
    } else if s == "commit"@ {
        Some(CommandKind::Commit)
    } else if s == "amend"@ {
        Some(CommandKind::Amend)
    } else if s == "config-init"@ {
        Some(CommandKind::ConfigInit)
    } else if s == "config-show"@ {
        Some(CommandKind::ConfigShow)
    } else if s == "config-edit-prompts"@ {
        Some(CommandKind::ConfigEditPrompts)
    } else {
        None
    }
}

/// Map a command name to its flow; `None` for an unknown name.
pub fn parse_command(command: &str) -> (r: Option<CommandKind>)
    ensures
        r == command_of(command@),
{
    let c = chars_of(command);
    let n_install = chars_of("install");
    let n_uninstall = chars_of("uninstall");
    let n_commit = chars_of("commit");
    let n_amend = chars_of("amend");
    let n_config_init = chars_of("config-init");
    let n_config_show = chars_of("config-show");
    let n_config_edit = chars_of("config-edit-prompts");
    if chars_eq(&c, &n_install) {
        Some(CommandKind::Install)
    } else if chars_eq(&c, &n_uninstall) {
        Some(CommandKind::Uninstall)
    } else if chars_eq(&c, &n_commit) {
        Some(CommandKind::Commit)
    } else if chars_eq(&c, &n_amend) {
        Some(CommandKind::Amend)
    } else if chars_eq(&c, &n_config_init) {
        Some(CommandKind::ConfigInit)
    } else if chars_eq(&c, &n_config_show) {
        Some(CommandKind::ConfigShow)
    } else if chars_eq(&c, &n_config_edit) {
        Some(CommandKind::ConfigEditPrompts)
    } else {
        None
    }
}

} // verus!
