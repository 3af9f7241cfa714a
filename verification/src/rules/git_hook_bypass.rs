//! A git hook refused the command: run it with `--no-verify`.
use super::utils;
use super::utils::git;
use super::{Rule, RuleKind};
use crate::cli::command::{CommandView, CrabCommand};
use crate::shell::Shell;
use crate::text;
use vstd::prelude::*;

verus! {

/// One of the words is `am`, `commit` or `push`.
pub open spec fn plain_matches(c: CommandView) -> bool {
    c.parts.contains("am"@) || c.parts.contains("commit"@) || c.parts.contains("push"@)
}

/// The command runs git, and `plain_matches` holds of it after git's alias
/// expansion.
pub open spec fn matches(c: CommandView) -> bool {
    git::is_git(c) && plain_matches(git::git_expanded(c))
}

/// The first of `am`, `commit`, `push` that occurs in the command, as an
/// argument followed by `--no-verify`.
pub open spec fn plain_new_commands(c: CommandView) -> Seq<Seq<char>> {
    if text::contains(c.script, "am"@) {
        seq![crate::utils::replace_argument_spec(c.script, "am"@, "am --no-verify"@)]
    } else if text::contains(c.script, "commit"@) {
        seq![crate::utils::replace_argument_spec(c.script, "commit"@, "commit --no-verify"@)]
    } else if text::contains(c.script, "push"@) {
        seq![crate::utils::replace_argument_spec(c.script, "push"@, "push --no-verify"@)]
    } else {
        Seq::<Seq<char>>::empty()
    }
}

/// The corrections of the command after git's alias expansion; none when it
/// does not run git.
pub open spec fn new_commands(c: CommandView) -> Seq<Seq<char>> {
    if git::is_git(c) {
        plain_new_commands(git::git_expanded(c))
    } else {
        Seq::<Seq<char>>::empty()
    }
}

fn auxiliary_match_rule(command: &CrabCommand) -> (r: bool)
    ensures
        r == plain_matches(command@),
{
    utils::contains_word(&command.script_parts, "am") || utils::contains_word(
        &command.script_parts,
        "commit",
    ) || utils::contains_word(&command.script_parts, "push")
}

pub fn match_rule(command: &mut CrabCommand, system_shell: Option<&Shell>) -> (r: bool)
    ensures
        r == matches(old(command)@),
        *final(command) == *old(command),
{
    if !git::is_git_command(command) {
        return false;
    }
    let expanded = git::expand_git_alias(command);
    auxiliary_match_rule(&expanded)
}

fn auxiliary_get_new_command(command: &CrabCommand, system_shell: Option<&Shell>) -> (r: Vec<String>)
    ensures
        r.deep_view() == plain_new_commands(command@),
{
    let script = command.script.as_str();
    let r = if text::str_contains(script, "am") {
        vec![crate::utils::replace_argument(script, "am", "am --no-verify")]
    } else if text::str_contains(script, "commit") {
        vec![crate::utils::replace_argument(script, "commit", "commit --no-verify")]
    } else if text::str_contains(script, "push") {
        vec![crate::utils::replace_argument(script, "push", "push --no-verify")]
    } else {
        Vec::new()
    };
    assert(r.deep_view() =~= plain_new_commands(command@));
    r
}

pub fn get_new_command(command: &mut CrabCommand, system_shell: Option<&Shell>) -> (r: Vec<String>)
    ensures
        r.deep_view() == new_commands(old(command)@),
        *final(command) == *old(command),
{
    if !git::is_git_command(command) {
        return Vec::new();
    }
    let expanded = git::expand_git_alias(command);
    proof {
        git::lemma_expanded_output(command@);
    }
    auxiliary_get_new_command(&expanded, system_shell)
}

pub fn get_rule() -> (r: Rule)
    ensures
        r.name@ == "git_hook_bypass"@,
        r.kind == RuleKind::GitHookBypass,
        r.enabled_by_default && r.priority == 1100 && !r.requires_output,
        r.side_effect is None,
{
    Rule::new(text::owned("git_hook_bypass"), None, Some(1100), Some(false), RuleKind::GitHookBypass, None)
}

} // verus!
