//! `git add` of ignored files: add them with `--force`.
use super::utils;
use super::utils::git;
use super::{Rule, RuleKind};
use crate::cli::command::{CommandView, CrabCommand};
use crate::shell::Shell;
use crate::text;
use vstd::prelude::*;

verus! {

/// The output says to use `-f`, and one of the words is `add`.
pub open spec fn plain_matches(c: CommandView) -> bool {
    utils::output_has(c, "Use -f if you really want to add them."@) && c.parts.contains("add"@)
}

/// The command runs git, and `plain_matches` holds of it after git's alias
/// expansion.
pub open spec fn matches(c: CommandView) -> bool {
    git::is_git(c) && plain_matches(git::git_expanded(c))
}

/// The argument `add` replaced by `add --force`.
pub open spec fn plain_new_commands(c: CommandView) -> Seq<Seq<char>> {
    seq![crate::utils::replace_argument_spec(c.script, "add"@, "add --force"@)]
}

/// The corrections of the command after git's alias expansion; none when it
/// does not run git.
pub open spec fn new_commands(c: CommandView) -> Seq<Seq<char>> {
    if git::is_git(c) {
        plain_new_commands(git::git_expanded(c))
    } else {
        Seq::<Seq<char>>::empty()
    }
}

fn auxiliary_match_rule(command: &CrabCommand) -> (r: bool)
    ensures
        r == plain_matches(command@),
{
    utils::output_contains(command, "Use -f if you really want to add them.") && utils::contains_word(
        &command.script_parts,
        "add",
    )
}

pub fn match_rule(command: &mut CrabCommand, system_shell: Option<&Shell>) -> (r: bool)
    ensures
        r == matches(old(command)@),
        *final(command) == *old(command),
{
    if !git::is_git_command(command) {
        return false;
    }
    let expanded = git::expand_git_alias(command);
    auxiliary_match_rule(&expanded)
}

fn auxiliary_get_new_command(command: &CrabCommand, system_shell: Option<&Shell>) -> (r: Vec<String>)
    ensures
        r.deep_view() == plain_new_commands(command@),
{
    let r = vec![crate::utils::replace_argument(command.script.as_str(), "add", "add --force")];
    assert(r.deep_view() =~= plain_new_commands(command@));
    r
}

pub fn get_new_command(command: &mut CrabCommand, system_shell: Option<&Shell>) -> (r: Vec<String>)
    ensures
        r.deep_view() == new_commands(old(command)@),
        *final(command) == *old(command),
{
    if !git::is_git_command(command) {
        return Vec::new();
    }
    let expanded = git::expand_git_alias(command);
    proof {
        git::lemma_expanded_output(command@);
    }
    auxiliary_get_new_command(&expanded, system_shell)
}

pub fn get_rule() -> (r: Rule)
    ensures
        r.name@ == "git_add_force"@,
        r.kind == RuleKind::GitAddForce,
        r.enabled_by_default && r.priority == 1000 && r.requires_output,
        r.side_effect is None,
{
    Rule::new(text::owned("git_add_force"), None, None, None, RuleKind::GitAddForce, None)
}

} // verus!
