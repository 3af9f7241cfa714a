//! Deleting the branch that is checked out: check out master, then delete it
//! with `-D`.
use super::utils;
use super::utils::git;
use super::{Rule, RuleKind};
use crate::cli::command::{CommandView, CrabCommand};
use crate::shell::Shell;
use crate::text;
use vstd::prelude::*;

verus! {

/// The command deletes a branch and the output says it is checked out.
pub open spec fn plain_matches(c: CommandView) -> bool {
    (text::contains(c.script, "branch -d"@) || text::contains(c.script, "branch -D"@))
        && utils::output_has(c, "error: Cannot delete branch '"@) && utils::output_has(
        c,
        "' checked out at '"@,
    )
}

/// The command runs git, and `plain_matches` holds of it after git's alias
/// expansion.
pub open spec fn matches(c: CommandView) -> bool {
    git::is_git(c) && plain_matches(git::git_expanded(c))
}

/// `git checkout master`, then the command with `-d` replaced by `-D`.
pub open spec fn plain_new_commands(c: CommandView, sh: Shell) -> Seq<Seq<char>> {
    seq![crate::shell::and_spec(sh, seq!["git checkout master"@, crate::utils::replace_argument_spec(c.script, "-d"@, "-D"@)])]
}

/// The corrections of the command after git's alias expansion; none when it
/// does not run git.
pub open spec fn new_commands(c: CommandView, sh: Shell) -> Seq<Seq<char>> {
    if git::is_git(c) {
        plain_new_commands(git::git_expanded(c), sh)
    } else {
        Seq::<Seq<char>>::empty()
    }
}

fn auxiliary_match_rule(command: &CrabCommand) -> (r: bool)
    ensures
        r == plain_matches(command@),
{
    (text::str_contains(command.script.as_str(), "branch -d") || text::str_contains(
        command.script.as_str(),
        "branch -D",
    )) && utils::output_contains(command, "error: Cannot delete branch '")
        && utils::output_contains(command, "' checked out at '")
}

pub fn match_rule(command: &mut CrabCommand, system_shell: Option<&Shell>) -> (r: bool)
    ensures
        r == matches(old(command)@),
        *final(command) == *old(command),
{
    if !git::is_git_command(command) {
        return false;
    }
    let expanded = git::expand_git_alias(command);
    auxiliary_match_rule(&expanded)
}

fn auxiliary_get_new_command(command: &CrabCommand, system_shell: Option<&Shell>) -> (r: Vec<String>)
    requires
        system_shell is Some,
    ensures
        r.deep_view() == plain_new_commands(command@, *system_shell.unwrap()),
{
    let replaced = crate::utils::replace_argument(command.script.as_str(), "-d", "-D");
    let cmds = vec!["git checkout master", replaced.as_str()];
    assert(cmds.deep_view() =~= seq!["git checkout master"@, replaced@]);
    let r = vec![system_shell.unwrap().and(cmds)];
    assert(r.deep_view() =~= plain_new_commands(command@, *system_shell.unwrap()));
    r
}

pub fn get_new_command(command: &mut CrabCommand, system_shell: Option<&Shell>) -> (r: Vec<String>)
    requires
        system_shell is Some,
    ensures
        r.deep_view() == new_commands(old(command)@, *system_shell.unwrap()),
        *final(command) == *old(command),
{
    if !git::is_git_command(command) {
        return Vec::new();
    }
    let expanded = git::expand_git_alias(command);
    proof {
        git::lemma_expanded_output(command@);
    }
    auxiliary_get_new_command(&expanded, system_shell)
}

pub fn get_rule() -> (r: Rule)
    ensures
        r.name@ == "git_branch_delete_checked_out"@,
        r.kind == RuleKind::GitBranchDeleteCheckedOut,
        r.enabled_by_default && r.priority == 1000 && r.requires_output,
        r.side_effect is None,
{
    Rule::new(text::owned("git_branch_delete_checked_out"), None, None, None, RuleKind::GitBranchDeleteCheckedOut, None)
}

} // verus!
