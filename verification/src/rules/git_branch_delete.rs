//! `git branch -d` refuses an unmerged branch: delete it with `-D`. And
//! `git branch list`, which would create a branch named `list`: delete that
//! branch and list the branches.
use super::utils;
use super::utils::git;
use super::{Rule, RuleKind};
use crate::cli::command::{CommandView, CrabCommand};
use crate::shell::Shell;
use crate::text;
use vstd::prelude::*;

verus! {

/// The command is `git branch list`: its words after the first are
/// `branch` and `list`.
pub open spec fn is_branch_list(c: CommandView) -> bool {
    c.parts.len() == 3 && c.parts[1] == "branch"@ && c.parts[2] == "list"@
}

/// The command holds `branch -d` and the output asks whether you are sure.
pub open spec fn refused_delete(c: CommandView) -> bool {
    text::contains(c.script, "branch -d"@) && utils::output_has(
        c,
        "If you are sure you want to delete it"@,
    )
}

/// A refused `branch -d`, or `git branch list`.
pub open spec fn plain_matches(c: CommandView) -> bool {
    refused_delete(c) || is_branch_list(c)
}

/// The command runs git, and `plain_matches` holds of it after git's alias
/// expansion.
pub open spec fn matches(c: CommandView) -> bool {
    git::is_git(c) && plain_matches(git::git_expanded(c))
}

/// For `git branch list`: delete the branch `list`, then list the branches.
/// Otherwise the argument `-d` replaced by `-D`.
pub open spec fn plain_new_commands(c: CommandView, sh: Shell) -> Seq<Seq<char>> {
    if is_branch_list(c) {
        seq![crate::shell::and_spec(sh, seq!["git branch --delete list"@, "git branch"@])]
    } else {
        seq![crate::utils::replace_argument_spec(c.script, "-d"@, "-D"@)]
    }
}

/// The corrections of the command after git's alias expansion; none when it
/// does not run git.
pub open spec fn new_commands(c: CommandView, sh: Shell) -> Seq<Seq<char>> {
    if git::is_git(c) {
        plain_new_commands(git::git_expanded(c), sh)
    } else {
        Seq::<Seq<char>>::empty()
    }
}

/// The shell is needed: the command runs git and is `git branch list` after
/// git's alias expansion.
pub open spec fn needs_shell(c: CommandView) -> bool {
    git::is_git(c) && is_branch_list(git::git_expanded(c))
}

fn branch_list(command: &CrabCommand) -> (r: bool)
    ensures
        r == is_branch_list(command@),
{
    command.script_parts.len() == 3 && text::str_eq(command.script_parts[1].as_str(), "branch")
        && text::str_eq(command.script_parts[2].as_str(), "list")
}

fn auxiliary_match_rule(command: &CrabCommand) -> (r: bool)
    ensures
        r == plain_matches(command@),
{
    (text::str_contains(command.script.as_str(), "branch -d") && utils::output_contains(
        command,
        "If you are sure you want to delete it",
    )) || branch_list(command)
}

pub fn match_rule(command: &mut CrabCommand, system_shell: Option<&Shell>) -> (r: bool)
    ensures
        r == matches(old(command)@),
        *final(command) == *old(command),
{
    if !git::is_git_command(command) {
        return false;
    }
    let expanded = git::expand_git_alias(command);
    auxiliary_match_rule(&expanded)
}

fn auxiliary_get_new_command(command: &CrabCommand, system_shell: Option<&Shell>) -> (r: Vec<String>)
    requires
        is_branch_list(command@) ==> system_shell is Some,
    ensures
        system_shell matches Some(sh) ==> r.deep_view() == plain_new_commands(command@, *sh),
        !is_branch_list(command@) ==> r.deep_view() == seq![
            crate::utils::replace_argument_spec(command@.script, "-d"@, "-D"@),
        ],
{
    if branch_list(command) {
        let sh = system_shell.unwrap();
        let cmds = vec!["git branch --delete list", "git branch"];
        assert(cmds.deep_view() =~= seq!["git branch --delete list"@, "git branch"@]);
        let r = vec![sh.and(cmds)];
        assert(r.deep_view() =~= plain_new_commands(command@, *sh));
        r
    } else {
        let r = vec![crate::utils::replace_argument(command.script.as_str(), "-d", "-D")];
        assert(r.deep_view() =~= seq![
            crate::utils::replace_argument_spec(command@.script, "-d"@, "-D"@),
        ]);
        r
    }
}

/// The corrections; the shell is needed only for `git branch list`.
pub fn get_new_command(command: &mut CrabCommand, system_shell: Option<&Shell>) -> (r: Vec<String>)
    requires
        needs_shell(old(command)@) ==> system_shell is Some,
    ensures
        system_shell matches Some(sh) ==> r.deep_view() == new_commands(old(command)@, *sh),
        !needs_shell(old(command)@) ==> r.deep_view() == (if git::is_git(old(command)@) {
            seq![crate::utils::replace_argument_spec(git::git_expanded(old(command)@).script, "-d"@, "-D"@)]
        } else {
            Seq::<Seq<char>>::empty()
        }),
        *final(command) == *old(command),
{
    if !git::is_git_command(command) {
        return Vec::new();
    }
    let expanded = git::expand_git_alias(command);
    proof {
        git::lemma_expanded_output(command@);
    }
    auxiliary_get_new_command(&expanded, system_shell)
}

pub fn get_rule() -> (r: Rule)
    ensures
        r.name@ == "git_branch_delete"@,
        r.kind == RuleKind::GitBranchDelete,
        r.enabled_by_default && r.priority == 1000 && r.requires_output,
        r.side_effect is None,
{
    Rule::new(text::owned("git_branch_delete"), None, None, None, RuleKind::GitBranchDelete, None)
}

} // verus!
