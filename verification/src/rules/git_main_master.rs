//! `main` where the branch is `master`, or the other way round.
use super::utils;
use super::utils::git;
use super::{Rule, RuleKind};
use crate::cli::command::{CommandView, CrabCommand};
use crate::shell::Shell;
use crate::text;
use vstd::prelude::*;

verus! {

/// The output names `'master'` or `'main'`.
pub open spec fn plain_matches(c: CommandView) -> bool {
    utils::output_has(c, "'master'"@) || utils::output_has(c, "'main'"@)
}

/// The command runs git, and `plain_matches` holds of it after git's alias
/// expansion.
pub open spec fn matches(c: CommandView) -> bool {
    git::is_git(c) && plain_matches(git::git_expanded(c))
}

/// When the output names `'master'`, every `master` replaced by `main`;
/// otherwise every `main` replaced by `master`.
pub open spec fn plain_new_commands(c: CommandView) -> Seq<Seq<char>> {
    if utils::output_has(c, "'master'"@) {
        seq![text::replace_all(c.script, "master"@, "main"@)]
    } else if c.output is Some {
        seq![text::replace_all(c.script, "main"@, "master"@)]
    } else {
        Seq::<Seq<char>>::empty()
    }
}

/// The corrections of the command after git's alias expansion; none when it
/// does not run git.
pub open spec fn new_commands(c: CommandView) -> Seq<Seq<char>> {
    if git::is_git(c) {
        plain_new_commands(git::git_expanded(c))
    } else {
        Seq::<Seq<char>>::empty()
    }
}

fn auxiliary_match_rule(command: &CrabCommand) -> (r: bool)
    ensures
        r == plain_matches(command@),
{
    utils::output_contains(command, "'master'") || utils::output_contains(command, "'main'")
}

pub fn match_rule(command: &mut CrabCommand, system_shell: Option<&Shell>) -> (r: bool)
    ensures
        r == matches(old(command)@),
        *final(command) == *old(command),
{
    if !git::is_git_command(command) {
        return false;
    }
    let expanded = git::expand_git_alias(command);
    auxiliary_match_rule(&expanded)
}

fn auxiliary_get_new_command(command: &CrabCommand, system_shell: Option<&Shell>) -> (r: Vec<String>)
    ensures
        r.deep_view() == plain_new_commands(command@),
{
    if utils::output_contains(command, "'master'") {
        let r = vec![text::str_replace(command.script.as_str(), "master", "main")];
        assert(r.deep_view() =~= plain_new_commands(command@));
        r
    } else if command.output.is_some() {
        let r = vec![text::str_replace(command.script.as_str(), "main", "master")];
        assert(r.deep_view() =~= plain_new_commands(command@));
        r
    } else {
        Vec::new()
    }
}

pub fn get_new_command(command: &mut CrabCommand, system_shell: Option<&Shell>) -> (r: Vec<String>)
    ensures
        r.deep_view() == new_commands(old(command)@),
        *final(command) == *old(command),
{
    if !git::is_git_command(command) {
        return Vec::new();
    }
    let expanded = git::expand_git_alias(command);
    proof {
        git::lemma_expanded_output(command@);
    }
    auxiliary_get_new_command(&expanded, system_shell)
}

pub fn get_rule() -> (r: Rule)
    ensures
        r.name@ == "git_main_master"@,
        r.kind == RuleKind::GitMainMaster,
        r.enabled_by_default && r.priority == 1200 && r.requires_output,
        r.side_effect is None,
{
    Rule::new(text::owned("git_main_master"), None, Some(1200), None, RuleKind::GitMainMaster, None)
}

} // verus!
