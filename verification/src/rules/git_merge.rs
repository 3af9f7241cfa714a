//! `git merge` of a branch that exists only on a remote: merge the remote
//! branch that git suggests.
use super::utils;
use super::utils::git;
use super::{Rule, RuleKind};
use crate::cli::command::{CommandView, CrabCommand};
use crate::pattern;
use crate::shell::Shell;
use crate::text;
use vstd::prelude::*;

verus! {

/// The pattern of the branch that cannot be merged.
pub open spec fn unknown_branch_pattern() -> Seq<char> {
    r"merge: (.+) - not something we can merge"@
}

/// The pattern of the branch that git suggests.
pub open spec fn remote_branch_pattern() -> Seq<char> {
    r"Did you mean this\?\n\t([^\n]+)"@
}

/// The command holds `merge`, and the output says that the branch cannot be
/// merged and suggests another.
pub open spec fn plain_matches(c: CommandView) -> bool {
    text::contains(c.script, "merge"@) && utils::output_has(
        c,
        " - not something we can merge"@,
    ) && utils::output_has(c, "Did you mean this?"@)
}

/// The command runs git, and `plain_matches` holds of it after git's alias
/// expansion.
pub open spec fn matches(c: CommandView) -> bool {
    git::is_git(c) && plain_matches(git::git_expanded(c))
}

/// The unknown branch replaced, as an argument, by the suggested one.
pub open spec fn plain_new_commands(c: CommandView) -> Seq<Seq<char>> {
    match c.output {
        Some(o) => commands_from(
            c.script,
            pattern::regex_captures(unknown_branch_pattern(), o),
            pattern::regex_captures(remote_branch_pattern(), o),
        ),
        None => Seq::<Seq<char>>::empty(),
    }
}

/// From the groups of the two matches: the unknown branch (group 1 of
/// `unknown`) replaced, as an argument of `script`, by the suggested one
/// (group 1 of `remote`); nothing unless both matched.
pub open spec fn commands_from(
    script: Seq<char>,
    unknown: Option<Seq<Option<Seq<char>>>>,
    remote: Option<Seq<Option<Seq<char>>>>,
) -> Seq<Seq<char>> {
    match (unknown, remote) {
        (Some(u), Some(m)) => seq![
            crate::utils::replace_argument_spec(script, pattern::group_text(u, 1), pattern::group_text(m, 1)),
        ],
        _ => Seq::<Seq<char>>::empty(),
    }
}

/// The corrections that the groups of the two matches give.
pub fn commands_from_groups(
    script: &str,
    unknown: &Option<Vec<Option<String>>>,
    remote: &Option<Vec<Option<String>>>,
) -> (r: Vec<String>)
    ensures
        r.deep_view() == commands_from(script@, unknown.deep_view(), remote.deep_view()),
{
    match (unknown, remote) {
        (Some(u), Some(m)) => {
            let from = pattern::group_or_empty(u, 1);
            let to = pattern::group_or_empty(m, 1);
            let r = vec![crate::utils::replace_argument(script, from.as_str(), to.as_str())];
            assert(r.deep_view() =~= commands_from(script@, unknown.deep_view(), remote.deep_view()));
            r
        },
        _ => {
            let r: Vec<String> = Vec::new();
            assert(r.deep_view() =~= commands_from(script@, unknown.deep_view(), remote.deep_view()));
            r
        },
    }
}

/// The corrections of the command after git's alias expansion; none when it
/// does not run git.
pub open spec fn new_commands(c: CommandView) -> Seq<Seq<char>> {
    if git::is_git(c) {
        plain_new_commands(git::git_expanded(c))
    } else {
        Seq::<Seq<char>>::empty()
    }
}

fn auxiliary_match_rule(command: &CrabCommand) -> (r: bool)
    ensures
        r == plain_matches(command@),
{
    text::str_contains(command.script.as_str(), "merge") && utils::output_contains(
        command,
        " - not something we can merge",
    ) && utils::output_contains(command, "Did you mean this?")
}

pub fn match_rule(command: &mut CrabCommand, system_shell: Option<&Shell>) -> (r: bool)
    ensures
        r == matches(old(command)@),
        *final(command) == *old(command),
{
    if !git::is_git_command(command) {
        return false;
    }
    let expanded = git::expand_git_alias(command);
    auxiliary_match_rule(&expanded)
}

fn auxiliary_get_new_command(command: &CrabCommand, system_shell: Option<&Shell>) -> (r: Vec<String>)
    ensures
        r.deep_view() == plain_new_commands(command@),
{
    match &command.output {
        Some(o) => {
            let unknown = pattern::captures(r"merge: (.+) - not something we can merge", o.as_str());
            let remote = pattern::captures(r"Did you mean this\?\n\t([^\n]+)", o.as_str());
            commands_from_groups(command.script.as_str(), &unknown, &remote)
        },
        None => Vec::new(),
    }
}

pub fn get_new_command(command: &mut CrabCommand, system_shell: Option<&Shell>) -> (r: Vec<String>)
    ensures
        r.deep_view() == new_commands(old(command)@),
        *final(command) == *old(command),
{
    if !git::is_git_command(command) {
        return Vec::new();
    }
    let expanded = git::expand_git_alias(command);
    proof {
        git::lemma_expanded_output(command@);
    }
    auxiliary_get_new_command(&expanded, system_shell)
}

pub fn get_rule() -> (r: Rule)
    ensures
        r.name@ == "git_merge"@,
        r.kind == RuleKind::GitMerge,
        r.enabled_by_default && r.priority == 1000 && r.requires_output,
        r.side_effect is None,
{
    Rule::new(text::owned("git_merge"), None, None, None, RuleKind::GitMerge, None)
}

} // verus!
