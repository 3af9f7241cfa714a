//! A mistyped `git bisect` subcommand: the closest of the subcommands that the
//! usage lists.
use super::utils;
use super::utils::git;
use super::{Rule, RuleKind};
use crate::cli::command::{CommandView, CrabCommand};
use crate::pattern;
use crate::shell::Shell;
use crate::text;
use vstd::prelude::*;

verus! {

/// The pattern of a `git bisect` subcommand.
pub open spec fn broken_pattern() -> Seq<char> {
    r"git bisect ([^ $]*).*"@
}

/// The pattern of the subcommands that the usage lists.
pub open spec fn usage_pattern() -> Seq<char> {
    r"usage: git bisect \[([^\]]+)\]"@
}

/// The command holds `bisect` and the output shows the usage of `git bisect`.
pub open spec fn plain_matches(c: CommandView) -> bool {
    text::contains(c.script, "bisect"@) && utils::output_has(c, "usage: git bisect"@)
}

/// The command runs git, and `plain_matches` holds of it after git's alias
/// expansion.
pub open spec fn matches(c: CommandView) -> bool {
    git::is_git(c) && plain_matches(git::git_expanded(c))
}

/// The word after `git bisect` in the command replaced by each of the
/// closest of the `|`-separated subcommands that the usage lists.
pub open spec fn plain_new_commands(c: CommandView) -> Seq<Seq<char>> {
    match c.output {
        Some(o) => commands_from(
            c.script,
            pattern::regex_captures(broken_pattern(), c.script),
            pattern::regex_captures(usage_pattern(), o),
        ),
        None => Seq::<Seq<char>>::empty(),
    }
}

/// From the groups of the two matches: the mistyped subcommand (group 1 of
/// `broken`) replaced in `script` by each of the closest of the
/// `|`-separated subcommands (group 1 of `usage`); nothing unless both
/// matched.
pub open spec fn commands_from(
    script: Seq<char>,
    broken: Option<Seq<Option<Seq<char>>>>,
    usage: Option<Seq<Option<Seq<char>>>>,
) -> Seq<Seq<char>> {
    match (broken, usage) {
        (Some(b), Some(u)) => crate::utils::replaced_commands(
            script,
            pattern::group_text(b, 1),
            text::split_on(pattern::group_text(u, 1), '|'),
        ),
        _ => Seq::<Seq<char>>::empty(),
    }
}

/// The corrections of the command after git's alias expansion; none when it
/// does not run git.
pub open spec fn new_commands(c: CommandView) -> Seq<Seq<char>> {
    if git::is_git(c) {
        plain_new_commands(git::git_expanded(c))
    } else {
        Seq::<Seq<char>>::empty()
    }
}

fn auxiliary_match_rule(command: &CrabCommand) -> (r: bool)
    ensures
        r == plain_matches(command@),
{
    text::str_contains(command.script.as_str(), "bisect") && utils::output_contains(
        command,
        "usage: git bisect",
    )
}

pub fn match_rule(command: &mut CrabCommand, system_shell: Option<&Shell>) -> (r: bool)
    ensures
        r == matches(old(command)@),
        *final(command) == *old(command),
{
    if !git::is_git_command(command) {
        return false;
    }
    let expanded = git::expand_git_alias(command);
    auxiliary_match_rule(&expanded)
}

/// The corrections that the groups of the two matches give.
pub fn commands_from_groups(
    command: &CrabCommand,
    broken: &Option<Vec<Option<String>>>,
    usage: &Option<Vec<Option<String>>>,
) -> (r: Vec<String>)
    ensures
        r.deep_view() == commands_from(command@.script, broken.deep_view(), usage.deep_view()),
{
    match (broken, usage) {
        (Some(b), Some(u)) => {
            let word = pattern::group_or_empty(b, 1);
            let listed = pattern::group_or_empty(u, 1);
            let pieces = text::str_split(listed.as_str(), '|');
            let refs = text::str_refs(&pieces);
            crate::utils::replace_command(command, word.as_str(), refs)
        },
        _ => {
            let r: Vec<String> = Vec::new();
            assert(r.deep_view() =~= commands_from(command@.script, broken.deep_view(), usage.deep_view()));
            r
        },
    }
}

fn auxiliary_get_new_command(command: &CrabCommand, system_shell: Option<&Shell>) -> (r: Vec<String>)
    ensures
        r.deep_view() == plain_new_commands(command@),
{
    match &command.output {
        Some(o) => {
            let broken = pattern::captures(r"git bisect ([^ $]*).*", command.script.as_str());
            let usage = pattern::captures(r"usage: git bisect \[([^\]]+)\]", o.as_str());
            commands_from_groups(command, &broken, &usage)
        },
        None => Vec::new(),
    }
}

pub fn get_new_command(command: &mut CrabCommand, system_shell: Option<&Shell>) -> (r: Vec<String>)
    ensures
        r.deep_view() == new_commands(old(command)@),
        *final(command) == *old(command),
{
    if !git::is_git_command(command) {
        return Vec::new();
    }
    let expanded = git::expand_git_alias(command);
    proof {
        git::lemma_expanded_output(command@);
    }
    auxiliary_get_new_command(&expanded, system_shell)
}

/// The rule. It is registered under the name `git_merge`, the same name as
/// the rule for `git merge` (its kind tells the two apart).
pub fn get_rule() -> (r: Rule)
    ensures
        r.name@ == "git_merge"@,
        r.kind == RuleKind::GitBisectUsage,
        r.enabled_by_default && r.priority == 1000 && r.requires_output,
        r.side_effect is None,
{
    Rule::new(text::owned("git_merge"), None, None, None, RuleKind::GitBisectUsage, None)
}

} // verus!
