//! A mistyped `git lfs` subcommand: the subcommands that git-lfs suggests.
use super::utils;
use super::utils::git;
use super::{Rule, RuleKind};
use crate::cli::command::{CommandView, CrabCommand};
use crate::pattern;
use crate::shell::Shell;
use crate::text;
use vstd::prelude::*;

verus! {

/// The pattern that names the unknown subcommand.
pub open spec fn unknown_command_pattern() -> Seq<char> {
    "Error: unknown command \"([^\"]*)\" for \"git-lfs\""@
}

/// The command holds `lfs` and the output asks `Did you mean this?`.
pub open spec fn plain_matches(c: CommandView) -> bool {
    text::contains(c.script, "lfs"@) && utils::output_has(c, "Did you mean this?"@)
}

/// The command runs git, and `plain_matches` holds of it after git's alias
/// expansion.
pub open spec fn matches(c: CommandView) -> bool {
    git::is_git(c) && plain_matches(git::git_expanded(c))
}

/// The unknown subcommand replaced by each of the closest suggestions.
pub open spec fn plain_new_commands(c: CommandView) -> Seq<Seq<char>> {
    match c.output {
        Some(o) => commands_from(c.script, o, pattern::regex_captures(unknown_command_pattern(), o)),
        None => Seq::<Seq<char>>::empty(),
    }
}

/// From the groups of the unknown command's match in the output `o`: the
/// unknown subcommand (group 1) replaced in `script` by each of the closest
/// of the suggestions that `o` lists; nothing without the group.
pub open spec fn commands_from(script: Seq<char>, o: Seq<char>, g: Option<Seq<Option<Seq<char>>>>) -> Seq<
    Seq<char>,
> {
    match g {
        Some(g) => if g.len() > 1 && g[1] is Some {
            crate::utils::replaced_commands(
                script,
                g[1]->0,
                crate::utils::matched_lines(
                    text::split_on(o, '\n'),
                    seq!["Did you mean"@, " for usage."@],
                    false,
                ),
            )
        } else {
            Seq::<Seq<char>>::empty()
        },
        None => Seq::<Seq<char>>::empty(),
    }
}

/// The corrections of the command after git's alias expansion; none when it
/// does not run git.
pub open spec fn new_commands(c: CommandView) -> Seq<Seq<char>> {
    if git::is_git(c) {
        plain_new_commands(git::git_expanded(c))
    } else {
        Seq::<Seq<char>>::empty()
    }
}

fn auxiliary_match_rule(command: &CrabCommand) -> (r: bool)
    ensures
        r == plain_matches(command@),
{
    text::str_contains(command.script.as_str(), "lfs") && utils::output_contains(
        command,
        "Did you mean this?",
    )
}

pub fn match_rule(command: &mut CrabCommand, system_shell: Option<&Shell>) -> (r: bool)
    ensures
        r == matches(old(command)@),
        *final(command) == *old(command),
{
    if !git::is_git_command(command) {
        return false;
    }
    let expanded = git::expand_git_alias(command);
    auxiliary_match_rule(&expanded)
}

/// The corrections that the groups of the unknown command's match in the
/// output `o` give.
pub fn commands_from_groups(command: &CrabCommand, o: &str, groups: &Option<Vec<Option<String>>>) -> (r: Vec<
    String,
>)
    ensures
        r.deep_view() == commands_from(command@.script, o@, groups.deep_view()),
{
    match groups {
        Some(g) => {
            if g.len() > 1 {
                assert(g.deep_view()[1] == g@[1].deep_view());
                match &g[1] {
                    Some(broken) => {
                        let seps = vec!["Did you mean", " for usage."];
                        assert(seps.deep_view() =~= seq!["Did you mean"@, " for usage."@]);
                        let matched = crate::utils::get_all_matched_commands(o, Some(seps));
                        let refs = text::str_refs(&matched);
                        crate::utils::replace_command(command, broken.as_str(), refs)
                    },
                    None => Vec::new(),
                }
            } else {
                Vec::new()
            }
        },
        None => Vec::new(),
    }
}

fn auxiliary_get_new_command(command: &CrabCommand, system_shell: Option<&Shell>) -> (r: Vec<String>)
    ensures
        r.deep_view() == plain_new_commands(command@),
{
    match &command.output {
        Some(o) => {
            let g = pattern::captures("Error: unknown command \"([^\"]*)\" for \"git-lfs\"", o.as_str());
            commands_from_groups(command, o.as_str(), &g)
        },
        None => Vec::new(),
    }
}

pub fn get_new_command(command: &mut CrabCommand, system_shell: Option<&Shell>) -> (r: Vec<String>)
    ensures
        r.deep_view() == new_commands(old(command)@),
        *final(command) == *old(command),
{
    if !git::is_git_command(command) {
        return Vec::new();
    }
    let expanded = git::expand_git_alias(command);
    proof {
        git::lemma_expanded_output(command@);
    }
    auxiliary_get_new_command(&expanded, system_shell)
}

pub fn get_rule() -> (r: Rule)
    ensures
        r.name@ == "git_lfs_mistype"@,
        r.kind == RuleKind::GitLfsMistype,
        r.enabled_by_default && r.priority == 1000 && r.requires_output,
        r.side_effect is None,
{
    Rule::new(text::owned("git_lfs_mistype"), None, None, None, RuleKind::GitLfsMistype, None)
}

} // verus!
