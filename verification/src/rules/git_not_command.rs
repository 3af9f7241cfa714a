//! Not a git command: the commands that git suggests.
use super::utils;
use super::utils::git;
use super::{Rule, RuleKind};
use crate::cli::command::{CommandView, CrabCommand};
use crate::pattern;
use crate::shell::Shell;
use crate::text;
use vstd::prelude::*;

verus! {

/// The pattern that names the unknown subcommand.
pub open spec fn not_command_pattern() -> Seq<char> {
    r"git: '([^']*)' is not a git command"@
}

/// The output says that this is not a git command and suggests others.
pub open spec fn plain_matches(c: CommandView) -> bool {
    utils::output_has(c, " is not a git command. See 'git --help'."@) && (utils::output_has(
        c,
        "The most similar command"@,
    ) || utils::output_has(c, "Did you mean"@))
}

/// The command runs git, and `plain_matches` holds of it after git's alias
/// expansion.
pub open spec fn matches(c: CommandView) -> bool {
    git::is_git(c) && plain_matches(git::git_expanded(c))
}

/// The unknown subcommand replaced by each of the closest suggestions.
pub open spec fn plain_new_commands(c: CommandView) -> Seq<Seq<char>> {
    match c.output {
        Some(o) => commands_from(c.script, o, pattern::regex_captures(not_command_pattern(), o)),
        None => Seq::<Seq<char>>::empty(),
    }
}

/// From the groups of the complaint's match in the output `o`: the unknown
/// subcommand (group 1; empty without a match) replaced in `script` by each
/// of the closest of the suggestions that `o` lists.
pub open spec fn commands_from(script: Seq<char>, o: Seq<char>, g: Option<Seq<Option<Seq<char>>>>) -> Seq<
    Seq<char>,
> {
    let broken = match g {
        Some(g) => pattern::group_text(g, 1),
        None => Seq::<char>::empty(),
    };
    crate::utils::replaced_commands(
        script,
        broken,
        crate::utils::matched_lines(
            text::split_on(o, '\n'),
            seq!["The most similar command"@, "Did you mean"@],
            false,
        ),
    )
}

/// The corrections of the command after git's alias expansion; none when it
/// does not run git.
pub open spec fn new_commands(c: CommandView) -> Seq<Seq<char>> {
    if git::is_git(c) {
        plain_new_commands(git::git_expanded(c))
    } else {
        Seq::<Seq<char>>::empty()
    }
}

fn auxiliary_match_rule(command: &CrabCommand) -> (r: bool)
    ensures
        r == plain_matches(command@),
{
    utils::output_contains(command, " is not a git command. See 'git --help'.") && (
    utils::output_contains(command, "The most similar command") || utils::output_contains(
        command,
        "Did you mean",
    ))
}

pub fn match_rule(command: &mut CrabCommand, system_shell: Option<&Shell>) -> (r: bool)
    ensures
        r == matches(old(command)@),
        *final(command) == *old(command),
{
    if !git::is_git_command(command) {
        return false;
    }
    let expanded = git::expand_git_alias(command);
    auxiliary_match_rule(&expanded)
}

/// The corrections that the groups of the complaint's match in the output
/// `o` give.
pub fn commands_from_groups(command: &CrabCommand, o: &str, groups: &Option<Vec<Option<String>>>) -> (r: Vec<
    String,
>)
    ensures
        r.deep_view() == commands_from(command@.script, o@, groups.deep_view()),
{
    proof {
        reveal_strlit("");
    }
    let broken = match groups {
        Some(g) => pattern::group_or_empty(g, 1),
        None => text::owned(""),
    };
    let seps = vec!["The most similar command", "Did you mean"];
    assert(seps.deep_view() =~= seq!["The most similar command"@, "Did you mean"@]);
    let ghost sv = seps.deep_view();
    let given = Some(seps);
    assert(given.deep_view() == Some(sv));
    let matched = crate::utils::get_all_matched_commands(o, given);
    assert(matched.deep_view() == crate::utils::matched_lines(
        text::split_on(o@, '\n'),
        seq!["The most similar command"@, "Did you mean"@],
        false,
    ));
    let refs = text::str_refs(&matched);
    assert(broken@ == match groups.deep_view() {
        Some(g) => pattern::group_text(g, 1),
        None => Seq::<char>::empty(),
    });
    let r = crate::utils::replace_command(command, broken.as_str(), refs);
    assert(r.deep_view() =~= commands_from(command@.script, o@, groups.deep_view()));
    r
}

fn auxiliary_get_new_command(command: &CrabCommand, system_shell: Option<&Shell>) -> (r: Vec<String>)
    ensures
        r.deep_view() == plain_new_commands(command@),
{
    match &command.output {
        Some(o) => {
            let g = pattern::captures(r"git: '([^']*)' is not a git command", o.as_str());
            commands_from_groups(command, o.as_str(), &g)
        },
        None => Vec::new(),
    }
}

pub fn get_new_command(command: &mut CrabCommand, system_shell: Option<&Shell>) -> (r: Vec<String>)
    ensures
        r.deep_view() == new_commands(old(command)@),
        *final(command) == *old(command),
{
    if !git::is_git_command(command) {
        return Vec::new();
    }
    let expanded = git::expand_git_alias(command);
    proof {
        git::lemma_expanded_output(command@);
    }
    auxiliary_get_new_command(&expanded, system_shell)
}

pub fn get_rule() -> (r: Rule)
    ensures
        r.name@ == "git_not_command"@,
        r.kind == RuleKind::GitNotCommand,
        r.enabled_by_default && r.priority == 1000 && r.requires_output,
        r.side_effect is None,
{
    Rule::new(text::owned("git_not_command"), None, None, None, RuleKind::GitNotCommand, None)
}

} // verus!
