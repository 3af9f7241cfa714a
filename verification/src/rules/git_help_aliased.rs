//! `git help` on an alias: ask for help on the command that it stands for.
use super::utils;
use super::utils::git;
use super::{Rule, RuleKind};
use crate::cli::command::{CommandView, CrabCommand};
use crate::shell::Shell;
use crate::text;
use vstd::prelude::*;

verus! {

/// The command holds `help` and the output says that it is an alias.
pub open spec fn plain_matches(c: CommandView) -> bool {
    text::contains(c.script, "help"@) && utils::output_has(c, " is aliased to "@)
}

/// The command runs git, and `plain_matches` holds of it after git's alias
/// expansion.
pub open spec fn matches(c: CommandView) -> bool {
    git::is_git(c) && plain_matches(git::git_expanded(c))
}

/// `git help` and the first word of the alias's expansion: what follows the
/// second backquote of the output, up to a quote and then up to a space.
pub open spec fn plain_new_commands(c: CommandView) -> Seq<Seq<char>> {
    match c.output {
        Some(o) => if text::has_char(o, '`') && text::has_char(text::after_char(o, '`'), '`') {
            seq![
                "git help "@ + text::before_char(
                    text::before_char(text::after_char(text::after_char(o, '`'), '`'), '\''),
                    ' ',
                ),
            ]
        } else {
            Seq::<Seq<char>>::empty()
        },
        None => Seq::<Seq<char>>::empty(),
    }
}

/// The corrections of the command after git's alias expansion; none when it
/// does not run git.
pub open spec fn new_commands(c: CommandView) -> Seq<Seq<char>> {
    if git::is_git(c) {
        plain_new_commands(git::git_expanded(c))
    } else {
        Seq::<Seq<char>>::empty()
    }
}

fn auxiliary_match_rule(command: &CrabCommand) -> (r: bool)
    ensures
        r == plain_matches(command@),
{
    text::str_contains(command.script.as_str(), "help") && utils::output_contains(
        command,
        " is aliased to ",
    )
}

pub fn match_rule(command: &mut CrabCommand, system_shell: Option<&Shell>) -> (r: bool)
    ensures
        r == matches(old(command)@),
        *final(command) == *old(command),
{
    if !git::is_git_command(command) {
        return false;
    }
    let expanded = git::expand_git_alias(command);
    auxiliary_match_rule(&expanded)
}

fn auxiliary_get_new_command(command: &CrabCommand, system_shell: Option<&Shell>) -> (r: Vec<String>)
    ensures
        r.deep_view() == plain_new_commands(command@),
{
    match &command.output {
        Some(o) => {
            let first = text::str_after_char(o.as_str(), '`');
            if text::str_has_char(o.as_str(), '`') && text::str_has_char(first.as_str(), '`') {
                let rest = text::str_after_char(first.as_str(), '`');
                let quoted = text::str_before_char(rest.as_str(), '\'');
                let aliased = text::str_before_char(quoted.as_str(), ' ');
                let r = vec![text::concat("git help ", aliased.as_str())];
                assert(r.deep_view() =~= plain_new_commands(command@));
                r
            } else {
                Vec::new()
            }
        },
        None => Vec::new(),
    }
}

pub fn get_new_command(command: &mut CrabCommand, system_shell: Option<&Shell>) -> (r: Vec<String>)
    ensures
        r.deep_view() == new_commands(old(command)@),
        *final(command) == *old(command),
{
    if !git::is_git_command(command) {
        return Vec::new();
    }
    let expanded = git::expand_git_alias(command);
    proof {
        git::lemma_expanded_output(command@);
    }
    auxiliary_get_new_command(&expanded, system_shell)
}

pub fn get_rule() -> (r: Rule)
    ensures
        r.name@ == "git_help_aliased"@,
        r.kind == RuleKind::GitHelpAliased,
        r.enabled_by_default && r.priority == 1000 && r.requires_output,
        r.side_effect is None,
{
    Rule::new(text::owned("git_help_aliased"), None, None, None, RuleKind::GitHelpAliased, None)
}

} // verus!
