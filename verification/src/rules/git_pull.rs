//! `git pull` without tracking information: set the upstream, then pull.
use super::utils;
use super::utils::git;
use super::{Rule, RuleKind};
use crate::cli::command::{CommandView, CrabCommand};
use crate::shell::Shell;
use crate::text;
use vstd::prelude::*;

verus! {

/// The command holds `pull` and the output mentions `set-upstream`.
pub open spec fn plain_matches(c: CommandView) -> bool {
    text::contains(c.script, "pull"@) && utils::output_has(c, "set-upstream"@)
}

/// The command runs git, and `plain_matches` holds of it after git's alias
/// expansion.
pub open spec fn matches(c: CommandView) -> bool {
    git::is_git(c) && plain_matches(git::git_expanded(c))
}

/// The command that the output suggests (its third line from the end,
/// trimmed, with `<remote>` read as `origin` and `<branch>` as its last word),
/// then the command.
pub open spec fn plain_new_commands(c: CommandView, sh: Shell) -> Seq<Seq<char>> {
    match c.output {
        Some(o) => {
            let line = text::trim(text::lines(o)[text::lines(o).len() - 3]);
            let ws = text::words(line);
            let branch = if ws.len() > 0 {
                ws.last()
            } else {
                Seq::<char>::empty()
            };
            let set_upstream = text::replace_all(
                text::replace_all(line, "<remote>"@, "origin"@),
                "<branch>"@,
                branch,
            );
            seq![crate::shell::and_spec(sh, seq![set_upstream, c.script])]
        },
        None => Seq::<Seq<char>>::empty(),
    }
}

/// The corrections of the command after git's alias expansion; none when it
/// does not run git.
pub open spec fn new_commands(c: CommandView, sh: Shell) -> Seq<Seq<char>> {
    if git::is_git(c) {
        plain_new_commands(git::git_expanded(c), sh)
    } else {
        Seq::<Seq<char>>::empty()
    }
}

fn auxiliary_match_rule(command: &CrabCommand) -> (r: bool)
    ensures
        r == plain_matches(command@),
{
    text::str_contains(command.script.as_str(), "pull") && utils::output_contains(
        command,
        "set-upstream",
    )
}

pub fn match_rule(command: &mut CrabCommand, system_shell: Option<&Shell>) -> (r: bool)
    ensures
        r == matches(old(command)@),
        *final(command) == *old(command),
{
    if !git::is_git_command(command) {
        return false;
    }
    let expanded = git::expand_git_alias(command);
    auxiliary_match_rule(&expanded)
}

fn auxiliary_get_new_command(command: &CrabCommand, system_shell: Option<&Shell>) -> (r: Vec<String>)
    requires
        system_shell is Some || command@.output is None,
        command@.output matches Some(o) ==> text::lines(o).len() >= 3,
    ensures
        r.deep_view() == plain_new_commands(command@, *system_shell.unwrap()),
{
    match &command.output {
        Some(o) => {
            let ls = text::str_lines(o.as_str());
            let n = ls.len();
            assert(ls.deep_view()[n - 3] == ls@[n - 3]@);
            let line = text::str_trim(ls[n - 3].as_str());
            let ws = text::str_words(line.as_str());
            proof {
                reveal_strlit("");
            }
            let branch = if ws.len() > 0 {
                assert(ws.deep_view()[ws.len() - 1] == ws@[ws.len() - 1]@);
                text::owned(ws[ws.len() - 1].as_str())
            } else {
                text::owned("")
            };
            let with_remote = text::str_replace(line.as_str(), "<remote>", "origin");
            let set_upstream = text::str_replace(with_remote.as_str(), "<branch>", branch.as_str());
            let cmds = vec![set_upstream.as_str(), command.script.as_str()];
            assert(cmds.deep_view() =~= seq![set_upstream@, command@.script]);
            assert(line@ == text::trim(text::lines(o@)[text::lines(o@).len() - 3]));
            assert(branch@ == (if ws.deep_view().len() > 0 {
                ws.deep_view().last()
            } else {
                Seq::<char>::empty()
            }));
            let r = vec![system_shell.unwrap().and(cmds)];
            assert(r.deep_view() =~= plain_new_commands(command@, *system_shell.unwrap()));
            r
        },
        None => Vec::new(),
    }
}

pub fn get_new_command(command: &mut CrabCommand, system_shell: Option<&Shell>) -> (r: Vec<String>)
    requires
        system_shell is Some || old(command)@.output is None,
        old(command)@.output matches Some(o) ==> text::lines(o).len() >= 3,
    ensures
        r.deep_view() == new_commands(old(command)@, *system_shell.unwrap()),
        *final(command) == *old(command),
{
    if !git::is_git_command(command) {
        return Vec::new();
    }
    let expanded = git::expand_git_alias(command);
    proof {
        git::lemma_expanded_output(command@);
    }
    auxiliary_get_new_command(&expanded, system_shell)
}

pub fn get_rule() -> (r: Rule)
    ensures
        r.name@ == "git_pull"@,
        r.kind == RuleKind::GitPull,
        r.enabled_by_default && r.priority == 1000 && r.requires_output,
        r.side_effect is None,
{
    Rule::new(text::owned("git_pull"), None, None, None, RuleKind::GitPull, None)
}

} // verus!
