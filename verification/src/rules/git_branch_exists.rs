//! Creating a branch that already exists: delete it first, or check it out.
use super::utils;
use super::utils::git;
use super::{Rule, RuleKind};
use crate::cli::command::{CommandView, CrabCommand};
use crate::pattern;
use crate::shell::Shell;
use crate::text;
use vstd::prelude::*;

verus! {

/// The pattern that names the branch.
pub open spec fn branch_pattern() -> Seq<char> {
    r"fatal: A branch named '(.+)' already exists."@
}

/// The output names the branch that already exists.
pub open spec fn names_branch(c: CommandView) -> bool {
    c.output matches Some(o) && pattern::regex_captures(branch_pattern(), o) is Some
}

/// A command and the branch, separated by a space.
pub open spec fn with_branch(prefix: Seq<char>, branch: Seq<char>) -> Seq<char> {
    prefix + " "@ + branch
}

fn branch_command(prefix: &str, branch: &str) -> (r: String)
    ensures
        r@ == with_branch(prefix@, branch@),
{
    let spaced = text::concat(prefix, " ");
    text::concat(spaced.as_str(), branch)
}

/// The output says that a branch of that name already exists.
pub open spec fn plain_matches(c: CommandView) -> bool {
    utils::output_has(c, "fatal: A branch named '"@) && utils::output_has(
        c,
        "' already exists."@,
    )
}

/// The command runs git, and `plain_matches` holds of it after git's alias
/// expansion.
pub open spec fn matches(c: CommandView) -> bool {
    git::is_git(c) && plain_matches(git::git_expanded(c))
}

/// With the branch named in the output (its quotes escaped): delete it with
/// `-d` or `-D`, then create it with `git branch` or `git checkout -b`; or
/// check it out.
pub open spec fn plain_new_commands(c: CommandView, sh: Shell) -> Seq<Seq<char>> {
    match c.output {
        Some(o) => commands_from(sh, pattern::regex_captures(branch_pattern(), o)),
        None => Seq::<Seq<char>>::empty(),
    }
}

/// The corrections that the groups of the pattern's match give, for the
/// branch of group 1 (its quotes escaped); none without a match.
pub open spec fn commands_from(sh: Shell, g: Option<Seq<Option<Seq<char>>>>) -> Seq<Seq<char>> {
    match g {
            Some(g) => {
                let b = text::replace_all(pattern::group_text(g, 1), "'"@, "\\'"@);
                seq![
                    crate::shell::and_spec(sh, seq![with_branch("git branch -d"@, b), with_branch("git branch"@, b)]),
                    crate::shell::and_spec(
                        sh,
                        seq![with_branch("git branch -d"@, b), with_branch("git checkout -b"@, b)],
                    ),
                    crate::shell::and_spec(sh, seq![with_branch("git branch -D"@, b), with_branch("git branch"@, b)]),
                    crate::shell::and_spec(
                        sh,
                        seq![with_branch("git branch -D"@, b), with_branch("git checkout -b"@, b)],
                    ),
                    crate::shell::and_spec(sh, seq![with_branch("git checkout"@, b)]),
                ]
            },
            None => Seq::<Seq<char>>::empty(),
    }
}

/// The corrections of the command after git's alias expansion; none when it
/// does not run git.
pub open spec fn new_commands(c: CommandView, sh: Shell) -> Seq<Seq<char>> {
    if git::is_git(c) {
        plain_new_commands(git::git_expanded(c), sh)
    } else {
        Seq::<Seq<char>>::empty()
    }
}

fn auxiliary_match_rule(command: &CrabCommand) -> (r: bool)
    ensures
        r == plain_matches(command@),
{
    utils::output_contains(command, "fatal: A branch named '") && utils::output_contains(
        command,
        "' already exists.",
    )
}

pub fn match_rule(command: &mut CrabCommand, system_shell: Option<&Shell>) -> (r: bool)
    ensures
        r == matches(old(command)@),
        *final(command) == *old(command),
{
    if !git::is_git_command(command) {
        return false;
    }
    let expanded = git::expand_git_alias(command);
    auxiliary_match_rule(&expanded)
}

fn auxiliary_get_new_command(command: &CrabCommand, system_shell: Option<&Shell>) -> (r: Vec<String>)
    requires
        system_shell is Some || !names_branch(command@),
    ensures
        r.deep_view() == plain_new_commands(command@, *system_shell.unwrap()),
{
    match &command.output {
        Some(o) => {
            let g = pattern::captures(r"fatal: A branch named '(.+)' already exists.", o.as_str());
            if g.is_none() {
                return Vec::new();
            }
            commands_from_groups(system_shell.unwrap(), &g)
        },
        None => Vec::new(),
    }
}

/// The corrections that the groups of the pattern's match give.
pub fn commands_from_groups(sh: &Shell, groups: &Option<Vec<Option<String>>>) -> (r: Vec<String>)
    ensures
        r.deep_view() == commands_from(*sh, groups.deep_view()),
{
    match groups {
        Some(g) => {
        let name = pattern::group_or_empty(g, 1);
        let b = text::str_replace(name.as_str(), "'", "\\'");
                let delete_lower = branch_command("git branch -d", b.as_str());
        let delete_upper = branch_command("git branch -D", b.as_str());
        let create = branch_command("git branch", b.as_str());
        let checkout_new = branch_command("git checkout -b", b.as_str());
        let checkout = branch_command("git checkout", b.as_str());
        let v1 = vec![delete_lower.as_str(), create.as_str()];
        assert(v1.deep_view() =~= seq![delete_lower@, create@]);
        let first = sh.and(v1);
        let v2 = vec![delete_lower.as_str(), checkout_new.as_str()];
        assert(v2.deep_view() =~= seq![delete_lower@, checkout_new@]);
        let second = sh.and(v2);
        let v3 = vec![delete_upper.as_str(), create.as_str()];
        assert(v3.deep_view() =~= seq![delete_upper@, create@]);
        let third = sh.and(v3);
        let v4 = vec![delete_upper.as_str(), checkout_new.as_str()];
        assert(v4.deep_view() =~= seq![delete_upper@, checkout_new@]);
        let fourth = sh.and(v4);
        let v5 = vec![checkout.as_str()];
        assert(v5.deep_view() =~= seq![checkout@]);
        let fifth = sh.and(v5);
        let r = vec![first, second, third, fourth, fifth];
        assert(r.deep_view() =~= commands_from(*sh, groups.deep_view()));
            r
        },
        None => Vec::new(),
    }
}

pub fn get_new_command(command: &mut CrabCommand, system_shell: Option<&Shell>) -> (r: Vec<String>)
    requires
        system_shell is Some || !names_branch(old(command)@),
    ensures
        r.deep_view() == new_commands(old(command)@, *system_shell.unwrap()),
        *final(command) == *old(command),
{
    if !git::is_git_command(command) {
        return Vec::new();
    }
    let expanded = git::expand_git_alias(command);
    proof {
        git::lemma_expanded_output(command@);
    }
    auxiliary_get_new_command(&expanded, system_shell)
}

pub fn get_rule() -> (r: Rule)
    ensures
        r.name@ == "git_branch_exists"@,
        r.kind == RuleKind::GitBranchExists,
        r.enabled_by_default && r.priority == 1000 && r.requires_output,
        r.side_effect is None,
{
    Rule::new(text::owned("git_branch_exists"), None, None, None, RuleKind::GitBranchExists, None)
}

} // verus!
