//! `git diff` of two files outside a repository: add `--no-index`.
use super::utils;
use super::utils::git;
use super::{Rule, RuleKind};
use crate::cli::command::{CommandView, CrabCommand};
use crate::shell::Shell;
use crate::text;
use vstd::prelude::*;

verus! {

/// How many of `words` do not start with `-`.
pub open spec fn non_flag_count(words: Seq<Seq<char>>) -> nat
    decreases words.len(),
{
    if words.len() == 0 {
        0
    } else {
        non_flag_count(words.drop_last()) + if text::starts_with(words.last(), "-"@) {
            0nat
        } else {
            1nat
        }
    }
}

/// There are more than two words, the command holds `diff` but not
/// `--no-index`, and exactly two of the words after the second are not flags.
pub open spec fn plain_matches(c: CommandView) -> bool {
    c.parts.len() > 2 && text::contains(c.script, "diff"@) && !text::contains(
        c.script,
        "--no-index"@,
    ) && non_flag_count(c.parts.skip(2)) == 2
}

/// A word that is not a flag: it does not start with `-`.
pub open spec fn is_operand(w: Seq<char>) -> bool {
    !text::starts_with(w, "-"@)
}

/// Counting `non_flag_count` is counting the operands.
proof fn lemma_count_is_operands(words: Seq<Seq<char>>)
    ensures
        non_flag_count(words) == words.filter(|w: Seq<char>| is_operand(w)).len(),
    decreases words.len(),
{
    reveal(Seq::filter);
    if words.len() > 0 {
        lemma_count_is_operands(words.drop_last());
    }
}

/// The rule matches a command of more than two words that holds `diff` but
/// not `--no-index` exactly when, among the words after the second, two are
/// operands; flags there, however many, do not count.
pub proof fn lemma_matches_two_operands(c: CommandView)
    ensures
        plain_matches(c) == (c.parts.len() > 2 && text::contains(c.script, "diff"@)
            && !text::contains(c.script, "--no-index"@) && c.parts.skip(2).filter(
            |w: Seq<char>| is_operand(w),
        ).len() == 2),
{
    lemma_count_is_operands(c.parts.skip(2));
}

/// The command runs git, and `plain_matches` holds of it after git's alias
/// expansion.
pub open spec fn matches(c: CommandView) -> bool {
    git::is_git(c) && plain_matches(git::git_expanded(c))
}

/// The argument `diff` replaced by `diff --no-index`.
pub open spec fn plain_new_commands(c: CommandView) -> Seq<Seq<char>> {
    seq![crate::utils::replace_argument_spec(c.script, "diff"@, "diff --no-index"@)]
}

/// The corrections of the command after git's alias expansion; none when it
/// does not run git.
pub open spec fn new_commands(c: CommandView) -> Seq<Seq<char>> {
    if git::is_git(c) {
        plain_new_commands(git::git_expanded(c))
    } else {
        Seq::<Seq<char>>::empty()
    }
}

fn auxiliary_match_rule(command: &CrabCommand) -> (r: bool)
    ensures
        r == plain_matches(command@),
{
    if command.script_parts.len() <= 2 {
        return false;
    }
    let ghost words = command@.parts.skip(2);
    let mut count: usize = 0;
    let mut i: usize = 2;
    while i < command.script_parts.len()
        invariant
            2 <= i <= command.script_parts.len(),
            words == command@.parts.skip(2),
            command@.parts == command.script_parts.deep_view(),
            count == non_flag_count(words.take(i - 2)),
            count <= i,
        decreases command.script_parts.len() - i,
    {
        assert(words.take(i - 1).drop_last() =~= words.take(i - 2));
        assert(words.take(i - 1).last() == command.script_parts.deep_view()[i as int]);
        assert(command.script_parts.deep_view()[i as int] == command.script_parts@[i as int]@);
        if !text::str_starts_with(command.script_parts[i].as_str(), "-") {
            count = count + 1;
        }
        i = i + 1;
    }
    assert(words.take(i - 2) =~= words);
    count == 2 && text::str_contains(command.script.as_str(), "diff") && !text::str_contains(
        command.script.as_str(),
        "--no-index",
    )
}

pub fn match_rule(command: &mut CrabCommand, system_shell: Option<&Shell>) -> (r: bool)
    ensures
        r == matches(old(command)@),
        *final(command) == *old(command),
{
    if !git::is_git_command(command) {
        return false;
    }
    let expanded = git::expand_git_alias(command);
    auxiliary_match_rule(&expanded)
}

fn auxiliary_get_new_command(command: &CrabCommand, system_shell: Option<&Shell>) -> (r: Vec<String>)
    ensures
        r.deep_view() == plain_new_commands(command@),
{
    let r = vec![crate::utils::replace_argument(command.script.as_str(), "diff", "diff --no-index")];
    assert(r.deep_view() =~= plain_new_commands(command@));
    r
}

pub fn get_new_command(command: &mut CrabCommand, system_shell: Option<&Shell>) -> (r: Vec<String>)
    ensures
        r.deep_view() == new_commands(old(command)@),
        *final(command) == *old(command),
{
    if !git::is_git_command(command) {
        return Vec::new();
    }
    let expanded = git::expand_git_alias(command);
    proof {
        git::lemma_expanded_output(command@);
    }
    auxiliary_get_new_command(&expanded, system_shell)
}

pub fn get_rule() -> (r: Rule)
    ensures
        r.name@ == "git_diff_no_index"@,
        r.kind == RuleKind::GitDiffNoIndex,
        r.enabled_by_default && r.priority == 1000 && r.requires_output,
        r.side_effect is None,
{
    Rule::new(text::owned("git_diff_no_index"), None, None, None, RuleKind::GitDiffNoIndex, None)
}

} // verus!
