//! `git branch 0d` where `-d` was meant: the flag with its `0` read as `-`.
use super::utils;
use super::utils::git;
use super::{Rule, RuleKind};
use crate::cli::command::{CommandView, CrabCommand};
use crate::shell::Shell;
use crate::text;
use vstd::prelude::*;

verus! {

/// A `0` flag: two bytes, the first of them `0`.
pub open spec fn is_0flag(p: Seq<char>) -> bool {
    text::byte_len(p) == 2 && text::starts_with(p, "0"@)
}

/// The first word that is a `0` flag.
pub open spec fn first_0flag(parts: Seq<Seq<char>>) -> Option<Seq<char>>
    decreases parts.len(),
{
    if parts.len() == 0 {
        None
    } else if is_0flag(parts[0]) {
        Some(parts[0])
    } else {
        first_0flag(parts.drop_first())
    }
}

proof fn lemma_byte_len_at_least(s: Seq<char>)
    ensures
        text::byte_len(s) >= s.len(),
    decreases s.len(),
{
    if s.len() > 0 {
        lemma_byte_len_at_least(s.drop_last());
    }
}

fn is_0flag_exec(p: &str) -> (r: bool)
    ensures
        r == is_0flag(p@),
{
    let v = text::chars_of(p);
    proof {
        reveal_strlit("0");
        lemma_byte_len_at_least(p@);
        if p@.len() >= 1 {
            assert(p@.take(1).drop_last() =~= Seq::<char>::empty());
        }
        if p@.len() == 2 {
            let a = p@.drop_last();
            assert(a.drop_last() =~= Seq::<char>::empty());
            assert(text::byte_len(a.drop_last()) == 0);
            assert(text::byte_len(a) == text::char_width(a.last()));
            assert(a.last() == p@[0]);
            assert(text::byte_len(p@) == text::char_width(p@[0]) + text::char_width(p@[1]));
        }
        if p@.len() == 1 {
            assert(p@.drop_last() =~= Seq::<char>::empty());
            assert(text::byte_len(p@.drop_last()) == 0);
            assert(text::byte_len(p@) == text::char_width(p@[0]));
        }
    }
    if v.len() != 2 {
        proof {
            if p@.len() >= 1 && text::starts_with(p@, "0"@) {
                assert(p@.take(1)[0] == '0');
            }
        }
        return false;
    }
    let r = v[0] == '0' && (v[1] as u32) < 0x80;
    proof {
        if text::starts_with(p@, "0"@) {
            assert(p@.take(1)[0] == p@[0]);
        }
        if v[0] == '0' {
            assert(p@.take(1) =~= "0"@);
        }
    }
    r
}

/// The position of the first `0` flag among the words.
fn first_0flag_index(parts: &Vec<String>) -> (r: Option<usize>)
    ensures
        match r {
            Some(i) => i < parts@.len() && first_0flag(parts.deep_view()) == Some(
                parts.deep_view()[i as int],
            ),
            None => first_0flag(parts.deep_view()) is None,
        },
{
    let ghost all = parts.deep_view();
    let mut i: usize = 0;
    assert(all.skip(0) =~= all);
    while i < parts.len()
        invariant
            i <= parts.len(),
            all == parts.deep_view(),
            first_0flag(all) == first_0flag(all.skip(i as int)),
        decreases parts.len() - i,
    {
        assert(all[i as int] == parts@[i as int]@);
        assert(all.skip(i as int)[0] == all[i as int]);
        if is_0flag_exec(parts[i].as_str()) {
            return Some(i);
        }
        assert(all.skip(i as int).drop_first() =~= all.skip(i + 1));
        i = i + 1;
    }
    None
}

/// The second word is `branch` and some word is a `0` flag.
pub open spec fn plain_matches(c: CommandView) -> bool {
    c.parts.len() > 1 && c.parts[1] == "branch"@ && first_0flag(c.parts) is Some
}

/// The command runs git, and `plain_matches` holds of it after git's alias
/// expansion.
pub open spec fn matches(c: CommandView) -> bool {
    git::is_git(c) && plain_matches(git::git_expanded(c))
}

/// Every occurrence of the first `0` flag replaced by the flag with `-` for
/// `0`; when the output says that the branch already exists, deleting the
/// branch named like the flag comes first.
pub open spec fn plain_new_commands(c: CommandView) -> Seq<Seq<char>> {
    match first_0flag(c.parts) {
        Some(flag) => {
            let fixed_script = text::replace_all(c.script, flag, text::replace_all(flag, "0"@, "-"@));
            if utils::output_has(c, "A branch named '"@) && utils::output_has(
                c,
                "' already exists."@,
            ) {
                seq!["git branch -D "@ + flag, fixed_script]
            } else {
                seq![fixed_script]
            }
        },
        None => Seq::<Seq<char>>::empty(),
    }
}

/// The corrections of the command after git's alias expansion; none when it
/// does not run git.
pub open spec fn new_commands(c: CommandView) -> Seq<Seq<char>> {
    if git::is_git(c) {
        plain_new_commands(git::git_expanded(c))
    } else {
        Seq::<Seq<char>>::empty()
    }
}

fn auxiliary_match_rule(command: &CrabCommand) -> (r: bool)
    ensures
        r == plain_matches(command@),
{
    command.script_parts.len() > 1 && text::str_eq(command.script_parts[1].as_str(), "branch")
        && first_0flag_index(&command.script_parts).is_some()
}

pub fn match_rule(command: &mut CrabCommand, system_shell: Option<&Shell>) -> (r: bool)
    ensures
        r == matches(old(command)@),
        *final(command) == *old(command),
{
    if !git::is_git_command(command) {
        return false;
    }
    let expanded = git::expand_git_alias(command);
    auxiliary_match_rule(&expanded)
}

fn auxiliary_get_new_command(command: &CrabCommand, system_shell: Option<&Shell>) -> (r: Vec<String>)
    ensures
        r.deep_view() == plain_new_commands(command@),
{
    match first_0flag_index(&command.script_parts) {
        Some(i) => {
            assert(command.script_parts.deep_view()[i as int] == command.script_parts@[i as int]@);
            let flag = command.script_parts[i].as_str();
            let fixed_flag = text::str_replace(flag, "0", "-");
            let fixed_script = text::str_replace(command.script.as_str(), flag, fixed_flag.as_str());
            let r = if utils::output_contains(command, "A branch named '") && utils::output_contains(
                command,
                "' already exists.",
            ) {
                vec![text::concat("git branch -D ", flag), fixed_script]
            } else {
                vec![fixed_script]
            };
            assert(r.deep_view() =~= plain_new_commands(command@));
            r
        },
        None => Vec::new(),
    }
}

pub fn get_new_command(command: &mut CrabCommand, system_shell: Option<&Shell>) -> (r: Vec<String>)
    ensures
        r.deep_view() == new_commands(old(command)@),
        *final(command) == *old(command),
{
    if !git::is_git_command(command) {
        return Vec::new();
    }
    let expanded = git::expand_git_alias(command);
    proof {
        git::lemma_expanded_output(command@);
    }
    auxiliary_get_new_command(&expanded, system_shell)
}

pub fn get_rule() -> (r: Rule)
    ensures
        r.name@ == "git_branch_0flag"@,
        r.kind == RuleKind::GitBranch0flag,
        r.enabled_by_default && r.priority == 1000 && r.requires_output,
        r.side_effect is None,
{
    Rule::new(text::owned("git_branch_0flag"), None, None, None, RuleKind::GitBranch0flag, None)
}

} // verus!
