//! A mistyped `git stash` subcommand: the closest subcommand, or `save`.
use super::utils;
use super::utils::git;
use super::{Rule, RuleKind};
use crate::cli::command::{CommandView, CrabCommand};
use crate::shell::Shell;
use crate::text;
use vstd::prelude::*;

verus! {

/// The subcommands of `git stash`.
pub open spec fn stash_commands() -> Seq<Seq<char>> {
    seq!["apply"@, "branch"@, "clear"@, "drop"@, "list"@, "pop"@, "save"@, "show"@]
}

/// The second word is `stash` and the output shows a usage.
pub open spec fn plain_matches(c: CommandView) -> bool {
    c.parts.len() > 1 && c.parts[1] == "stash"@ && utils::output_has(c, "usage:"@)
}

/// The command runs git, and `plain_matches` holds of it after git's alias
/// expansion.
pub open spec fn matches(c: CommandView) -> bool {
    git::is_git(c) && plain_matches(git::git_expanded(c))
}

/// When there is a third word: that word replaced by the closest stash
/// subcommand, or, when none is close, `save` inserted before it.
pub open spec fn plain_new_commands(c: CommandView) -> Seq<Seq<char>> {
    if c.parts.len() > 2 {
        match crate::utils::closest(c.parts[2], stash_commands(), 60, false) {
            Some(f) => seq![crate::utils::replace_argument_spec(c.script, c.parts[2], f)],
            None => seq![text::join(c.parts.insert(2, "save"@), " "@)],
        }
    } else {
        Seq::<Seq<char>>::empty()
    }
}

/// A third word that already is a stash subcommand (`apply`, `branch`,
/// `clear`, `drop`, `list`, `pop`, `save` or `show`) is the closest one to
/// itself, so the correction is the command as it stands.
pub proof fn lemma_subcommand_kept(c: CommandView)
    requires
        c.parts.len() > 2,
        c.parts[2] == "apply"@ || c.parts[2] == "branch"@ || c.parts[2] == "clear"@ || c.parts[2]
            == "drop"@ || c.parts[2] == "list"@ || c.parts[2] == "pop"@ || c.parts[2] == "save"@
            || c.parts[2] == "show"@,
    ensures
        plain_new_commands(c) == seq![c.script],
{
    let w = c.parts[2];
    let l = stash_commands();
    assert(l.contains(w)) by {
        if w == "apply"@ {
            assert(l[0] == w);
        } else if w == "branch"@ {
            assert(l[1] == w);
        } else if w == "clear"@ {
            assert(l[2] == w);
        } else if w == "drop"@ {
            assert(l[3] == w);
        } else if w == "list"@ {
            assert(l[4] == w);
        } else if w == "pop"@ {
            assert(l[5] == w);
        } else if w == "save"@ {
            assert(l[6] == w);
        } else {
            assert(l[7] == w);
        }
    }
    crate::utils::lemma_exact_match_closest(w, l, 60, false);
    crate::utils::lemma_replace_argument_same(c.script, w);
}

/// The corrections of the command after git's alias expansion; none when it
/// does not run git.
pub open spec fn new_commands(c: CommandView) -> Seq<Seq<char>> {
    if git::is_git(c) {
        plain_new_commands(git::git_expanded(c))
    } else {
        Seq::<Seq<char>>::empty()
    }
}

fn auxiliary_match_rule(command: &CrabCommand) -> (r: bool)
    ensures
        r == plain_matches(command@),
{
    command.script_parts.len() > 1 && text::str_eq(command.script_parts[1].as_str(), "stash")
        && utils::output_contains(command, "usage:")
}

pub fn match_rule(command: &mut CrabCommand, system_shell: Option<&Shell>) -> (r: bool)
    ensures
        r == matches(old(command)@),
        *final(command) == *old(command),
{
    if !git::is_git_command(command) {
        return false;
    }
    let expanded = git::expand_git_alias(command);
    auxiliary_match_rule(&expanded)
}

fn auxiliary_get_new_command(command: &CrabCommand, system_shell: Option<&Shell>) -> (r: Vec<String>)
    ensures
        r.deep_view() == plain_new_commands(command@),
{
    if command.script_parts.len() > 2 {
        let subcommands = vec!["apply", "branch", "clear", "drop", "list", "pop", "save", "show"];
        assert(subcommands.deep_view() =~= stash_commands());
        let stash_cmd = command.script_parts[2].as_str();
        assert(command.script_parts.deep_view()[2] == command.script_parts@[2]@);
        let fixed = crate::utils::get_closest(stash_cmd, &subcommands, None, false);
        let r = match fixed {
            Some(f) => vec![crate::utils::replace_argument(command.script.as_str(), stash_cmd, f)],
            None => {
                let mut cmd = utils::copy_strings(&command.script_parts);
                cmd.insert(2, text::owned("save"));
                assert(cmd.deep_view() =~= command@.parts.insert(2, "save"@));
                vec![text::str_join(&cmd, " ")]
            },
        };
        assert(r.deep_view() =~= plain_new_commands(command@));
        r
    } else {
        Vec::new()
    }
}

pub fn get_new_command(command: &mut CrabCommand, system_shell: Option<&Shell>) -> (r: Vec<String>)
    ensures
        r.deep_view() == new_commands(old(command)@),
        *final(command) == *old(command),
{
    if !git::is_git_command(command) {
        return Vec::new();
    }
    let expanded = git::expand_git_alias(command);
    proof {
        git::lemma_expanded_output(command@);
    }
    auxiliary_get_new_command(&expanded, system_shell)
}

pub fn get_rule() -> (r: Rule)
    ensures
        r.name@ == "git_fix_stash"@,
        r.kind == RuleKind::GitFixStash,
        r.enabled_by_default && r.priority == 1000 && r.requires_output,
        r.side_effect is None,
{
    Rule::new(text::owned("git_fix_stash"), None, None, None, RuleKind::GitFixStash, None)
}

} // verus!
