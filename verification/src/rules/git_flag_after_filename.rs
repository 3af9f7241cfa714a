//! A flag after a file name that git does not accept there: move the flag
//! before the file name.
use super::utils;
use super::utils::git;
use super::{Rule, RuleKind};
use crate::cli::command::{CommandView, CrabCommand};
use crate::pattern;
use crate::shell::Shell;
use crate::text;
use vstd::prelude::*;

verus! {

/// The error for a flag after a file name.
pub open spec fn bad_flag_pattern() -> Seq<char> {
    r"fatal: bad flag '(.*?)' used after filename"@
}

/// The error for an option after other arguments.
pub open spec fn early_option_pattern() -> Seq<char> {
    r"fatal: option '(.*?)' must come before non-option arguments"@
}

/// The groups of the first of the two errors that the output shows.
pub open spec fn flag_error(o: Seq<char>) -> Option<Seq<Option<Seq<char>>>> {
    match pattern::regex_captures(bad_flag_pattern(), o) {
        Some(g) => Some(g),
        None => pattern::regex_captures(early_option_pattern(), o),
    }
}

/// The position of the first `w` among `parts` (`parts.len()` when absent).
pub open spec fn word_index(parts: Seq<Seq<char>>, w: Seq<char>) -> int
    decreases parts.len(),
{
    if parts.len() == 0 {
        0
    } else if parts[0] == w {
        0
    } else {
        1 + word_index(parts.drop_first(), w)
    }
}

/// The position of the last word before position `i` that does not start
/// with `-`; -1 when there is none.
pub open spec fn last_non_flag_before(parts: Seq<Seq<char>>, i: int) -> int
    decreases i,
{
    if i <= 0 {
        -1
    } else if !text::starts_with(parts[i - 1], "-"@) {
        i - 1
    } else {
        last_non_flag_before(parts, i - 1)
    }
}

/// The words with `flag` (its first occurrence) swapped with the nearest
/// word before it that is not a flag.
pub open spec fn flag_moved(parts: Seq<Seq<char>>, flag: Seq<char>) -> Seq<Seq<char>> {
    let i = word_index(parts, flag);
    if i < parts.len() {
        let k = last_non_flag_before(parts, i);
        if k >= 0 {
            parts.update(i, parts[k]).update(k, parts[i])
        } else {
            parts
        }
    } else {
        parts
    }
}

fn word_index_exec(parts: &Vec<String>, w: &str) -> (r: usize)
    ensures
        r == word_index(parts.deep_view(), w@),
        r <= parts@.len(),
{
    let ghost all = parts.deep_view();
    let mut i: usize = 0;
    assert(all.skip(0) =~= all);
    while i < parts.len()
        invariant
            i <= parts.len(),
            all == parts.deep_view(),
            word_index(all, w@) == i + word_index(all.skip(i as int), w@),
        decreases parts.len() - i,
    {
        assert(all[i as int] == parts@[i as int]@);
        assert(all.skip(i as int)[0] == all[i as int]);
        if text::str_eq(parts[i].as_str(), w) {
            return i;
        }
        assert(all.skip(i as int).drop_first() =~= all.skip(i + 1));
        i = i + 1;
    }
    i
}

fn last_non_flag(parts: &Vec<String>, i: usize) -> (r: Option<usize>)
    requires
        i <= parts@.len(),
    ensures
        match r {
            Some(k) => k < i && k as int == last_non_flag_before(parts.deep_view(), i as int),
            None => last_non_flag_before(parts.deep_view(), i as int) == -1,
        },
{
    let ghost all = parts.deep_view();
    let mut j: usize = i;
    while j > 0
        invariant
            j <= i <= parts@.len(),
            all == parts.deep_view(),
            last_non_flag_before(all, i as int) == last_non_flag_before(all, j as int),
        decreases j,
    {
        assert(all[j - 1] == parts@[j - 1]@);
        if !text::str_starts_with(parts[j - 1].as_str(), "-") {
            return Some(j - 1);
        }
        j = j - 1;
    }
    None
}

/// The output says that a flag came after a file name.
pub open spec fn plain_matches(c: CommandView) -> bool {
    c.output matches Some(o) && flag_error(o) is Some
}

/// The command runs git, and `plain_matches` holds of it after git's alias
/// expansion.
pub open spec fn matches(c: CommandView) -> bool {
    git::is_git(c) && plain_matches(git::git_expanded(c))
}

/// The words of the command, the flag that the output names swapped with the
/// nearest word before it that is not a flag, joined by spaces.
pub open spec fn plain_new_commands(c: CommandView) -> Seq<Seq<char>> {
    commands_from(
        c.script,
        match c.output {
            Some(o) => flag_error(o),
            None => None,
        },
    )
}

/// From the groups of the error's match: the words of `script`, the flag
/// (group 1) swapped with the nearest word before it that is not a flag,
/// joined by spaces; the words unchanged without the group.
pub open spec fn commands_from(script: Seq<char>, g: Option<Seq<Option<Seq<char>>>>) -> Seq<Seq<char>> {
    seq![
        text::join(
            match g {
                Some(g) => if g.len() > 1 && g[1] is Some {
                    flag_moved(text::words(script), g[1]->0)
                } else {
                    text::words(script)
                },
                None => text::words(script),
            },
            " "@,
        ),
    ]
}

/// The corrections of the command after git's alias expansion; none when it
/// does not run git.
pub open spec fn new_commands(c: CommandView) -> Seq<Seq<char>> {
    if git::is_git(c) {
        plain_new_commands(git::git_expanded(c))
    } else {
        Seq::<Seq<char>>::empty()
    }
}

fn auxiliary_match_rule(command: &CrabCommand) -> (r: bool)
    ensures
        r == plain_matches(command@),
{
    match &command.output {
        Some(o) => match pattern::captures(r"fatal: bad flag '(.*?)' used after filename", o.as_str()) {
            Some(_) => true,
            None => pattern::captures(r"fatal: option '(.*?)' must come before non-option arguments", o.as_str()).is_some(),
        },
        None => false,
    }
}

pub fn match_rule(command: &mut CrabCommand, system_shell: Option<&Shell>) -> (r: bool)
    ensures
        r == matches(old(command)@),
        *final(command) == *old(command),
{
    if !git::is_git_command(command) {
        return false;
    }
    let expanded = git::expand_git_alias(command);
    auxiliary_match_rule(&expanded)
}

fn auxiliary_get_new_command(command: &CrabCommand, system_shell: Option<&Shell>) -> (r: Vec<String>)
    ensures
        r.deep_view() == plain_new_commands(command@),
{
    let caps = match &command.output {
        Some(o) => match pattern::captures(r"fatal: bad flag '(.*?)' used after filename", o.as_str()) {
            Some(g) => Some(g),
            None => pattern::captures(r"fatal: option '(.*?)' must come before non-option arguments", o.as_str()),
        },
        None => None,
    };
    commands_from_groups(command.script.as_str(), &caps)
}

/// The corrections that the groups of the error's match give.
pub fn commands_from_groups(script: &str, caps: &Option<Vec<Option<String>>>) -> (r: Vec<String>)
    ensures
        r.deep_view() == commands_from(script@, caps.deep_view()),
{
    let mut parts = text::str_words(script);
    let ghost words = parts.deep_view();
    let ghost moved = match caps.deep_view() {
        Some(g) => if g.len() > 1 && g[1] is Some {
            flag_moved(words, g[1]->0)
        } else {
            words
        },
        None => words,
    };
    if let Some(g) = caps {
        if g.len() > 1 {
            assert(g.deep_view()[1] == g@[1].deep_view());
            if let Some(flag) = &g[1] {
                let i = word_index_exec(&parts, flag.as_str());
                if i < parts.len() {
                    if let Some(k) = last_non_flag(&parts, i) {
                        let a = text::owned(parts[i].as_str());
                        let b = text::owned(parts[k].as_str());
                        assert(words[i as int] == parts@[i as int]@);
                        assert(words[k as int] == parts@[k as int]@);
                        let ghost before = parts.deep_view();
                        parts.set(i, b);
                        assert(parts.deep_view() =~= before.update(i as int, b@));
                        let ghost middle = parts.deep_view();
                        parts.set(k, a);
                        assert(parts.deep_view() =~= middle.update(k as int, a@));
                    }
                }
            }
        }
    }
    assert(parts.deep_view() =~= moved);
    let r = vec![text::str_join(&parts, " ")];
    assert(r.deep_view() =~= commands_from(script@, caps.deep_view()));
    r
}

pub fn get_new_command(command: &mut CrabCommand, system_shell: Option<&Shell>) -> (r: Vec<String>)
    ensures
        r.deep_view() == new_commands(old(command)@),
        *final(command) == *old(command),
{
    if !git::is_git_command(command) {
        return Vec::new();
    }
    let expanded = git::expand_git_alias(command);
    proof {
        git::lemma_expanded_output(command@);
    }
    auxiliary_get_new_command(&expanded, system_shell)
}

pub fn get_rule() -> (r: Rule)
    ensures
        r.name@ == "git_flag_after_filename"@,
        r.kind == RuleKind::GitFlagAfterFilename,
        r.enabled_by_default && r.priority == 1000 && r.requires_output,
        r.side_effect is None,
{
    Rule::new(text::owned("git_flag_after_filename"), None, None, None, RuleKind::GitFlagAfterFilename, None)
}

} // verus!
