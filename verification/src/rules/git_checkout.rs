//! A pathspec that git does not know: switch to the closest branch, or create
//! the branch.
//!
//! The branches come from `git branch -a`, which the program around the
//! library runs; its listing is handed to `get_new_command_given`.
use super::utils;
use super::utils::git;
use super::{Rule, RuleKind};
use crate::cli::command::{CommandView, CrabCommand};
use crate::pattern;
use crate::shell::Shell;
use crate::text;
use vstd::prelude::*;

verus! {

/// The error that names the pathspec that git does not know.
pub open spec fn checkout_pattern() -> Seq<char> {
    r"error: pathspec '([^']*)' did not match any file\(s\) known to git"@
}

/// The output says that a pathspec matched no file that git knows, and does
/// not ask whether a file was forgotten.
pub open spec fn plain_matches(c: CommandView) -> bool {
    utils::output_has(c, "did not match any file(s) known to git"@) && !utils::output_has(
        c,
        "Did you forget to 'git add'?"@,
    )
}

/// The command runs git, and `plain_matches` holds of it after git's alias
/// expansion.
pub open spec fn matches(c: CommandView) -> bool {
    git::is_git(c) && plain_matches(git::git_expanded(c))
}

/// A line of the listing that starts with `*` names its branch as a second
/// word (lines that show where a remote's HEAD points aside).
pub open spec fn listing_ok(listing: Seq<char>) -> bool {
    forall|k: int|
        0 <= k < text::lines(listing).len() && text::starts_with(
            #[trigger] text::lines(listing)[k],
            "*"@,
        ) && !text::contains(text::lines(listing)[k], "->"@) ==> text::words(
            text::lines(listing)[k],
        ).len() > 1
}

/// A path without its first two components (`remotes/<remote>/`).
pub open spec fn without_remote(l: Seq<char>) -> Seq<char> {
    let pieces = text::split_on(l, '/');
    if pieces.len() >= 2 {
        text::join(pieces.skip(2), "/"@)
    } else {
        Seq::<char>::empty()
    }
}

/// The branch that a line of `git branch -a` names: its second word when it
/// starts with `*` (the current branch), without `remotes/<remote>/` in
/// front, trimmed.
pub open spec fn branch_line(line: Seq<char>) -> Seq<char> {
    let l1 = if text::starts_with(line, "*"@) {
        text::words(line)[1]
    } else {
        line
    };
    let l2 = if text::starts_with(text::trim(l1), "remotes/"@) {
        without_remote(l1)
    } else {
        l1
    };
    text::trim(l2)
}

/// The branches that the lines of `git branch -a` name, leaving out the lines
/// that show where a remote's HEAD points.
pub open spec fn branches_of(lines: Seq<Seq<char>>) -> Seq<Seq<char>>
    decreases lines.len(),
{
    if lines.len() == 0 {
        Seq::<Seq<char>>::empty()
    } else if text::contains(lines.last(), "->"@) {
        branches_of(lines.drop_last())
    } else {
        branches_of(lines.drop_last()).push(branch_line(lines.last()))
    }
}

/// The pathspec that the output names as unknown.
pub open spec fn missing_pathspec(c: CommandView) -> Option<Seq<char>> {
    match c.output {
        Some(o) => pathspec_in(pattern::regex_captures(checkout_pattern(), o)),
        None => None,
    }
}

/// The pathspec that the groups of the error's match give: group 1; none
/// without a match.
pub open spec fn pathspec_in(g: Option<Seq<Option<Seq<char>>>>) -> Option<Seq<char>> {
    match g {
        Some(g) => Some(pattern::group_text(g, 1)),
        None => None,
    }
}

/// The unknown pathspec replaced by the closest of the listed branches.
pub open spec fn found_commands(c: CommandView, missing: Seq<char>, listing: Seq<char>) -> Seq<
    Seq<char>,
> {
    match crate::utils::closest(missing, branches_of(text::lines(listing)), 60, false) {
        Some(b) => seq![crate::utils::replace_argument_spec(c.script, missing, b)],
        None => Seq::<Seq<char>>::empty(),
    }
}

/// For `git checkout`, `-b` to create the branch.
pub open spec fn created_commands(c: CommandView) -> Seq<Seq<char>> {
    if c.parts.len() > 1 && c.parts[1] == "checkout"@ {
        seq![crate::utils::replace_argument_spec(c.script, "checkout"@, "checkout -b"@)]
    } else {
        Seq::<Seq<char>>::empty()
    }
}

/// Neither the closest branch nor `-b` applies, so creating the branch and
/// then the command are joined by the shell.
pub open spec fn falls_back(c: CommandView, listing: Seq<char>) -> bool {
    missing_pathspec(c) matches Some(m) && found_commands(c, m, listing).len() + created_commands(
        c,
    ).len() == 0
}

/// The corrections, given the listing of `git branch -a`: the unknown
/// pathspec replaced by the closest branch; for `git checkout`, `-b` to
/// create the branch; when neither applies, creating the branch and then the
/// command.
pub open spec fn new_commands_given(c: CommandView, sh: Shell, listing: Seq<char>) -> Seq<
    Seq<char>,
> {
    match missing_pathspec(c) {
        Some(missing) => commands_for_missing(c, sh, missing, listing),
        None => Seq::<Seq<char>>::empty(),
    }
}

/// The corrections for the unknown pathspec `missing`: the closest branch,
/// `-b` for `git checkout`, or, when neither applies, creating the branch and
/// then the command.
pub open spec fn commands_for_missing(c: CommandView, sh: Shell, missing: Seq<char>, listing: Seq<char>) -> Seq<
    Seq<char>,
> {
    let both = found_commands(c, missing, listing) + created_commands(c);
    if both.len() == 0 {
        seq![crate::shell::and_spec(sh, seq!["git branch "@ + missing, c.script])]
    } else {
        both
    }
}

/// The corrections of a git command after git's alias expansion, given the
/// listing of `git branch -a`; none when it does not run git.
pub open spec fn new_commands(c: CommandView, sh: Shell, listing: Seq<char>) -> Seq<Seq<char>> {
    if git::is_git(c) {
        new_commands_given(git::git_expanded(c), sh, listing)
    } else {
        Seq::<Seq<char>>::empty()
    }
}

/// Whether every line of the listing that starts with `*` names its branch.
pub fn listing_fits(listing: &str) -> (r: bool)
    ensures
        r == listing_ok(listing@),
{
    let ls = text::str_lines(listing);
    let ghost all = ls.deep_view();
    let mut i: usize = 0;
    while i < ls.len()
        invariant
            i <= ls.len(),
            all == ls.deep_view(),
            all == text::lines(listing@),
            forall|k: int|
                0 <= k < i && text::starts_with(#[trigger] all[k], "*"@) && !text::contains(
                    all[k],
                    "->"@,
                ) ==> text::words(all[k]).len() > 1,
        decreases ls.len() - i,
    {
        let line = ls[i].as_str();
        assert(all[i as int] == ls@[i as int]@);
        if text::str_starts_with(line, "*") && !text::str_contains(line, "->") && text::str_words(
            line,
        ).len() <= 1 {
            return false;
        }
        i = i + 1;
    }
    true
}

fn without_remote_exec(l: &str) -> (r: String)
    ensures
        r@ == without_remote(l@),
{
    let pieces = text::str_split(l, '/');
    if pieces.len() >= 2 {
        let mut rest: Vec<String> = Vec::new();
        let mut i: usize = 2;
        while i < pieces.len()
            invariant
                2 <= i <= pieces.len(),
                rest.deep_view() == pieces.deep_view().subrange(2, i as int),
            decreases pieces.len() - i,
        {
            let item = text::owned(pieces[i].as_str());
            let ghost before = rest;
            let ghost x = item;
            rest.push(item);
            proof {
                text::lemma_vec_push_deep(before, rest, x);
                assert(pieces.deep_view().subrange(2, i + 1) =~= pieces.deep_view().subrange(
                    2,
                    i as int,
                ).push(x@));
            }
            i = i + 1;
        }
        assert(pieces.deep_view().subrange(2, pieces.len() as int) =~= pieces.deep_view().skip(2));
        text::str_join(&rest, "/")
    } else {
        proof {
            reveal_strlit("");
        }
        text::owned("")
    }
}

fn branch_line_exec(line: &str) -> (r: String)
    requires
        text::starts_with(line@, "*"@) ==> text::words(line@).len() > 1,
    ensures
        r@ == branch_line(line@),
{
    let first = if text::str_starts_with(line, "*") {
        let ws = text::str_words(line);
        assert(ws.deep_view()[1] == ws@[1]@);
        text::owned(ws[1].as_str())
    } else {
        text::owned(line)
    };
    let trimmed = text::str_trim(first.as_str());
    let second = if text::str_starts_with(trimmed.as_str(), "remotes/") {
        without_remote_exec(first.as_str())
    } else {
        first
    };
    text::str_trim(second.as_str())
}

/// The branches that a listing of `git branch -a` names.
pub fn get_branches(listing: &str) -> (r: Vec<String>)
    requires
        listing_ok(listing@),
    ensures
        r.deep_view() == branches_of(text::lines(listing@)),
{
    let ls = text::str_lines(listing);
    let ghost all = ls.deep_view();
    let mut branches: Vec<String> = Vec::new();
    let mut i: usize = 0;
    while i < ls.len()
        invariant
            i <= ls.len(),
            all == ls.deep_view(),
            all == text::lines(listing@),
            listing_ok(listing@),
            branches.deep_view() == branches_of(all.take(i as int)),
        decreases ls.len() - i,
    {
        let line = ls[i].as_str();
        assert(all[i as int] == ls@[i as int]@);
        assert(all.take(i + 1).drop_last() =~= all.take(i as int));
        assert(all.take(i + 1).last() == all[i as int]);
        if !text::str_contains(line, "->") {
            assert(text::starts_with(all[i as int], "*"@) ==> text::words(all[i as int]).len() > 1);
            let item = branch_line_exec(line);
            let ghost before = branches;
            let ghost x = item;
            branches.push(item);
            proof {
                text::lemma_vec_push_deep(before, branches, x);
            }
        }
        i = i + 1;
    }
    assert(all.take(ls.len() as int) =~= all);
    branches
}

fn auxiliary_match_rule(command: &CrabCommand) -> (r: bool)
    ensures
        r == plain_matches(command@),
{
    utils::output_contains(command, "did not match any file(s) known to git")
        && !utils::output_contains(command, "Did you forget to 'git add'?")
}

pub fn match_rule(command: &mut CrabCommand, system_shell: Option<&Shell>) -> (r: bool)
    ensures
        r == matches(old(command)@),
        *final(command) == *old(command),
{
    if !git::is_git_command(command) {
        return false;
    }
    let expanded = git::expand_git_alias(command);
    auxiliary_match_rule(&expanded)
}

/// The corrections without git's alias expansion, given the listing of
/// `git branch -a`.
pub fn mockable_get_new_command(command: &CrabCommand, system_shell: Option<&Shell>, listing: &str) -> (r:
    Vec<String>)
    requires
        missing_pathspec(command@) is Some ==> listing_ok(listing@),
        system_shell is Some || !falls_back(command@, listing@),
    ensures
        r.deep_view() == new_commands_given(command@, *system_shell.unwrap(), listing@),
{
    let g = match &command.output {
        Some(o) => pattern::captures(
            r"error: pathspec '([^']*)' did not match any file\(s\) known to git",
            o.as_str(),
        ),
        None => None,
    };
    match pathspec_from_groups(&g) {
        Some(missing) => commands_for_missing_pathspec(command, system_shell, missing.as_str(), listing),
        None => Vec::new(),
    }
}

/// The pathspec that the groups of the error's match give.
pub fn pathspec_from_groups(g: &Option<Vec<Option<String>>>) -> (r: Option<String>)
    ensures
        r.deep_view() == pathspec_in(g.deep_view()),
{
    match g {
        Some(g) => Some(pattern::group_or_empty(g, 1)),
        None => None,
    }
}

/// The corrections for the unknown pathspec `missing`, given the listing of
/// `git branch -a`.
pub fn commands_for_missing_pathspec(
    command: &CrabCommand,
    system_shell: Option<&Shell>,
    missing: &str,
    listing: &str,
) -> (r: Vec<String>)
    requires
        listing_ok(listing@),
        system_shell is Some || found_commands(command@, missing@, listing@).len() + created_commands(
            command@,
        ).len() != 0,
    ensures
        r.deep_view() == commands_for_missing(command@, *system_shell.unwrap(), missing@, listing@),
{
    let branches = get_branches(listing);
    let refs = text::str_refs(&branches);
    let closest_branch = crate::utils::get_closest(missing, &refs, None, false);
    let mut new_commands: Vec<String> = Vec::new();
    let ghost found = found_commands(command@, missing@, listing@);
    if let Some(b) = closest_branch {
        new_commands.push(
            crate::utils::replace_argument(command.script.as_str(), missing, b),
        );
    }
    assert(new_commands.deep_view() =~= found);
    let ghost created = created_commands(command@);
    if command.script_parts.len() > 1 && text::str_eq(
        command.script_parts[1].as_str(),
        "checkout",
    ) {
        let ghost before = new_commands;
        let item = crate::utils::replace_argument(
            command.script.as_str(),
            "checkout",
            "checkout -b",
        );
        let ghost x = item;
        new_commands.push(item);
        proof {
            text::lemma_vec_push_deep(before, new_commands, x);
        }
    }
    assert(new_commands.deep_view() =~= found + created);
    if new_commands.len() == 0 {
        let branch_cmd = text::concat("git branch ", missing);
        let cmds = vec![branch_cmd.as_str(), command.script.as_str()];
        assert(cmds.deep_view() =~= seq![branch_cmd@, command@.script]);
        new_commands.push(system_shell.unwrap().and(cmds));
    }
    assert(new_commands.deep_view() =~= commands_for_missing(
        command@,
        *system_shell.unwrap(),
        missing@,
        listing@,
    ));
    new_commands
}

/// The corrections of a git command after git's alias expansion, given the
/// listing of `git branch -a`.
pub fn get_new_command_given(command: &CrabCommand, system_shell: Option<&Shell>, listing: &str) -> (r:
    Vec<String>)
    requires
        git::is_git(command@) && missing_pathspec(git::git_expanded(command@)) is Some ==> listing_ok(
            listing@,
        ),
        system_shell is Some || !(git::is_git(command@) && falls_back(
            git::git_expanded(command@),
            listing@,
        )),
    ensures
        r.deep_view() == new_commands(command@, *system_shell.unwrap(), listing@),
{
    if !git::is_git_command(command) {
        return Vec::new();
    }
    let expanded = git::expand_git_alias(command);
    mockable_get_new_command(&expanded, system_shell, listing)
}

pub fn get_rule() -> (r: Rule)
    ensures
        r.name@ == "git_checkout"@,
        r.kind == RuleKind::GitCheckout,
        r.enabled_by_default && r.priority == 1000 && r.requires_output,
        r.side_effect is None,
{
    Rule::new(text::owned("git_checkout"), None, None, None, RuleKind::GitCheckout, None)
}

} // verus!
