//! A pathspec that git does not know but that exists on disk: add it, then
//! run the command again.
use super::utils;
use super::utils::git;
use super::{Rule, RuleKind};
use crate::cli::command::{CommandView, CrabCommand};
use crate::pattern;
use crate::shell::Shell;
use crate::text;
use vstd::prelude::*;

verus! {

/// The error that names the pathspec that git does not know.
pub open spec fn pathspec_pattern() -> Seq<char> {
    r"error: pathspec '([^']*)' did not match any file\(s\) known to git."@
}

/// The pathspec that the output names.
pub open spec fn pathspec(c: CommandView) -> Option<Seq<char>> {
    match c.output {
        Some(o) => pathspec_in(pattern::regex_captures(pathspec_pattern(), o)),
        None => None,
    }
}

/// The missing file: the pathspec, when it exists on disk (`exists`).
pub open spec fn missing_file(c: CommandView, exists: bool) -> Option<Seq<char>> {
    if exists {
        pathspec(c)
    } else {
        None
    }
}

/// The output says that a pathspec matched no file that git knows, and the
/// pathspec names a file that exists (`exists`).
pub open spec fn matches_given(c: CommandView, exists: bool) -> bool {
    utils::output_has(c, "did not match any file(s) known to git."@) && missing_file(c, exists) is Some
}

/// `git add --` the file (nothing when there is none), then the command
/// `script`.
pub open spec fn commands_for(script: Seq<char>, sh: Shell, file: Option<Seq<char>>) -> Seq<Seq<char>> {
    seq![
        crate::shell::and_spec(
            sh,
            seq![
                "git add -- "@ + match file {
                    Some(f) => f,
                    None => Seq::<char>::empty(),
                },
                script,
            ],
        ),
    ]
}

/// `git add --` the missing file (nothing when there is none), then the
/// command.
pub open spec fn new_commands_given(c: CommandView, sh: Shell, exists: bool) -> Seq<Seq<char>> {
    commands_for(c.script, sh, missing_file(c, exists))
}

/// The pathspec that the groups of the error's match give: group 1; none
/// without a match.
pub open spec fn pathspec_in(g: Option<Seq<Option<Seq<char>>>>) -> Option<Seq<char>> {
    match g {
        Some(g) => Some(pattern::group_text(g, 1)),
        None => None,
    }
}

/// The pathspec that the groups of the error's match give.
pub fn pathspec_from_groups(g: &Option<Vec<Option<String>>>) -> (r: Option<String>)
    ensures
        r.deep_view() == pathspec_in(g.deep_view()),
{
    match g {
        Some(g) => Some(pattern::group_or_empty(g, 1)),
        None => None,
    }
}

fn captured_pathspec(command: &CrabCommand) -> (r: Option<String>)
    ensures
        r.deep_view() == pathspec(command@),
{
    match &command.output {
        Some(o) => {
            let g = pattern::captures(
                r"error: pathspec '([^']*)' did not match any file\(s\) known to git.",
                o.as_str(),
            );
            pathspec_from_groups(&g)
        },
        None => None,
    }
}

/// The pathspec that git did not know, after git's alias expansion; none
/// when the command does not run git.
pub fn pathspec_of(command: &CrabCommand) -> (r: Option<String>)
    ensures
        r.deep_view() == (if git::is_git(command@) {
            pathspec(git::git_expanded(command@))
        } else {
            None
        }),
{
    if !git::is_git_command(command) {
        return None;
    }
    let expanded = git::expand_git_alias(command);
    captured_pathspec(&expanded)
}

/// The file named in the output, when it exists: `path_exists` tells, or,
/// when it is `None`, the file system is asked.
fn get_missing_file(command: &CrabCommand, path_exists: Option<bool>) -> (r: Option<String>)
    ensures
        path_exists matches Some(b) ==> r.deep_view() == missing_file(command@, b),
        r.deep_view() == missing_file(command@, true) || r is None,
{
    match captured_pathspec(command) {
        Some(path) => {
            let exists = match path_exists {
                Some(b) => b,
                None => utils::path_exists(path.as_str()),
            };
            if exists {
                Some(path)
            } else {
                None
            }
        },
        None => None,
    }
}

/// The rule without git's alias expansion, with the answer of the file system
/// given by `path_exists` (asked for when it is `None`).
pub fn mockable_match_rule(command: &CrabCommand, path_exists: Option<bool>) -> (r: bool)
    ensures
        path_exists matches Some(b) ==> r == matches_given(command@, b),
        r ==> matches_given(command@, true),
{
    utils::output_contains(command, "did not match any file(s) known to git.") && get_missing_file(
        command,
        path_exists,
    ).is_some()
}

fn auxiliary_match_rule(command: &CrabCommand) -> (r: bool)
    ensures
        r ==> matches_given(command@, true),
{
    mockable_match_rule(command, None)
}

/// Matches a git command when, after git's alias expansion, `matches_given`
/// holds with the file system's answer (which is not stated).
pub fn match_rule(command: &mut CrabCommand, system_shell: Option<&Shell>) -> (r: bool)
    ensures
        r ==> git::is_git(old(command)@) && matches_given(git::git_expanded(old(command)@), true),
        *final(command) == *old(command),
{
    if !git::is_git_command(command) {
        return false;
    }
    let expanded = git::expand_git_alias(command);
    auxiliary_match_rule(&expanded)
}

/// The corrections without git's alias expansion, with the answer of the file
/// system given by `path_exists` (asked for when it is `None`).
pub fn mockable_get_new_command(
    command: &CrabCommand,
    system_shell: Option<&Shell>,
    path_exists: Option<bool>,
) -> (r: Vec<String>)
    requires
        system_shell is Some,
    ensures
        path_exists matches Some(b) ==> r.deep_view() == new_commands_given(
            command@,
            *system_shell.unwrap(),
            b,
        ),
        r.deep_view() == new_commands_given(command@, *system_shell.unwrap(), true)
            || r.deep_view() == new_commands_given(command@, *system_shell.unwrap(), false),
{
    let missing = get_missing_file(command, path_exists);
    commands_for_file(command, system_shell.unwrap(), missing)
}

/// `git add --` the file (nothing when there is none), then the command.
pub fn commands_for_file(command: &CrabCommand, system_shell: &Shell, file: Option<String>) -> (r: Vec<
    String,
>)
    ensures
        r.deep_view() == commands_for(command@.script, *system_shell, file.deep_view()),
{
    proof {
        reveal_strlit("");
    }
    let ghost fv = file.deep_view();
    let name = match file {
        Some(f) => f,
        None => text::owned(""),
    };
    assert(name@ == match fv {
        Some(f) => f,
        None => Seq::<char>::empty(),
    });
    let str_git_add = text::concat("git add -- ", name.as_str());
    let cmds = vec![str_git_add.as_str(), command.script.as_str()];
    assert(cmds.deep_view() =~= seq![
        "git add -- "@ + match fv {
            Some(f) => f,
            None => Seq::<char>::empty(),
        },
        command@.script,
    ]);
    let r = vec![system_shell.and(cmds)];
    assert(r.deep_view() =~= commands_for(command@.script, *system_shell, fv));
    r
}

fn auxiliary_get_new_command(command: &CrabCommand, system_shell: Option<&Shell>) -> (r: Vec<
    String,
>)
    requires
        system_shell is Some,
    ensures
        r.deep_view() == new_commands_given(command@, *system_shell.unwrap(), true)
            || r.deep_view() == new_commands_given(command@, *system_shell.unwrap(), false),
{
    mockable_get_new_command(command, system_shell, None)
}

/// The corrections of a git command after git's alias expansion, whichever
/// answer the file system gave; none when the command does not run git.
pub fn get_new_command(command: &mut CrabCommand, system_shell: Option<&Shell>) -> (r: Vec<String>)
    requires
        system_shell is Some,
    ensures
        git::is_git(old(command)@) ==> r.deep_view() == new_commands_given(
            git::git_expanded(old(command)@),
            *system_shell.unwrap(),
            true,
        ) || r.deep_view() == new_commands_given(
            git::git_expanded(old(command)@),
            *system_shell.unwrap(),
            false,
        ),
        !git::is_git(old(command)@) ==> r.deep_view() == Seq::<Seq<char>>::empty(),
        *final(command) == *old(command),
{
    if !git::is_git_command(command) {
        return Vec::new();
    }
    let expanded = git::expand_git_alias(command);
    auxiliary_get_new_command(&expanded, system_shell)
}

pub fn get_rule() -> (r: Rule)
    ensures
        r.name@ == "git_add"@,
        r.kind == RuleKind::GitAdd,
        r.enabled_by_default && r.priority == 1000 && r.requires_output,
        r.side_effect is None,
{
    Rule::new(text::owned("git_add"), None, None, None, RuleKind::GitAdd, None)
}

} // verus!
