//! A repository URL typed alone: clone it.
use super::utils;
use super::{Rule, RuleKind};
use crate::cli::command::{CommandView, CrabCommand};
use crate::pattern;
use crate::shell::Shell;
use crate::text;
use vstd::prelude::*;

verus! {

/// The pattern of a repository URL.
pub open spec fn url_pattern() -> Seq<char> {
    r"((git|ssh|http(s)?)|(git@[\w\.]+))(:(//)?)([\w\.@\:/\-~]+)(\.git)?(/)?"@
}

/// The output (empty when absent) says that the program is missing.
pub open spec fn output_says_missing(c: CommandView) -> bool {
    let o = match c.output {
        Some(o) => o,
        None => Seq::<char>::empty(),
    };
    text::contains(o, "No such file or directory"@) || text::contains(o, "not found"@)
        || text::contains(o, "is not recognised as"@)
}

/// The command is one word, not a program that `which` finds, the output
/// says it is missing, and it looks like a repository URL.
pub open spec fn matches_given(c: CommandView, found: bool) -> bool {
    c.parts.len() == 1 && !found && output_says_missing(c) && pattern::regex_captures(
        url_pattern(),
        c.script,
    ) is Some
}

/// The rule, with the answer of `which` for the one word.
pub fn match_rule_given(command: &CrabCommand, found: bool) -> (r: bool)
    ensures
        r == matches_given(command@, found),
{
    if command.script_parts.len() != 1 || found || !(missing_output(command)) {
        false
    } else {
        pattern::captures(
            r"((git|ssh|http(s)?)|(git@[\w\.]+))(:(//)?)([\w\.@\:/\-~]+)(\.git)?(/)?",
            command.script.as_str(),
        ).is_some()
    }
}

fn missing_output(command: &CrabCommand) -> (r: bool)
    ensures
        r == output_says_missing(command@),
{
    proof {
        reveal_strlit("");
    }
    let stdout = match &command.output {
        Some(o) => text::owned(o.as_str()),
        None => text::owned(""),
    };
    assert(stdout@ =~= match command@.output {
        Some(o) => o,
        None => Seq::<char>::empty(),
    });
    text::str_contains(stdout.as_str(), "No such file or directory") || text::str_contains(
        stdout.as_str(),
        "not found",
    ) || text::str_contains(stdout.as_str(), "is not recognised as")
}

/// The word that `which` is asked about: the first.
pub fn word_argument(command: &CrabCommand) -> (r: &str)
    requires
        command@.parts.len() > 0,
    ensures
        r@ == command@.parts[0],
{
    command.script_parts[0].as_str()
}

/// Matches when the one word is no program that `which` finds and looks like
/// a URL. When the command is one word, `which` is asked about
/// `word_argument(command)`; its answer is not stated.
pub fn match_rule(command: &mut CrabCommand, system_shell: Option<&Shell>) -> (r: bool)
    ensures
        r ==> old(command)@.parts.len() == 1 && output_says_missing(old(command)@)
            && pattern::regex_captures(url_pattern(), old(command)@.script) is Some,
        *final(command) == *old(command),
{
    if command.script_parts.len() != 1 {
        return false;
    }
    let found = utils::executable_found(word_argument(command));
    match_rule_given(command, found)
}

/// `git clone` followed by the command.
pub open spec fn new_commands(c: CommandView) -> Seq<Seq<char>> {
    seq!["git clone "@ + c.script]
}

pub fn get_new_command(command: &mut CrabCommand, system_shell: Option<&Shell>) -> (r: Vec<String>)
    ensures
        r.deep_view() == new_commands(old(command)@),
        *final(command) == *old(command),
{
    let r = vec![text::concat("git clone ", command.script.as_str())];
    assert(r.deep_view() =~= new_commands(command@));
    r
}

pub fn get_rule() -> (r: Rule)
    ensures
        r.name@ == "git_clone_missing"@,
        r.kind == RuleKind::GitCloneMissing,
        r.enabled_by_default && r.priority == 1000 && r.requires_output,
        r.side_effect is None,
{
    Rule::new(text::owned("git_clone_missing"), None, None, None, RuleKind::GitCloneMissing, None)
}

} // verus!
