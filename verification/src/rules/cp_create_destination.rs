//! `cp` or `mv` into a directory that does not exist: create it first.
use super::utils;
use super::{Rule, RuleKind};
use crate::cli::command::{CommandView, CrabCommand};
use crate::shell::Shell;
use crate::text;
use vstd::prelude::*;

verus! {

/// The output says that there is no such file or directory, or that the
/// destination directory does not exist.
pub open spec fn plain_matches(c: CommandView) -> bool {
    c.output matches Some(o) && (text::contains(o, "No such file or directory"@) || (
    text::starts_with(o, "cp: directory"@) && text::ends_with(text::trim_end(o), "does not exist"@)))
}

/// The command runs `cp` or `mv`, and `plain_matches`.
pub open spec fn matches(c: CommandView) -> bool {
    utils::is_app_spec(c, seq!["cp"@, "mv"@], 0) && plain_matches(c)
}

/// `mkdir -p <last word>`, then the command.
pub open spec fn new_commands(c: CommandView, sh: Shell) -> Seq<Seq<char>> {
    seq![crate::shell::and_spec(sh, seq!["mkdir -p "@ + c.parts.last(), c.script])]
}

/// Whatever the words before it, the directory created is the destination,
/// the last word: for bash the correction is exactly `mkdir -p <last word> &&
/// <command>`, and for any shell it is one command that joins those two.
pub proof fn lemma_creates_last_word(c: CommandView, sh: Shell)
    requires
        c.parts.len() > 0,
    ensures
        new_commands(c, sh).len() == 1,
        new_commands(c, sh)[0] == crate::shell::and_spec(
            sh,
            seq!["mkdir -p "@ + c.parts[c.parts.len() - 1], c.script],
        ),
        new_commands(c, Shell::Bash) == seq![
            "mkdir -p "@ + c.parts[c.parts.len() - 1] + " && "@ + c.script,
        ],
{
    let cmds = seq!["mkdir -p "@ + c.parts[c.parts.len() - 1], c.script];
    assert(cmds.drop_last() =~= seq!["mkdir -p "@ + c.parts[c.parts.len() - 1]]);
    assert(text::join(cmds.drop_last(), " && "@) == cmds[0]);
}

pub fn auxiliary_match_rule(command: &CrabCommand) -> (r: bool)
    ensures
        r == plain_matches(command@),
{
    match &command.output {
        Some(output) => {
            if text::str_contains(output.as_str(), "No such file or directory") {
                true
            } else if text::str_starts_with(output.as_str(), "cp: directory") {
                let trimmed = trim_end_of(output.as_str());
                text::str_ends_with(trimmed.as_str(), "does not exist")
            } else {
                false
            }
        },
        None => false,
    }
}

/// `s` without its trailing white space.
fn trim_end_of(s: &str) -> (r: String)
    ensures
        r@ == text::trim_end(s@),
{
    let mut n = s.unicode_len();
    assert(s@.subrange(0, n as int) =~= s@);
    while n > 0 && text::is_space_exec(s.get_char(n - 1))
        invariant
            n <= s@.len(),
            text::trim_end(s@) == text::trim_end(s@.subrange(0, n as int)),
        decreases n,
    {
        assert(s@.subrange(0, n as int).drop_last() =~= s@.subrange(0, n - 1));
        n = n - 1;
    }
    s.substring_char(0, n).to_owned()
}

pub fn match_rule(command: &mut CrabCommand, system_shell: Option<&Shell>) -> (r: bool)
    ensures
        r == matches(old(command)@),
        *final(command) == *old(command),
{
    let names = vec!["cp", "mv"];
    assert(names.deep_view() =~= seq!["cp"@, "mv"@]);
    utils::is_app(command, &names, 0) && auxiliary_match_rule(command)
}

pub fn get_new_command(command: &mut CrabCommand, system_shell: Option<&Shell>) -> (r: Vec<String>)
    requires
        system_shell is Some,
        old(command).script_parts.len() > 0,
    ensures
        r.deep_view() == new_commands(old(command)@, *system_shell.unwrap()),
        *final(command) == *old(command),
{
    let n = command.script_parts.len();
    let mkdir = text::concat("mkdir -p ", command.script_parts[n - 1].as_str());
    let cmds = vec![mkdir.as_str(), command.script.as_str()];
    assert(cmds.deep_view() =~= seq!["mkdir -p "@ + command@.parts.last(), command@.script]);
    let r = vec![system_shell.unwrap().and(cmds)];
    assert(r.deep_view() =~= new_commands(command@, *system_shell.unwrap()));
    r
}

pub fn get_rule() -> (r: Rule)
    ensures
        r.name@ == "cp_create_destination"@,
        r.kind == RuleKind::CpCreateDestination,
        r.enabled_by_default && r.priority == 1000 && r.requires_output,
        r.side_effect is None,
{
    Rule::new(text::owned("cp_create_destination"), None, None, None, RuleKind::CpCreateDestination, None)
}

} // verus!
