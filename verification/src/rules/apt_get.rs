//! A program is missing: install it with `apt-get`, then run the command.
use super::utils;
use super::{Rule, RuleKind};
use crate::cli::command::{CommandView, CrabCommand};
use crate::pattern;
use crate::shell::Shell;
use crate::text;
use vstd::prelude::*;

verus! {

/// The output says that something is not found or not installed.
pub open spec fn output_suggests(c: CommandView) -> bool {
    utils::output_has(c, "not found"@) || utils::output_has(c, "not installed"@)
}

/// The program's name can be read: there is a first word, and a second one
/// when the first is `sudo`.
pub open spec fn executable_defined(c: CommandView) -> bool {
    c.parts.len() > 0 && (c.parts[0] == "sudo"@ ==> c.parts.len() > 1)
}

/// The program: the first word, or the second when the first is `sudo`.
pub open spec fn executable(c: CommandView) -> Seq<char> {
    if c.parts[0] == "sudo"@ {
        c.parts[1]
    } else {
        c.parts[0]
    }
}

/// The rule matches when the output says so and the program is not found.
pub open spec fn matches_given(c: CommandView, found: bool) -> bool {
    output_suggests(c) && !found
}

/// Install the program, then run the command.
pub open spec fn new_commands(c: CommandView, sh: Shell) -> Seq<Seq<char>> {
    seq![
        crate::shell::and_spec(sh, seq!["sudo apt-get install "@ + executable(c), c.script]),
    ]
}

fn get_executable(command: &CrabCommand) -> (r: &str)
    requires
        executable_defined(command@),
    ensures
        r@ == executable(command@),
{
    if text::str_eq(command.script_parts[0].as_str(), "sudo") {
        command.script_parts[1].as_str()
    } else {
        command.script_parts[0].as_str()
    }
}

/// The program that the command runs, when it can be read.
pub fn executable_name(command: &CrabCommand) -> (r: Option<&str>)
    ensures
        match r {
            Some(n) => executable_defined(command@) && n@ == executable(command@),
            None => !executable_defined(command@),
        },
{
    if command.script_parts.len() > 0 && (!text::str_eq(command.script_parts[0].as_str(), "sudo")
        || command.script_parts.len() > 1) {
        Some(get_executable(command))
    } else {
        None
    }
}

/// The rule, with the answer of `which` given by `mock_which` when it is
/// there (and asked for otherwise).
pub fn _match_rule(
    command: &mut CrabCommand,
    system_shell: Option<&Shell>,
    mock_which: Option<bool>,
) -> (r: bool)
    requires
        output_suggests(old(command)@) && mock_which is None ==> executable_defined(old(command)@),
    ensures
        mock_which matches Some(found) ==> r == matches_given(old(command)@, found),
        r ==> output_suggests(old(command)@),
        *final(command) == *old(command),
{
    if utils::output_contains(command, "not found") || utils::output_contains(
        command,
        "not installed",
    ) {
        match mock_which {
            Some(which_return) => !which_return,
            None => !utils::executable_found(get_executable(command)),
        }
    } else {
        false
    }
}

/// Matches when the output says that the program is missing and `which`
/// does not find it (an answer of the file system, so only the first half is
/// stated).
pub fn match_rule(command: &mut CrabCommand, system_shell: Option<&Shell>) -> (r: bool)
    requires
        output_suggests(old(command)@) ==> executable_defined(old(command)@),
    ensures
        r ==> output_suggests(old(command)@),
        *final(command) == *old(command),
{
    _match_rule(command, system_shell, None)
}

pub fn get_new_command(command: &mut CrabCommand, system_shell: Option<&Shell>) -> (r: Vec<String>)
    requires
        system_shell is Some,
        executable_defined(old(command)@),
    ensures
        r.deep_view() == new_commands(old(command)@, *system_shell.unwrap()),
        *final(command) == *old(command),
{
    let program = get_executable(command);
    let install = text::concat("sudo apt-get install ", program);
    let cmds = vec![install.as_str(), command.script.as_str()];
    assert(cmds.deep_view() =~= seq!["sudo apt-get install "@ + executable(command@), command@.script]);
    let r = vec![system_shell.unwrap().and(cmds)];
    assert(r.deep_view() =~= new_commands(command@, *system_shell.unwrap()));
    r
}

pub fn get_rule() -> (r: Rule)
    ensures
        r.name@ == "apt_get"@,
        r.kind == RuleKind::AptGet,
        r.enabled_by_default && r.priority == 4000 && r.requires_output,
        r.side_effect is None,
{
    Rule::new(text::owned("apt_get"), None, Some(4000), None, RuleKind::AptGet, None)
}

} // verus!
