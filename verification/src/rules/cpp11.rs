//! The compiler asks for C++11: add `-std=c++11`.
use super::utils;
use super::{Rule, RuleKind};
use crate::cli::command::{CommandView, CrabCommand};
use crate::shell::Shell;
use crate::text;
use vstd::prelude::*;

verus! {

/// The output asks for ISO C++ 2011 support.
pub open spec fn plain_matches(c: CommandView) -> bool {
    utils::output_has(
        c,
        "This file requires compiler and library support for the ISO C++ 2011 standard."@,
    ) || utils::output_has(c, "-Wc++11-extensions"@)
}

/// The command runs `g++` or `clang++`, and `plain_matches`.
pub open spec fn matches(c: CommandView) -> bool {
    utils::is_app_spec(c, seq!["g++"@, "clang++"@], 0) && plain_matches(c)
}

/// The command with ` -std=c++11` appended.
pub open spec fn new_commands(c: CommandView) -> Seq<Seq<char>> {
    seq![c.script + " -std=c++11"@]
}

fn auxiliary_match_rule(command: &CrabCommand) -> (r: bool)
    ensures
        r == plain_matches(command@),
{
    utils::output_contains(
        command,
        "This file requires compiler and library support for the ISO C++ 2011 standard.",
    ) || utils::output_contains(command, "-Wc++11-extensions")
}

pub fn match_rule(command: &mut CrabCommand, system_shell: Option<&Shell>) -> (r: bool)
    ensures
        r == matches(old(command)@),
        *final(command) == *old(command),
{
    let names = vec!["g++", "clang++"];
    assert(names.deep_view() =~= seq!["g++"@, "clang++"@]);
    utils::is_app(command, &names, 0) && auxiliary_match_rule(command)
}

pub fn get_new_command(command: &mut CrabCommand, system_shell: Option<&Shell>) -> (r: Vec<String>)
    ensures
        r.deep_view() == new_commands(old(command)@),
        *final(command) == *old(command),
{
    let r = vec![text::concat(command.script.as_str(), " -std=c++11")];
    assert(r.deep_view() =~= new_commands(command@));
    r
}

pub fn get_rule() -> (r: Rule)
    ensures
        r.name@ == "cpp11"@,
        r.kind == RuleKind::Cpp11,
        r.enabled_by_default && r.priority == 1000 && r.requires_output,
        r.side_effect is None,
{
    Rule::new(text::owned("cpp11"), None, None, None, RuleKind::Cpp11, None)
}

} // verus!
