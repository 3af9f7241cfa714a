//! `ag` fails on a pattern that is no valid regular expression: search for
//! it literally.
use super::{Rule, RuleKind};
use crate::cli::command::{CommandView, CrabCommand};
use crate::shell::Shell;
use crate::text;
use vstd::prelude::*;

verus! {

/// The output ends with the hint to run `ag` with `-Q`.
pub open spec fn matches(c: CommandView) -> bool {
    c.output matches Some(o) && text::ends_with(o, "run ag with -Q\n"@)
}

/// The first `ag` becomes `ag -Q`.
pub open spec fn new_commands(c: CommandView) -> Seq<Seq<char>> {
    seq![text::replace_n(c.script, "ag"@, "ag -Q"@, 1)]
}

pub fn match_rule(command: &mut CrabCommand, system_shell: Option<&Shell>) -> (r: bool)
    ensures
        r == matches(old(command)@),
        *final(command) == *old(command),
{
    match &command.output {
        Some(output) => text::str_ends_with(output.as_str(), "run ag with -Q\n"),
        None => false,
    }
}

pub fn get_new_command(command: &mut CrabCommand, system_shell: Option<&Shell>) -> (r: Vec<String>)
    ensures
        r.deep_view() == new_commands(old(command)@),
        *final(command) == *old(command),
{
    let r = vec![text::str_replacen(command.script.as_str(), "ag", "ag -Q", 1)];
    assert(r.deep_view() =~= new_commands(command@));
    r
}

pub fn get_rule() -> (r: Rule)
    ensures
        r.name@ == "ag_literal"@,
        r.kind == RuleKind::AgLiteral,
        r.enabled_by_default && r.priority == 1000 && r.requires_output,
        r.side_effect is None,
{
    Rule::new(text::owned("ag_literal"), None, None, None, RuleKind::AgLiteral, None)
}

} // verus!
