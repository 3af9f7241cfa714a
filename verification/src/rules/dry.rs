//! The first word repeated (`git git push`): drop one.
use super::utils;
use super::{Rule, RuleKind};
use crate::cli::command::{CommandView, CrabCommand};
use crate::shell::Shell;
use crate::text;
use vstd::prelude::*;

verus! {

/// The command has at least two words, and the first two are equal.
pub open spec fn matches(c: CommandView) -> bool {
    c.parts.len() >= 2 && c.parts[0] == c.parts[1]
}

/// The words after the first, joined by spaces.
pub open spec fn new_commands(c: CommandView) -> Seq<Seq<char>> {
    seq![text::join(c.parts.skip(1), " "@)]
}

pub fn match_rule(command: &mut CrabCommand, system_shell: Option<&Shell>) -> (r: bool)
    ensures
        r == matches(old(command)@),
        *final(command) == *old(command),
{
    command.script_parts.len() >= 2 && text::str_eq(
        command.script_parts[0].as_str(),
        command.script_parts[1].as_str(),
    )
}

pub fn get_new_command(command: &mut CrabCommand, system_shell: Option<&Shell>) -> (r: Vec<String>)
    requires
        old(command).script_parts.len() >= 1,
    ensures
        r.deep_view() == new_commands(old(command)@),
        *final(command) == *old(command),
{
    let mut rest = utils::copy_strings(&command.script_parts);
    rest.remove(0);
    assert(rest.deep_view() =~= command@.parts.skip(1));
    let r = vec![text::str_join(&rest, " ")];
    assert(r.deep_view() =~= new_commands(command@));
    r
}

pub fn get_rule() -> (r: Rule)
    ensures
        r.name@ == "dry"@,
        r.kind == RuleKind::Dry,
        r.enabled_by_default && r.priority == 900 && r.requires_output,
        r.side_effect is None,
{
    Rule::new(text::owned("dry"), None, Some(900), None, RuleKind::Dry, None)
}

} // verus!
