//! `cd..` needs a space.
use super::utils;
use super::{Rule, RuleKind};
use crate::cli::command::{CommandView, CrabCommand};
use crate::shell::Shell;
use crate::text;
use vstd::prelude::*;

verus! {

/// The command is exactly `cd..`.
pub open spec fn matches(c: CommandView) -> bool {
    c.script == "cd.."@
}

pub fn match_rule(command: &mut CrabCommand, system_shell: Option<&Shell>) -> (r: bool)
    ensures
        r == matches(old(command)@),
        *final(command) == *old(command),
{
    text::str_eq(command.script.as_str(), "cd..")
}

pub fn get_new_command(command: &mut CrabCommand, system_shell: Option<&Shell>) -> (r: Vec<String>)
    ensures
        r.deep_view() == seq!["cd .."@],
        *final(command) == *old(command),
{
    let r = vec![text::owned("cd ..")];
    assert(r.deep_view() =~= seq!["cd .."@]);
    r
}

pub fn get_rule() -> (r: Rule)
    ensures
        r.name@ == "cd_parent"@,
        r.kind == RuleKind::CdParent,
        r.enabled_by_default && r.priority == 1000 && r.requires_output,
        r.side_effect is None,
{
    Rule::new(text::owned("cd_parent"), None, None, None, RuleKind::CdParent, None)
}

} // verus!
