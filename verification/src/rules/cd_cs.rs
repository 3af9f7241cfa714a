//! Redirects cs to cd when there is a typo.
//! Due to the proximity of the keys - d and s - this seems like a common typo.
use super::utils;
use super::{Rule, RuleKind};
use crate::cli::command::{CommandView, CrabCommand};
use crate::shell::Shell;
use crate::text;
use vstd::prelude::*;

verus! {

/// The first word is `cs`.
pub open spec fn matches(c: CommandView) -> bool {
    c.parts[0] == "cs"@
}

/// `cd` followed by the command from its third byte on.
pub open spec fn new_commands(c: CommandView) -> Seq<Seq<char>> {
    seq!["cd"@ + c.script.skip(text::chars_before(c.script, 2))]
}

pub fn match_rule(command: &mut CrabCommand, system_shell: Option<&Shell>) -> (r: bool)
    requires
        old(command).script_parts.len() > 0,
    ensures
        r == matches(old(command)@),
        *final(command) == *old(command),
{
    text::str_eq(command.script_parts[0].as_str(), "cs")
}

pub fn get_new_command(command: &mut CrabCommand, system_shell: Option<&Shell>) -> (r: Vec<String>)
    requires
        text::is_boundary(old(command).script@, 2),
    ensures
        r.deep_view() == new_commands(old(command)@),
        *final(command) == *old(command),
{
    let rest = text::str_from_byte(command.script.as_str(), 2);
    let r = vec![text::concat("cd", rest.as_str())];
    assert(r.deep_view() =~= new_commands(command@));
    r
}

/// Redirects cs to cd when there is a typo
///
/// $ cs /etc/
/// cs: command not found
/// $ crab
/// cd /etc/ [enter/↑/↓/ctrl+c]
pub fn get_rule() -> (r: Rule)
    ensures
        r.name@ == "cd_cs"@,
        r.kind == RuleKind::CdCs,
        r.enabled_by_default && r.priority == 1000 && r.requires_output,
        r.side_effect is None,
{
    Rule::new(text::owned("cd_cs"), None, None, None, RuleKind::CdCs, None)
}

} // verus!
