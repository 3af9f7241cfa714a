//! `apt-get search` is `apt-cache search`.
use super::utils;
use super::{Rule, RuleKind};
use crate::cli::command::{CommandView, CrabCommand};
use crate::shell::Shell;
use crate::text;
use vstd::prelude::*;

verus! {

/// The command starts with `apt-get search`.
pub open spec fn matches(c: CommandView) -> bool {
    text::starts_with(c.script, "apt-get search"@)
}

/// `apt-cache` followed by the command from its eighth byte on.
pub open spec fn new_commands(c: CommandView) -> Seq<Seq<char>> {
    seq!["apt-cache"@ + c.script.skip(text::chars_before(c.script, 7))]
}

pub fn match_rule(command: &mut CrabCommand, system_shell: Option<&Shell>) -> (r: bool)
    ensures
        r == matches(old(command)@),
        *final(command) == *old(command),
{
    text::str_starts_with(command.script.as_str(), "apt-get search")
}

pub fn get_new_command(command: &mut CrabCommand, system_shell: Option<&Shell>) -> (r: Vec<String>)
    requires
        text::is_boundary(old(command).script@, 7),
    ensures
        r.deep_view() == new_commands(old(command)@),
        *final(command) == *old(command),
{
    let rest = text::str_from_byte(command.script.as_str(), 7);
    let r = vec![text::concat("apt-cache", rest.as_str())];
    assert(r.deep_view() =~= new_commands(command@));
    r
}

pub fn get_rule() -> (r: Rule)
    ensures
        r.name@ == "apt_get_search"@,
        r.kind == RuleKind::AptGetSearch,
        r.enabled_by_default && r.priority == 1000 && r.requires_output,
        r.side_effect is None,
{
    Rule::new(text::owned("apt_get_search"), None, None, None, RuleKind::AptGetSearch, None)
}

} // verus!
