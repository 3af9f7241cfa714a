//! Plain `cargo` most likely meant `cargo build`.
use super::utils;
use super::{Rule, RuleKind};
use crate::cli::command::{CommandView, CrabCommand};
use crate::shell::Shell;
use crate::text;
use vstd::prelude::*;

verus! {

/// The command is exactly `cargo`.
pub open spec fn matches(c: CommandView) -> bool {
    c.script == "cargo"@
}

pub fn match_rule(command: &mut CrabCommand, system_shell: Option<&Shell>) -> (r: bool)
    ensures
        r == matches(old(command)@),
        *final(command) == *old(command),
{
    text::str_eq(command.script.as_str(), "cargo")
}

pub fn get_new_command(command: &CrabCommand, system_shell: Option<&Shell>) -> (r: Vec<String>)
    ensures
        r.deep_view() == seq!["cargo build"@],
{
    let r = vec![text::owned("cargo build")];
    assert(r.deep_view() =~= seq!["cargo build"@]);
    r
}

pub fn get_rule() -> (r: Rule)
    ensures
        r.name@ == "cargo"@,
        r.kind == RuleKind::Cargo,
        r.enabled_by_default && r.priority == 1000 && r.requires_output,
        r.side_effect is None,
{
    Rule::new(text::owned("cargo"), None, None, None, RuleKind::Cargo, None)
}

} // verus!
