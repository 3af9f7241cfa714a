//! `brew update` updates brew itself: upgrading a formula is `brew upgrade`.
use super::utils;
use super::{Rule, RuleKind};
use crate::cli::command::{CommandView, CrabCommand};
use crate::shell::Shell;
use crate::text;
use vstd::prelude::*;

verus! {

/// The output says that the command updates brew itself and points to
/// `brew upgrade`, and the command contains `update`.
pub open spec fn matches(c: CommandView) -> bool {
    utils::output_has(c, "Error: This command updates brew itself"@) && utils::output_has(
        c,
        "Use `brew upgrade"@,
    ) && text::contains(c.script, "update"@)
}

/// Every `update` becomes `upgrade`.
pub open spec fn new_commands(c: CommandView) -> Seq<Seq<char>> {
    seq![text::replace_all(c.script, "update"@, "upgrade"@)]
}

pub fn match_rule(command: &mut CrabCommand, system_shell: Option<&Shell>) -> (r: bool)
    ensures
        r == matches(old(command)@),
        *final(command) == *old(command),
{
    utils::output_contains(command, "Error: This command updates brew itself")
        && utils::output_contains(command, "Use `brew upgrade") && text::str_contains(
        command.script.as_str(),
        "update",
    )
}

pub fn get_new_command(command: &mut CrabCommand, system_shell: Option<&Shell>) -> (r: Vec<String>)
    ensures
        r.deep_view() == new_commands(old(command)@),
        *final(command) == *old(command),
{
    let r = vec![text::str_replace(command.script.as_str(), "update", "upgrade")];
    assert(r.deep_view() =~= new_commands(command@));
    r
}

pub fn get_rule() -> (r: Rule)
    ensures
        r.name@ == "brew_update_formula"@,
        r.kind == RuleKind::BrewUpdateFormula,
        r.enabled_by_default && r.priority == 1000 && r.requires_output,
        r.side_effect is None,
{
    Rule::new(text::owned("brew_update_formula"), None, None, None, RuleKind::BrewUpdateFormula, None)
}

} // verus!
