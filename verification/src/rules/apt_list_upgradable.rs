//! After an update, apt says that packages can be upgraded: list them.
use super::utils;
use super::{Rule, RuleKind};
use crate::cli::command::{CommandView, CrabCommand};
use crate::shell::Shell;
use crate::text;
use vstd::prelude::*;

verus! {

/// The output mentions `apt list --upgradable`.
pub open spec fn plain_matches(c: CommandView) -> bool {
    utils::output_has(c, "apt list --upgradable"@)
}

/// `plain_matches`, looking through a leading `sudo`.
pub open spec fn matches(c: CommandView) -> bool {
    plain_matches(utils::sudo_stripped(c))
}

/// `apt list --upgradable`, with `sudo` when the command had it.
pub open spec fn new_commands(c: CommandView) -> Seq<Seq<char>> {
    utils::sudo_restored(c, seq!["apt list --upgradable"@])
}

fn _match_rule(command: &CrabCommand) -> (r: bool)
    ensures
        r == plain_matches(command@),
{
    utils::output_contains(command, "apt list --upgradable")
}

pub fn match_rule(command: &mut CrabCommand, system_shell: Option<&Shell>) -> (r: bool)
    ensures
        r == matches(old(command)@),
        *final(command) == *old(command),
{
    match utils::without_sudo(command) {
        Some(stripped) => _match_rule(&stripped),
        None => _match_rule(command),
    }
}

fn _get_new_command(command: &CrabCommand) -> (r: Vec<String>)
    ensures
        r.deep_view() == seq!["apt list --upgradable"@],
{
    let r = vec![text::owned("apt list --upgradable")];
    assert(r.deep_view() =~= seq!["apt list --upgradable"@]);
    r
}

pub fn get_new_command(command: &mut CrabCommand, system_shell: Option<&Shell>) -> (r: Vec<String>)
    ensures
        r.deep_view() == new_commands(old(command)@),
        *final(command) == *old(command),
{
    let plain = match utils::without_sudo(command) {
        Some(stripped) => _get_new_command(&stripped),
        None => _get_new_command(command),
    };
    utils::with_sudo(command, plain)
}

pub fn get_rule() -> (r: Rule)
    ensures
        r.name@ == "apt_list_upgradable"@,
        r.kind == RuleKind::AptListUpgradable,
        r.enabled_by_default && r.priority == 1000 && r.requires_output,
        r.side_effect is None,
{
    Rule::new(text::owned("apt_list_upgradable"), None, None, None, RuleKind::AptListUpgradable, None)
}

} // verus!
