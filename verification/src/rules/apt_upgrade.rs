//! `apt list --upgradable` listed packages: upgrade them.
use super::utils;
use super::{Rule, RuleKind};
use crate::cli::command::{CommandView, CrabCommand};
use crate::shell::Shell;
use crate::text;
use vstd::prelude::*;

verus! {

/// The command is `apt list --upgradable` and its trimmed output has more
/// than one line.
pub open spec fn plain_matches(c: CommandView) -> bool {
    c.script == "apt list --upgradable"@ && (c.output matches Some(o) && text::split_on(
        text::trim(o),
        '\n',
    ).len() > 1)
}

/// `plain_matches`, looking through a leading `sudo`.
pub open spec fn matches(c: CommandView) -> bool {
    plain_matches(utils::sudo_stripped(c))
}

pub fn _match_rule(command: &CrabCommand) -> (r: bool)
    ensures
        r == plain_matches(command@),
{
    let is_list = text::str_eq(command.script.as_str(), "apt list --upgradable");
    let several = match &command.output {
        Some(o) => {
            let t = text::str_trim(o.as_str());
            let lines = text::str_split(t.as_str(), '\n');
            lines.len() > 1
        },
        None => false,
    };
    is_list && several
}

pub fn match_rule(command: &mut CrabCommand, system_shell: Option<&Shell>) -> (r: bool)
    ensures
        r == matches(old(command)@),
        *final(command) == *old(command),
{
    match utils::without_sudo(command) {
        Some(stripped) => _match_rule(&stripped),
        None => _match_rule(command),
    }
}

pub fn get_new_command(command: &mut CrabCommand, system_shell: Option<&Shell>) -> (r: Vec<String>)
    ensures
        r.deep_view() == seq!["apt upgrade"@],
        *final(command) == *old(command),
{
    let r = vec![text::owned("apt upgrade")];
    assert(r.deep_view() =~= seq!["apt upgrade"@]);
    r
}

pub fn get_rule() -> (r: Rule)
    ensures
        r.name@ == "apt_upgrade"@,
        r.kind == RuleKind::AptUpgrade,
        r.enabled_by_default && r.priority == 1000 && r.requires_output,
        r.side_effect is None,
{
    Rule::new(text::owned("apt_upgrade"), None, None, None, RuleKind::AptUpgrade, None)
}

} // verus!
