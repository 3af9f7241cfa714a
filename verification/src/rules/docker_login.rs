//! Docker denies access until one logs in: log in first.
use super::utils;
use super::{Rule, RuleKind};
use crate::cli::command::{CommandView, CrabCommand};
use crate::shell::Shell;
use crate::text;
use vstd::prelude::*;

verus! {

/// The output mentions docker, access denied, and `docker login`.
pub open spec fn plain_matches(c: CommandView) -> bool {
    utils::output_has(c, "docker"@) && utils::output_has(c, "access denied"@)
        && utils::output_has(c, "may require 'docker login'"@)
}

/// The command runs `docker`, and `plain_matches`.
pub open spec fn matches(c: CommandView) -> bool {
    utils::is_app_spec(c, seq!["docker"@], 0) && plain_matches(c)
}

/// `docker login && ` before the command (with its `sudo` moved in front).
pub open spec fn new_commands(c: CommandView) -> Seq<Seq<char>> {
    utils::sudo_restored(c, seq!["docker login && "@ + utils::sudo_stripped(c).script])
}

fn auxiliary_match_rule(command: &CrabCommand) -> (r: bool)
    ensures
        r == plain_matches(command@),
{
    utils::output_contains(command, "docker") && utils::output_contains(command, "access denied")
        && utils::output_contains(command, "may require 'docker login'")
}

pub fn match_rule(command: &mut CrabCommand, system_shell: Option<&Shell>) -> (r: bool)
    ensures
        r == matches(old(command)@),
        *final(command) == *old(command),
{
    let names = vec!["docker"];
    assert(names.deep_view() =~= seq!["docker"@]);
    utils::is_app(command, &names, 0) && auxiliary_match_rule(command)
}

pub fn auxiliary_get_new_command(command: &CrabCommand) -> (r: Vec<String>)
    ensures
        r.deep_view() == seq!["docker login && "@ + command@.script],
{
    let r = vec![text::concat("docker login && ", command.script.as_str())];
    assert(r.deep_view() =~= seq!["docker login && "@ + command@.script]);
    r
}

pub fn get_new_command(command: &mut CrabCommand, system_shell: Option<&Shell>) -> (r: Vec<String>)
    ensures
        r.deep_view() == new_commands(old(command)@),
        *final(command) == *old(command),
{
    let plain = match utils::without_sudo(command) {
        Some(stripped) => auxiliary_get_new_command(&stripped),
        None => auxiliary_get_new_command(command),
    };
    utils::with_sudo(command, plain)
}

pub fn get_rule() -> (r: Rule)
    ensures
        r.name@ == "docker_login"@,
        r.kind == RuleKind::DockerLogin,
        r.enabled_by_default && r.priority == 1000 && r.requires_output,
        r.side_effect is None,
{
    Rule::new(text::owned("docker_login"), None, None, None, RuleKind::DockerLogin, None)
}

} // verus!
