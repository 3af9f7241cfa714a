//! An image in use cannot be removed: remove the container first.
use super::utils;
use super::{Rule, RuleKind};
use crate::cli::command::{CommandView, CrabCommand};
use crate::shell::Shell;
use crate::text;
use vstd::prelude::*;

verus! {

/// The output says that the image is used by a running container.
pub open spec fn plain_matches(c: CommandView) -> bool {
    utils::output_has(c, "image is being used by running container"@)
}

/// The command runs `docker`, and `plain_matches`.
pub open spec fn matches(c: CommandView) -> bool {
    utils::is_app_spec(c, seq!["docker"@], 0) && plain_matches(c)
}

/// Removes the container named by the last space-separated piece of the
/// trimmed output, then runs the command.
pub open spec fn plain_new_commands(c: CommandView) -> Seq<Seq<char>> {
    seq![
        "docker container rm -f "@ + text::split_on(text::trim(c.output->0), ' ').last() + " && "@
            + c.script,
    ]
}

/// `plain_new_commands`, looking through a leading `sudo`.
pub open spec fn new_commands(c: CommandView) -> Seq<Seq<char>> {
    utils::sudo_restored(c, plain_new_commands(utils::sudo_stripped(c)))
}

fn auxiliary_match_rule(command: &CrabCommand) -> (r: bool)
    ensures
        r == plain_matches(command@),
{
    utils::output_contains(command, "image is being used by running container")
}

pub fn match_rule(command: &mut CrabCommand, system_shell: Option<&Shell>) -> (r: bool)
    ensures
        r == matches(old(command)@),
        *final(command) == *old(command),
{
    let names = vec!["docker"];
    assert(names.deep_view() =~= seq!["docker"@]);
    utils::is_app(command, &names, 0) && auxiliary_match_rule(command)
}

pub fn auxiliary_get_new_command(command: &CrabCommand) -> (r: Vec<String>)
    requires
        command.output is Some,
    ensures
        r.deep_view() == plain_new_commands(command@),
{
    let output = command.output.as_ref().unwrap();
    let trimmed = text::str_trim(output.as_str());
    let pieces = text::str_split(trimmed.as_str(), ' ');
    proof {
        text::lemma_split_on_nonempty(trimmed@, ' ');
    }
    let container_id = pieces[pieces.len() - 1].as_str();
    let a = text::concat("docker container rm -f ", container_id);
    let b = text::concat(a.as_str(), " && ");
    let r = vec![text::concat(b.as_str(), command.script.as_str())];
    assert(r.deep_view() =~= plain_new_commands(command@));
    r
}

pub fn get_new_command(command: &mut CrabCommand, system_shell: Option<&Shell>) -> (r: Vec<String>)
    requires
        old(command).output is Some,
    ensures
        r.deep_view() == new_commands(old(command)@),
        *final(command) == *old(command),
{
    let plain = match utils::without_sudo(command) {
        Some(stripped) => auxiliary_get_new_command(&stripped),
        None => auxiliary_get_new_command(command),
    };
    utils::with_sudo(command, plain)
}

pub fn get_rule() -> (r: Rule)
    ensures
        r.name@ == "docker_image_being_used_by_container"@,
        r.kind == RuleKind::DockerImageBeingUsedByContainer,
        r.enabled_by_default && r.priority == 1000 && r.requires_output,
        r.side_effect is None,
{
    Rule::new(text::owned("docker_image_being_used_by_container"), None, None, None, RuleKind::DockerImageBeingUsedByContainer, None)
}

} // verus!
