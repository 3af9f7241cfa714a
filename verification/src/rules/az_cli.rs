//! The Azure CLI does not know a command: use the one it suggests.
use super::utils;
use super::{Rule, RuleKind};
use crate::cli::command::{CommandView, CrabCommand};
use crate::pattern;
use crate::shell::Shell;
use crate::text;
use vstd::prelude::*;

verus! {

/// The output says that the command is not in a command group.
pub open spec fn plain_matches(c: CommandView) -> bool {
    utils::output_has(c, "is not in the"@) && utils::output_has(c, "command group"@)
}

/// The command runs `az`, and `plain_matches`.
pub open spec fn matches(c: CommandView) -> bool {
    utils::is_app_spec(c, seq!["az"@], 0) && plain_matches(c)
}

/// The pattern of the mistyped command.
pub open spec fn mistake_pattern() -> Seq<char> {
    r"(?:az.*): '(.*)' is not in the '.*' command group\."@
}

/// The pattern of the suggested command.
pub open spec fn options_pattern() -> Seq<char> {
    r"(?m)^The most similar choice to '.*' is:\n\s*(.*)$"@
}

/// The suggestion can be read: there is output, it names the mistyped
/// command, and every suggestion holds a choice.
pub open spec fn new_commands_defined(c: CommandView) -> bool {
    c.output matches Some(o) && pattern::regex_captures(mistake_pattern(), o) is Some
        && pattern::all_hold_group(pattern::regex_all_captures(options_pattern(), o), 1)
}

/// For each suggestion, every occurrence of the mistyped command becomes it.
/// (The groups of the two matches are read as for the AWS CLI.)
pub open spec fn new_commands(c: CommandView) -> Seq<Seq<char>> {
    let o = c.output->0;
    super::aws_cli::commands_from(
        c.script,
        pattern::regex_captures(mistake_pattern(), o)->0,
        pattern::regex_all_captures(options_pattern(), o),
    )
}

fn auxiliary_match_rule(command: &CrabCommand) -> (r: bool)
    ensures
        r == plain_matches(command@),
{
    utils::output_contains(command, "is not in the") && utils::output_contains(
        command,
        "command group",
    )
}

pub fn match_rule(command: &mut CrabCommand, system_shell: Option<&Shell>) -> (r: bool)
    ensures
        r == matches(old(command)@),
        *final(command) == *old(command),
{
    let names = vec!["az"];
    assert(names.deep_view() =~= seq!["az"@]);
    utils::is_app(command, &names, 0) && auxiliary_match_rule(command)
}

/// Whether the suggestion can be read.
pub fn new_commands_available(command: &CrabCommand) -> (r: bool)
    ensures
        r == new_commands_defined(command@),
{
    match &command.output {
        Some(o) => pattern::captures(
            r"(?:az.*): '(.*)' is not in the '.*' command group\.",
            o.as_str(),
        ).is_some() && pattern::all_hold(
            &pattern::all_captures(r"(?m)^The most similar choice to '.*' is:\n\s*(.*)$", o.as_str()),
            1,
        ),
        None => false,
    }
}

pub fn get_new_command(command: &mut CrabCommand, system_shell: Option<&Shell>) -> (r: Vec<String>)
    requires
        new_commands_defined(old(command)@),
    ensures
        r.deep_view() == new_commands(old(command)@),
        *final(command) == *old(command),
{
    let output = command.output.as_ref().unwrap().as_str();
    let caps = pattern::captures(r"(?:az.*): '(.*)' is not in the '.*' command group\.", output).unwrap();
    let all = pattern::all_captures(r"(?m)^The most similar choice to '.*' is:\n\s*(.*)$", output);
    super::aws_cli::commands_from_groups(command.script.as_str(), &caps, &all)
}

pub fn get_rule() -> (r: Rule)
    ensures
        r.name@ == "az_cli"@,
        r.kind == RuleKind::AzCli,
        r.enabled_by_default && r.priority == 1000 && r.requires_output,
        r.side_effect is None,
{
    Rule::new(text::owned("az_cli"), None, None, None, RuleKind::AzCli, None)
}

} // verus!
