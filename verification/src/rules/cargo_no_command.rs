//! Cargo has no such subcommand: use the one it suggests.
use super::utils;
use super::{Rule, RuleKind};
use crate::cli::command::{CommandView, CrabCommand};
use crate::pattern;
use crate::shell::Shell;
use crate::text;
use vstd::prelude::*;

verus! {

/// There is a second word, and the output says there is no such subcommand
/// and suggests another.
pub open spec fn plain_matches(c: CommandView) -> bool {
    c.output matches Some(o) && c.parts.len() > 1 && text::contains(
        text::lowercase(o),
        "no such subcommand"@,
    ) && text::contains(o, "Did you mean"@)
}

/// The command runs `cargo` with a second word, and `plain_matches`.
pub open spec fn matches(c: CommandView) -> bool {
    utils::is_app_spec(c, seq!["cargo"@], 1) && plain_matches(c)
}

/// The pattern of cargo's suggestion.
pub open spec fn fix_pattern() -> Seq<char> {
    r"Did you mean `([^`]*)`"@
}

/// The suggestion can be read: a second word, and output that holds it.
pub open spec fn plain_defined(c: CommandView) -> bool {
    c.parts.len() > 1 && (c.output matches Some(o) && pattern::regex_captures(fix_pattern(), o)
        is Some)
}

/// Every occurrence of the second word becomes the suggestion.
pub open spec fn plain_new_commands(c: CommandView) -> Seq<Seq<char>> {
    commands_from(c.script, c.parts[1], pattern::regex_captures(fix_pattern(), c.output->0)->0)
}

/// Every occurrence of `broken` in `script` becomes the suggestion, group 1
/// of the suggestion's match.
pub open spec fn commands_from(script: Seq<char>, broken: Seq<char>, g: Seq<Option<Seq<char>>>) -> Seq<
    Seq<char>,
> {
    seq![text::replace_all(script, broken, pattern::group_text(g, 1))]
}

/// `plain_defined`, looking through a leading `sudo`.
pub open spec fn new_commands_defined(c: CommandView) -> bool {
    plain_defined(utils::sudo_stripped(c))
}

/// `plain_new_commands`, looking through a leading `sudo`.
pub open spec fn new_commands(c: CommandView) -> Seq<Seq<char>> {
    utils::sudo_restored(c, plain_new_commands(utils::sudo_stripped(c)))
}

fn auxiliary_match_rule(command: &CrabCommand) -> (r: bool)
    ensures
        r == plain_matches(command@),
{
    match &command.output {
        Some(output) => {
            let lower = text::str_lowercase(output.as_str());
            command.script_parts.len() > 1 && text::str_contains(
                lower.as_str(),
                "no such subcommand",
            ) && text::str_contains(output.as_str(), "Did you mean")
        },
        None => false,
    }
}

pub fn match_rule(command: &mut CrabCommand, system_shell: Option<&Shell>) -> (r: bool)
    ensures
        r == matches(old(command)@),
        *final(command) == *old(command),
{
    let names = vec!["cargo"];
    assert(names.deep_view() =~= seq!["cargo"@]);
    utils::is_app(command, &names, 1) && auxiliary_match_rule(command)
}

fn plain_available(command: &CrabCommand) -> (r: bool)
    ensures
        r == plain_defined(command@),
{
    command.script_parts.len() > 1 && match &command.output {
        Some(o) => pattern::captures(r"Did you mean `([^`]*)`", o.as_str()).is_some(),
        None => false,
    }
}

/// Whether the suggestion can be read.
pub fn new_commands_available(command: &CrabCommand) -> (r: bool)
    ensures
        r == new_commands_defined(command@),
{
    match utils::without_sudo(command) {
        Some(stripped) => plain_available(&stripped),
        None => plain_available(command),
    }
}

pub fn auxiliary_get_new_command(command: &CrabCommand) -> (r: Vec<String>)
    requires
        plain_defined(command@),
    ensures
        r.deep_view() == plain_new_commands(command@),
{
    let broken = command.script_parts[1].as_str();
    let caps = pattern::captures(
        r"Did you mean `([^`]*)`",
        command.output.as_ref().unwrap().as_str(),
    ).unwrap();
    assert(command@.parts[1] == command.script_parts@[1]@);
    commands_from_groups(command.script.as_str(), broken, &caps)
}

/// The corrections that the groups of the suggestion's match give.
pub fn commands_from_groups(script: &str, broken: &str, caps: &Vec<Option<String>>) -> (r: Vec<String>)
    ensures
        r.deep_view() == commands_from(script@, broken@, caps.deep_view()),
{
    let fix = pattern::group_or_empty(caps, 1);
    let r = vec![text::str_replace(script, broken, fix.as_str())];
    assert(r.deep_view() =~= commands_from(script@, broken@, caps.deep_view()));
    r
}

pub fn get_new_command(command: &mut CrabCommand, system_shell: Option<&Shell>) -> (r: Vec<String>)
    requires
        new_commands_defined(old(command)@),
    ensures
        r.deep_view() == new_commands(old(command)@),
        *final(command) == *old(command),
{
    let plain = match utils::without_sudo(command) {
        Some(stripped) => auxiliary_get_new_command(&stripped),
        None => auxiliary_get_new_command(command),
    };
    utils::with_sudo(command, plain)
}

pub fn get_rule() -> (r: Rule)
    ensures
        r.name@ == "cargo_no_command"@,
        r.kind == RuleKind::CargoNoCommand,
        r.enabled_by_default && r.priority == 1000 && r.requires_output,
        r.side_effect is None,
{
    Rule::new(text::owned("cargo_no_command"), None, None, None, RuleKind::CargoNoCommand, None)
}

} // verus!
