//! The formula is already installed: reinstall it.
use super::utils;
use super::{Rule, RuleKind};
use crate::cli::command::{CommandView, CrabCommand};
use crate::pattern;
use crate::shell::Shell;
use crate::text;
use vstd::prelude::*;

verus! {

/// The pattern of brew's warning.
pub open spec fn warning_pattern() -> Seq<char> {
    r"Warning: .+ is already installed and up-to-date"@
}

/// The pattern of brew's advice.
pub open spec fn message_pattern() -> Seq<char> {
    r"To reinstall .+, run `brew reinstall [^`]+`"@
}

/// The command installs, and the output holds brew's warning and advice.
pub open spec fn plain_matches(c: CommandView) -> bool {
    c.output matches Some(o) && text::contains(c.script, "install"@) && pattern::regex_captures(
        warning_pattern(),
        o,
    ) is Some && pattern::regex_captures(message_pattern(), o) is Some
}

/// The command runs `brew` with at least three words, and `plain_matches`.
pub open spec fn matches(c: CommandView) -> bool {
    utils::is_app_spec(c, seq!["brew"@], 2) && plain_matches(c)
}

/// Every `install` becomes `reinstall`.
pub open spec fn new_commands(c: CommandView) -> Seq<Seq<char>> {
    seq![text::replace_all(c.script, "install"@, "reinstall"@)]
}

fn auxiliary_match_rule(command: &CrabCommand) -> (r: bool)
    ensures
        r == plain_matches(command@),
{
    match &command.output {
        Some(output) => text::str_contains(command.script.as_str(), "install")
            && pattern::captures(
            r"Warning: .+ is already installed and up-to-date",
            output.as_str(),
        ).is_some() && pattern::captures(
            r"To reinstall .+, run `brew reinstall [^`]+`",
            output.as_str(),
        ).is_some(),
        None => false,
    }
}

pub fn match_rule(command: &mut CrabCommand, system_shell: Option<&Shell>) -> (r: bool)
    ensures
        r == matches(old(command)@),
        *final(command) == *old(command),
{
    let names = vec!["brew"];
    assert(names.deep_view() =~= seq!["brew"@]);
    utils::is_app(command, &names, 2) && auxiliary_match_rule(command)
}

pub fn get_new_command(command: &mut CrabCommand, system_shell: Option<&Shell>) -> (r: Vec<String>)
    ensures
        r.deep_view() == new_commands(old(command)@),
        *final(command) == *old(command),
{
    let r = vec![text::str_replace(command.script.as_str(), "install", "reinstall")];
    assert(r.deep_view() =~= new_commands(command@));
    r
}

pub fn get_rule() -> (r: Rule)
    ensures
        r.name@ == "brew_reinstall"@,
        r.kind == RuleKind::BrewReinstall,
        r.enabled_by_default && r.priority == 1000 && r.requires_output,
        r.side_effect is None,
{
    Rule::new(text::owned("brew_reinstall"), None, None, None, RuleKind::BrewReinstall, None)
}

} // verus!
