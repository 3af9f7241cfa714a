//! `brew uninstall` refuses while other versions are installed: force it.
use super::utils;
use super::{Rule, RuleKind};
use crate::cli::command::{CommandView, CrabCommand};
use crate::shell::Shell;
use crate::text;
use vstd::prelude::*;

verus! {

/// The second word is `uninstall`, `rm` or `remove`, and the output
/// suggests `brew uninstall --force`.
pub open spec fn plain_matches(c: CommandView) -> bool {
    (c.parts.len() > 1 && (c.parts[1] == "uninstall"@ || c.parts[1] == "rm"@ || c.parts[1]
        == "remove"@)) && utils::output_has(c, "brew uninstall --force"@)
}

/// The command runs `brew` with at least three words, and `plain_matches`.
pub open spec fn matches(c: CommandView) -> bool {
    utils::is_app_spec(c, seq!["brew"@], 2) && plain_matches(c)
}

/// The words, the second replaced by `uninstall` and followed by
/// `--force`, joined by spaces.
pub open spec fn new_commands(c: CommandView) -> Seq<Seq<char>> {
    seq![text::join(c.parts.update(1, "uninstall"@).insert(2, "--force"@), " "@)]
}

fn auxiliary_match_rule(command: &CrabCommand) -> (r: bool)
    ensures
        r == plain_matches(command@),
{
    let second = command.script_parts.len() > 1 && (text::str_eq(
        command.script_parts[1].as_str(),
        "uninstall",
    ) || text::str_eq(command.script_parts[1].as_str(), "rm") || text::str_eq(
        command.script_parts[1].as_str(),
        "remove",
    ));
    second && utils::output_contains(command, "brew uninstall --force")
}

pub fn match_rule(command: &mut CrabCommand, system_shell: Option<&Shell>) -> (r: bool)
    ensures
        r == matches(old(command)@),
        *final(command) == *old(command),
{
    let names = vec!["brew"];
    assert(names.deep_view() =~= seq!["brew"@]);
    utils::is_app(command, &names, 2) && auxiliary_match_rule(command)
}

pub fn get_new_command(command: &mut CrabCommand, system_shell: Option<&Shell>) -> (r: Vec<String>)
    requires
        old(command).script_parts.len() > 1,
    ensures
        r.deep_view() == new_commands(old(command)@),
        *final(command) == *old(command),
{
    let mut command_parts = utils::copy_strings(&command.script_parts);
    command_parts.set(1, text::owned("uninstall"));
    command_parts.insert(2, text::owned("--force"));
    assert(command_parts.deep_view() =~= command@.parts.update(1, "uninstall"@).insert(
        2,
        "--force"@,
    ));
    let r = vec![text::str_join(&command_parts, " ")];
    assert(r.deep_view() =~= new_commands(command@));
    r
}

pub fn get_rule() -> (r: Rule)
    ensures
        r.name@ == "brew_uninstall"@,
        r.kind == RuleKind::BrewUninstall,
        r.enabled_by_default && r.priority == 1000 && r.requires_output,
        r.side_effect is None,
{
    Rule::new(text::owned("brew_uninstall"), None, None, None, RuleKind::BrewUninstall, None)
}

} // verus!
