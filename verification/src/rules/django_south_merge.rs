//! South's migration conflict: retry with `--merge`.
use super::utils;
use super::{Rule, RuleKind};
use crate::cli::command::{CommandView, CrabCommand};
use crate::shell::Shell;
use crate::text;
use vstd::prelude::*;

verus! {

/// The command runs `manage.py` `migrate`, and the output offers
/// `--merge`.
pub open spec fn matches(c: CommandView) -> bool {
    text::contains(c.script, "manage.py"@) && text::contains(c.script, "migrate"@)
        && utils::output_has(c, "--merge: will just attempt the migration"@)
}

/// The command with ` --merge` appended.
pub open spec fn new_commands(c: CommandView) -> Seq<Seq<char>> {
    seq![c.script + " --merge"@]
}

pub fn match_rule(command: &mut CrabCommand, system_shell: Option<&Shell>) -> (r: bool)
    ensures
        r == matches(old(command)@),
        *final(command) == *old(command),
{
    text::str_contains(command.script.as_str(), "manage.py") && text::str_contains(
        command.script.as_str(),
        "migrate",
    ) && utils::output_contains(command, "--merge: will just attempt the migration")
}

pub fn get_new_command(command: &mut CrabCommand, system_shell: Option<&Shell>) -> (r: Vec<String>)
    ensures
        r.deep_view() == new_commands(old(command)@),
        *final(command) == *old(command),
{
    let r = vec![text::concat(command.script.as_str(), " --merge")];
    assert(r.deep_view() =~= new_commands(command@));
    r
}

pub fn get_rule() -> (r: Rule)
    ensures
        r.name@ == "django_south_merge"@,
        r.kind == RuleKind::DjangoSouthMerge,
        r.enabled_by_default && r.priority == 1000 && r.requires_output,
        r.side_effect is None,
{
    Rule::new(text::owned("django_south_merge"), None, None, None, RuleKind::DjangoSouthMerge, None)
}

} // verus!
