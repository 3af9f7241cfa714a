//! Conda suggests the command that was meant.
use super::utils;
use super::{Rule, RuleKind};
use crate::cli::command::{CommandView, CrabCommand};
use crate::pattern;
use crate::shell::Shell;
use crate::text;
use vstd::prelude::*;

verus! {

/// The command runs `conda`, and the output suggests a conda command.
pub open spec fn matches(c: CommandView) -> bool {
    utils::is_app_spec(c, seq!["conda"@], 0) && utils::output_has(c, "Did you mean 'conda"@)
}

/// The pattern of a quoted conda command.
pub open spec fn quoted_pattern() -> Seq<char> {
    r"'conda ([^']*)'"@
}

/// The quoted conda commands in the output.
pub open spec fn quoted(c: CommandView) -> Seq<Seq<Option<Seq<char>>>> {
    pattern::regex_all_captures(quoted_pattern(), c.output->0)
}

/// When there is output, it quotes at least two conda commands.
pub open spec fn new_commands_defined(c: CommandView) -> bool {
    c.output is Some ==> quoted(c).len() >= 2 && pattern::all_hold_group(quoted(c), 1)
}

/// The first quoted command (the broken one) becomes the second (the fix);
/// nothing without output.
pub open spec fn new_commands(c: CommandView) -> Seq<Seq<char>> {
    if c.output is Some {
        commands_from(c.script, quoted(c))
    } else {
        Seq::<Seq<char>>::empty()
    }
}

pub fn match_rule(command: &mut CrabCommand, system_shell: Option<&Shell>) -> (r: bool)
    ensures
        r == matches(old(command)@),
        *final(command) == *old(command),
{
    let names = vec!["conda"];
    assert(names.deep_view() =~= seq!["conda"@]);
    utils::is_app(command, &names, 0) && utils::output_contains(command, "Did you mean 'conda")
}

/// Whether the output quotes the two conda commands.
pub fn new_commands_available(command: &CrabCommand) -> (r: bool)
    ensures
        r == new_commands_defined(command@),
{
    match &command.output {
        Some(o) => {
            let ms = pattern::all_captures(r"'conda ([^']*)'", o.as_str());
            ms.len() >= 2 && pattern::all_hold(&ms, 1)
        },
        None => true,
    }
}

/// From the groups of every quoted command's match: the first quoted command
/// (group 1 of the first match) becomes the second (group 1 of the second).
pub open spec fn commands_from(script: Seq<char>, ms: Seq<Seq<Option<Seq<char>>>>) -> Seq<Seq<char>> {
    seq![text::replace_all(script, ms[0][1]->0, ms[1][1]->0)]
}

/// The corrections that the groups of the quoted commands' matches give;
/// there must be two matches, each holding its group.
pub fn commands_from_groups(script: &str, ms: &Vec<Vec<Option<String>>>) -> (r: Vec<String>)
    requires
        ms.len() >= 2,
        pattern::all_hold_group(ms.deep_view(), 1),
    ensures
        r.deep_view() == commands_from(script@, ms.deep_view()),
{
    let matches = pattern::groups(ms, 1);
    assert(matches.deep_view()[0] == matches@[0]@);
    assert(matches.deep_view()[1] == matches@[1]@);
    let r = vec![text::str_replace(script, matches[0].as_str(), matches[1].as_str())];
    assert(r.deep_view() =~= commands_from(script@, ms.deep_view()));
    r
}

pub fn get_new_command(command: &mut CrabCommand, system_shell: Option<&Shell>) -> (r: Vec<String>)
    requires
        new_commands_defined(old(command)@),
    ensures
        r.deep_view() == new_commands(old(command)@),
        *final(command) == *old(command),
{
    match &command.output {
        Some(output) => {
            let ms = pattern::all_captures(r"'conda ([^']*)'", output.as_str());
            assert(ms.deep_view() == quoted(command@));
            commands_from_groups(command.script.as_str(), &ms)
        },
        None => {
            let r: Vec<String> = Vec::new();
            assert(r.deep_view() =~= new_commands(command@));
            r
        },
    }
}

pub fn get_rule() -> (r: Rule)
    ensures
        r.name@ == "conda_mistype"@,
        r.kind == RuleKind::CondaMistype,
        r.enabled_by_default && r.priority == 1000 && r.requires_output,
        r.side_effect is None,
{
    Rule::new(text::owned("conda_mistype"), None, None, None, RuleKind::CondaMistype, None)
}

} // verus!
