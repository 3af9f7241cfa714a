//! The AWS CLI does not know a command: use the ones it suggests.
use super::utils;
use super::{Rule, RuleKind};
use crate::cli::command::{CommandView, CrabCommand};
use crate::pattern;
use crate::shell::Shell;
use crate::text;
use vstd::prelude::*;

verus! {

/// The output holds the usage and suggestions.
pub open spec fn plain_matches(c: CommandView) -> bool {
    utils::output_has(c, "usage:"@) && utils::output_has(c, "maybe you meant:"@)
}

/// The command runs `aws`, and `plain_matches`.
pub open spec fn matches(c: CommandView) -> bool {
    utils::is_app_spec(c, seq!["aws"@], 0) && plain_matches(c)
}

/// The pattern of the invalid choice.
pub open spec fn mistake_pattern() -> Seq<char> {
    r"Invalid choice: '(.*)', maybe you meant:"@
}

/// The pattern of a suggested choice, one per line.
pub open spec fn options_pattern() -> Seq<char> {
    r"(?m)^\s*\*\s(.*)$"@
}

/// The suggestions can be read: there is output, it names the invalid
/// choice, and every suggestion line holds a choice.
pub open spec fn plain_defined(c: CommandView) -> bool {
    c.output matches Some(o) && pattern::regex_captures(mistake_pattern(), o) is Some
        && pattern::all_hold_group(pattern::regex_all_captures(options_pattern(), o), 1)
}

/// For each suggestion, every occurrence of the invalid choice becomes it.
pub open spec fn plain_new_commands(c: CommandView) -> Seq<Seq<char>> {
    let o = c.output->0;
    commands_from(
        c.script,
        pattern::regex_captures(mistake_pattern(), o)->0,
        pattern::regex_all_captures(options_pattern(), o),
    )
}

/// From the groups of the invalid choice's match and of every suggestion's
/// match: for each suggestion (group 1), every occurrence of the invalid
/// choice (group 1) in `script` becomes it.
pub open spec fn commands_from(
    script: Seq<char>,
    mistake: Seq<Option<Seq<char>>>,
    options: Seq<Seq<Option<Seq<char>>>>,
) -> Seq<Seq<char>> {
    pattern::groups_of(options, 1).map_values(
        |opt: Seq<char>| text::replace_all(script, pattern::group_text(mistake, 1), opt),
    )
}

/// `plain_defined`, looking through a leading `sudo`.
pub open spec fn new_commands_defined(c: CommandView) -> bool {
    plain_defined(utils::sudo_stripped(c))
}

/// `plain_new_commands`, looking through a leading `sudo`.
pub open spec fn new_commands(c: CommandView) -> Seq<Seq<char>> {
    utils::sudo_restored(c, plain_new_commands(utils::sudo_stripped(c)))
}

fn auxiliary_match_rule(command: &CrabCommand) -> (r: bool)
    ensures
        r == plain_matches(command@),
{
    utils::output_contains(command, "usage:") && utils::output_contains(command, "maybe you meant:")
}

pub fn match_rule(command: &mut CrabCommand, system_shell: Option<&Shell>) -> (r: bool)
    ensures
        r == matches(old(command)@),
        *final(command) == *old(command),
{
    let names = vec!["aws"];
    assert(names.deep_view() =~= seq!["aws"@]);
    utils::is_app(command, &names, 0) && auxiliary_match_rule(command)
}

fn plain_available(command: &CrabCommand) -> (r: bool)
    ensures
        r == plain_defined(command@),
{
    match &command.output {
        Some(o) => pattern::captures(r"Invalid choice: '(.*)', maybe you meant:", o.as_str()).is_some()
            && pattern::all_hold(&pattern::all_captures(r"(?m)^\s*\*\s(.*)$", o.as_str()), 1),
        None => false,
    }
}

/// Whether the suggestions can be read.
pub fn new_commands_available(command: &CrabCommand) -> (r: bool)
    ensures
        r == new_commands_defined(command@),
{
    match utils::without_sudo(command) {
        Some(stripped) => plain_available(&stripped),
        None => plain_available(command),
    }
}

pub fn auxiliary_get_new_command(command: &CrabCommand) -> (r: Vec<String>)
    requires
        plain_defined(command@),
    ensures
        r.deep_view() == plain_new_commands(command@),
{
    let output = command.output.as_ref().unwrap().as_str();
    let caps = pattern::captures(r"Invalid choice: '(.*)', maybe you meant:", output).unwrap();
    let all = pattern::all_captures(r"(?m)^\s*\*\s(.*)$", output);
    commands_from_groups(command.script.as_str(), &caps, &all)
}

/// The corrections that the groups of the invalid choice's match and of the
/// suggestions' matches give; every suggestion's match must hold its group.
pub fn commands_from_groups(
    script: &str,
    mistake_groups: &Vec<Option<String>>,
    all: &Vec<Vec<Option<String>>>,
) -> (r: Vec<String>)
    requires
        pattern::all_hold_group(all.deep_view(), 1),
    ensures
        r.deep_view() == commands_from(script@, mistake_groups.deep_view(), all.deep_view()),
{
    let mistake = pattern::group_or_empty(mistake_groups, 1);
    let options = pattern::groups(&all, 1);
    let mut r: Vec<String> = Vec::new();
    let mut i: usize = 0;
    while i < options.len()
        invariant
            i <= options.len(),
            r.deep_view() == options.deep_view().take(i as int).map_values(
                |opt: Seq<char>| text::replace_all(script@, mistake@, opt),
            ),
        decreases options.len() - i,
    {
        let item = text::str_replace(script, mistake.as_str(), options[i].as_str());
        let ghost before = r;
        let ghost x = item;
        r.push(item);
        proof {
            text::lemma_vec_push_deep(before, r, x);
            assert(options.deep_view().take(i + 1).map_values(
                |opt: Seq<char>| text::replace_all(script@, mistake@, opt),
            ) =~= options.deep_view().take(i as int).map_values(
                |opt: Seq<char>| text::replace_all(script@, mistake@, opt),
            ).push(x@));
        }
        i = i + 1;
    }
    assert(options.deep_view().take(options.len() as int) =~= options.deep_view());
    r
}

pub fn get_new_command(command: &mut CrabCommand, system_shell: Option<&Shell>) -> (r: Vec<String>)
    requires
        new_commands_defined(old(command)@),
    ensures
        r.deep_view() == new_commands(old(command)@),
        *final(command) == *old(command),
{
    let plain = match utils::without_sudo(command) {
        Some(stripped) => auxiliary_get_new_command(&stripped),
        None => auxiliary_get_new_command(command),
    };
    utils::with_sudo(command, plain)
}

pub fn get_rule() -> (r: Rule)
    ensures
        r.name@ == "aws_cli"@,
        r.kind == RuleKind::AwsCli,
        r.enabled_by_default && r.priority == 1000 && r.requires_output,
        r.side_effect is None,
{
    Rule::new(text::owned("aws_cli"), None, None, None, RuleKind::AwsCli, None)
}

} // verus!
