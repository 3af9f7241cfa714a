//! No formula has that name: install the ones brew suggests.
use super::utils;
use super::{Rule, RuleKind};
use crate::cli::command::{CommandView, CrabCommand};
use crate::pattern;
use crate::shell::Shell;
use crate::text;
use vstd::prelude::*;

verus! {

/// The command installs, and the output says no formula has that name and
/// suggests others.
pub open spec fn matches(c: CommandView) -> bool {
    c.output is Some && text::contains(c.script, "install"@) && utils::output_has(
        c,
        "No available formula"@,
    ) && utils::output_has(c, "Did you mean"@)
}

/// The pattern of brew's suggestion.
pub open spec fn suggestion_pattern() -> Seq<char> {
    "Warning: No available formula with the name \"(?:[^\"]+)\". Did you mean (.+)\\?"@
}

/// The suggestions in a list such as `a, b or c`.
pub open spec fn suggestions(s: Seq<char>) -> Seq<Seq<char>> {
    text::split_str(text::replace_all(s, " or "@, ", "@), ", "@)
}

/// The suggestions can be read: there is output, and it holds brew's
/// suggestion.
pub open spec fn new_commands_defined(c: CommandView) -> bool {
    c.output matches Some(o) && pattern::regex_captures(suggestion_pattern(), o) is Some
}

/// `brew install` of each suggestion.
pub open spec fn new_commands(c: CommandView) -> Seq<Seq<char>> {
    commands_from(pattern::regex_captures(suggestion_pattern(), c.output->0)->0)
}

/// `brew install` of each suggestion in group 1 of the suggestion's match.
pub open spec fn commands_from(g: Seq<Option<Seq<char>>>) -> Seq<Seq<char>> {
    suggestions(pattern::group_text(g, 1)).map_values(|f: Seq<char>| "brew install "@ + f)
}

/// The suggestions in a list such as `a, b or c`.
pub fn get_suggestions(str: String) -> (r: Vec<String>)
    ensures
        r.deep_view() == suggestions(str@),
{
    let commas = text::str_replace(str.as_str(), " or ", ", ");
    proof {
        reveal_strlit(", ");
    }
    text::str_split_str(commas.as_str(), ", ")
}

pub fn match_rule(command: &mut CrabCommand, system_shell: Option<&Shell>) -> (r: bool)
    ensures
        r == matches(old(command)@),
        *final(command) == *old(command),
{
    command.output.is_some() && text::str_contains(command.script.as_str(), "install")
        && utils::output_contains(command, "No available formula") && utils::output_contains(
        command,
        "Did you mean",
    )
}

/// Whether the suggestions can be read from the output.
pub fn new_commands_available(command: &CrabCommand) -> (r: bool)
    ensures
        r == new_commands_defined(command@),
{
    match &command.output {
        Some(o) => pattern::captures(
            "Warning: No available formula with the name \"(?:[^\"]+)\". Did you mean (.+)\\?",
            o.as_str(),
        ).is_some(),
        None => false,
    }
}

pub fn get_new_command(command: &mut CrabCommand, system_shell: Option<&Shell>) -> (r: Vec<String>)
    requires
        new_commands_defined(old(command)@),
    ensures
        r.deep_view() == new_commands(old(command)@),
        *final(command) == *old(command),
{
    let stdout = command.output.as_ref().unwrap();
    let caps = pattern::captures(
        "Warning: No available formula with the name \"(?:[^\"]+)\". Did you mean (.+)\\?",
        stdout.as_str(),
    ).unwrap();
    commands_from_groups(&caps)
}

/// The corrections that the groups of the suggestion's match give.
pub fn commands_from_groups(caps: &Vec<Option<String>>) -> (r: Vec<String>)
    ensures
        r.deep_view() == commands_from(caps.deep_view()),
{
    let suggestions = get_suggestions(pattern::group_or_empty(caps, 1));
    let mut r: Vec<String> = Vec::new();
    let mut i: usize = 0;
    while i < suggestions.len()
        invariant
            i <= suggestions.len(),
            r.deep_view() == suggestions.deep_view().take(i as int).map_values(
                |f: Seq<char>| "brew install "@ + f,
            ),
        decreases suggestions.len() - i,
    {
        let item = text::concat("brew install ", suggestions[i].as_str());
        let ghost before = r;
        let ghost x = item;
        r.push(item);
        proof {
            text::lemma_vec_push_deep(before, r, x);
            assert(suggestions.deep_view().take(i + 1).map_values(|f: Seq<char>| "brew install "@ + f)
                =~= suggestions.deep_view().take(i as int).map_values(
                |f: Seq<char>| "brew install "@ + f,
            ).push(x@));
        }
        i = i + 1;
    }
    assert(suggestions.deep_view().take(suggestions.len() as int) =~= suggestions.deep_view());
    r
}

pub fn get_rule() -> (r: Rule)
    ensures
        r.name@ == "brew_install"@,
        r.kind == RuleKind::BrewInstall,
        r.enabled_by_default && r.priority == 1000 && r.requires_output,
        r.side_effect is None,
{
    Rule::new(text::owned("brew_install"), None, None, None, RuleKind::BrewInstall, None)
}

} // verus!
