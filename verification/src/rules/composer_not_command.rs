//! Composer does not know the command: use the one it suggests.
use super::utils;
use super::{Rule, RuleKind};
use crate::cli::command::{CommandView, CrabCommand};
use crate::pattern;
use crate::shell::Shell;
use crate::text;
use vstd::prelude::*;

verus! {

/// The lower-cased output suggests one or more commands, or the command
/// installs and the output points to `composer require`.
pub open spec fn plain_matches(c: CommandView) -> bool {
    c.output matches Some(o) && {
        let lower = text::lowercase(o);
        (text::contains(lower, "did you mean this?"@) || text::contains(
            lower,
            "did you mean one of these?"@,
        )) || (c.parts.contains("install"@) && text::contains(lower, "composer require"@))
    }
}

/// The command runs `composer`, and `plain_matches`.
pub open spec fn matches(c: CommandView) -> bool {
    utils::is_app_spec(c, seq!["composer"@], 0) && plain_matches(c)
}

/// The pattern of composer's complaint.
pub open spec fn broken_pattern() -> Seq<char> {
    "Command \"([^']*)\" is not defined"@
}

/// The pattern of a single suggestion.
pub open spec fn new_pattern() -> Seq<char> {
    r"Did you mean this\?[^\n]*\n\s*([^\n]*)"@
}

/// The pattern of the first of several suggestions.
pub open spec fn new_pattern_alt() -> Seq<char> {
    r"Did you mean one of these\?[^\n]*\n\s*([^\n]*)"@
}

/// From the groups of the three patterns' matches: the broken command
/// (group 1 of `broken`) replaced in `script` by the suggestion (group 1 of
/// `new`, else of `new_alt`), trimmed; nothing without a broken command or a
/// suggestion.
pub open spec fn commands_from(
    script: Seq<char>,
    broken: Option<Seq<Option<Seq<char>>>>,
    new: Option<Seq<Option<Seq<char>>>>,
    new_alt: Option<Seq<Option<Seq<char>>>>,
) -> Seq<Seq<char>> {
    match broken {
        Some(b) => match new {
            Some(n) => seq![
                text::replace_all(script, pattern::group_text(b, 1), text::trim(pattern::group_text(n, 1))),
            ],
            None => match new_alt {
                Some(n) => seq![
                    text::replace_all(
                        script,
                        pattern::group_text(b, 1),
                        text::trim(pattern::group_text(n, 1)),
                    ),
                ],
                None => Seq::<Seq<char>>::empty(),
            },
        },
        None => Seq::<Seq<char>>::empty(),
    }
}

/// The broken command becomes the suggested one (trimmed): `install`
/// becomes `require` when composer points there; nothing when the output
/// names no broken command or no suggestion.
pub open spec fn new_commands(c: CommandView) -> Seq<Seq<char>> {
    match c.output {
        Some(o) => if c.parts.contains("install"@) && text::contains(
            text::lowercase(o),
            "composer require"@,
        ) {
            seq![text::replace_all(c.script, "install"@, text::trim("require"@))]
        } else {
            commands_from(
                c.script,
                pattern::regex_captures(broken_pattern(), o),
                pattern::regex_captures(new_pattern(), o),
                pattern::regex_captures(new_pattern_alt(), o),
            )
        },
        None => Seq::<Seq<char>>::empty(),
    }
}

fn auxiliary_match_rule(command: &CrabCommand) -> (r: bool)
    ensures
        r == plain_matches(command@),
{
    match &command.output {
        Some(output) => {
            let output_lower = text::str_lowercase(output.as_str());
            (text::str_contains(output_lower.as_str(), "did you mean this?") || text::str_contains(
                output_lower.as_str(),
                "did you mean one of these?",
            )) || (utils::contains_word(&command.script_parts, "install") && text::str_contains(
                output_lower.as_str(),
                "composer require",
            ))
        },
        None => false,
    }
}

pub fn match_rule(command: &mut CrabCommand, system_shell: Option<&Shell>) -> (r: bool)
    ensures
        r == matches(old(command)@),
        *final(command) == *old(command),
{
    let names = vec!["composer"];
    assert(names.deep_view() =~= seq!["composer"@]);
    utils::is_app(command, &names, 0) && auxiliary_match_rule(command)
}

/// The corrections that the groups of the three patterns' matches give.
pub fn commands_from_groups(
    script: &str,
    broken: &Option<Vec<Option<String>>>,
    new: &Option<Vec<Option<String>>>,
    new_alt: &Option<Vec<Option<String>>>,
) -> (r: Vec<String>)
    ensures
        r.deep_view() == commands_from(script@, broken.deep_view(), new.deep_view(), new_alt.deep_view()),
{
    let broken_cmd = match broken {
        Some(b) => pattern::group_or_empty(b, 1),
        None => {
            let r = Vec::<String>::new();
            assert(r.deep_view() =~= Seq::<Seq<char>>::empty());
            return r;
        },
    };
    let new_cmd = match new {
        Some(n) => pattern::group_or_empty(n, 1),
        None => match new_alt {
            Some(n) => pattern::group_or_empty(n, 1),
            None => {
                let r = Vec::<String>::new();
                assert(r.deep_view() =~= Seq::<Seq<char>>::empty());
                return r;
            },
        },
    };
    let trimmed = text::str_trim(new_cmd.as_str());
    let r = vec![text::str_replace(script, broken_cmd.as_str(), trimmed.as_str())];
    assert(r.deep_view() =~= commands_from(
        script@,
        broken.deep_view(),
        new.deep_view(),
        new_alt.deep_view(),
    ));
    r
}

pub fn get_new_command(command: &mut CrabCommand, system_shell: Option<&Shell>) -> (r: Vec<String>)
    ensures
        r.deep_view() == new_commands(old(command)@),
        *final(command) == *old(command),
{
    match &command.output {
        Some(output) => {
            let lower = text::str_lowercase(output.as_str());
            if utils::contains_word(&command.script_parts, "install") && text::str_contains(
                lower.as_str(),
                "composer require",
            ) {
                let trimmed = text::str_trim("require");
                let r = vec![text::str_replace(command.script.as_str(), "install", trimmed.as_str())];
                assert(r.deep_view() =~= new_commands(command@));
                r
            } else {
                let broken = pattern::captures("Command \"([^']*)\" is not defined", output.as_str());
                let new = pattern::captures(r"Did you mean this\?[^\n]*\n\s*([^\n]*)", output.as_str());
                let new_alt = pattern::captures(
                    r"Did you mean one of these\?[^\n]*\n\s*([^\n]*)",
                    output.as_str(),
                );
                commands_from_groups(command.script.as_str(), &broken, &new, &new_alt)
            }
        },
        None => {
            let r = Vec::<String>::new();
            assert(r.deep_view() =~= new_commands(command@));
            r
        },
    }
}

pub fn get_rule() -> (r: Rule)
    ensures
        r.name@ == "composer_not_command"@,
        r.kind == RuleKind::ComposerNotCommand,
        r.enabled_by_default && r.priority == 1000 && r.requires_output,
        r.side_effect is None,
{
    Rule::new(text::owned("composer_not_command"), None, None, None, RuleKind::ComposerNotCommand, None)
}

} // verus!
