//! `cat` on a directory: list it instead.
use super::utils;
use super::{Rule, RuleKind};
use crate::cli::command::{CommandView, CrabCommand};
use crate::pattern;
use crate::shell::Shell;
use crate::text;
use vstd::prelude::*;

verus! {

/// The output starts with `cat: ` and there is a second word.
pub open spec fn output_suggests(c: CommandView) -> bool {
    c.output matches Some(o) && c.parts.len() > 1 && text::starts_with(o, "cat: "@)
}

/// The command runs `cat` with a second word, and the output suggests a
/// directory, which `is_dir` confirms.
pub open spec fn matches_given(c: CommandView, is_dir: bool) -> bool {
    utils::is_app_spec(c, seq!["cat"@], 1) && output_suggests(c) && is_dir
}

/// The first `cat` becomes `ls`.
pub open spec fn new_commands(c: CommandView) -> Seq<Seq<char>> {
    seq![text::replace_n(c.script, "cat"@, "ls"@, 1)]
}

/// The rule, with the answer whether the second word names a directory.
pub fn mockable_match_rule(
    command: &mut CrabCommand,
    system_shell: Option<&Shell>,
    is_dir: bool,
) -> (r: bool)
    ensures
        r == matches_given(old(command)@, is_dir),
        *final(command) == *old(command),
{
    let names = vec!["cat"];
    assert(names.deep_view() =~= seq!["cat"@]);
    utils::is_app(command, &names, 1) && match &command.output {
        Some(output) => command.script_parts.len() > 1 && text::str_starts_with(
            output.as_str(),
            "cat: ",
        ) && is_dir,
        None => false,
    }
}

/// The path whose kind decides the rule: the second word.
pub fn dir_argument(command: &CrabCommand) -> (r: &str)
    requires
        command@.parts.len() > 1,
    ensures
        r@ == command@.parts[1],
{
    command.script_parts[1].as_str()
}

/// Matches when the command runs `cat` on a second word that names a
/// directory. Only when the rest holds is the file system asked, about
/// `dir_argument(command)`; its answer is not stated.
pub fn match_rule(command: &mut CrabCommand, system_shell: Option<&Shell>) -> (r: bool)
    ensures
        r ==> utils::is_app_spec(old(command)@, seq!["cat"@], 1) && output_suggests(old(command)@),
        *final(command) == *old(command),
{
    let names = vec!["cat"];
    assert(names.deep_view() =~= seq!["cat"@]);
    if utils::is_app(command, &names, 1) && match &command.output {
        Some(output) => command.script_parts.len() > 1 && text::str_starts_with(
            output.as_str(),
            "cat: ",
        ),
        None => false,
    } {
        let is_dir = utils::path_is_dir(dir_argument(command));
        mockable_match_rule(command, system_shell, is_dir)
    } else {
        false
    }
}

pub fn get_new_command(command: &mut CrabCommand, system_shell: Option<&Shell>) -> (r: Vec<String>)
    ensures
        r.deep_view() == new_commands(old(command)@),
        *final(command) == *old(command),
{
    let r = vec![text::str_replacen(command.script.as_str(), "cat", "ls", 1)];
    assert(r.deep_view() =~= new_commands(command@));
    r
}

pub fn get_rule() -> (r: Rule)
    ensures
        r.name@ == "cat_dir"@,
        r.kind == RuleKind::CatDir,
        r.enabled_by_default && r.priority == 1000 && r.requires_output,
        r.side_effect is None,
{
    Rule::new(text::owned("cat_dir"), None, None, None, RuleKind::CatDir, None)
}

} // verus!
