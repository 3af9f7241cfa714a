//! `cd` into a directory that does not exist: create it first.
use super::utils;
use super::{Rule, RuleKind};
use crate::cli::command::{CommandView, CrabCommand};
use crate::pattern;
use crate::shell::Shell;
use crate::text;
use vstd::prelude::*;

verus! {

/// The command starts with `cd `, and the output, lower-cased, says that
/// the directory does not exist.
pub open spec fn plain_matches(c: CommandView) -> bool {
    c.output matches Some(o) && {
        let lower = text::lowercase(o);
        text::starts_with(c.script, "cd "@) && (text::contains(
            lower,
            "no such file or directory"@,
        ) || text::contains(lower, "cd: can't cd to"@) || text::contains(
            lower,
            "does not exist"@,
        ))
    }
}

/// Looking through a leading `sudo`: the command runs `cd`, and
/// `plain_matches`.
pub open spec fn matches(c: CommandView) -> bool {
    let s = utils::sudo_stripped(c);
    utils::is_app_spec(s, seq!["cd"@], 0) && plain_matches(s)
}

/// `cd <dir>` at the start becomes `mkdir -p <dir> && cd <dir>`.
pub open spec fn plain_new_commands(c: CommandView) -> Seq<Seq<char>> {
    seq![pattern::regex_replaced("^cd (.*)"@, c.script, "mkdir -p ${1} && cd ${1}"@)]
}

/// `plain_new_commands`, looking through a leading `sudo`.
pub open spec fn new_commands(c: CommandView) -> Seq<Seq<char>> {
    utils::sudo_restored(c, plain_new_commands(utils::sudo_stripped(c)))
}

fn auxiliary_match_rule(command: &CrabCommand) -> (r: bool)
    ensures
        r == plain_matches(command@),
{
    match &command.output {
        Some(stdout) => {
            let stdout = text::str_lowercase(stdout.as_str());
            text::str_starts_with(command.script.as_str(), "cd ") && (text::str_contains(
                stdout.as_str(),
                "no such file or directory",
            ) || text::str_contains(stdout.as_str(), "cd: can't cd to") || text::str_contains(
                stdout.as_str(),
                "does not exist",
            ))
        },
        None => false,
    }
}

fn match_cd(command: &CrabCommand) -> (r: bool)
    ensures
        r == (utils::is_app_spec(command@, seq!["cd"@], 0) && plain_matches(command@)),
{
    let names = vec!["cd"];
    assert(names.deep_view() =~= seq!["cd"@]);
    utils::is_app(command, &names, 0) && auxiliary_match_rule(command)
}

pub fn match_rule(command: &mut CrabCommand, system_shell: Option<&Shell>) -> (r: bool)
    ensures
        r == matches(old(command)@),
        *final(command) == *old(command),
{
    match utils::without_sudo(command) {
        Some(stripped) => match_cd(&stripped),
        None => match_cd(command),
    }
}

pub fn auxiliary_get_new_command(command: &CrabCommand) -> (r: Vec<String>)
    ensures
        r.deep_view() == plain_new_commands(command@),
{
    let r = vec![
        pattern::replace_first("^cd (.*)", command.script.as_str(), "mkdir -p ${1} && cd ${1}"),
    ];
    assert(r.deep_view() =~= plain_new_commands(command@));
    r
}

pub fn get_new_command(command: &mut CrabCommand, system_shell: Option<&Shell>) -> (r: Vec<String>)
    ensures
        r.deep_view() == new_commands(old(command)@),
        *final(command) == *old(command),
{
    let plain = match utils::without_sudo(command) {
        Some(stripped) => auxiliary_get_new_command(&stripped),
        None => auxiliary_get_new_command(command),
    };
    utils::with_sudo(command, plain)
}

pub fn get_rule() -> (r: Rule)
    ensures
        r.name@ == "cd_mkdir"@,
        r.kind == RuleKind::CdMkdir,
        r.enabled_by_default && r.priority == 1000 && r.requires_output,
        r.side_effect is None,
{
    Rule::new(text::owned("cd_mkdir"), None, None, None, RuleKind::CdMkdir, None)
}

} // verus!
