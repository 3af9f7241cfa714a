//! A script in the current directory is not executable: make it so. Whether
//! the file exists and can be executed is asked of the file system by the
//! program around the library.
use super::utils;
use super::{Rule, RuleKind};
use crate::cli::command::{CommandView, CrabCommand};
use crate::pattern;
use crate::shell::Shell;
use crate::text;
use vstd::prelude::*;

verus! {

/// The command runs `./...`, its output, lower-cased, says permission
/// denied, the file exists, and it cannot be executed by its owner.
pub open spec fn matches_given(c: CommandView, file_exists: bool, file_access: bool) -> bool {
    c.output matches Some(o) && text::starts_with(c.script, "./"@) && text::contains(
        text::lowercase(o),
        "permission denied"@,
    ) && file_exists && !file_access
}

/// The file's name can be read from the first word.
pub open spec fn new_commands_defined(c: CommandView) -> bool {
    c.parts.len() > 0 && text::is_boundary(c.parts[0], 2)
}

/// `chmod +x` of the file, then the command.
pub open spec fn new_commands(c: CommandView, sh: Shell) -> Seq<Seq<char>> {
    seq![
        crate::shell::and_spec(
            sh,
            seq![
                "chmod +x "@ + c.parts[0].skip(text::chars_before(c.parts[0], 2)),
                c.script,
            ],
        ),
    ]
}

/// The rule, with the answers whether the file exists and whether its owner
/// may execute it.
pub fn match_rule_given(command: &CrabCommand, file_exists: bool, file_access: bool) -> (r: bool)
    ensures
        r == matches_given(command@, file_exists, file_access),
{
    match &command.output {
        Some(stdout) => {
            let lower = text::str_lowercase(stdout.as_str());
            text::str_starts_with(command.script.as_str(), "./") && text::str_contains(
                lower.as_str(),
                "permission denied",
            ) && file_exists && !file_access
        },
        None => false,
    }
}

pub fn get_new_command(command: &mut CrabCommand, system_shell: Option<&Shell>) -> (r: Vec<String>)
    requires
        system_shell is Some,
        new_commands_defined(old(command)@),
    ensures
        r.deep_view() == new_commands(old(command)@, *system_shell.unwrap()),
        *final(command) == *old(command),
{
    let file = text::str_from_byte(command.script_parts[0].as_str(), 2);
    let chmod = text::concat("chmod +x ", file.as_str());
    let cmds = vec![chmod.as_str(), command.script.as_str()];
    assert(cmds.deep_view() =~= seq![chmod@, command@.script]);
    let r = vec![system_shell.unwrap().and(cmds)];
    assert(r.deep_view() =~= new_commands(command@, *system_shell.unwrap()));
    r
}

pub fn get_rule() -> (r: Rule)
    ensures
        r.name@ == "chmod_x"@,
        r.kind == RuleKind::ChmodX,
        r.enabled_by_default && r.priority == 1000 && r.requires_output,
        r.side_effect is None,
{
    Rule::new(text::owned("chmod_x"), None, None, None, RuleKind::ChmodX, None)
}

} // verus!
