//! `unzip` spilled an archive into the current directory: extract it into a
//! directory of its own (the side effect removes the spilled files). Whether
//! the archive can be read is asked of the file system by the program around
//! the library.
use super::utils;
use super::utils::git::{quote, shell_quoted};
use super::{Rule, RuleKind};
use crate::cli::command::{CommandView, CrabCommand, SideEffect};
use crate::shell::Shell;
use crate::text;
use vstd::prelude::*;

verus! {

/// The archive of `unzip [-flags] file[.zip] [file(s) ...] [-x file(s) ...]`:
/// the first word after the first that is no flag, with `.zip` added when
/// it lacks it.
pub open spec fn zipped_file_spec(parts: Seq<Seq<char>>) -> Option<Seq<char>>
    decreases parts.len(),
{
    if parts.len() == 0 {
        None
    } else if !text::starts_with(parts[0], "-"@) {
        if text::ends_with(parts[0], ".zip"@) {
            Some(parts[0])
        } else {
            Some(parts[0] + ".zip"@)
        }
    } else {
        zipped_file_spec(parts.drop_first())
    }
}

/// The command runs `unzip` without `-d`, names an archive, and the
/// archive spills: it can be read and holds more than one entry
/// (`zip_spills`).
pub open spec fn matches_given(c: CommandView, zip_spills: bool) -> bool {
    utils::is_app_spec(c, seq!["unzip"@], 0) && !text::contains(c.script, "-d"@)
        && zipped_file_spec(c.parts.skip(1)) is Some && zip_spills
}

/// The archive's name can be quoted for the shell.
pub open spec fn new_commands_defined(c: CommandView) -> bool {
    c.parts.len() > 0 && (zipped_file_spec(c.parts.skip(1)) matches Some(z) ==> shell_quoted(z)
        is Some)
}

/// The command with ` -d <archive>` appended; nothing without an archive.
pub open spec fn new_commands(c: CommandView) -> Seq<Seq<char>> {
    match zipped_file_spec(c.parts.skip(1)) {
        Some(z) => seq![c.script + " -d "@ + shell_quoted(z)->0],
        None => Seq::<Seq<char>>::empty(),
    }
}

/// The archive that the command unzips.
pub fn get_zipped_file(command: &CrabCommand) -> (r: Option<String>)
    requires
        command.script_parts.len() > 0,
    ensures
        r.deep_view() == zipped_file_spec(command@.parts.skip(1)),
{
    let ghost parts = command@.parts.skip(1);
    let mut i: usize = 1;
    assert(command@.parts.skip(1) =~= parts);
    while i < command.script_parts.len()
        invariant
            1 <= i <= command.script_parts.len(),
            parts == command@.parts.skip(1),
            zipped_file_spec(parts) == zipped_file_spec(command@.parts.skip(i as int)),
        decreases command.script_parts.len() - i,
    {
        let c = command.script_parts[i].as_str();
        assert(command@.parts.skip(i as int)[0] == c@);
        assert(command@.parts.skip(i as int).drop_first() =~= command@.parts.skip(i + 1));
        if !text::str_starts_with(c, "-") {
            if text::str_ends_with(c, ".zip") {
                return Some(text::owned(c));
            } else {
                return Some(text::concat(c, ".zip"));
            }
        }
        i = i + 1;
    }
    assert(command@.parts.skip(i as int) =~= Seq::<Seq<char>>::empty());
    None
}

/// The rule, with the answer whether the archive can be read and holds more
/// than one entry.
pub fn match_rule_given(command: &CrabCommand, zip_spills: bool) -> (r: bool)
    ensures
        r == matches_given(command@, zip_spills),
{
    let names = vec!["unzip"];
    assert(names.deep_view() =~= seq!["unzip"@]);
    if !utils::is_app(command, &names, 0) {
        return false;
    }
    if text::str_contains(command.script.as_str(), "-d") {
        return false;
    }
    match get_zipped_file(command) {
        Some(_) => zip_spills,
        None => false,
    }
}

/// Whether the archive's name can be quoted.
pub fn new_commands_available(command: &CrabCommand) -> (r: bool)
    ensures
        r == new_commands_defined(command@),
{
    if command.script_parts.len() == 0 {
        return false;
    }
    match get_zipped_file(command) {
        Some(z) => quote(z.as_str()).is_some(),
        None => true,
    }
}

pub fn get_new_command(command: &mut CrabCommand, system_shell: Option<&Shell>) -> (r: Vec<String>)
    requires
        new_commands_defined(old(command)@),
    ensures
        r.deep_view() == new_commands(old(command)@),
        *final(command) == *old(command),
{
    match get_zipped_file(command) {
        Some(zipped_file) => {
            let q = quote(zipped_file.as_str()).unwrap();
            let with_d = text::concat(command.script.as_str(), " -d ");
            let r = vec![text::concat(with_d.as_str(), q.as_str())];
            assert(r.deep_view() =~= new_commands(command@));
            r
        },
        None => {
            let r: Vec<String> = Vec::new();
            assert(r.deep_view() =~= new_commands(command@));
            r
        },
    }
}

/// Whether the side effect removes an entry of the archive: its file
/// (resolved to `canonical`) lies within the current directory `cwd`, and it
/// is a plain file (`is_file`).
pub fn side_effect_removes(canonical: &str, is_file: bool, cwd: &str) -> (r: bool)
    ensures
        r == (utils::lies_within(canonical@, cwd@) && is_file),
{
    utils::lies_within_dir(canonical, cwd) && is_file
}

pub fn get_rule() -> (r: Rule)
    ensures
        r.name@ == "dirty_unzip"@,
        r.kind == RuleKind::DirtyUnzip,
        r.enabled_by_default && r.priority == 1000 && r.requires_output,
        r.side_effect == Some(SideEffect::DirtyUnzip),
{
    Rule::new(
        text::owned("dirty_unzip"),
        None,
        None,
        None,
        RuleKind::DirtyUnzip,
        Some(SideEffect::DirtyUnzip),
    )
}

} // verus!
