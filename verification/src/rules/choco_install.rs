//! Chocolatey installs the package that holds the program as `<name>.install`.
use super::utils;
use super::{Rule, RuleKind};
use crate::cli::command::{CommandView, CrabCommand};
use crate::shell::Shell;
use crate::text;
use vstd::prelude::*;

verus! {

/// The output lists packages to install, and the command is
/// `choco install` or runs `cinst`.
pub open spec fn matches(c: CommandView) -> bool {
    utils::output_has(c, "Installing the following packages"@) && (text::starts_with(
        c.script,
        "choco install"@,
    ) || c.parts.contains("cinst"@))
}

/// A word that names a package: no `=` or `/` in it, no leading `-`, and
/// not `choco`, `cinst` or `install`.
pub open spec fn is_package(p: Seq<char>) -> bool {
    !text::has_char(p, '=') && !text::has_char(p, '/') && !text::starts_with(p, "-"@) && p
        != "choco"@ && p != "cinst"@ && p != "install"@
}

/// The first word that names a package.
pub open spec fn first_package(parts: Seq<Seq<char>>) -> Option<Seq<char>>
    decreases parts.len(),
{
    if parts.len() == 0 {
        None
    } else if is_package(parts[0]) {
        Some(parts[0])
    } else {
        first_package(parts.drop_first())
    }
}

/// Every occurrence of the first package word `p` becomes `p.install`;
/// nothing when no word names a package.
pub open spec fn new_commands(c: CommandView) -> Seq<Seq<char>> {
    match first_package(c.parts) {
        Some(p) => seq![text::replace_all(c.script, p, p + ".install"@)],
        None => Seq::<Seq<char>>::empty(),
    }
}

pub fn match_rule(command: &mut CrabCommand, system_shell: Option<&Shell>) -> (r: bool)
    ensures
        r == matches(old(command)@),
        *final(command) == *old(command),
{
    utils::output_contains(command, "Installing the following packages") && (
    text::str_starts_with(command.script.as_str(), "choco install") || utils::contains_word(
        &command.script_parts,
        "cinst",
    ))
}

fn is_package_exec(p: &str) -> (r: bool)
    ensures
        r == is_package(p@),
{
    !text::str_has_char(p, '=') && !text::str_has_char(p, '/') && !text::str_starts_with(p, "-")
        && !text::str_eq(p, "choco") && !text::str_eq(p, "cinst") && !text::str_eq(p, "install")
}

pub fn get_new_command(command: &mut CrabCommand, system_shell: Option<&Shell>) -> (r: Vec<String>)
    ensures
        r.deep_view() == new_commands(old(command)@),
        *final(command) == *old(command),
{
    let ghost parts = command@.parts;
    let mut i: usize = 0;
    assert(parts.skip(0) =~= parts);
    while i < command.script_parts.len()
        invariant
            i <= command.script_parts.len(),
            parts == command.script_parts.deep_view(),
            first_package(parts) == first_package(parts.skip(i as int)),
        decreases command.script_parts.len() - i,
    {
        let part = command.script_parts[i].as_str();
        assert(parts.skip(i as int)[0] == part@);
        assert(parts.skip(i as int).drop_first() =~= parts.skip(i + 1));
        if is_package_exec(part) {
            let with_suffix = text::concat(part, ".install");
            let r = vec![text::str_replace(command.script.as_str(), part, with_suffix.as_str())];
            assert(r.deep_view() =~= new_commands(command@));
            return r;
        }
        i = i + 1;
    }
    assert(parts.skip(i as int) =~= Seq::<Seq<char>>::empty());
    let r: Vec<String> = Vec::new();
    assert(r.deep_view() =~= new_commands(command@));
    r
}

pub fn get_rule() -> (r: Rule)
    ensures
        r.name@ == "choco_install"@,
        r.kind == RuleKind::ChocoInstall,
        r.enabled_by_default && r.priority == 1000 && r.requires_output,
        r.side_effect is None,
{
    Rule::new(text::owned("choco_install"), None, None, None, RuleKind::ChocoInstall, None)
}

} // verus!
