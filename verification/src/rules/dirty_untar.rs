//! `tar` spilled an archive into the current directory: extract it into a
//! directory of its own (the side effect removes the spilled files).
use super::utils;
use super::utils::git::{quote, shell_quoted};
use super::{Rule, RuleKind};
use crate::cli::command::{CommandView, CrabCommand, SideEffect};
use crate::shell::Shell;
use crate::text;
use vstd::prelude::*;

verus! {

/// The file extensions of tar archives, in the order they are tried.
pub open spec fn tar_extensions_spec() -> Seq<Seq<char>> {
    seq![
        ".tar"@,
        ".tar.Z"@,
        ".tar.bz2"@,
        ".tar.gz"@,
        ".tar.lz"@,
        ".tar.lzma"@,
        ".tar.xz"@,
        ".taz"@,
        ".tb2"@,
        ".tbz"@,
        ".tbz2"@,
        ".tgz"@,
        ".tlz"@,
        ".txz"@,
        ".tz"@,
    ]
}

/// The file extensions of tar archives.
pub fn tar_extensions() -> (r: Vec<&'static str>)
    ensures
        r.deep_view() == tar_extensions_spec(),
{
    let r = vec![
        ".tar",
        ".tar.Z",
        ".tar.bz2",
        ".tar.gz",
        ".tar.lz",
        ".tar.lzma",
        ".tar.xz",
        ".taz",
        ".tb2",
        ".tbz",
        ".tbz2",
        ".tgz",
        ".tlz",
        ".txz",
        ".tz",
    ];
    assert(r.deep_view() =~= tar_extensions_spec());
    r
}

/// The command extracts: it contains `--extract`, or its second word
/// contains `x`.
pub open spec fn is_tar_extract_spec(cmd: Seq<char>) -> bool {
    text::contains(cmd, "--extract"@) || (text::words(cmd).len() > 1 && text::has_char(
        text::words(cmd)[1],
        'x',
    ))
}

/// A command whose second word holds an `x` (such as `-zxvf` or `xf`) or
/// that holds `--extract` anywhere extracts, wherever the `x` stands in
/// that word.
pub proof fn lemma_x_in_second_word_extracts(cmd: Seq<char>)
    requires
        (text::words(cmd).len() > 1 && text::words(cmd)[1].contains('x')) || text::contains(
            cmd,
            "--extract"@,
        ),
    ensures
        is_tar_extract_spec(cmd),
{
}

/// The first of `exts` that `c` ends with.
pub open spec fn first_ext(c: Seq<char>, exts: Seq<Seq<char>>) -> Option<Seq<char>>
    decreases exts.len(),
{
    if exts.len() == 0 {
        None
    } else if text::ends_with(c, exts[0]) {
        Some(exts[0])
    } else {
        first_ext(c, exts.drop_first())
    }
}

/// The first word that ends with a tar extension, with that word without
/// the extension.
pub open spec fn tar_file_spec(parts: Seq<Seq<char>>) -> Option<(Seq<char>, Seq<char>)>
    decreases parts.len(),
{
    if parts.len() == 0 {
        None
    } else {
        match first_ext(parts[0], tar_extensions_spec()) {
            Some(e) => Some((parts[0], parts[0].take(parts[0].len() - e.len()))),
            None => tar_file_spec(parts.drop_first()),
        }
    }
}

/// The command extracts a tar archive without `-C`.
pub open spec fn plain_matches(c: CommandView) -> bool {
    !text::contains(c.script, "-C"@) && is_tar_extract_spec(c.script) && tar_file_spec(c.parts)
        is Some
}

/// The command runs `tar`, and `plain_matches`.
pub open spec fn matches(c: CommandView) -> bool {
    utils::is_app_spec(c, seq!["tar"@], 0) && plain_matches(c)
}

/// The directory can be quoted for the shell.
pub open spec fn new_commands_defined(c: CommandView) -> bool {
    tar_file_spec(c.parts) matches Some(t) ==> shell_quoted(t.1) is Some
}

/// Make a directory named as the archive without extension, and extract
/// into it; nothing when no word names a tar archive.
pub open spec fn new_commands(c: CommandView, sh: Shell) -> Seq<Seq<char>> {
    match tar_file_spec(c.parts) {
        Some(t) => {
            let dir = shell_quoted(t.1)->0;
            seq![
                crate::shell::and_spec(sh, seq!["mkdir -p "@ + dir, c.script + " -C "@ + dir]),
            ]
        },
        None => Seq::<Seq<char>>::empty(),
    }
}

/// Whether the command extracts.
pub fn is_tar_extract(cmd: &str) -> (r: bool)
    ensures
        r == is_tar_extract_spec(cmd@),
{
    if text::str_contains(cmd, "--extract") {
        return true;
    }
    let cmd_split = text::str_words(cmd);
    cmd_split.len() > 1 && text::str_has_char(cmd_split[1].as_str(), 'x')
}

fn first_ext_exec(c: &str, exts: &Vec<&'static str>) -> (r: Option<usize>)
    ensures
        match r {
            Some(k) => k < exts.len() && first_ext(c@, exts.deep_view()) == Some(
                exts.deep_view()[k as int],
            ) && text::ends_with(c@, exts@[k as int]@),
            None => first_ext(c@, exts.deep_view()) is None,
        },
{
    let ghost all = exts.deep_view();
    let mut k: usize = 0;
    assert(all.skip(0) =~= all);
    while k < exts.len()
        invariant
            k <= exts.len(),
            all == exts.deep_view(),
            first_ext(c@, all) == first_ext(c@, all.skip(k as int)),
        decreases exts.len() - k,
    {
        assert(all.skip(k as int)[0] == exts@[k as int]@);
        assert(all.skip(k as int).drop_first() =~= all.skip(k + 1));
        if text::str_ends_with(c, exts[k]) {
            return Some(k);
        }
        k = k + 1;
    }
    assert(all.skip(k as int) =~= Seq::<Seq<char>>::empty());
    None
}

/// The first word that ends with a tar extension, with that word without
/// the extension.
pub fn tar_file(cmd: &Vec<String>) -> (r: Option<(String, String)>)
    ensures
        match r {
            Some(t) => tar_file_spec(cmd.deep_view()) == Some((t.0@, t.1@)),
            None => tar_file_spec(cmd.deep_view()) is None,
        },
{
    let exts = tar_extensions();
    let ghost parts = cmd.deep_view();
    let mut i: usize = 0;
    assert(parts.skip(0) =~= parts);
    while i < cmd.len()
        invariant
            i <= cmd.len(),
            parts == cmd.deep_view(),
            exts.deep_view() == tar_extensions_spec(),
            tar_file_spec(parts) == tar_file_spec(parts.skip(i as int)),
        decreases cmd.len() - i,
    {
        let c = cmd[i].as_str();
        assert(parts.skip(i as int)[0] == c@);
        assert(parts.skip(i as int).drop_first() =~= parts.skip(i + 1));
        if let Some(k) = first_ext_exec(c, &exts) {
            let n = c.unicode_len();
            let m = exts[k].unicode_len();
            assert(exts.deep_view()[k as int] == exts@[k as int]@);
            let stem = c.substring_char(0, n - m).to_owned();
            return Some((text::owned(c), stem));
        }
        i = i + 1;
    }
    assert(parts.skip(i as int) =~= Seq::<Seq<char>>::empty());
    None
}

fn auxiliary_match_rule(command: &CrabCommand) -> (r: bool)
    ensures
        r == plain_matches(command@),
{
    !text::str_contains(command.script.as_str(), "-C") && is_tar_extract(command.script.as_str())
        && tar_file(&command.script_parts).is_some()
}

pub fn match_rule(command: &mut CrabCommand, system_shell: Option<&Shell>) -> (r: bool)
    ensures
        r == matches(old(command)@),
        *final(command) == *old(command),
{
    let names = vec!["tar"];
    assert(names.deep_view() =~= seq!["tar"@]);
    utils::is_app(command, &names, 0) && auxiliary_match_rule(command)
}

/// Whether the directory can be quoted for the shell.
pub fn new_commands_available(command: &CrabCommand) -> (r: bool)
    ensures
        r == new_commands_defined(command@),
{
    match tar_file(&command.script_parts) {
        Some((_, stem)) => quote(stem.as_str()).is_some(),
        None => true,
    }
}

pub fn get_new_command(command: &mut CrabCommand, system_shell: Option<&Shell>) -> (r: Vec<String>)
    requires
        system_shell is Some || tar_file_spec(old(command)@.parts) is None,
        new_commands_defined(old(command)@),
    ensures
        r.deep_view() == new_commands(old(command)@, *system_shell.unwrap()),
        *final(command) == *old(command),
{
    match tar_file(&command.script_parts) {
        Some((_, filepath_no_ext)) => {
            let dir = quote(filepath_no_ext.as_str()).unwrap();
            let mkdir = text::concat("mkdir -p ", dir.as_str());
            let with_c = text::concat(command.script.as_str(), " -C ");
            let extract = text::concat(with_c.as_str(), dir.as_str());
            let cmds = vec![mkdir.as_str(), extract.as_str()];
            assert(cmds.deep_view() =~= seq![mkdir@, extract@]);
            let r = vec![system_shell.unwrap().and(cmds)];
            assert(r.deep_view() =~= new_commands(command@, *system_shell.unwrap()));
            r
        },
        None => {
            let r: Vec<String> = Vec::new();
            assert(r.deep_view() =~= new_commands(command@, *system_shell.unwrap()));
            r
        },
    }
}

/// Whether the side effect looks at an entry of the archive at all: its
/// `name` does not start with `._`.
pub fn entry_considered(name: &str) -> (r: bool)
    ensures
        r == !text::starts_with(name@, "._"@),
{
    !text::str_starts_with(name, "._")
}

/// Whether the side effect removes an entry of the archive: its `name` does
/// not start with `._`, its file (resolved to `canonical`) lies within the
/// current directory `cwd`, and it is a plain file (`is_file`).
pub fn side_effect_removes(name: &str, canonical: &str, is_file: bool, cwd: &str) -> (r: bool)
    ensures
        r == (!text::starts_with(name@, "._"@) && utils::lies_within(canonical@, cwd@) && is_file),
{
    !text::str_starts_with(name, "._") && utils::lies_within_dir(canonical, cwd) && is_file
}

pub fn get_rule() -> (r: Rule)
    ensures
        r.name@ == "tar"@,
        r.kind == RuleKind::DirtyUntar,
        r.enabled_by_default && r.priority == 1000 && r.requires_output,
        r.side_effect == Some(SideEffect::DirtyUntar),
{
    Rule::new(
        text::owned("tar"),
        None,
        None,
        None,
        RuleKind::DirtyUntar,
        Some(SideEffect::DirtyUntar),
    )
}

} // verus!
