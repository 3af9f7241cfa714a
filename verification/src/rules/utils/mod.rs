//! What many rules share: recognising the program that ran, and looking
//! through a leading `sudo`.
use crate::cli::command::{CommandView, CrabCommand};
use crate::text;
use vstd::prelude::*;

pub mod common;
pub mod git;

verus! {

/// The last component of a path: what follows its last `/`.
pub open spec fn basename(s: Seq<char>) -> Seq<char>
    decreases s.len(),
{
    if s.len() == 0 {
        s
    } else if s.last() == '/' {
        Seq::<char>::empty()
    } else {
        basename(s.drop_last()).push(s.last())
    }
}

/// The command has more than `at_least` words and the program it runs (the
/// last path component of its first word) is one of `names`.
pub open spec fn is_app_spec(c: CommandView, names: Seq<Seq<char>>, at_least: nat) -> bool {
    c.parts.len() > at_least && names.contains(basename(c.parts[0]))
}

/// The command starts with `sudo `.
pub open spec fn has_sudo(c: CommandView) -> bool {
    text::starts_with(c.script, "sudo "@)
}

/// The command without a leading `sudo `.
pub open spec fn sudo_stripped(c: CommandView) -> CommandView {
    if has_sudo(c) {
        crate::cli::command::with_script(c, c.script.skip(5))
    } else {
        c
    }
}

/// The commands, each prefixed by `sudo ` when the command `c` starts with it.
pub open spec fn sudo_restored(c: CommandView, cmds: Seq<Seq<char>>) -> Seq<Seq<char>> {
    if has_sudo(c) {
        cmds.map_values(|x: Seq<char>| "sudo "@ + x)
    } else {
        cmds
    }
}

/// The command has output, and `p` occurs in it.
pub open spec fn output_has(c: CommandView, p: Seq<char>) -> bool {
    c.output matches Some(o) && text::contains(o, p)
}

/// Whether the command has output in which `p` occurs.
pub fn output_contains(command: &CrabCommand, p: &str) -> (r: bool)
    ensures
        r == output_has(command@, p@),
{
    match &command.output {
        Some(o) => text::str_contains(o.as_str(), p),
        None => false,
    }
}

/// Whether `x` is one of the words `parts`.
pub fn contains_word(parts: &Vec<String>, x: &str) -> (r: bool)
    ensures
        r == parts.deep_view().contains(x@),
{
    let mut i: usize = 0;
    while i < parts.len()
        invariant
            i <= parts.len(),
            forall|j: int| 0 <= j < i ==> parts.deep_view()[j] != x@,
        decreases parts.len() - i,
    {
        if text::str_eq(parts[i].as_str(), x) {
            assert(parts.deep_view()[i as int] == x@);
            return true;
        }
        i = i + 1;
    }
    false
}

/// A copy of a vector of strings.
pub fn copy_strings(v: &Vec<String>) -> (r: Vec<String>)
    ensures
        r.deep_view() == v.deep_view(),
        r@.len() == v@.len(),
{
    let mut r: Vec<String> = Vec::new();
    let mut i: usize = 0;
    while i < v.len()
        invariant
            i <= v.len(),
            r.deep_view() == v.deep_view().take(i as int),
        decreases v.len() - i,
    {
        let item = text::owned(v[i].as_str());
        let ghost before = r;
        let ghost x = item;
        r.push(item);
        proof {
            text::lemma_vec_push_deep(before, r, x);
            assert(v.deep_view().take(i + 1) =~= v.deep_view().take(i as int).push(x@));
        }
        i = i + 1;
    }
    assert(v.deep_view().take(v.len() as int) =~= v.deep_view());
    r
}

/// Whether an executable called `name` is found (the `which` crate's
/// `which`, which searches `PATH` and the current directory). The answer
/// depends on the file system, so the contract states nothing of it.
#[verifier::external_body]
pub(crate) fn executable_found(name: &str) -> bool {
    which::which(name).is_ok()
}

/// Whether `path` names an existing directory (std's `Path::is_dir`). The
/// answer depends on the file system, so the contract states nothing of it.
#[verifier::external_body]
pub(crate) fn path_is_dir(path: &str) -> bool {
    std::path::Path::new(path).is_dir()
}

/// Whether `path` names an existing file or directory (std's
/// `Path::exists`). The answer depends on the file system, so the contract
/// states nothing of it.
#[verifier::external_body]
pub(crate) fn path_exists(path: &str) -> bool {
    std::path::Path::new(path).exists()
}

/// The last path component of `s`.
pub fn basename_of(s: &str) -> (r: String)
    ensures
        r@ == basename(s@),
{
    let sv = text::chars_of(s);
    let mut cur: Vec<char> = Vec::new();
    let mut i: usize = 0;
    assert(sv@.take(0) =~= Seq::<char>::empty());
    while i < sv.len()
        invariant
            i <= sv.len(),
            sv@ == s@,
            cur@ == basename(sv@.take(i as int)),
        decreases sv.len() - i,
    {
        assert(sv@.take(i + 1).drop_last() =~= sv@.take(i as int));
        if sv[i] == '/' {
            cur = Vec::new();
        } else {
            cur.push(sv[i]);
        }
        i = i + 1;
    }
    assert(sv@.take(sv@.len() as int) =~= sv@);
    text::string_of(cur.as_slice())
}

/// Whether `x` is one of `names`.
pub fn is_one_of(x: &str, names: &Vec<&str>) -> (r: bool)
    ensures
        r == names.deep_view().contains(x@),
{
    let mut i: usize = 0;
    while i < names.len()
        invariant
            i <= names.len(),
            forall|j: int| 0 <= j < i ==> names.deep_view()[j] != x@,
        decreases names.len() - i,
    {
        if text::str_eq(names[i], x) {
            assert(names.deep_view()[i as int] == x@);
            return true;
        }
        i = i + 1;
    }
    false
}

/// Whether the command has more than `at_least` words and runs one of the
/// programs `app_names`.
pub fn is_app(command: &CrabCommand, app_names: &Vec<&str>, at_least: usize) -> (r: bool)
    ensures
        r == is_app_spec(command@, app_names.deep_view(), at_least as nat),
{
    if command.script_parts.len() > at_least {
        let base = basename_of(command.script_parts[0].as_str());
        is_one_of(base.as_str(), app_names)
    } else {
        false
    }
}

/// The command without a leading `sudo `, when it has one.
pub fn without_sudo(command: &CrabCommand) -> (r: Option<CrabCommand>)
    ensures
        has_sudo(command@) ==> r is Some && r->0@ == sudo_stripped(command@),
        !has_sudo(command@) ==> r is None,
{
    if text::str_starts_with(command.script.as_str(), "sudo ") {
        proof {
            reveal_strlit("sudo ");
        }
        let n = command.script.as_str().unicode_len();
        let rest = text::owned(command.script.as_str().substring_char(5, n));
        assert(rest@ =~= command.script@.skip(5));
        Some(command.update(Some(rest), None, None))
    } else {
        None
    }
}

/// The commands, each prefixed by `sudo ` when `command` has a leading
/// `sudo `.
pub fn with_sudo(command: &CrabCommand, cmds: Vec<String>) -> (r: Vec<String>)
    ensures
        r.deep_view() == sudo_restored(command@, cmds.deep_view()),
{
    if text::str_starts_with(command.script.as_str(), "sudo ") {
        let mut r: Vec<String> = Vec::new();
        let mut i: usize = 0;
        while i < cmds.len()
            invariant
                i <= cmds.len(),
                r.deep_view() == cmds.deep_view().take(i as int).map_values(
                    |x: Seq<char>| "sudo "@ + x,
                ),
            decreases cmds.len() - i,
        {
            let item = text::concat("sudo ", cmds[i].as_str());
            let ghost before = r;
            let ghost x = item;
            r.push(item);
            proof {
                text::lemma_vec_push_deep(before, r, x);
                assert(cmds.deep_view().take(i + 1).map_values(|x: Seq<char>| "sudo "@ + x)
                    =~= cmds.deep_view().take(i as int).map_values(|x: Seq<char>| "sudo "@ + x).push(
                    x@,
                ));
            }
            i = i + 1;
        }
        assert(cmds.deep_view().take(cmds.len() as int) =~= cmds.deep_view());
        r
    } else {
        cmds
    }
}

/// The components of a path: `/` when it starts with `/`, then its non-empty
/// pieces between slashes.
pub open spec fn path_components(p: Seq<char>) -> Seq<Seq<char>> {
    let pieces = text::non_empty(text::split_on(p, '/'));
    if text::starts_with(p, "/"@) {
        seq!["/"@] + pieces
    } else {
        pieces
    }
}

/// `path` lies within `dir`: the components of `dir` begin those of `path`.
pub open spec fn lies_within(path: Seq<char>, dir: Seq<char>) -> bool {
    let pc = path_components(path);
    let dc = path_components(dir);
    dc.len() <= pc.len() && pc.take(dc.len() as int) == dc
}

fn non_empty_pieces(v: &Vec<String>) -> (r: Vec<String>)
    ensures
        r.deep_view() == text::non_empty(v.deep_view()),
{
    let mut r: Vec<String> = Vec::new();
    let mut i: usize = 0;
    while i < v.len()
        invariant
            i <= v.len(),
            r.deep_view() == text::non_empty(v.deep_view().take(i as int)),
        decreases v.len() - i,
    {
        assert(v.deep_view().take(i + 1).drop_last() =~= v.deep_view().take(i as int));
        assert(v.deep_view().take(i + 1).last() == v@[i as int]@);
        if v[i].as_str().unicode_len() > 0 {
            let item = text::owned(v[i].as_str());
            let ghost before = r;
            let ghost x = item;
            r.push(item);
            proof {
                text::lemma_vec_push_deep(before, r, x);
            }
        }
        i = i + 1;
    }
    assert(v.deep_view().take(v.len() as int) =~= v.deep_view());
    r
}

/// The components of a path.
pub fn get_path_components(p: &str) -> (r: Vec<String>)
    ensures
        r.deep_view() == path_components(p@),
{
    let pieces = non_empty_pieces(&text::str_split(p, '/'));
    if text::str_starts_with(p, "/") {
        let mut r: Vec<String> = Vec::new();
        r.push(text::owned("/"));
        let mut i: usize = 0;
        while i < pieces.len()
            invariant
                i <= pieces.len(),
                r.deep_view() == seq!["/"@] + pieces.deep_view().take(i as int),
            decreases pieces.len() - i,
        {
            let item = text::owned(pieces[i].as_str());
            let ghost before = r;
            let ghost x = item;
            r.push(item);
            proof {
                text::lemma_vec_push_deep(before, r, x);
                assert(seq!["/"@] + pieces.deep_view().take(i + 1) =~= (seq!["/"@]
                    + pieces.deep_view().take(i as int)).push(x@));
            }
            i = i + 1;
        }
        assert(pieces.deep_view().take(pieces.len() as int) =~= pieces.deep_view());
        r
    } else {
        pieces
    }
}

/// Whether `path` lies within `dir`, component by component.
pub fn lies_within_dir(path: &str, dir: &str) -> (r: bool)
    ensures
        r == lies_within(path@, dir@),
{
    let pc = get_path_components(path);
    let dc = get_path_components(dir);
    assert(pc.deep_view().len() == pc@.len());
    assert(dc.deep_view().len() == dc@.len());
    if dc.len() > pc.len() {
        return false;
    }
    let mut i: usize = 0;
    while i < dc.len()
        invariant
            i <= dc.len() <= pc.len(),
            pc.deep_view() == path_components(path@),
            dc.deep_view() == path_components(dir@),
            forall|k: int| 0 <= k < i ==> pc.deep_view()[k] == dc.deep_view()[k],
        decreases dc.len() - i,
    {
        assert(pc.deep_view()[i as int] == pc@[i as int]@);
        assert(dc.deep_view()[i as int] == dc@[i as int]@);
        if !text::str_eq(pc[i].as_str(), dc[i].as_str()) {
            assert(pc.deep_view().take(dc.len() as int)[i as int] != dc.deep_view()[i as int]);
            return false;
        }
        i = i + 1;
    }
    assert(pc.deep_view().take(dc.len() as int) =~= dc.deep_view());
    true
}

} // verus!
