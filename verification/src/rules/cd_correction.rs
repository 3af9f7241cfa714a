//! `cd` into a directory that does not exist: walk the path from the current
//! directory (or the root), following `.` and `..`, and for every other
//! component entering the closest of the subdirectories of where the walk
//! stands. Where no subdirectory is close enough, the correction of
//! `cd_mkdir` is offered instead.
//!
//! The file system is read by the program around the library: it hands over
//! the current directory and a table of directories with their
//! subdirectories. `walk_end` tells it in which directory the walk stopped
//! for want of a candidate, so that it can list that directory and walk
//! again; a directory missing from the table has no subdirectories.
use super::cd_mkdir;
use super::utils;
use super::{Rule, RuleKind};
use crate::cli::command::{CommandView, CrabCommand};
use crate::shell::Shell;
use crate::text;
use crate::utils as matching;
use vstd::prelude::*;

verus! {

/// The command starts with `cd `, and its output, lower-cased, says that the
/// directory does not exist.
pub open spec fn plain_matches(c: CommandView) -> bool {
    text::starts_with(c.script, "cd "@) && (c.output matches Some(o) && {
        let lower = text::lowercase(o);
        text::contains(lower, "no such file or directory"@) || text::contains(
            lower,
            "cd: can\"t cd to"@,
        ) || text::contains(lower, "does not exist"@)
    })
}

/// `plain_matches`, looking through a leading `sudo`.
pub open spec fn matches(c: CommandView) -> bool {
    plain_matches(utils::sudo_stripped(c))
}

/// What `std::path::Path::parent` gives for the path `p`, as text, under the
/// path rules of the target that the crate is built for (on Unix, `/` is the
/// separator and the only root): the path without its final component;
/// `None` when `p` ends in a root or a prefix, or is empty.
pub uninterp spec fn path_parent(p: Seq<char>) -> Option<Seq<char>>;

/// `std::path::Path::parent`, converted to text. The contract claims only
/// that the result is `path_parent` of the argument; the result follows the
/// path rules of the build target.
#[verifier::external_body]
fn parent_of(p: &str) -> (r: Option<String>)
    ensures
        r.deep_view() == path_parent(p@),
{
    std::path::Path::new(p).parent().map(|q| q.to_string_lossy().into_owned())
}

/// The subdirectories of `dir` in the table of directories `dirs` and their
/// `listings`, from entry `i` on: those of the first entry for `dir`; none
/// when there is no such entry.
pub open spec fn listing_from(
    dirs: Seq<Seq<char>>,
    listings: Seq<Seq<Seq<char>>>,
    dir: Seq<char>,
    i: int,
) -> Seq<Seq<char>>
    decreases dirs.len() - i,
{
    if i < 0 || i >= dirs.len() || i >= listings.len() {
        Seq::<Seq<char>>::empty()
    } else if dirs[i] == dir {
        listings[i]
    } else {
        listing_from(dirs, listings, dir, i + 1)
    }
}

/// The subdirectories of `dir` in the table.
pub open spec fn listing_of(dirs: Seq<Seq<char>>, listings: Seq<Seq<Seq<char>>>, dir: Seq<char>) -> Seq<
    Seq<char>,
> {
    listing_from(dirs, listings, dir, 0)
}

/// `p` joined to the directory `base` as `std::path::Path::join` does it with
/// `/` as the separator: `p` itself when it is absolute; otherwise `p` after
/// `base` and a separator (none after an empty `base` or one that ends in
/// `/`).
pub open spec fn joined(base: Seq<char>, p: Seq<char>) -> Seq<char> {
    if p.len() > 0 && p[0] == '/' {
        p
    } else if base.len() == 0 || base.last() == '/' {
        base + p
    } else {
        base + "/"@ + p
    }
}

/// The end of a walk along `dest` from `cwd`, with the subdirectories that
/// the table gives: `Some((true, path))` where it arrives; `Some((false,
/// dir))` when in `dir` no subdirectory is close enough to a component;
/// `None` when `..` leads above a path that has no parent. A component other
/// than `.` and `..` enters the closest subdirectory (the first of
/// `get_close_matches` with its defaults).
pub open spec fn walk(
    dest: Seq<Seq<char>>,
    cwd: Seq<char>,
    dirs: Seq<Seq<char>>,
    listings: Seq<Seq<Seq<char>>>,
) -> Option<(bool, Seq<char>)>
    decreases dest.len(),
{
    if dest.len() == 0 {
        Some((true, cwd))
    } else if dest[0] == "."@ {
        walk(dest.drop_first(), cwd, dirs, listings)
    } else if dest[0] == ".."@ {
        match path_parent(cwd) {
            Some(p) => walk(dest.drop_first(), p, dirs, listings),
            None => None,
        }
    } else {
        let best = matching::close_matches(
            dest[0],
            listing_of(dirs, listings, cwd),
            matching::wanted(None),
            matching::cutoff_percent(None),
        );
        if best.len() > 0 {
            walk(dest.drop_first(), joined(cwd, best[0]), dirs, listings)
        } else {
            Some((false, cwd))
        }
    }
}

/// The components of the path, without an empty last one.
pub open spec fn components(path: Seq<char>) -> Seq<Seq<char>> {
    let d = text::split_on(path, '/');
    if d.len() > 0 && d.last() == Seq::<char>::empty() {
        d.drop_last()
    } else {
        d
    }
}

/// The walk for the command's second word (from the root when it is an
/// absolute path, else from `cwd`): `None` without a second word;
/// `Some(None)` when the path has no component or the walk leads above the
/// root; else `Some(Some(end))` with the end of `walk`.
pub open spec fn plain_walk_of(
    c: CommandView,
    cwd: Seq<char>,
    dirs: Seq<Seq<char>>,
    listings: Seq<Seq<Seq<char>>>,
) -> Option<Option<(bool, Seq<char>)>> {
    if c.parts.len() > 1 {
        let d = components(c.parts[1]);
        if d.len() == 0 {
            Some(None)
        } else if d[0].len() == 0 {
            Some(walk(d.drop_first(), "/"@, dirs, listings))
        } else {
            Some(walk(d, cwd, dirs, listings))
        }
    } else {
        None
    }
}

/// `plain_walk_of`, looking through a leading `sudo`.
pub open spec fn walk_of(
    c: CommandView,
    cwd: Seq<char>,
    dirs: Seq<Seq<char>>,
    listings: Seq<Seq<Seq<char>>>,
) -> Option<Option<(bool, Seq<char>)>> {
    plain_walk_of(utils::sudo_stripped(c), cwd, dirs, listings)
}

/// The corrections, given the current directory `cwd` and the table: `cd`
/// to where the walk arrives, or `cd_mkdir`'s correction when it stops for
/// want of a candidate; none without a second word; `None` when the path
/// has no component or the walk leads above the root.
pub open spec fn plain_new_commands_given(
    c: CommandView,
    cwd: Seq<char>,
    dirs: Seq<Seq<char>>,
    listings: Seq<Seq<Seq<char>>>,
) -> Option<Seq<Seq<char>>> {
    match plain_walk_of(c, cwd, dirs, listings) {
        None => Some(Seq::<Seq<char>>::empty()),
        Some(None) => None,
        Some(Some((true, p))) => Some(seq!["cd \""@ + p + "\""@]),
        Some(Some((false, _))) => Some(cd_mkdir::plain_new_commands(c)),
    }
}

/// `plain_new_commands_given`, looking through a leading `sudo`.
pub open spec fn new_commands_given(
    c: CommandView,
    cwd: Seq<char>,
    dirs: Seq<Seq<char>>,
    listings: Seq<Seq<Seq<char>>>,
) -> Option<Seq<Seq<char>>> {
    match plain_new_commands_given(utils::sudo_stripped(c), cwd, dirs, listings) {
        Some(cmds) => Some(utils::sudo_restored(c, cmds)),
        None => None,
    }
}

fn auxiliary_match_rule(command: &CrabCommand) -> (r: bool)
    ensures
        r == plain_matches(command@),
{
    if !text::str_starts_with(command.script.as_str(), "cd ") {
        return false;
    }
    match &command.output {
        Some(output) => {
            let lower = text::str_lowercase(output.as_str());
            text::str_contains(lower.as_str(), "no such file or directory") || text::str_contains(
                lower.as_str(),
                "cd: can\"t cd to",
            ) || text::str_contains(lower.as_str(), "does not exist")
        },
        None => false,
    }
}

pub fn match_rule(command: &mut CrabCommand, system_shell: Option<&Shell>) -> (r: bool)
    ensures
        r == matches(old(command)@),
        *final(command) == *old(command),
{
    match utils::without_sudo(command) {
        Some(stripped) => auxiliary_match_rule(&stripped),
        None => auxiliary_match_rule(command),
    }
}

/// Where the first entry for `dir` stands in the table, if there is one.
fn listing_index(dirs: &Vec<String>, listings: &Vec<Vec<String>>, dir: &str) -> (r: Option<usize>)
    ensures
        match r {
            Some(i) => i < listings.len() && listing_of(dirs.deep_view(), listings.deep_view(), dir@)
                == listings.deep_view()[i as int],
            None => listing_of(dirs.deep_view(), listings.deep_view(), dir@) == Seq::<
                Seq<char>,
            >::empty(),
        },
{
    let mut i: usize = 0;
    while i < dirs.len() && i < listings.len()
        invariant
            i <= dirs.len(),
            listing_of(dirs.deep_view(), listings.deep_view(), dir@) == listing_from(
                dirs.deep_view(),
                listings.deep_view(),
                dir@,
                i as int,
            ),
        decreases dirs.len() - i,
    {
        assert(dirs.deep_view()[i as int] == dirs@[i as int]@);
        if text::str_eq(dirs[i].as_str(), dir) {
            return Some(i);
        }
        i = i + 1;
    }
    None
}

/// `p` joined to the directory `base`.
fn join_path(base: &str, p: &str) -> (r: String)
    ensures
        r@ == joined(base@, p@),
{
    proof {
        reveal_strlit("/");
    }
    assert("/"@.len() == 1 && "/"@[0] == '/');
    if text::str_starts_with(p, "/") {
        assert(p@.subrange(0, 1)[0] == p@[0]);
        text::owned(p)
    } else {
        proof {
            if p@.len() > 0 && p@[0] == '/' {
                assert(p@.subrange(0, 1) =~= "/"@);
            }
        }
        if base.unicode_len() == 0 || text::str_ends_with(base, "/") {
            proof {
                if base@.len() > 0 && text::ends_with(base@, "/"@) {
                    assert(base@.subrange(base@.len() - 1, base@.len() as int)[0] == base@.last());
                }
                if base@.len() > 0 && base@.last() == '/' {
                    assert(base@.subrange(base@.len() - 1, base@.len() as int) =~= "/"@);
                }
            }
            text::concat(base, p)
        } else {
            proof {
                if base@.len() > 0 && base@.last() == '/' {
                    assert(base@.subrange(base@.len() - 1, base@.len() as int) =~= "/"@);
                }
            }
            let with_sep = text::concat(base, "/");
            text::concat(with_sep.as_str(), p)
        }
    }
}

fn walk_exec(
    dest: &Vec<String>,
    from: usize,
    cwd: String,
    dirs: &Vec<String>,
    listings: &Vec<Vec<String>>,
) -> (r: Option<(bool, String)>)
    requires
        from <= dest@.len(),
    ensures
        r.deep_view() == walk(dest.deep_view().skip(from as int), cwd@, dirs.deep_view(), listings.deep_view()),
    decreases dest@.len() - from,
{
    if from == dest.len() {
        return Some((true, cwd));
    }
    let ghost rest = dest.deep_view().skip(from as int);
    assert(rest[0] == dest@[from as int]@);
    assert(rest.drop_first() =~= dest.deep_view().skip(from + 1));
    let part = dest[from].as_str();
    if text::str_eq(part, ".") {
        walk_exec(dest, from + 1, cwd, dirs, listings)
    } else if text::str_eq(part, "..") {
        match parent_of(cwd.as_str()) {
            Some(p) => walk_exec(dest, from + 1, p, dirs, listings),
            None => None,
        }
    } else {
        let best = match listing_index(dirs, listings, cwd.as_str()) {
            Some(k) => {
                assert(listings.deep_view()[k as int] == listings@[k as int].deep_view());
                let refs = text::str_refs(&listings[k]);
                matching::get_close_matches(part, &refs, None, None)
            },
            None => {
                let refs: Vec<&str> = Vec::new();
                assert(refs.deep_view() =~= Seq::<Seq<char>>::empty());
                matching::get_close_matches(part, &refs, None, None)
            },
        };
        if best.len() > 0 {
            assert(best.deep_view()[0] == best@[0]@);
            let next = join_path(cwd.as_str(), best[0]);
            walk_exec(dest, from + 1, next, dirs, listings)
        } else {
            Some((false, cwd))
        }
    }
}

fn components_exec(path: &str) -> (r: Vec<String>)
    ensures
        r.deep_view() == components(path@),
{
    let mut d = text::str_split(path, '/');
    if d.len() > 0 && d[d.len() - 1].as_str().unicode_len() == 0 {
        let ghost before = d.deep_view();
        assert(before.last() == d@[d.len() - 1]@);
        assert(before.last() =~= Seq::<char>::empty());
        d.pop();
        assert(d.deep_view() =~= before.drop_last());
    } else {
        proof {
            if d.len() > 0 {
                assert(d.deep_view().last() == d@[d.len() - 1]@);
            }
        }
    }
    d
}

fn plain_walk_exec(
    command: &CrabCommand,
    cwd: &str,
    dirs: &Vec<String>,
    listings: &Vec<Vec<String>>,
) -> (r: Option<Option<(bool, String)>>)
    ensures
        r.deep_view() == plain_walk_of(command@, cwd@, dirs.deep_view(), listings.deep_view()),
{
    if command.script_parts.len() <= 1 {
        return None;
    }
    assert(command.script_parts.deep_view()[1] == command.script_parts@[1]@);
    let d = components_exec(command.script_parts[1].as_str());
    if d.len() == 0 {
        return Some(None);
    }
    assert(d.deep_view()[0] == d@[0]@);
    if d[0].as_str().unicode_len() == 0 {
        assert(d.deep_view().skip(1) =~= d.deep_view().drop_first());
        proof {
            reveal_strlit("/");
        }
        Some(walk_exec(&d, 1, text::owned("/"), dirs, listings))
    } else {
        assert(d.deep_view().skip(0) =~= d.deep_view());
        Some(walk_exec(&d, 0, text::owned(cwd), dirs, listings))
    }
}

/// Where the walk for the command ends, given the current directory `cwd`
/// and the table of directories `dirs` with their subdirectories
/// `listings` (see `walk_of`). When it ends as `Some(Some((false, dir)))`
/// and `dir` is not in the table, listing `dir` may take the walk further.
pub fn walk_end(
    command: &CrabCommand,
    cwd: &str,
    dirs: &Vec<String>,
    listings: &Vec<Vec<String>>,
) -> (r: Option<Option<(bool, String)>>)
    ensures
        r.deep_view() == walk_of(command@, cwd@, dirs.deep_view(), listings.deep_view()),
{
    match utils::without_sudo(command) {
        Some(stripped) => plain_walk_exec(&stripped, cwd, dirs, listings),
        None => plain_walk_exec(command, cwd, dirs, listings),
    }
}

/// Whether `dir` has an entry in the table of directories.
pub fn is_listed(dirs: &Vec<String>, dir: &str) -> (r: bool)
    ensures
        r == dirs.deep_view().contains(dir@),
{
    let mut i: usize = 0;
    while i < dirs.len()
        invariant
            i <= dirs.len(),
            forall|j: int| 0 <= j < i ==> dirs.deep_view()[j] != dir@,
        decreases dirs.len() - i,
    {
        assert(dirs.deep_view()[i as int] == dirs@[i as int]@);
        if text::str_eq(dirs[i].as_str(), dir) {
            assert(dirs.deep_view()[i as int] == dir@);
            return true;
        }
        i = i + 1;
    }
    false
}

fn plain_get_new_command(
    command: &CrabCommand,
    cwd: &str,
    dirs: &Vec<String>,
    listings: &Vec<Vec<String>>,
) -> (r: Option<Vec<String>>)
    ensures
        r.deep_view() == plain_new_commands_given(command@, cwd@, dirs.deep_view(), listings.deep_view()),
{
    match plain_walk_exec(command, cwd, dirs, listings) {
        None => {
            let r: Vec<String> = Vec::new();
            assert(r.deep_view() =~= Seq::<Seq<char>>::empty());
            Some(r)
        },
        Some(None) => None,
        Some(Some((true, p))) => {
            let opened = text::concat("cd \"", p.as_str());
            let r = vec![text::concat(opened.as_str(), "\"")];
            assert(r.deep_view() =~= seq!["cd \""@ + p@ + "\""@]);
            Some(r)
        },
        Some(Some((false, _))) => Some(cd_mkdir::auxiliary_get_new_command(command)),
    }
}

/// The corrections, given the current directory `cwd` and the table of
/// directories `dirs` with their subdirectories `listings`; `None` where the
/// path has no component or leads above the root (no correction exists
/// there).
pub fn get_new_command_given(
    command: &CrabCommand,
    cwd: &str,
    dirs: &Vec<String>,
    listings: &Vec<Vec<String>>,
) -> (r: Option<Vec<String>>)
    ensures
        r.deep_view() == new_commands_given(command@, cwd@, dirs.deep_view(), listings.deep_view()),
{
    match utils::without_sudo(command) {
        Some(stripped) => match plain_get_new_command(&stripped, cwd, dirs, listings) {
            Some(cmds) => Some(utils::with_sudo(command, cmds)),
            None => None,
        },
        None => match plain_get_new_command(command, cwd, dirs, listings) {
            Some(cmds) => Some(utils::with_sudo(command, cmds)),
            None => None,
        },
    }
}

pub fn get_rule() -> (r: Rule)
    ensures
        r.name@ == "cd_correction"@,
        r.kind == RuleKind::CdCorrection,
        r.enabled_by_default && r.priority == 1000 && r.requires_output,
        r.side_effect is None,
{
    Rule::new(text::owned("cd_correction"), None, None, None, RuleKind::CdCorrection, None)
}

} // verus!
