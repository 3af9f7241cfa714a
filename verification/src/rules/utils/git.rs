//! Support for rules about git: the program must be git (or hub), and an
//! alias expansion that git reports in its trace is applied to the command
//! first.
use super::{is_app, is_app_spec};
use crate::cli::command::{shlex_split, shlex_words, with_script, CommandView, CrabCommand};
use crate::pattern;
use crate::text;
use vstd::prelude::*;

verus! {

/// The command runs git or hub.
pub open spec fn is_git(c: CommandView) -> bool {
    is_app_spec(c, seq!["git"@, "hub"@], 0)
}

/// The pattern of git's trace line for an alias expansion.
pub open spec fn alias_pattern() -> Seq<char> {
    r"trace: alias expansion: ([^ ]*) => ([^\n]*)"@
}

/// `s` quoted for a POSIX shell as the `shlex` crate's `try_quote` quotes
/// it; `None` when it cannot be quoted.
pub uninterp spec fn shell_quoted(s: Seq<char>) -> Option<Seq<char>>;

/// `shlex::try_quote`, converted to an owned string. The contract claims only
/// that the result is `shell_quoted` of the argument.
#[verifier::external_body]
pub(crate) fn quote(s: &str) -> (r: Option<String>)
    ensures
        r.deep_view() == shell_quoted(s@),
{
    match shlex::try_quote(s) {
        Ok(q) => Some(q.into_owned()),
        Err(_) => None,
    }
}

/// A word quoted for the shell (the word itself when it cannot be quoted).
pub open spec fn quoted_word(w: Seq<char>) -> Seq<char> {
    match shell_quoted(w) {
        Some(q) => q,
        None => w,
    }
}

/// The words of `s`, each quoted, joined by spaces.
pub open spec fn requoted(s: Seq<char>) -> Seq<char> {
    text::join(shlex_words(s).map_values(|w: Seq<char>| quoted_word(w)), " "@)
}

/// The command after git's alias expansion: when the output traces an alias
/// expansion, every whole-word occurrence of the alias in the command's text
/// is replaced by the expansion (its words quoted for the shell).
pub open spec fn git_expanded(c: CommandView) -> CommandView {
    match c.output {
        Some(o) => if text::contains(o, "trace: alias expansion:"@) {
            expanded_by(c, pattern::regex_captures(alias_pattern(), o))
        } else {
            c
        },
        None => c,
    }
}

/// The command after the alias expansion that the groups of the trace's
/// match give: every whole-word occurrence of the alias (group 1) is
/// replaced by the expansion (group 2, its words quoted for the shell); the
/// command itself without both groups.
pub open spec fn expanded_by(c: CommandView, g: Option<Seq<Option<Seq<char>>>>) -> CommandView {
    match g {
        Some(g) => if g.len() > 2 && g[1] is Some && g[2] is Some {
            with_script(
                c,
                pattern::regex_replaced_all(r"\b"@ + g[1]->0 + r"\b"@, c.script, requoted(g[2]->0)),
            )
        } else {
            c
        },
        None => c,
    }
}

/// Git's alias expansion keeps the output.
pub proof fn lemma_expanded_output(c: CommandView)
    ensures
        git_expanded(c).output == c.output,
{
}

/// A command whose output traces no alias expansion is left as it is.
pub proof fn lemma_no_alias_unchanged(c: CommandView)
    requires
        !(c.output matches Some(o) && text::contains(o, "trace: alias expansion:"@)),
    ensures
        git_expanded(c) == c,
{
}

/// A copy of a command.
pub fn copy_command(c: &CrabCommand) -> (r: CrabCommand)
    ensures
        r@ == c@,
{
    let mut parts: Vec<String> = Vec::new();
    let mut i: usize = 0;
    while i < c.script_parts.len()
        invariant
            i <= c.script_parts.len(),
            parts.deep_view() == c.script_parts.deep_view().take(i as int),
        decreases c.script_parts.len() - i,
    {
        let item = text::owned(c.script_parts[i].as_str());
        let ghost before = parts;
        let ghost x = item;
        parts.push(item);
        proof {
            text::lemma_vec_push_deep(before, parts, x);
            assert(c.script_parts.deep_view().take(i + 1) =~= c.script_parts.deep_view().take(
                i as int,
            ).push(x@));
        }
        i = i + 1;
    }
    assert(c.script_parts.deep_view().take(c.script_parts.len() as int)
        =~= c.script_parts.deep_view());
    CrabCommand {
        script: text::owned(c.script.as_str()),
        output: match &c.output {
            Some(o) => Some(text::owned(o.as_str())),
            None => None,
        },
        script_parts: parts,
    }
}

fn requote(s: &str) -> (r: String)
    ensures
        r@ == requoted(s@),
{
    let words = shlex_split(s);
    let mut quoted: Vec<String> = Vec::new();
    let mut i: usize = 0;
    while i < words.len()
        invariant
            i <= words.len(),
            words.deep_view() == shlex_words(s@),
            quoted.deep_view() == words.deep_view().take(i as int).map_values(
                |w: Seq<char>| quoted_word(w),
            ),
        decreases words.len() - i,
    {
        let item = match quote(words[i].as_str()) {
            Some(q) => q,
            None => text::owned(words[i].as_str()),
        };
        let ghost before = quoted;
        let ghost x = item;
        quoted.push(item);
        proof {
            text::lemma_vec_push_deep(before, quoted, x);
            assert(words.deep_view().take(i + 1).map_values(|w: Seq<char>| quoted_word(w))
                =~= words.deep_view().take(i as int).map_values(|w: Seq<char>| quoted_word(w)).push(
                x@,
            ));
        }
        i = i + 1;
    }
    assert(words.deep_view().take(words.len() as int) =~= words.deep_view());
    text::str_join(&quoted, " ")
}

/// The command after git's alias expansion.
pub fn expand_git_alias(command: &CrabCommand) -> (r: CrabCommand)
    ensures
        r@ == git_expanded(command@),
{
    if let Some(output) = &command.output {
        if text::str_contains(output.as_str(), "trace: alias expansion:") {
            let found = pattern::captures(
                r"trace: alias expansion: ([^ ]*) => ([^\n]*)",
                output.as_str(),
            );
            return expanded_with_groups(command, &found);
        }
    }
    copy_command(command)
}

/// The command after the alias expansion that the groups of the trace's
/// match give.
pub fn expanded_with_groups(command: &CrabCommand, found: &Option<Vec<Option<String>>>) -> (r: CrabCommand)
    ensures
        r@ == expanded_by(command@, found.deep_view()),
{
    if let Some(groups) = found {
        if groups.len() > 2 {
            assert(groups.deep_view()[1] == groups@[1].deep_view());
            assert(groups.deep_view()[2] == groups@[2].deep_view());
            if let (Some(alias), Some(expansion)) = (&groups[1], &groups[2]) {
                let left = text::concat(r"\b", alias.as_str());
                let word_pattern = text::concat(left.as_str(), r"\b");
                let new_expansion = requote(expansion.as_str());
                let new_script = pattern::replace_all_literal(
                    word_pattern.as_str(),
                    command.script.as_str(),
                    new_expansion.as_str(),
                );
                return command.update(Some(new_script), None, None);
            }
        }
    }
    copy_command(command)
}

/// The command runs git or hub.
pub fn is_git_command(command: &CrabCommand) -> (r: bool)
    ensures
        r == is_git(command@),
{
    let names = vec!["git", "hub"];
    assert(names.deep_view() =~= seq!["git"@, "hub"@]);
    is_app(command, &names, 0)
}

} // verus!
