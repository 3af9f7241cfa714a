//! A non-breaking space (typed with Alt+Space) made the command unknown.
use super::utils;
use super::{Rule, RuleKind};
use crate::cli::command::{CommandView, CrabCommand};
use crate::shell::Shell;
use crate::text;
use vstd::prelude::*;

verus! {

/// The output, lower-cased, says `command not found`, and the command
/// contains a non-breaking space.
pub open spec fn plain_matches(c: CommandView) -> bool {
    (c.output matches Some(o) && text::contains(text::lowercase(o), "command not found"@))
        && text::has_char(c.script, '\u{a0}')
}

/// `plain_matches`, looking through a leading `sudo`.
pub open spec fn matches(c: CommandView) -> bool {
    plain_matches(utils::sudo_stripped(c))
}

/// Every non-breaking space becomes a space.
pub open spec fn new_commands(c: CommandView) -> Seq<Seq<char>> {
    seq![text::replace_all(c.script, seq!['\u{a0}'], " "@)]
}

/// The correction has the command's length; at each position a
/// non-breaking space became a space and every other character stayed; so
/// no non-breaking space is left.
pub proof fn lemma_every_nbsp_replaced(c: CommandView)
    ensures
        new_commands(c).len() == 1,
        new_commands(c)[0].len() == c.script.len(),
        forall|k: int|
            0 <= k < c.script.len() ==> #[trigger] new_commands(c)[0][k] == (if c.script[k]
                == '\u{a0}' {
                ' '
            } else {
                c.script[k]
            }),
        !new_commands(c)[0].contains('\u{a0}'),
{
    reveal_strlit(" ");
    lemma_char_replaced(c.script, '\u{a0}', ' ');
    assert(" "@ =~= seq![' ']);
}

/// `replace_all` of one character by another acts position by position.
proof fn lemma_char_replaced(s: Seq<char>, a: char, b: char)
    requires
        a != b,
    ensures
        text::replace_all(s, seq![a], seq![b]).len() == s.len(),
        forall|k: int|
            0 <= k < s.len() ==> #[trigger] text::replace_all(s, seq![a], seq![b])[k] == (if s[k]
                == a {
                b
            } else {
                s[k]
            }),
    decreases s.len(),
{
    if s.len() > 0 {
        lemma_char_replaced(s.drop_first(), a, b);
        let rest = text::replace_all(s.drop_first(), seq![a], seq![b]);
        if s.take(1) == seq![a] {
            assert(s.skip(1) =~= s.drop_first());
            assert(s[0] == s.take(1)[0]);
            assert forall|k: int| 0 <= k < s.len() implies #[trigger] text::replace_all(
                s,
                seq![a],
                seq![b],
            )[k] == (if s[k] == a {
                b
            } else {
                s[k]
            }) by {
                if k > 0 {
                    assert(s.drop_first()[k - 1] == s[k]);
                }
            }
        } else {
            assert(s.take(1) =~= seq![s[0]]);
            assert(s[0] != a);
            assert forall|k: int| 0 <= k < s.len() implies #[trigger] text::replace_all(
                s,
                seq![a],
                seq![b],
            )[k] == (if s[k] == a {
                b
            } else {
                s[k]
            }) by {
                if k > 0 {
                    assert(s.drop_first()[k - 1] == s[k]);
                }
            }
        }
    }
}

fn auxiliary_match_rule(command: &CrabCommand) -> (r: bool)
    ensures
        r == plain_matches(command@),
{
    match &command.output {
        Some(output) => {
            let lower = text::str_lowercase(output.as_str());
            text::str_contains(lower.as_str(), "command not found") && text::str_has_char(
                command.script.as_str(),
                '\u{a0}',
            )
        },
        None => false,
    }
}

pub fn match_rule(command: &mut CrabCommand, system_shell: Option<&Shell>) -> (r: bool)
    ensures
        r == matches(old(command)@),
        *final(command) == *old(command),
{
    match utils::without_sudo(command) {
        Some(stripped) => auxiliary_match_rule(&stripped),
        None => auxiliary_match_rule(command),
    }
}

pub fn get_new_command(command: &mut CrabCommand, system_shell: Option<&Shell>) -> (r: Vec<String>)
    ensures
        r.deep_view() == new_commands(old(command)@),
        *final(command) == *old(command),
{
    let sv = text::chars_of(command.script.as_str());
    let from: Vec<char> = vec!['\u{a0}'];
    let to = text::chars_of(" ");
    let replaced = text::replace_chars(sv.as_slice(), from.as_slice(), to.as_slice());
    let r = vec![text::string_of(replaced.as_slice())];
    assert(from@ =~= seq!['\u{a0}']);
    assert(r.deep_view() =~= new_commands(command@));
    r
}

pub fn get_rule() -> (r: Rule)
    ensures
        r.name@ == "fix_alt_space"@,
        r.kind == RuleKind::FixAltSpace,
        r.enabled_by_default && r.priority == 1000 && r.requires_output,
        r.side_effect is None,
{
    Rule::new(text::owned("fix_alt_space"), None, None, None, RuleKind::FixAltSpace, None)
}

} // verus!
