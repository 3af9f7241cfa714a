//! Regular-expression matching, done by the `regex` crate.
use crate::text;
use vstd::prelude::*;

verus! {

/// The capture groups of the leftmost-first match of `pattern` in `text`, as
/// `regex::Regex::new(pattern)` followed by `Regex::captures(text)` finds
/// them (group 0 is the whole match; an unmatched group is absent). `None`
/// when the pattern does not compile or does not match.
pub uninterp spec fn regex_captures(pattern: Seq<char>, text: Seq<char>) -> Option<
    Seq<Option<Seq<char>>>,
>;

/// The capture groups of every successive non-overlapping match of `pattern`
/// in `text`, as `Regex::captures_iter` yields them; empty when the pattern
/// does not compile.
pub uninterp spec fn regex_all_captures(pattern: Seq<char>, text: Seq<char>) -> Seq<
    Seq<Option<Seq<char>>>,
>;

/// `text` with its leftmost-first match of `pattern` replaced by the
/// expansion of `template` (where `${1}` stands for the first group), as
/// `Regex::replace` computes it; `text` itself when the pattern does not
/// compile.
pub uninterp spec fn regex_replaced(pattern: Seq<char>, text: Seq<char>, template: Seq<char>) -> Seq<
    char,
>;

/// `text` with every non-overlapping match of `pattern` replaced by
/// `replacement` taken literally, as `Regex::replace_all` with `NoExpand`
/// computes it; `text` itself when the pattern does not compile.
pub uninterp spec fn regex_replaced_all(
    pattern: Seq<char>,
    text: Seq<char>,
    replacement: Seq<char>,
) -> Seq<char>;

/// `regex::Regex::new` then `Regex::captures`, each group converted to an
/// owned string. The contract claims only that the result is
/// `regex_captures` of the two arguments.
#[verifier::external_body]
pub(crate) fn captures(pattern: &str, text: &str) -> (r: Option<Vec<Option<String>>>)
    ensures
        r.deep_view() == regex_captures(pattern@, text@),
{
    match regex::Regex::new(pattern) {
        Ok(re) => re.captures(text).map(
            |caps| caps.iter().map(|m| m.map(|m| m.as_str().to_string())).collect(),
        ),
        Err(_) => None,
    }
}

/// `regex::Regex::new` then `Regex::captures_iter`, collected. The contract
/// claims only that the result is `regex_all_captures` of the two arguments.
#[verifier::external_body]
pub(crate) fn all_captures(pattern: &str, text: &str) -> (r: Vec<Vec<Option<String>>>)
    ensures
        r.deep_view() == regex_all_captures(pattern@, text@),
{
    match regex::Regex::new(pattern) {
        Ok(re) => re.captures_iter(text).map(
            |caps| caps.iter().map(|m| m.map(|m| m.as_str().to_string())).collect(),
        ).collect(),
        Err(_) => Vec::new(),
    }
}

/// `regex::Regex::new` then `Regex::replace` with a template. The contract
/// claims only that the result is `regex_replaced` of the three arguments.
#[verifier::external_body]
pub(crate) fn replace_first(pattern: &str, text: &str, template: &str) -> (r: String)
    ensures
        r@ == regex_replaced(pattern@, text@, template@),
{
    match regex::Regex::new(pattern) {
        Ok(re) => re.replace(text, template).into_owned(),
        Err(_) => text.to_string(),
    }
}

/// `regex::Regex::new` then `Regex::replace_all` with a literal replacement.
/// The contract claims only that the result is `regex_replaced_all` of the
/// three arguments.
#[verifier::external_body]
pub(crate) fn replace_all_literal(pattern: &str, text: &str, replacement: &str) -> (r: String)
    ensures
        r@ == regex_replaced_all(pattern@, text@, replacement@),
{
    match regex::Regex::new(pattern) {
        Ok(re) => re.replace_all(text, regex::NoExpand(replacement)).into_owned(),
        Err(_) => text.to_string(),
    }
}

/// The text of group `k`; empty when the group is absent.
pub open spec fn group_text(g: Seq<Option<Seq<char>>>, k: int) -> Seq<char> {
    if 0 <= k < g.len() && g[k] is Some {
        g[k]->0
    } else {
        Seq::<char>::empty()
    }
}

/// The text of group `k`; empty when the group is absent.
pub fn group_or_empty(g: &Vec<Option<String>>, k: usize) -> (r: String)
    ensures
        r@ == group_text(g.deep_view(), k as int),
{
    proof {
        reveal_strlit("");
    }
    if k < g.len() {
        assert(g.deep_view()[k as int] == g@[k as int].deep_view());
        match &g[k] {
            Some(t) => text::owned(t.as_str()),
            None => text::owned(""),
        }
    } else {
        text::owned("")
    }
}

/// Group `k` of every match, each of which must hold that group.
pub open spec fn groups_of(ms: Seq<Seq<Option<Seq<char>>>>, k: int) -> Seq<Seq<char>> {
    ms.map_values(|g: Seq<Option<Seq<char>>>| g[k]->0)
}

/// Every match holds group `k`.
pub open spec fn all_hold_group(ms: Seq<Seq<Option<Seq<char>>>>, k: int) -> bool {
    forall|i: int| 0 <= i < ms.len() ==> k < ms[i].len() && ms[i][k] is Some
}

/// Whether every match holds group `k`.
pub fn all_hold(ms: &Vec<Vec<Option<String>>>, k: usize) -> (r: bool)
    ensures
        r == all_hold_group(ms.deep_view(), k as int),
{
    let mut i: usize = 0;
    while i < ms.len()
        invariant
            i <= ms.len(),
            forall|j: int| 0 <= j < i ==> k < ms.deep_view()[j].len() && ms.deep_view()[j][k as int] is Some,
        decreases ms.len() - i,
    {
        assert(ms.deep_view()[i as int] == ms@[i as int].deep_view());
        if k >= ms[i].len() {
            return false;
        }
        assert(ms@[i as int].deep_view()[k as int] == ms@[i as int]@[k as int].deep_view());
        if ms[i][k].is_none() {
            return false;
        }
        i = i + 1;
    }
    true
}

/// Group `k` of every match.
pub fn groups(ms: &Vec<Vec<Option<String>>>, k: usize) -> (r: Vec<String>)
    requires
        all_hold_group(ms.deep_view(), k as int),
    ensures
        r.deep_view() == groups_of(ms.deep_view(), k as int),
        r@.len() == ms@.len(),
{
    let mut r: Vec<String> = Vec::new();
    let mut i: usize = 0;
    while i < ms.len()
        invariant
            i <= ms.len(),
            all_hold_group(ms.deep_view(), k as int),
            r.deep_view() == groups_of(ms.deep_view().take(i as int), k as int),
        decreases ms.len() - i,
    {
        assert(ms.deep_view()[i as int] == ms@[i as int].deep_view());
        assert(ms@[i as int].deep_view()[k as int] == ms@[i as int]@[k as int].deep_view());
        let item = match &ms[i][k] {
            Some(t) => text::owned(t.as_str()),
            None => text::owned(""),
        };
        let ghost before = r;
        let ghost x = item;
        r.push(item);
        proof {
            text::lemma_vec_push_deep(before, r, x);
            assert(groups_of(ms.deep_view().take(i + 1), k as int) =~= groups_of(
                ms.deep_view().take(i as int),
                k as int,
            ).push(x@));
        }
        i = i + 1;
    }
    assert(ms.deep_view().take(ms.len() as int) =~= ms.deep_view());
    r
}

} // verus!
