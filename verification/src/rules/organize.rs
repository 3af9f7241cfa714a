//! Ordering the corrected commands: by priority, lowest first, each command
//! text once.
use crate::cli::command::{CorrectedCommand, CorrectedView};
use crate::text;
use vstd::prelude::*;

verus! {

/// The views of the commands.
pub open spec fn views(s: Seq<CorrectedCommand>) -> Seq<CorrectedView> {
    s.map_values(|c: CorrectedCommand| c@)
}

/// Where a command of priority `p` joins a list sorted by priority: after
/// every command of priority at most `p`.
pub open spec fn priority_position(s: Seq<CorrectedView>, p: u16) -> int
    decreases s.len(),
{
    if s.len() == 0 {
        0
    } else if s[0].priority > p {
        0
    } else {
        1 + priority_position(s.drop_first(), p)
    }
}

/// The list `s` with `x` joined at its place.
pub open spec fn insert_by_priority(s: Seq<CorrectedView>, x: CorrectedView) -> Seq<CorrectedView> {
    let k = priority_position(s, x.priority);
    s.take(k) + seq![x] + s.skip(k)
}

/// The commands sorted by priority, lowest first; commands of equal priority
/// keep their order.
pub open spec fn sorted_by_priority(s: Seq<CorrectedView>) -> Seq<CorrectedView>
    decreases s.len(),
{
    if s.len() == 0 {
        Seq::<CorrectedView>::empty()
    } else {
        insert_by_priority(sorted_by_priority(s.drop_last()), s.last())
    }
}

/// Some command of `s` has the text `x`.
pub open spec fn has_script(s: Seq<CorrectedView>, x: Seq<char>) -> bool {
    exists|k: int| 0 <= k < s.len() && (#[trigger] s[k]).script == x
}

/// The first command of each text, in order.
pub open spec fn first_of_each_script(s: Seq<CorrectedView>) -> Seq<CorrectedView>
    decreases s.len(),
{
    if s.len() == 0 {
        Seq::<CorrectedView>::empty()
    } else if has_script(s.drop_last(), s.last().script) {
        first_of_each_script(s.drop_last())
    } else {
        first_of_each_script(s.drop_last()).push(s.last())
    }
}

/// The commands sorted by priority, each text kept once (where it first
/// comes).
pub open spec fn organized(s: Seq<CorrectedView>) -> Seq<CorrectedView> {
    first_of_each_script(sorted_by_priority(s))
}

/// Priorities never decrease along `s`.
pub open spec fn priorities_sorted(s: Seq<CorrectedView>) -> bool {
    forall|i: int, j: int| 0 <= i < j < s.len() ==> (#[trigger] s[i]).priority <= (#[trigger] s[j]).priority
}

proof fn lemma_priority_position(s: Seq<CorrectedView>, p: u16)
    ensures
        0 <= priority_position(s, p) <= s.len(),
        forall|k: int| 0 <= k < priority_position(s, p) ==> (#[trigger] s[k]).priority <= p,
        priority_position(s, p) < s.len() ==> s[priority_position(s, p)].priority > p,
    decreases s.len(),
{
    if s.len() > 0 && s[0].priority <= p {
        lemma_priority_position(s.drop_first(), p);
        let k0 = priority_position(s, p);
        assert forall|k: int| 0 <= k < k0 implies (#[trigger] s[k]).priority <= p by {
            if k > 0 {
                assert(s[k] == s.drop_first()[k - 1]);
            }
        }
        if k0 < s.len() {
            assert(s[k0] == s.drop_first()[k0 - 1]);
        }
    }
}

proof fn lemma_priority_position_at(s: Seq<CorrectedView>, p: u16, i: int)
    requires
        0 <= i <= s.len(),
        forall|k: int| 0 <= k < i ==> (#[trigger] s[k]).priority <= p,
        i < s.len() ==> s[i].priority > p,
    ensures
        priority_position(s, p) == i,
    decreases i,
{
    if i > 0 {
        assert forall|k: int| 0 <= k < i - 1 implies (#[trigger] s.drop_first()[k]).priority <= p by {
            assert(s.drop_first()[k] == s[k + 1]);
        }
        lemma_priority_position_at(s.drop_first(), p, i - 1);
    }
}

proof fn lemma_sorted_by_priority(s: Seq<CorrectedView>)
    ensures
        priorities_sorted(sorted_by_priority(s)),
        sorted_by_priority(s).len() == s.len(),
        forall|k: int|
            0 <= k < sorted_by_priority(s).len() ==> s.contains(#[trigger] sorted_by_priority(s)[k]),
        forall|k: int| 0 <= k < s.len() ==> sorted_by_priority(s).contains(#[trigger] s[k]),
    decreases s.len(),
{
    if s.len() > 0 {
        let init = s.drop_last();
        let x = s.last();
        lemma_sorted_by_priority(init);
        let rest = sorted_by_priority(init);
        lemma_priority_position(rest, x.priority);
        let p = priority_position(rest, x.priority);
        let t = sorted_by_priority(s);
        assert(t == insert_by_priority(rest, x));
        assert forall|k: int| 0 <= k < t.len() implies (#[trigger] t[k] == (if k < p {
            rest[k]
        } else if k == p {
            x
        } else {
            rest[k - 1]
        })) by {}
        assert forall|i: int, j: int| 0 <= i < j < t.len() implies (#[trigger] t[i]).priority <= (
        #[trigger] t[j]).priority by {
            if j == p {
                assert(rest[i].priority <= x.priority);
            } else if i == p {
                assert(rest[p].priority > x.priority);
                if j - 1 > p {
                    assert(rest[p].priority <= rest[j - 1].priority);
                }
            } else if i < p && j < p {
                assert(rest[i].priority <= rest[j].priority);
            } else if i < p {
                assert(rest[i].priority <= rest[j - 1].priority);
            } else {
                assert(rest[i - 1].priority <= rest[j - 1].priority);
            }
        }
        assert(s[s.len() - 1] == x);
        assert forall|k: int| 0 <= k < t.len() implies s.contains(#[trigger] t[k]) by {
            if k != p {
                let q = if k < p {
                    k
                } else {
                    k - 1
                };
                assert(t[k] == rest[q]);
                assert(init.contains(rest[q]));
                let w = choose|w: int| 0 <= w < init.len() && init[w] == rest[q];
                assert(s[w] == init[w]);
            }
        }
        assert forall|k: int| 0 <= k < s.len() implies t.contains(#[trigger] s[k]) by {
            if k == s.len() - 1 {
                assert(t[p] == x);
            } else {
                assert(s[k] == init[k]);
                let q = choose|q: int| 0 <= q < rest.len() && rest[q] == init[k];
                if q < p {
                    assert(t[q] == rest[q]);
                } else {
                    assert(t[q + 1] == rest[q]);
                }
            }
        }
    }
}

proof fn lemma_first_of_each(s: Seq<CorrectedView>)
    ensures
        forall|x: Seq<char>| has_script(first_of_each_script(s), x) == has_script(s, x),
        forall|i: int, j: int|
            0 <= i < j < first_of_each_script(s).len() ==> (#[trigger] first_of_each_script(
                s,
            )[i]).script != (#[trigger] first_of_each_script(s)[j]).script,
        forall|k: int|
            0 <= k < first_of_each_script(s).len() ==> exists|idx: int|
                0 <= idx < s.len() && s[idx] == #[trigger] first_of_each_script(s)[k] && forall|
                    j: int,
                | 0 <= j < idx ==> (#[trigger] s[j]).script != s[idx].script,
        first_of_each_script(s).len() <= s.len(),
    decreases s.len(),
{
    if s.len() > 0 {
        let init = s.drop_last();
        let x = s.last();
        lemma_first_of_each(init);
        let rest = first_of_each_script(init);
        let r = first_of_each_script(s);
        assert forall|k: int| 0 <= k < rest.len() implies exists|idx: int|
            0 <= idx < s.len() && s[idx] == #[trigger] rest[k] && forall|j: int|
                0 <= j < idx ==> (#[trigger] s[j]).script != s[idx].script by {
            let idx = choose|idx: int|
                0 <= idx < init.len() && init[idx] == rest[k] && forall|j: int|
                    0 <= j < idx ==> (#[trigger] init[j]).script != init[idx].script;
            assert(s[idx] == init[idx]);
            assert forall|j: int| 0 <= j < idx implies (#[trigger] s[j]).script != s[idx].script by {
                assert(s[j] == init[j]);
            }
        }
        if has_script(init, x.script) {
            assert forall|y: Seq<char>| has_script(r, y) == has_script(s, y) by {
                if has_script(s, y) {
                    let k = choose|k: int| 0 <= k < s.len() && (#[trigger] s[k]).script == y;
                    if k < s.len() - 1 {
                        assert(init[k] == s[k]);
                        assert(has_script(init, y));
                    }
                }
                if has_script(init, y) {
                    let k = choose|k: int| 0 <= k < init.len() && (#[trigger] init[k]).script == y;
                    assert(s[k] == init[k]);
                }
            }
        } else {
            assert(r == rest.push(x));
            assert forall|y: Seq<char>| has_script(r, y) == has_script(s, y) by {
                if has_script(s, y) {
                    let k = choose|k: int| 0 <= k < s.len() && (#[trigger] s[k]).script == y;
                    if k < s.len() - 1 {
                        assert(init[k] == s[k]);
                        assert(has_script(init, y));
                        let q = choose|q: int| 0 <= q < rest.len() && (#[trigger] rest[q]).script == y;
                        assert(r[q] == rest[q]);
                    } else {
                        assert(r[rest.len() as int] == x);
                    }
                }
                if has_script(r, y) {
                    let k = choose|k: int| 0 <= k < r.len() && (#[trigger] r[k]).script == y;
                    if k < rest.len() {
                        assert(r[k] == rest[k]);
                        assert(has_script(rest, y));
                        let q = choose|q: int| 0 <= q < init.len() && (#[trigger] init[q]).script == y;
                        assert(s[q] == init[q]);
                    } else {
                        assert(s[s.len() - 1] == x);
                    }
                }
            }
            assert forall|i: int, j: int| 0 <= i < j < r.len() implies (#[trigger] r[i]).script != (
            #[trigger] r[j]).script by {
                if j == rest.len() {
                    assert(r[i] == rest[i]);
                    if rest[i].script == x.script {
                        assert(has_script(rest, x.script));
                    }
                } else {
                    assert(r[i] == rest[i]);
                    assert(r[j] == rest[j]);
                }
            }
            assert forall|k: int| 0 <= k < r.len() implies exists|idx: int|
                0 <= idx < s.len() && s[idx] == #[trigger] r[k] && forall|j: int|
                    0 <= j < idx ==> (#[trigger] s[j]).script != s[idx].script by {
                if k < rest.len() {
                    assert(r[k] == rest[k]);
                } else {
                    let idx = s.len() - 1;
                    assert(s[idx] == x);
                    assert forall|j: int| 0 <= j < idx implies (#[trigger] s[j]).script != s[idx].script by {
                        assert(s[j] == init[j]);
                        if s[j].script == x.script {
                            assert(has_script(init, x.script));
                        }
                    }
                }
            }
        }
    }
}

/// The organized commands are sorted by priority, lowest first; no two have
/// the same text; each is one of the given commands; every text of the given
/// commands is among them; and the one kept for a text has the lowest
/// priority of the commands with that text.
pub proof fn lemma_organized(s: Seq<CorrectedView>)
    ensures
        priorities_sorted(organized(s)),
        forall|i: int, j: int|
            0 <= i < j < organized(s).len() ==> (#[trigger] organized(s)[i]).script != (
            #[trigger] organized(s)[j]).script,
        forall|k: int| 0 <= k < organized(s).len() ==> s.contains(#[trigger] organized(s)[k]),
        forall|k: int| 0 <= k < s.len() ==> has_script(organized(s), (#[trigger] s[k]).script),
        forall|k: int, j: int|
            0 <= k < organized(s).len() && 0 <= j < s.len() && (#[trigger] s[j]).script == (
            #[trigger] organized(s)[k]).script ==> organized(s)[k].priority <= s[j].priority,
{
    let t = sorted_by_priority(s);
    let r = organized(s);
    lemma_sorted_by_priority(s);
    lemma_first_of_each(t);
    assert forall|i: int, j: int| 0 <= i < j < r.len() implies (#[trigger] r[i]).priority <= (
    #[trigger] r[j]).priority by {
        let a = choose|idx: int|
            0 <= idx < t.len() && t[idx] == r[i] && forall|q: int|
                0 <= q < idx ==> (#[trigger] t[q]).script != t[idx].script;
        let b = choose|idx: int|
            0 <= idx < t.len() && t[idx] == r[j] && forall|q: int|
                0 <= q < idx ==> (#[trigger] t[q]).script != t[idx].script;
        if b < a {
            assert(t[b].priority <= t[a].priority);
            assert(r[i].script != r[j].script);
            assert(t[b].script != t[a].script);
            lemma_first_order(t, i, j);
        } else if a < b {
            assert(t[a].priority <= t[b].priority);
        }
    }
    assert forall|k: int| 0 <= k < r.len() implies s.contains(#[trigger] r[k]) by {
        let a = choose|idx: int|
            0 <= idx < t.len() && t[idx] == r[k] && forall|q: int|
                0 <= q < idx ==> (#[trigger] t[q]).script != t[idx].script;
        assert(s.contains(t[a]));
    }
    assert forall|k: int| 0 <= k < s.len() implies has_script(r, (#[trigger] s[k]).script) by {
        assert(t.contains(s[k]));
        let q = choose|q: int| 0 <= q < t.len() && t[q] == s[k];
        assert(has_script(t, t[q].script));
    }
    assert forall|k: int, j: int|
        0 <= k < r.len() && 0 <= j < s.len() && (#[trigger] s[j]).script == (#[trigger] r[k]).script
        implies r[k].priority <= s[j].priority by {
        let a = choose|idx: int|
            0 <= idx < t.len() && t[idx] == r[k] && forall|q: int|
                0 <= q < idx ==> (#[trigger] t[q]).script != t[idx].script;
        assert(t.contains(s[j]));
        let q = choose|q: int| 0 <= q < t.len() && t[q] == s[j];
        if q < a {
            assert(t[q].script != t[a].script);
        } else if a < q {
            assert(t[a].priority <= t[q].priority);
        }
    }
}

proof fn lemma_first_order(t: Seq<CorrectedView>, i: int, j: int)
    requires
        0 <= i < j < first_of_each_script(t).len(),
        priorities_sorted(t),
    ensures
        first_of_each_script(t)[i].priority <= first_of_each_script(t)[j].priority,
    decreases t.len(),
{
    let init = t.drop_last();
    let rest = first_of_each_script(init);
    lemma_first_of_each(init);
    assert(priorities_sorted(init)) by {
        assert forall|a: int, b: int| 0 <= a < b < init.len() implies (#[trigger] init[a]).priority
            <= (#[trigger] init[b]).priority by {
            assert(init[a] == t[a]);
            assert(init[b] == t[b]);
        }
    }
    if has_script(init, t.last().script) {
        lemma_first_order(init, i, j);
    } else if j < rest.len() {
        lemma_first_order(init, i, j);
    } else {
        let idx = choose|idx: int|
            0 <= idx < init.len() && init[idx] == rest[i] && forall|q: int|
                0 <= q < idx ==> (#[trigger] init[q]).script != init[idx].script;
        assert(t[idx] == init[idx]);
        assert(t[t.len() - 1] == t.last());
        assert(t[idx].priority <= t[t.len() - 1].priority);
    }
}

/// Where a command of priority `p` joins the sorted commands.
fn position_for(sorted: &Vec<CorrectedCommand>, p: u16) -> (r: usize)
    ensures
        r as int == priority_position(views(sorted@), p),
        r <= sorted@.len(),
{
    let ghost v = views(sorted@);
    let mut i: usize = 0;
    while i < sorted.len() && sorted[i].priority <= p
        invariant
            i <= sorted.len(),
            v == views(sorted@),
            forall|k: int| 0 <= k < i ==> (#[trigger] v[k]).priority <= p,
        decreases sorted.len() - i,
    {
        assert(v[i as int] == sorted@[i as int]@);
        i = i + 1;
    }
    proof {
        if i < sorted.len() {
            assert(v[i as int] == sorted@[i as int]@);
        }
        lemma_priority_position_at(v, p, i as int);
    }
    i
}

/// Whether some command of `out` has the text `script`.
fn has_script_exec(out: &Vec<CorrectedCommand>, script: &str) -> (r: bool)
    ensures
        r == has_script(views(out@), script@),
{
    let ghost v = views(out@);
    let mut i: usize = 0;
    while i < out.len()
        invariant
            i <= out.len(),
            v == views(out@),
            forall|k: int| 0 <= k < i ==> (#[trigger] v[k]).script != script@,
        decreases out.len() - i,
    {
        assert(v[i as int] == out@[i as int]@);
        if text::str_eq(out[i].script.as_str(), script) {
            return true;
        }
        i = i + 1;
    }
    false
}

/// The commands sorted by priority, lowest first (equal priorities keep
/// their order), each text kept once, where it first comes.
pub fn organize_commands(commands: Vec<CorrectedCommand>) -> (r: Vec<CorrectedCommand>)
    ensures
        views(r@) == organized(views(commands@)),
{
    let ghost all = views(commands@);
    let mut rest = commands;
    let total = rest.len();
    let mut sorted: Vec<CorrectedCommand> = Vec::new();
    let mut i: usize = 0;
    while rest.len() > 0
        invariant
            i + rest.len() == all.len(),
            all.len() == total,
            views(rest@) == all.skip(i as int),
            views(sorted@) == sorted_by_priority(all.take(i as int)),
        decreases rest.len(),
    {
        let ghost before_rest = rest@;
        let x = rest.remove(0);
        assert(views(rest@) =~= all.skip(i + 1)) by {
            assert(rest@ == before_rest.remove(0));
            assert forall|k: int| 0 <= k < views(rest@).len() implies views(rest@)[k] == all.skip(
                i + 1,
            )[k] by {
                assert(rest@[k] == before_rest[k + 1]);
                assert(views(before_rest)[k + 1] == all.skip(i as int)[k + 1]);
            }
        }
        assert(x@ == all[i as int]) by {
            assert(views(before_rest)[0] == all.skip(i as int)[0]);
        }
        let p = position_for(&sorted, x.priority);
        let ghost before = views(sorted@);
        sorted.insert(p, x);
        assert(views(sorted@) =~= before.take(p as int) + seq![x@] + before.skip(p as int));
        assert(all.take(i + 1).drop_last() =~= all.take(i as int));
        assert(all.take(i + 1).last() == all[i as int]);
        i = i + 1;
    }
    assert(all.take(i as int) =~= all);
    let ghost ordered = views(sorted@);
    let mut out: Vec<CorrectedCommand> = Vec::new();
    let mut j: usize = 0;
    let n = sorted.len();
    while sorted.len() > 0
        invariant
            j + sorted.len() == n,
            n == ordered.len(),
            views(sorted@) == ordered.skip(j as int),
            views(out@) == first_of_each_script(ordered.take(j as int)),
        decreases sorted.len(),
    {
        let ghost before_sorted = sorted@;
        let x = sorted.remove(0);
        assert(views(sorted@) =~= ordered.skip(j + 1)) by {
            assert forall|k: int| 0 <= k < views(sorted@).len() implies views(sorted@)[k]
                == ordered.skip(j + 1)[k] by {
                assert(sorted@[k] == before_sorted[k + 1]);
                assert(views(before_sorted)[k + 1] == ordered.skip(j as int)[k + 1]);
            }
        }
        assert(x@ == ordered[j as int]) by {
            assert(views(before_sorted)[0] == ordered.skip(j as int)[0]);
        }
        assert(ordered.take(j + 1).drop_last() =~= ordered.take(j as int));
        assert(ordered.take(j + 1).last() == ordered[j as int]);
        proof {
            lemma_first_of_each(ordered.take(j as int));
        }
        if !has_script_exec(&out, x.script.as_str()) {
            let ghost before = views(out@);
            out.push(x);
            assert(views(out@) =~= before.push(x@));
        }
        j = j + 1;
    }
    assert(ordered.take(j as int) =~= ordered);
    out
}

proof fn lemma_sorted_unchanged(t: Seq<CorrectedView>)
    requires
        priorities_sorted(t),
    ensures
        sorted_by_priority(t) == t,
    decreases t.len(),
{
    if t.len() > 0 {
        let init = t.drop_last();
        let x = t.last();
        assert(priorities_sorted(init)) by {
            assert forall|a: int, b: int| 0 <= a < b < init.len() implies (#[trigger] init[a]).priority
                <= (#[trigger] init[b]).priority by {
                assert(init[a] == t[a]);
                assert(init[b] == t[b]);
            }
        }
        lemma_sorted_unchanged(init);
        assert forall|k: int| 0 <= k < init.len() implies (#[trigger] init[k]).priority <= x.priority by {
            assert(init[k] == t[k]);
            assert(t[t.len() - 1] == x);
        }
        lemma_priority_position_at(init, x.priority, init.len() as int);
        assert(insert_by_priority(init, x) =~= t);
    }
}

proof fn lemma_unique_unchanged(t: Seq<CorrectedView>)
    requires
        forall|i: int, j: int| 0 <= i < j < t.len() ==> (#[trigger] t[i]).script != (#[trigger] t[j]).script,
    ensures
        first_of_each_script(t) == t,
    decreases t.len(),
{
    if t.len() > 0 {
        let init = t.drop_last();
        assert forall|i: int, j: int| 0 <= i < j < init.len() implies (#[trigger] init[i]).script != (
        #[trigger] init[j]).script by {
            assert(init[i] == t[i]);
            assert(init[j] == t[j]);
        }
        lemma_unique_unchanged(init);
        if has_script(init, t.last().script) {
            let k = choose|k: int| 0 <= k < init.len() && (#[trigger] init[k]).script == t.last().script;
            assert(t[k] == init[k]);
            assert(t[t.len() - 1] == t.last());
        }
        assert(init.push(t.last()) =~= t);
    }
}

/// Organizing organized commands changes nothing.
pub proof fn lemma_organized_twice(s: Seq<CorrectedView>)
    ensures
        organized(organized(s)) == organized(s),
{
    lemma_organized(s);
    let r = organized(s);
    lemma_sorted_unchanged(r);
    lemma_unique_unchanged(r);
}

} // verus!
