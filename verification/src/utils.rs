//! Helpers on candidate words and command lines.
use crate::cli::command::CrabCommand;
use crate::text;
use vstd::prelude::*;

verus! {

/// The command line with the argument `f` replaced by `t`: when the line ends
/// with ` f`, that ending becomes ` t`; otherwise the first ` f ` becomes
/// ` t `.
pub open spec fn replace_argument_spec(s: Seq<char>, f: Seq<char>, t: Seq<char>) -> Seq<char> {
    let ending = " "@ + f;
    let at_end = s.take(s.len() - ending.len()) + " "@ + t;
    if text::ends_with(s, ending) && at_end != s {
        at_end
    } else {
        text::replace_n(s, " "@ + f + " "@, " "@ + t + " "@, 1)
    }
}

/// Replaces a command line argument.
pub fn replace_argument(script: &str, from: &str, to: &str) -> (r: String)
    ensures
        r@ == replace_argument_spec(script@, from@, to@),
{
    let ending = text::concat(" ", from);
    let replacement = text::concat(" ", to);
    if text::str_ends_with(script, ending.as_str()) {
        let n = script.unicode_len();
        let m = ending.as_str().unicode_len();
        let head = script.substring_char(0, n - m);
        let at_end = text::concat(head, replacement.as_str());
        assert(at_end@ =~= script@.take(script@.len() - ending@.len()) + " "@ + to@);
        if !text::str_eq(at_end.as_str(), script) {
            return at_end;
        }
    }
    let pattern = text::concat(ending.as_str(), " ");
    let new_text = text::concat(replacement.as_str(), " ");
    text::str_replacen(script, pattern.as_str(), new_text.as_str(), 1)
}

/// Whether one of `seps` occurs in `line`.
pub open spec fn has_separator(line: Seq<char>, seps: Seq<Seq<char>>) -> bool {
    exists|k: int| 0 <= k < seps.len() && text::contains(line, seps[k])
}

/// The lines that follow the first line holding a separator, trimmed, leaving
/// out empty lines and lines that hold a separator.
pub open spec fn matched_lines(lines: Seq<Seq<char>>, seps: Seq<Seq<char>>, yielding: bool) -> Seq<
    Seq<char>,
>
    decreases lines.len(),
{
    if lines.len() == 0 {
        Seq::<Seq<char>>::empty()
    } else if has_separator(lines[0], seps) {
        matched_lines(lines.drop_first(), seps, true)
    } else if yielding && lines[0].len() > 0 {
        seq![text::trim(lines[0])] + matched_lines(lines.drop_first(), seps, yielding)
    } else {
        matched_lines(lines.drop_first(), seps, yielding)
    }
}

/// The separators that mark the start of the suggestions: those given, or
/// `Did you mean`.
pub open spec fn separators(given: Option<Seq<Seq<char>>>) -> Seq<Seq<char>> {
    match given {
        Some(s) => s,
        None => seq!["Did you mean"@],
    }
}

fn has_separator_exec(line: &str, seps: &Vec<&str>) -> (r: bool)
    ensures
        r == has_separator(line@, seps.deep_view()),
{
    let mut k: usize = 0;
    while k < seps.len()
        invariant
            k <= seps.len(),
            forall|j: int| 0 <= j < k ==> !text::contains(line@, seps.deep_view()[j]),
        decreases seps.len() - k,
    {
        if text::str_contains(line, seps[k]) {
            assert(text::contains(line@, seps.deep_view()[k as int]));
            return true;
        }
        k = k + 1;
    }
    false
}

/// The commands that a program's output suggests after one of the
/// separators (by default `Did you mean`), one per line.
pub fn get_all_matched_commands(stderr: &str, separator: Option<Vec<&str>>) -> (r: Vec<String>)
    ensures
        r.deep_view() == matched_lines(
            text::split_on(stderr@, '\n'),
            separators(separator.deep_view()),
            false,
        ),
{
    let seps: Vec<&str> = match separator {
        Some(s) => s,
        None => vec!["Did you mean"],
    };
    assert(seps.deep_view() == separators(separator.deep_view()));
    let lines = text::str_split(stderr, '\n');
    let ghost all = lines.deep_view();
    let mut out: Vec<String> = Vec::new();
    let mut yielding = false;
    let mut i: usize = 0;
    assert(all.skip(0) =~= all);
    assert(out.deep_view() + matched_lines(all, seps.deep_view(), false) =~= matched_lines(all, seps.deep_view(), false));
    while i < lines.len()
        invariant
            i <= lines.len(),
            all == lines.deep_view(),
            matched_lines(all, seps.deep_view(), false) == out.deep_view() + matched_lines(
                all.skip(i as int),
                seps.deep_view(),
                yielding,
            ),
        decreases lines.len() - i,
    {
        let line = lines[i].as_str();
        assert(all.skip(i as int).drop_first() =~= all.skip(i + 1));
        assert(all.skip(i as int)[0] == line@);
        if has_separator_exec(line, &seps) {
            yielding = true;
        } else if yielding && !line.is_empty() {
            let item = text::str_trim(line);
            let ghost before = out;
            let ghost x = item;
            out.push(item);
            proof {
                text::lemma_vec_push_deep(before, out, x);
                assert(out.deep_view() + matched_lines(all.skip(i + 1), seps.deep_view(), yielding)
                    =~= before.deep_view() + (seq![x@] + matched_lines(all.skip(i + 1), seps.deep_view(), yielding)));
            }
        }
        i = i + 1;
    }
    assert(all.skip(i as int) =~= Seq::<Seq<char>>::empty());
    assert(out.deep_view() + Seq::<Seq<char>>::empty() =~= out.deep_view());
    out
}

// ---------------------------------------------------------------------------
// Similarity of words (Ratcliff/Obershelp gestalt pattern matching)
// ---------------------------------------------------------------------------

/// `a[i..i+k]` equals `b[j..j+k]`.
pub open spec fn common_block(a: Seq<char>, b: Seq<char>, i: int, j: int, k: int) -> bool {
    0 <= i && 0 <= j && 0 <= k && i + k <= a.len() && j + k <= b.len() && a.subrange(i, i + k)
        == b.subrange(j, j + k)
}

/// `(i, j)` comes before `(i2, j2)`, row by row.
pub open spec fn lex_before(i: int, j: int, i2: int, j2: int) -> bool {
    i < i2 || (i == i2 && j < j2)
}

/// `(i, j, k)` is the longest common block, and the first of the longest ones
/// (by position in `a`, then in `b`).
pub open spec fn longest_block(a: Seq<char>, b: Seq<char>, i: int, j: int, k: int) -> bool {
    &&& common_block(a, b, i, j, k)
    &&& forall|i2: int, j2: int, k2: int| #[trigger] common_block(a, b, i2, j2, k2) ==> k2 <= k
    &&& forall|i2: int, j2: int| #[trigger]
        common_block(a, b, i2, j2, k) ==> (i == i2 && j == j2) || lex_before(i, j, i2, j2)
}

/// The first longest common block.
pub open spec fn best_block(a: Seq<char>, b: Seq<char>) -> (int, int, int) {
    choose|t: (int, int, int)| longest_block(a, b, t.0, t.1, t.2)
}

/// The number of characters that match: the first longest common block,
/// then recursively the parts before it and the parts after it.
pub open spec fn matching_chars(a: Seq<char>, b: Seq<char>) -> nat
    decreases a.len() + b.len(),
{
    let t = best_block(a, b);
    if t.2 > 0 && common_block(a, b, t.0, t.1, t.2) {
        (t.2 + matching_chars(a.take(t.0), b.take(t.1)) + matching_chars(
            a.skip(t.0 + t.2),
            b.skip(t.1 + t.2),
        )) as nat
    } else {
        0
    }
}

/// The similarity of `a` to `b` as a fraction (numerator, denominator):
/// twice the matching characters over the total length, or one for two
/// empty words.
pub open spec fn similarity(a: Seq<char>, b: Seq<char>) -> (int, int) {
    if a.len() + b.len() == 0 {
        (1, 1)
    } else {
        ((2 * matching_chars(a, b)) as int, (a.len() + b.len()) as int)
    }
}

/// The fraction `a/b` is less than `c/d` (for positive denominators).
pub open spec fn frac_lt(a: int, b: int, c: int, d: int) -> bool {
    a * d < c * b
}

/// The length of the run of equal characters from `a[i]` and `b[j]`.
fn run_length(a: &[char], b: &[char], i: usize, j: usize) -> (k: usize)
    requires
        i <= a@.len(),
        j <= b@.len(),
    ensures
        common_block(a@, b@, i as int, j as int, k as int),
        forall|k2: int| common_block(a@, b@, i as int, j as int, k2) ==> k2 <= k,
{
    let mut k: usize = 0;
    assert(a@.subrange(i as int, i as int) =~= b@.subrange(j as int, j as int));
    while k < a.len() - i && k < b.len() - j && a[i + k] == b[j + k]
        invariant
            i <= a@.len(),
            j <= b@.len(),
            common_block(a@, b@, i as int, j as int, k as int),
        decreases a.len() - i - k,
    {
        assert(a@.subrange(i as int, i + k + 1) =~= a@.subrange(i as int, i + k).push(a@[i + k]));
        assert(b@.subrange(j as int, j + k + 1) =~= b@.subrange(j as int, j + k).push(b@[j + k]));
        k = k + 1;
    }
    assert forall|k2: int| common_block(a@, b@, i as int, j as int, k2) implies k2 <= k by {
        if k2 > k {
            assert(a@.subrange(i as int, i + k2)[k as int] == a@[i + k]);
            assert(b@.subrange(j as int, j + k2)[k as int] == b@[j + k]);
        }
    }
    k
}

/// The first longest common block of `a` and `b`.
fn find_longest(a: &[char], b: &[char]) -> (r: (usize, usize, usize))
    ensures
        longest_block(a@, b@, r.0 as int, r.1 as int, r.2 as int),
{
    let mut bi: usize = 0;
    let mut bj: usize = 0;
    let mut bk: usize = 0;
    assert(a@.subrange(0, 0) =~= b@.subrange(0, 0));
    let mut i: usize = 0;
    while i < a.len()
        invariant
            i <= a@.len(),
            common_block(a@, b@, bi as int, bj as int, bk as int),
            forall|i2: int, j2: int, k2: int|
                i2 < i && #[trigger] common_block(a@, b@, i2, j2, k2) ==> k2 <= bk,
            forall|i2: int, j2: int|
                i2 < i && #[trigger] common_block(a@, b@, i2, j2, bk as int) ==> (bi == i2 && bj
                    == j2) || lex_before(bi as int, bj as int, i2, j2),
            bk == 0 ==> bi == 0 && bj == 0,
            bk > 0 ==> bi < i,
        decreases a.len() - i,
    {
        let mut j: usize = 0;
        while j < b.len()
            invariant
                i < a@.len(),
                j <= b@.len(),
                common_block(a@, b@, bi as int, bj as int, bk as int),
                forall|i2: int, j2: int, k2: int|
                    lex_before(i2, j2, i as int, j as int) && #[trigger] common_block(
                        a@,
                        b@,
                        i2,
                        j2,
                        k2,
                    ) ==> k2 <= bk,
                forall|i2: int, j2: int|
                    lex_before(i2, j2, i as int, j as int) && #[trigger] common_block(
                        a@,
                        b@,
                        i2,
                        j2,
                        bk as int,
                    ) ==> (bi == i2 && bj == j2) || lex_before(bi as int, bj as int, i2, j2),
                bk == 0 ==> bi == 0 && bj == 0,
                bk > 0 ==> lex_before(bi as int, bj as int, i as int, j as int),
            decreases b.len() - j,
        {
            let k = run_length(a, b, i, j);
            if k > bk {
                bi = i;
                bj = j;
                bk = k;
            }
            j = j + 1;
        }
        assert forall|i2: int, j2: int, k2: int|
            i2 < i + 1 && #[trigger] common_block(a@, b@, i2, j2, k2) implies k2 <= bk by {
            if i2 == i && j2 >= b.len() {
                assert(k2 == 0);
            }
        }
        assert forall|i2: int, j2: int|
            i2 < i + 1 && #[trigger] common_block(a@, b@, i2, j2, bk as int) implies (bi == i2
            && bj == j2) || lex_before(bi as int, bj as int, i2, j2) by {
            if i2 == i && j2 >= b.len() {
                assert(bk == 0);
            }
        }
        i = i + 1;
    }
    assert forall|i2: int, j2: int, k2: int| #[trigger]
        common_block(a@, b@, i2, j2, k2) implies k2 <= bk by {
        if i2 >= a.len() {
            assert(k2 == 0);
        }
    }
    assert forall|i2: int, j2: int| #[trigger]
        common_block(a@, b@, i2, j2, bk as int) implies (bi == i2 && bj == j2) || lex_before(
        bi as int,
        bj as int,
        i2,
        j2,
    ) by {
        if i2 >= a.len() {
            assert(bk == 0);
        }
    }
    (bi, bj, bk)
}

proof fn lemma_best_block(a: Seq<char>, b: Seq<char>, i: int, j: int, k: int)
    requires
        longest_block(a, b, i, j, k),
    ensures
        best_block(a, b) == (i, j, k),
{
    let w = (i, j, k);
    assert(longest_block(a, b, w.0, w.1, w.2));
    let t = best_block(a, b);
    assert(longest_block(a, b, t.0, t.1, t.2));
    assert(common_block(a, b, t.0, t.1, t.2));
    assert(common_block(a, b, i, j, k));
    assert(t.2 == k);
    assert(common_block(a, b, t.0, t.1, k));
    assert(common_block(a, b, i, j, t.2));
}

/// The characters of `v` from `from` up to `to`.
fn chars_between(v: &Vec<char>, from: usize, to: usize) -> (r: Vec<char>)
    requires
        from <= to <= v@.len(),
    ensures
        r@ == v@.subrange(from as int, to as int),
{
    let mut r: Vec<char> = Vec::new();
    let mut k = from;
    while k < to
        invariant
            from <= k <= to <= v@.len(),
            r@ == v@.subrange(from as int, k as int),
        decreases to - k,
    {
        r.push(v[k]);
        k = k + 1;
        assert(r@ =~= v@.subrange(from as int, k as int));
    }
    r
}

/// The number of matching characters of `a` and `b`.
pub fn matching_count(a: &Vec<char>, b: &Vec<char>) -> (m: usize)
    ensures
        m == matching_chars(a@, b@),
        m <= a@.len(),
    decreases a@.len() + b@.len(),
{
    let (i, j, k) = find_longest(a.as_slice(), b.as_slice());
    proof {
        lemma_best_block(a@, b@, i as int, j as int, k as int);
    }
    if k == 0 {
        return 0;
    }
    let na = a.len();
    let nb = b.len();
    assert(i + k <= na && j + k <= nb);
    let la = chars_between(a, 0, i);
    let lb = chars_between(b, 0, j);
    let ra = chars_between(a, i + k, a.len());
    let rb = chars_between(b, j + k, b.len());
    assert(la@ =~= a@.take(i as int));
    assert(lb@ =~= b@.take(j as int));
    assert(ra@ =~= a@.skip(i + k));
    assert(rb@ =~= b@.skip(j + k));
    let left = matching_count(&la, &lb);
    let right = matching_count(&ra, &rb);
    left + k + right
}

/// Whether the fraction `a/b` is less than `c/d`, without overflow.
pub fn frac_less(a: u128, b: u128, c: u128, d: u128) -> (r: bool)
    requires
        b > 0,
        d > 0,
    ensures
        r == frac_lt(a as int, b as int, c as int, d as int),
    decreases b + d,
{
    let q1 = a / b;
    let q2 = c / d;
    let r1 = a % b;
    let r2 = c % d;
    proof {
        lemma_frac_parts(a as int, b as int, c as int, d as int);
    }
    if q1 != q2 {
        return q1 < q2;
    }
    if r2 == 0 {
        assert((r1 as int) * (d as int) >= 0) by (nonlinear_arith)
            requires
                r1 >= 0,
                d > 0,
        ;
        return false;
    }
    if r1 == 0 {
        assert((r2 as int) * (b as int) > 0) by (nonlinear_arith)
            requires
                r2 > 0,
                b > 0,
        ;
        assert((r1 as int) * (d as int) == 0);
        return true;
    }
    assert((d as int) * (r1 as int) == (r1 as int) * (d as int)) by (nonlinear_arith);
    assert((b as int) * (r2 as int) == (r2 as int) * (b as int)) by (nonlinear_arith);
    frac_less(d, r2, b, r1)
}

proof fn lemma_frac_parts(a: int, b: int, c: int, d: int)
    requires
        a >= 0,
        c >= 0,
        b > 0,
        d > 0,
    ensures
        a / b < c / d ==> frac_lt(a, b, c, d),
        a / b > c / d ==> !frac_lt(a, b, c, d),
        a / b == c / d ==> (frac_lt(a, b, c, d) <==> (a % b) * d < (c % d) * b),
{
    let q1 = a / b;
    let q2 = c / d;
    let r1 = a % b;
    let r2 = c % d;
    assert(a == q1 * b + r1 && 0 <= r1 < b) by (nonlinear_arith)
        requires
            b > 0,
            q1 == a / b,
            r1 == a % b,
    ;
    assert(c == q2 * d + r2 && 0 <= r2 < d) by (nonlinear_arith)
        requires
            d > 0,
            q2 == c / d,
            r2 == c % d,
    ;
    assert(q1 < q2 ==> a * d < c * b) by (nonlinear_arith)
        requires
            a == q1 * b + r1,
            0 <= r1 < b,
            c == q2 * d + r2,
            0 <= r2 < d,
            b > 0,
            d > 0,
    ;
    assert(q1 > q2 ==> c * b < a * d) by (nonlinear_arith)
        requires
            a == q1 * b + r1,
            0 <= r1 < b,
            c == q2 * d + r2,
            0 <= r2 < d,
            b > 0,
            d > 0,
    ;
    assert(q1 == q2 ==> (a * d < c * b <==> r1 * d < r2 * b)) by (nonlinear_arith)
        requires
            a == q1 * b + r1,
            c == q2 * d + r2,
    ;
}

// ---------------------------------------------------------------------------
// Close matches: the possibilities most similar to a word
// ---------------------------------------------------------------------------

/// Every similarity has a positive denominator.
pub proof fn lemma_similarity_positive(a: Seq<char>, b: Seq<char>)
    ensures
        similarity(a, b).1 > 0,
        similarity(a, b).0 >= 0,
{
}

/// `x` scores strictly higher than `y` against `word`.
pub open spec fn outranks(x: Seq<char>, y: Seq<char>, word: Seq<char>) -> bool {
    let sx = similarity(x, word);
    let sy = similarity(y, word);
    frac_lt(sy.0, sy.1, sx.0, sx.1)
}

/// `x` scores at least `cutoff` percent against `word`.
pub open spec fn passes(x: Seq<char>, word: Seq<char>, cutoff: int) -> bool {
    let s = similarity(x, word);
    s.0 * 100 >= cutoff * s.1
}

/// Where `x` joins the ranking `s`: before the first entry that it outranks,
/// so after every entry that scores as high.
pub open spec fn rank_position(s: Seq<Seq<char>>, x: Seq<char>, word: Seq<char>) -> int
    decreases s.len(),
{
    if s.len() == 0 {
        0
    } else if outranks(x, s[0], word) {
        0
    } else {
        1 + rank_position(s.drop_first(), x, word)
    }
}

/// The ranking `s` with `x` joined at its place.
pub open spec fn insert_ranked(s: Seq<Seq<char>>, x: Seq<char>, word: Seq<char>) -> Seq<Seq<char>> {
    let p = rank_position(s, x, word);
    s.take(p) + seq![x] + s.skip(p)
}

/// The possibilities that score at least `cutoff` percent against `word`,
/// best first; possibilities with equal scores keep their order.
pub open spec fn ranked(poss: Seq<Seq<char>>, word: Seq<char>, cutoff: int) -> Seq<Seq<char>>
    decreases poss.len(),
{
    if poss.len() == 0 {
        Seq::<Seq<char>>::empty()
    } else {
        let rest = ranked(poss.drop_last(), word, cutoff);
        if passes(poss.last(), word, cutoff) {
            insert_ranked(rest, poss.last(), word)
        } else {
            rest
        }
    }
}

/// The best `n` of the ranked possibilities.
pub open spec fn close_matches(word: Seq<char>, poss: Seq<Seq<char>>, n: nat, cutoff: int) -> Seq<
    Seq<char>,
> {
    let r = ranked(poss, word, cutoff);
    if r.len() <= n {
        r
    } else {
        r.take(n as int)
    }
}

/// How many matches are wanted: three unless said.
pub open spec fn wanted(n: Option<usize>) -> nat {
    match n {
        Some(k) => k as nat,
        None => 3,
    }
}

/// The cutoff in percent: sixty unless said.
pub open spec fn cutoff_percent(cutoff: Option<u32>) -> int {
    match cutoff {
        Some(c) => c as int,
        None => 60,
    }
}

proof fn lemma_rank_position(s: Seq<Seq<char>>, x: Seq<char>, word: Seq<char>, i: int)
    requires
        0 <= i <= s.len(),
        forall|k: int| 0 <= k < i ==> !outranks(x, #[trigger] s[k], word),
        i < s.len() ==> outranks(x, s[i], word),
    ensures
        rank_position(s, x, word) == i,
    decreases i,
{
    if i > 0 {
        assert forall|k: int| 0 <= k < i - 1 implies !outranks(x, #[trigger] s.drop_first()[k], word) by {
            assert(s.drop_first()[k] == s[k + 1]);
        }
        lemma_rank_position(s.drop_first(), x, word, i - 1);
    }
}

proof fn lemma_rank_position_facts(s: Seq<Seq<char>>, x: Seq<char>, word: Seq<char>)
    ensures
        0 <= rank_position(s, x, word) <= s.len(),
        forall|k: int| 0 <= k < rank_position(s, x, word) ==> !outranks(x, #[trigger] s[k], word),
        rank_position(s, x, word) < s.len() ==> outranks(x, s[rank_position(s, x, word)], word),
    decreases s.len(),
{
    if s.len() > 0 && !outranks(x, s[0], word) {
        lemma_rank_position_facts(s.drop_first(), x, word);
        let p = rank_position(s, x, word);
        assert forall|k: int| 0 <= k < p implies !outranks(x, #[trigger] s[k], word) by {
            if k > 0 {
                assert(s[k] == s.drop_first()[k - 1]);
            }
        }
        if p < s.len() {
            assert(s[p] == s.drop_first()[p - 1]);
        }
    }
}

/// Comparing scores is transitive: `a <= b < c` gives `a < c`.
proof fn lemma_frac_trans(a: (int, int), b: (int, int), c: (int, int))
    requires
        a.1 > 0,
        b.1 > 0,
        c.1 > 0,
        !frac_lt(b.0, b.1, a.0, a.1),
        frac_lt(b.0, b.1, c.0, c.1),
    ensures
        frac_lt(a.0, a.1, c.0, c.1),
{
    let (a0, a1, b0, b1, c0, c1) = (a.0, a.1, b.0, b.1, c.0, c.1);
    assert(a0 * c1 < c0 * a1) by (nonlinear_arith)
        requires
            a1 > 0,
            b1 > 0,
            c1 > 0,
            a0 * b1 <= b0 * a1,
            b0 * c1 < c0 * b1,
    {
        assert(a0 * b1 * c1 <= b0 * a1 * c1);
        assert(b0 * c1 * a1 < c0 * b1 * a1);
    }
}

/// A ranking is sorted: no entry outranks one before it.
pub open spec fn is_ranked(s: Seq<Seq<char>>, word: Seq<char>) -> bool {
    forall|i: int, j: int| 0 <= i < j < s.len() ==> !outranks(#[trigger] s[j], #[trigger] s[i], word)
}

proof fn lemma_insert_ranked_sorted(s: Seq<Seq<char>>, x: Seq<char>, word: Seq<char>)
    requires
        is_ranked(s, word),
    ensures
        is_ranked(insert_ranked(s, x, word), word),
        insert_ranked(s, x, word).len() == s.len() + 1,
        forall|k: int|
            0 <= k < insert_ranked(s, x, word).len() ==> (#[trigger] insert_ranked(s, x, word)[k] == x
                || s.contains(insert_ranked(s, x, word)[k])),
        insert_ranked(s, x, word).contains(x),
        forall|k: int| 0 <= k < s.len() ==> insert_ranked(s, x, word).contains(#[trigger] s[k]),
{
    lemma_rank_position_facts(s, x, word);
    let p = rank_position(s, x, word);
    let t = insert_ranked(s, x, word);
    assert(t.len() == s.len() + 1);
    assert forall|k: int| 0 <= k < t.len() implies (#[trigger] t[k] == (if k < p {
        s[k]
    } else if k == p {
        x
    } else {
        s[k - 1]
    })) by {}
    assert forall|i: int, j: int| 0 <= i < j < t.len() implies !outranks(
        #[trigger] t[j],
        #[trigger] t[i],
        word,
    ) by {
        lemma_similarity_positive(x, word);
        if i < p && j == p {
            assert(!outranks(x, s[i], word));
        } else if i == p {
            let y = s[j - 1];
            lemma_similarity_positive(y, word);
            lemma_similarity_positive(s[p], word);
            if j - 1 > p {
                assert(!outranks(s[j - 1], s[p], word));
            }
            assert(outranks(x, s[p], word));
            if outranks(y, x, word) {
                lemma_frac_trans(similarity(s[p], word), similarity(x, word), similarity(y, word));
                assert(false);
            }
        } else if i < p && j < p {
            assert(!outranks(s[j], s[i], word));
        } else if i < p {
            assert(!outranks(s[j - 1], s[i], word));
        } else {
            assert(!outranks(s[j - 1], s[i - 1], word));
        }
    }
    assert(t[p] == x);
    assert forall|k: int| 0 <= k < s.len() implies t.contains(#[trigger] s[k]) by {
        if k < p {
            assert(t[k] == s[k]);
        } else {
            assert(t[k + 1] == s[k]);
        }
    }
    assert forall|k: int| 0 <= k < t.len() implies (#[trigger] t[k] == x || s.contains(t[k])) by {
        if k < p {
            assert(t[k] == s[k]);
        } else if k > p {
            assert(t[k] == s[k - 1]);
        }
    }
}

proof fn lemma_ranked_facts(poss: Seq<Seq<char>>, word: Seq<char>, cutoff: int)
    ensures
        is_ranked(ranked(poss, word, cutoff), word),
        ranked(poss, word, cutoff).len() <= poss.len(),
        forall|k: int|
            0 <= k < ranked(poss, word, cutoff).len() ==> passes(
                #[trigger] ranked(poss, word, cutoff)[k],
                word,
                cutoff,
            ) && poss.contains(ranked(poss, word, cutoff)[k]),
        forall|k: int|
            0 <= k < poss.len() && passes(#[trigger] poss[k], word, cutoff) ==> ranked(
                poss,
                word,
                cutoff,
            ).contains(poss[k]),
    decreases poss.len(),
{
    if poss.len() > 0 {
        let init = poss.drop_last();
        let x = poss.last();
        lemma_ranked_facts(init, word, cutoff);
        let rest = ranked(init, word, cutoff);
        let r = ranked(poss, word, cutoff);
        assert forall|k: int| 0 <= k < init.len() implies poss.contains(#[trigger] init[k]) by {
            assert(poss[k] == init[k]);
        }
        assert(poss[poss.len() - 1] == x);
        if passes(x, word, cutoff) {
            lemma_insert_ranked_sorted(rest, x, word);
            assert forall|k: int| 0 <= k < r.len() implies passes(#[trigger] r[k], word, cutoff)
                && poss.contains(r[k]) by {
                if r[k] != x {
                    let q = choose|q: int| 0 <= q < rest.len() && rest[q] == r[k];
                    assert(init.contains(rest[q]));
                }
            }
            assert forall|k: int| 0 <= k < poss.len() && passes(#[trigger] poss[k], word, cutoff)
                implies r.contains(poss[k]) by {
                if k < poss.len() - 1 {
                    assert(init[k] == poss[k]);
                    let q = choose|q: int| 0 <= q < rest.len() && rest[q] == poss[k];
                    assert(r.contains(rest[q]));
                }
            }
        } else {
            assert forall|k: int| 0 <= k < r.len() implies passes(#[trigger] r[k], word, cutoff)
                && poss.contains(r[k]) by {
                assert(init.contains(rest[k]));
            }
            assert forall|k: int| 0 <= k < poss.len() && passes(#[trigger] poss[k], word, cutoff)
                implies r.contains(poss[k]) by {
                assert(init[k] == poss[k]);
            }
        }
    }
}

/// The close matches are at most `n`, best first; each is one of the
/// possibilities and scores at least the cutoff; and a possibility that
/// scores at least the cutoff is left out only when `n` matches were found
/// that it does not outrank.
pub proof fn lemma_close_matches(word: Seq<char>, poss: Seq<Seq<char>>, n: nat, cutoff: int)
    ensures
        close_matches(word, poss, n, cutoff).len() <= n,
        is_ranked(close_matches(word, poss, n, cutoff), word),
        forall|k: int|
            0 <= k < close_matches(word, poss, n, cutoff).len() ==> passes(
                #[trigger] close_matches(word, poss, n, cutoff)[k],
                word,
                cutoff,
            ) && poss.contains(close_matches(word, poss, n, cutoff)[k]),
        forall|x: Seq<char>|
            poss.contains(x) && passes(x, word, cutoff) && !close_matches(
                word,
                poss,
                n,
                cutoff,
            ).contains(x) ==> close_matches(word, poss, n, cutoff).len() == n && forall|k: int|
                0 <= k < n ==> !outranks(x, #[trigger] close_matches(word, poss, n, cutoff)[k], word),
{
    lemma_ranked_facts(poss, word, cutoff);
    let r = ranked(poss, word, cutoff);
    let m = close_matches(word, poss, n, cutoff);
    assert forall|k: int| 0 <= k < m.len() implies passes(#[trigger] m[k], word, cutoff)
        && poss.contains(m[k]) by {
        assert(m[k] == r[k]);
    }
    assert forall|x: Seq<char>|
        poss.contains(x) && passes(x, word, cutoff) && !m.contains(x) implies m.len() == n
        && forall|k: int| 0 <= k < n ==> !outranks(x, #[trigger] m[k], word) by {
        let i = choose|i: int| 0 <= i < poss.len() && poss[i] == x;
        assert(r.contains(poss[i]));
        let q = choose|q: int| 0 <= q < r.len() && r[q] == x;
        if r.len() <= n {
            assert(m.contains(r[q]));
        }
        if q < n {
            assert(m[q] == r[q]);
        }
        assert forall|k: int| 0 <= k < n implies !outranks(x, #[trigger] m[k], word) by {
            assert(m[k] == r[k]);
            assert(!outranks(r[q], r[k], word));
        }
    }
}

/// The characters that two words have in common are at most as many as
/// either word has.
pub proof fn lemma_matching_chars_bounded(a: Seq<char>, b: Seq<char>)
    ensures
        matching_chars(a, b) <= a.len(),
        matching_chars(a, b) <= b.len(),
    decreases a.len() + b.len(),
{
    let t = best_block(a, b);
    if t.2 > 0 && common_block(a, b, t.0, t.1, t.2) {
        lemma_matching_chars_bounded(a.take(t.0), b.take(t.1));
        lemma_matching_chars_bounded(a.skip(t.0 + t.2), b.skip(t.1 + t.2));
    }
}

/// A word has all its characters in common with itself.
pub proof fn lemma_matching_chars_self(w: Seq<char>)
    ensures
        matching_chars(w, w) == w.len(),
{
    let n = w.len() as int;
    assert(common_block(w, w, 0, 0, n)) by {
        assert(w.subrange(0, n) =~= w);
    }
    assert forall|i2: int, j2: int, k2: int| #[trigger] common_block(w, w, i2, j2, k2) implies k2
        <= n by {}
    assert forall|i2: int, j2: int| #[trigger] common_block(w, w, i2, j2, n) implies (0 == i2 && 0
        == j2) || lex_before(0, 0, i2, j2) by {}
    let w0: (int, int, int) = (0, 0, n);
    assert(longest_block(w, w, w0.0, w0.1, w0.2));
    let t = best_block(w, w);
    assert(longest_block(w, w, t.0, t.1, t.2));
    assert(t.2 == n);
    assert(t.0 == 0 && t.1 == 0);
    if n > 0 {
        lemma_matching_chars_bounded(w.take(0), w.take(0));
        lemma_matching_chars_bounded(w.skip(n), w.skip(n));
    }
}

/// Two words of one length that have all their characters in common are
/// equal.
pub proof fn lemma_all_matching_equal(a: Seq<char>, b: Seq<char>)
    requires
        matching_chars(a, b) == a.len(),
        a.len() == b.len(),
    ensures
        a == b,
    decreases a.len() + b.len(),
{
    let t = best_block(a, b);
    if t.2 > 0 && common_block(a, b, t.0, t.1, t.2) {
        let (i, j, k) = t;
        let n = a.len() as int;
        lemma_matching_chars_bounded(a.take(i), b.take(j));
        lemma_matching_chars_bounded(a.skip(i + k), b.skip(j + k));
        assert(i == j);
        lemma_all_matching_equal(a.take(i), b.take(j));
        lemma_all_matching_equal(a.skip(i + k), b.skip(j + k));
        assert(a =~= a.take(i) + a.subrange(i, i + k) + a.skip(i + k));
        assert(b =~= b.take(j) + b.subrange(j, j + k) + b.skip(j + k));
    } else {
        assert(a =~= b);
    }
}

/// A possibility that scores at least as high as the word itself against
/// the word is the word.
proof fn lemma_full_score_equal(x: Seq<char>, w: Seq<char>)
    requires
        !outranks(w, x, w),
    ensures
        x == w,
{
    lemma_matching_chars_self(w);
    lemma_matching_chars_bounded(x, w);
    let sx = similarity(x, w);
    let sw = similarity(w, w);
    assert(sw.0 == sw.1 && sw.1 > 0);
    assert(sx.1 > 0);
    assert(sx.0 >= sx.1) by (nonlinear_arith)
        requires
            !(sx.0 * sw.1 < sw.0 * sx.1),
            sw.0 == sw.1,
            sw.1 > 0,
    ;
    if x.len() + w.len() == 0 {
        assert(x =~= w);
    } else {
        lemma_all_matching_equal(x, w);
    }
}

/// A possibility equal to the word is the closest one, at any cutoff up to a
/// hundred percent.
pub proof fn lemma_exact_match_closest(word: Seq<char>, poss: Seq<Seq<char>>, cutoff: int, fallback: bool)
    requires
        poss.contains(word),
        cutoff <= 100,
    ensures
        closest(word, poss, cutoff, fallback) == Some(word),
{
    lemma_close_matches(word, poss, 1, cutoff);
    lemma_matching_chars_self(word);
    let m = close_matches(word, poss, 1, cutoff);
    let sw = similarity(word, word);
    assert(sw.0 == sw.1 && sw.1 > 0);
    assert(sw.0 * 100 >= cutoff * sw.1) by (nonlinear_arith)
        requires
            sw.0 == sw.1,
            sw.1 > 0,
            cutoff <= 100,
    ;
    assert(passes(word, word, cutoff));
    if !m.contains(word) {
        assert(!outranks(word, m[0], word));
        lemma_full_score_equal(m[0], word);
        assert(m.contains(m[0]));
    }
    assert(m[0] == word);
}

/// The command line stays as it is when an argument is replaced by itself.
pub proof fn lemma_replace_argument_same(s: Seq<char>, w: Seq<char>)
    ensures
        replace_argument_spec(s, w, w) == s,
{
    reveal_strlit(" ");
    let ending = " "@ + w;
    if text::ends_with(s, ending) {
        let cut = s.len() - ending.len();
        assert(s.subrange(cut, s.len() as int) == ending);
        assert(s =~= s.take(cut) + ending);
        assert(s.take(cut) + " "@ + w =~= s.take(cut) + ending);
    }
    text::lemma_replace_n_same(s, " "@ + w + " "@, 1);
}

/// The score of `x` against `word`, as a fraction.
fn score_of(x: &str, word: &str) -> (r: (u128, u128))
    ensures
        r.0 as int == similarity(x@, word@).0,
        r.1 as int == similarity(x@, word@).1,
        r.1 > 0,
        r.0 <= 2 * (usize::MAX as int),
        r.1 <= 2 * (usize::MAX as int),
{
    let a = text::chars_of(x);
    let b = text::chars_of(word);
    let la = a.len() as u128;
    let lb = b.len() as u128;
    if la + lb == 0 {
        return (1, 1);
    }
    let m = matching_count(&a, &b);
    (2 * (m as u128), la + lb)
}

/// The possibilities closest to `word`: those that score at least `cutoff`
/// percent (sixty unless said), best first, at most `n` of them (three
/// unless said); equal scores keep the order of `possibilities`.
pub fn get_close_matches<'a>(
    word: &str,
    possibilities: &Vec<&'a str>,
    n: Option<usize>,
    cutoff: Option<u32>,
) -> (r: Vec<&'a str>)
    requires
        cutoff_percent(cutoff) <= 100,
    ensures
        r.deep_view() == close_matches(
            word@,
            possibilities.deep_view(),
            wanted(n),
            cutoff_percent(cutoff),
        ),
{
    let limit: usize = match n {
        Some(k) => k,
        None => 3,
    };
    let pct: u32 = match cutoff {
        Some(c) => c,
        None => 60,
    };
    let ghost poss = possibilities.deep_view();
    let mut ranking: Vec<&'a str> = Vec::new();
    let mut scores: Vec<(u128, u128)> = Vec::new();
    let mut i: usize = 0;
    while i < possibilities.len()
        invariant
            i <= possibilities.len(),
            poss == possibilities.deep_view(),
            pct <= 100,
            ranking.deep_view() == ranked(poss.take(i as int), word@, pct as int),
            scores.len() == ranking.len(),
            forall|k: int|
                0 <= k < scores.len() ==> (#[trigger] scores[k]).0 as int == similarity(
                    ranking.deep_view()[k],
                    word@,
                ).0 && scores[k].1 as int == similarity(ranking.deep_view()[k], word@).1
                    && scores[k].1 > 0,
        decreases possibilities.len() - i,
    {
        let x = possibilities[i];
        let s = score_of(x, word);
        let ghost before = ranking.deep_view();
        assert(poss.take(i + 1).drop_last() =~= poss.take(i as int));
        assert(poss.take(i + 1).last() == x@);
        assert((pct as int) * (s.1 as int) <= 100 * (s.1 as int)) by (nonlinear_arith)
            requires
                pct <= 100,
        ;
        if s.0 * 100 >= (pct as u128) * s.1 {
            let mut p: usize = 0;
            while p < ranking.len() && !frac_less(scores[p].0, scores[p].1, s.0, s.1)
                invariant
                    p <= ranking.len(),
                    scores.len() == ranking.len(),
                    before == ranking.deep_view(),
                    s.1 > 0,
                    forall|k: int|
                        0 <= k < scores.len() ==> (#[trigger] scores[k]).0 as int == similarity(
                            ranking.deep_view()[k],
                            word@,
                        ).0 && scores[k].1 as int == similarity(ranking.deep_view()[k], word@).1
                            && scores[k].1 > 0,
                    s.0 as int == similarity(x@, word@).0,
                    s.1 as int == similarity(x@, word@).1,
                    forall|k: int| 0 <= k < p ==> !outranks(x@, #[trigger] before[k], word@),
                decreases ranking.len() - p,
            {
                assert(scores[p as int].0 as int == similarity(before[p as int], word@).0);
                p = p + 1;
            }
            proof {
                if p < ranking.len() {
                    assert(scores[p as int].0 as int == similarity(before[p as int], word@).0);
                }
                lemma_rank_position(before, x@, word@, p as int);
            }
            ranking.insert(p, x);
            scores.insert(p, s);
            assert(ranking.deep_view() =~= before.take(p as int) + seq![x@] + before.skip(p as int));
            assert forall|k: int| 0 <= k < scores.len() implies (#[trigger] scores[k]).0 as int
                == similarity(ranking.deep_view()[k], word@).0 && scores[k].1 as int == similarity(
                ranking.deep_view()[k],
                word@,
            ).1 && scores[k].1 > 0 by {
                if k > p {
                    assert(ranking.deep_view()[k] == before[k - 1]);
                }
            }
        }
        i = i + 1;
    }
    assert(poss.take(possibilities.len() as int) =~= poss);
    let ghost full = ranking.deep_view();
    ranking.truncate(limit);
    assert(ranking.deep_view() =~= (if full.len() <= limit {
        full
    } else {
        full.take(limit as int)
    }));
    ranking
}

/// The closest possibility: the best close match; failing that, the first
/// possibility when `fallback` asks for it.
pub open spec fn closest(word: Seq<char>, poss: Seq<Seq<char>>, cutoff: int, fallback: bool) -> Option<
    Seq<char>,
> {
    let m = close_matches(word, poss, 1, cutoff);
    if m.len() > 0 {
        Some(m[0])
    } else if fallback && poss.len() > 0 {
        Some(poss[0])
    } else {
        None
    }
}

/// The possibility closest to `word` (scoring at least `cutoff` percent,
/// sixty unless said); failing that, the first possibility when
/// `fallback_to_first` is set.
pub fn get_closest<'a>(
    word: &str,
    possibilities: &Vec<&'a str>,
    cutoff: Option<u32>,
    fallback_to_first: bool,
) -> (r: Option<&'a str>)
    requires
        cutoff_percent(cutoff) <= 100,
    ensures
        match r {
            Some(x) => closest(word@, possibilities.deep_view(), cutoff_percent(cutoff), fallback_to_first)
                == Some(x@),
            None => closest(
                word@,
                possibilities.deep_view(),
                cutoff_percent(cutoff),
                fallback_to_first,
            ) is None,
        },
{
    let best = get_close_matches(word, possibilities, Some(1), cutoff);
    if best.len() > 0 {
        assert(best.deep_view()[0] == best[0]@);
        Some(best[0])
    } else if fallback_to_first && possibilities.len() > 0 {
        assert(possibilities.deep_view()[0] == possibilities[0]@);
        Some(possibilities[0])
    } else {
        None
    }
}

/// The commands with the broken argument replaced by each close match among
/// `matched` (at most three, scoring at least ten percent), trimmed.
pub open spec fn replaced_commands(script: Seq<char>, broken: Seq<char>, matched: Seq<Seq<char>>) -> Seq<
    Seq<char>,
> {
    close_matches(broken, matched, 3, 10).map_values(
        |m: Seq<char>| replace_argument_spec(script, broken, text::trim(m)),
    )
}

/// The command with its broken argument replaced by each of the closest of
/// the matched commands.
pub fn replace_command(command: &CrabCommand, broken: &str, matched: Vec<&str>) -> (r: Vec<String>)
    ensures
        r.deep_view() == replaced_commands(command@.script, broken@, matched.deep_view()),
{
    let best = get_close_matches(broken, &matched, Some(3), Some(10));
    let ghost m = best.deep_view();
    let mut out: Vec<String> = Vec::new();
    let mut i: usize = 0;
    while i < best.len()
        invariant
            i <= best.len(),
            m == best.deep_view(),
            out.deep_view() == m.take(i as int).map_values(
                |x: Seq<char>| replace_argument_spec(command@.script, broken@, text::trim(x)),
            ),
        decreases best.len() - i,
    {
        let trimmed = text::str_trim(best[i]);
        let item = replace_argument(command.script.as_str(), broken, trimmed.as_str());
        let ghost before = out;
        let ghost x = item;
        out.push(item);
        proof {
            text::lemma_vec_push_deep(before, out, x);
            assert(m.take(i + 1).map_values(
                |y: Seq<char>| replace_argument_spec(command@.script, broken@, text::trim(y)),
            ) =~= m.take(i as int).map_values(
                |y: Seq<char>| replace_argument_spec(command@.script, broken@, text::trim(y)),
            ).push(x@));
        }
        i = i + 1;
    }
    assert(m.take(best.len() as int) =~= m);
    out
}

} // verus!
