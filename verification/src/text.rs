//! Character-level text operations with their specifications.
//!
//! Strings are modelled by their views, `Seq<char>`. The executable functions
//! work on slices of characters; `chars_of` and `string_of` convert between
//! `str`/`String` and such slices.
use vstd::prelude::*;

verus! {

// ---------------------------------------------------------------------------
// Specifications
// ---------------------------------------------------------------------------

/// `p` occurs in `s` at position `i`.
pub open spec fn occurs_at(s: Seq<char>, p: Seq<char>, i: int) -> bool {
    0 <= i && i + p.len() <= s.len() && s.subrange(i, i + p.len()) == p
}

/// `s` starts with `p`.
pub open spec fn starts_with(s: Seq<char>, p: Seq<char>) -> bool {
    occurs_at(s, p, 0)
}

/// `s` ends with `p`.
pub open spec fn ends_with(s: Seq<char>, p: Seq<char>) -> bool {
    occurs_at(s, p, s.len() - p.len())
}

/// `p` occurs somewhere in `s`.
pub open spec fn contains(s: Seq<char>, p: Seq<char>) -> bool {
    exists|i: int| occurs_at(s, p, i)
}

/// `c` occurs in `s`.
pub open spec fn has_char(s: Seq<char>, c: char) -> bool {
    s.contains(c)
}

/// Rust's `str::replace`: every non-overlapping occurrence of `f`, scanning
/// from the left, is replaced by `t`. An empty `f` matches before every
/// character and at the end.
pub open spec fn replace_all(s: Seq<char>, f: Seq<char>, t: Seq<char>) -> Seq<char>
    decreases s.len(),
{
    if f.len() == 0 {
        if s.len() == 0 {
            t
        } else {
            t + seq![s[0]] + replace_all(s.drop_first(), f, t)
        }
    } else if s.len() < f.len() {
        s
    } else if s.take(f.len() as int) == f {
        t + replace_all(s.skip(f.len() as int), f, t)
    } else {
        seq![s[0]] + replace_all(s.drop_first(), f, t)
    }
}

/// Rust's `str::replacen`: as `replace_all`, but at most `n` occurrences.
pub open spec fn replace_n(s: Seq<char>, f: Seq<char>, t: Seq<char>, n: nat) -> Seq<char>
    decreases s.len(),
{
    if n == 0 {
        s
    } else if f.len() == 0 {
        if s.len() == 0 {
            t
        } else {
            t + seq![s[0]] + replace_n(s.drop_first(), f, t, (n - 1) as nat)
        }
    } else if s.len() < f.len() {
        s
    } else if s.take(f.len() as int) == f {
        t + replace_n(s.skip(f.len() as int), f, t, (n - 1) as nat)
    } else {
        seq![s[0]] + replace_n(s.drop_first(), f, t, n)
    }
}

/// Replacing a non-empty pattern by itself leaves the text as it is.
pub proof fn lemma_replace_n_same(s: Seq<char>, f: Seq<char>, n: nat)
    requires
        f.len() > 0,
    ensures
        replace_n(s, f, f, n) == s,
    decreases s.len(),
{
    if n > 0 && s.len() >= f.len() {
        if s.take(f.len() as int) == f {
            lemma_replace_n_same(s.skip(f.len() as int), f, (n - 1) as nat);
            assert(s =~= f + s.skip(f.len() as int));
        } else {
            lemma_replace_n_same(s.drop_first(), f, n);
            assert(s =~= seq![s[0]] + s.drop_first());
        }
    }
}

/// Rust's `str::split` on one character: the pieces between the occurrences
/// of `c` (there is always at least one piece).
pub open spec fn split_on(s: Seq<char>, c: char) -> Seq<Seq<char>>
    decreases s.len(),
{
    if s.len() == 0 {
        seq![Seq::<char>::empty()]
    } else {
        let r = split_on(s.drop_last(), c);
        if s.last() == c {
            r.push(Seq::<char>::empty())
        } else {
            r.update(r.len() - 1, r.last().push(s.last()))
        }
    }
}

/// The pieces joined, with `sep` between two neighbours.
pub open spec fn join(parts: Seq<Seq<char>>, sep: Seq<char>) -> Seq<char>
    decreases parts.len(),
{
    if parts.len() == 0 {
        Seq::<char>::empty()
    } else if parts.len() == 1 {
        parts[0]
    } else {
        join(parts.drop_last(), sep) + sep + parts.last()
    }
}

/// Unicode White_Space, the property that `char::is_whitespace` tests.
pub open spec fn is_space(c: char) -> bool {
    let u = c as u32;
    ||| 0x9 <= u <= 0xd
    ||| u == 0x20
    ||| u == 0x85
    ||| u == 0xa0
    ||| u == 0x1680
    ||| 0x2000 <= u <= 0x200a
    ||| u == 0x2028
    ||| u == 0x2029
    ||| u == 0x202f
    ||| u == 0x205f
    ||| u == 0x3000
}

/// `s` without its leading white space.
pub open spec fn trim_start(s: Seq<char>) -> Seq<char>
    decreases s.len(),
{
    if s.len() > 0 && is_space(s[0]) {
        trim_start(s.drop_first())
    } else {
        s
    }
}

/// `s` without its trailing white space.
pub open spec fn trim_end(s: Seq<char>) -> Seq<char>
    decreases s.len(),
{
    if s.len() > 0 && is_space(s.last()) {
        trim_end(s.drop_last())
    } else {
        s
    }
}

/// `s` without leading and trailing white space (Rust's `str::trim`).
pub open spec fn trim(s: Seq<char>) -> Seq<char> {
    trim_end(trim_start(s))
}

/// Splits `s` at every white-space character (empty pieces included).
pub open spec fn split_at_space(s: Seq<char>) -> Seq<Seq<char>>
    decreases s.len(),
{
    if s.len() == 0 {
        seq![Seq::<char>::empty()]
    } else {
        let r = split_at_space(s.drop_last());
        if is_space(s.last()) {
            r.push(Seq::<char>::empty())
        } else {
            r.update(r.len() - 1, r.last().push(s.last()))
        }
    }
}

/// The non-empty pieces of `parts`, in order.
pub open spec fn non_empty(parts: Seq<Seq<char>>) -> Seq<Seq<char>>
    decreases parts.len(),
{
    if parts.len() == 0 {
        parts
    } else if parts.last().len() == 0 {
        non_empty(parts.drop_last())
    } else {
        non_empty(parts.drop_last()).push(parts.last())
    }
}

/// Rust's `str::split_whitespace`: the maximal runs of non-white-space
/// characters.
pub open spec fn words(s: Seq<char>) -> Seq<Seq<char>> {
    non_empty(split_at_space(s))
}

/// `s` without one trailing carriage return.
pub open spec fn strip_cr(s: Seq<char>) -> Seq<char> {
    if s.len() > 0 && s.last() == '\r' {
        s.drop_last()
    } else {
        s
    }
}

/// Rust's `str::lines`: the pieces between line feeds, each without a
/// trailing carriage return; a final line feed ends the last line rather than
/// starting an empty one.
pub open spec fn lines(s: Seq<char>) -> Seq<Seq<char>> {
    let parts = split_on(s, '\n');
    let parts = if s.len() == 0 {
        Seq::<Seq<char>>::empty()
    } else if s.last() == '\n' {
        parts.drop_last()
    } else {
        parts
    };
    parts.map_values(|l: Seq<char>| strip_cr(l))
}

// ---------------------------------------------------------------------------
// Conversions
// ---------------------------------------------------------------------------

/// The characters of `s`, in order.
pub fn chars_of(s: &str) -> (v: Vec<char>)
    ensures
        v@ == s@,
{
    let n = s.unicode_len();
    let mut v: Vec<char> = Vec::new();
    let mut i: usize = 0;
    while i < n
        invariant
            n == s@.len(),
            i <= n,
            v@ == s@.take(i as int),
        decreases n - i,
    {
        v.push(s.get_char(i));
        i = i + 1;
        assert(v@ =~= s@.take(i as int));
    }
    assert(s@.take(n as int) =~= s@);
    v
}

/// Appends one character to a string: std's `String::push`, which its
/// documentation describes as appending the given char to the end.
#[verifier::external_body]
fn push_char(s: &mut String, c: char)
    ensures
        final(s)@ == old(s)@.push(c),
{
    s.push(c);
}

/// The string made of the characters of `v`.
pub fn string_of(v: &[char]) -> (s: String)
    ensures
        s@ == v@,
{
    let mut s = String::new();
    let mut i: usize = 0;
    while i < v.len()
        invariant
            i <= v.len(),
            s@ == v@.take(i as int),
        decreases v.len() - i,
    {
        push_char(&mut s, v[i]);
        i = i + 1;
        assert(s@ =~= v@.take(i as int));
    }
    assert(v@.take(v@.len() as int) =~= v@);
    s
}

/// A copy of `s` as an owned string.
pub fn owned(s: &str) -> (r: String)
    ensures
        r@ == s@,
{
    s.to_owned()
}

/// `a` followed by `b`.
pub fn concat(a: &str, b: &str) -> (r: String)
    ensures
        r@ == a@ + b@,
{
    let mut r = a.to_owned();
    r.append(b);
    r
}

// ---------------------------------------------------------------------------
// Searching
// ---------------------------------------------------------------------------

/// Whether `p` occurs in `s` at position `i`.
pub fn occurs_at_exec(s: &[char], p: &[char], i: usize) -> (b: bool)
    ensures
        b == occurs_at(s@, p@, i as int),
{
    if i > s.len() || p.len() > s.len() - i {
        return false;
    }
    let mut k: usize = 0;
    while k < p.len()
        invariant
            i + p.len() <= s.len(),
            k <= p.len(),
            forall|j: int| 0 <= j < k ==> s@[i + j] == p@[j],
        decreases p.len() - k,
    {
        if s[i + k] != p[k] {
            assert(s@.subrange(i as int, i + p.len())[k as int] != p@[k as int]);
            return false;
        }
        k = k + 1;
    }
    assert(s@.subrange(i as int, i + p.len()) =~= p@);
    true
}

/// The first position at which `p` occurs in `s` at or after `from`.
pub fn find_from(s: &[char], p: &[char], from: usize) -> (r: Option<usize>)
    ensures
        match r {
            Some(i) => from <= i && occurs_at(s@, p@, i as int) && forall|j: int|
                from <= j < i ==> !occurs_at(s@, p@, j),
            None => forall|j: int| from <= j ==> !occurs_at(s@, p@, j),
        },
{
    let mut i = from;
    loop
        invariant
            from <= i,
            forall|j: int| from <= j < i ==> !occurs_at(s@, p@, j),
        decreases s.len() + 1 - i,
    {
        if occurs_at_exec(s, p, i) {
            return Some(i);
        }
        if i >= s.len() {
            return None;
        }
        i = i + 1;
    }
}

/// Whether `p` occurs in `s`.
pub fn contains_exec(s: &[char], p: &[char]) -> (b: bool)
    ensures
        b == contains(s@, p@),
{
    match find_from(s, p, 0) {
        Some(i) => true,
        None => {
            assert(forall|j: int| !occurs_at(s@, p@, j));
            false
        },
    }
}

/// Whether `p` occurs in `s` (on strings).
pub fn str_contains(s: &str, p: &str) -> (b: bool)
    ensures
        b == contains(s@, p@),
{
    let sv = chars_of(s);
    let pv = chars_of(p);
    contains_exec(sv.as_slice(), pv.as_slice())
}

/// Whether `s` starts with `p` (on strings).
pub fn str_starts_with(s: &str, p: &str) -> (b: bool)
    ensures
        b == starts_with(s@, p@),
{
    let sv = chars_of(s);
    let pv = chars_of(p);
    occurs_at_exec(sv.as_slice(), pv.as_slice(), 0)
}

/// Whether `s` ends with `p` (on strings).
pub fn str_ends_with(s: &str, p: &str) -> (b: bool)
    ensures
        b == ends_with(s@, p@),
{
    let sv = chars_of(s);
    let pv = chars_of(p);
    if pv.len() > sv.len() {
        false
    } else {
        occurs_at_exec(sv.as_slice(), pv.as_slice(), sv.len() - pv.len())
    }
}

/// Whether `c` occurs in `s`.
pub fn has_char_exec(s: &[char], c: char) -> (b: bool)
    ensures
        b == has_char(s@, c),
{
    let mut i: usize = 0;
    while i < s.len()
        invariant
            i <= s.len(),
            forall|j: int| 0 <= j < i ==> s@[j] != c,
        decreases s.len() - i,
    {
        if s[i] == c {
            assert(s@[i as int] == c);
            return true;
        }
        i = i + 1;
    }
    false
}

/// Whether `c` occurs in `s` (on strings).
pub fn str_has_char(s: &str, c: char) -> (b: bool)
    ensures
        b == has_char(s@, c),
{
    let sv = chars_of(s);
    has_char_exec(sv.as_slice(), c)
}

/// Whether two strings are equal.
pub fn str_eq(a: &str, b: &str) -> (r: bool)
    ensures
        r == (a@ == b@),
{
    let av = chars_of(a);
    let bv = chars_of(b);
    if av.len() != bv.len() {
        return false;
    }
    let r = occurs_at_exec(av.as_slice(), bv.as_slice(), 0);
    assert(av@.subrange(0, bv@.len() as int) =~= av@);
    r
}

// ---------------------------------------------------------------------------
// Building
// ---------------------------------------------------------------------------

/// Appends the characters of `t` to `out`.
pub fn append_chars(out: &mut Vec<char>, t: &[char])
    ensures
        final(out)@ == old(out)@ + t@,
{
    let mut k: usize = 0;
    while k < t.len()
        invariant
            k <= t.len(),
            out@ == old(out)@ + t@.take(k as int),
        decreases t.len() - k,
    {
        out.push(t[k]);
        k = k + 1;
        assert(out@ =~= old(out)@ + t@.take(k as int));
    }
    assert(t@.take(t@.len() as int) =~= t@);
}

/// Appends the characters of `t` from position `from` on to `out`.
pub fn append_from(out: &mut Vec<char>, t: &[char], from: usize)
    requires
        from <= t@.len(),
    ensures
        final(out)@ == old(out)@ + t@.skip(from as int),
{
    let mut k: usize = from;
    while k < t.len()
        invariant
            from <= k <= t.len(),
            out@ == old(out)@ + t@.subrange(from as int, k as int),
        decreases t.len() - k,
    {
        out.push(t[k]);
        k = k + 1;
        assert(out@ =~= old(out)@ + t@.subrange(from as int, k as int));
    }
    assert(t@.subrange(from as int, t@.len() as int) =~= t@.skip(from as int));
}

proof fn lemma_replace_step(s: Seq<char>, f: Seq<char>, t: Seq<char>, i: int)
    requires
        0 <= i < s.len(),
    ensures
        f.len() > 0 && occurs_at(s, f, i) ==> replace_all(s.skip(i), f, t) == t + replace_all(
            s.skip(i + f.len()),
            f,
            t,
        ),
        f.len() == 0 ==> replace_all(s.skip(i), f, t) == t + seq![s[i]] + replace_all(
            s.skip(i + 1),
            f,
            t,
        ),
        f.len() > 0 && !occurs_at(s, f, i) ==> replace_all(s.skip(i), f, t) == seq![s[i]]
            + replace_all(s.skip(i + 1), f, t),
{
    let rest = s.skip(i);
    assert(rest.drop_first() =~= s.skip(i + 1));
    if f.len() > 0 && i + f.len() <= s.len() {
        assert(rest.skip(f.len() as int) =~= s.skip(i + f.len()));
        assert(rest.take(f.len() as int) =~= s.subrange(i, i + f.len()));
    }
    if f.len() > 0 && rest.len() < f.len() {
        assert(rest.drop_first().len() < f.len());
        assert(rest =~= seq![s[i]] + rest.drop_first());
    }
}

/// Rust's `str::replace` on characters.
pub fn replace_chars(s: &[char], f: &[char], t: &[char]) -> (r: Vec<char>)
    ensures
        r@ == replace_all(s@, f@, t@),
{
    let mut out: Vec<char> = Vec::new();
    let mut i: usize = 0;
    assert(s@.skip(0) =~= s@);
    assert(out@ + replace_all(s@, f@, t@) =~= replace_all(s@, f@, t@));
    while i < s.len()
        invariant
            i <= s.len(),
            replace_all(s@, f@, t@) == out@ + replace_all(s@.skip(i as int), f@, t@),
        decreases s.len() - i,
    {
        proof {
            lemma_replace_step(s@, f@, t@, i as int);
        }
        if f.len() > 0 && occurs_at_exec(s, f, i) {
            append_chars(&mut out, t);
            i = i + f.len();
        } else {
            if f.len() == 0 {
                append_chars(&mut out, t);
            }
            out.push(s[i]);
            i = i + 1;
        }
    }
    assert(s@.skip(i as int) =~= Seq::<char>::empty());
    if f.len() == 0 {
        append_chars(&mut out, t);
    }
    out
}

proof fn lemma_replace_n_step(s: Seq<char>, f: Seq<char>, t: Seq<char>, i: int, n: nat)
    requires
        0 <= i < s.len(),
        n > 0,
    ensures
        f.len() > 0 && occurs_at(s, f, i) ==> replace_n(s.skip(i), f, t, n) == t + replace_n(
            s.skip(i + f.len()),
            f,
            t,
            (n - 1) as nat,
        ),
        f.len() == 0 ==> replace_n(s.skip(i), f, t, n) == t + seq![s[i]] + replace_n(
            s.skip(i + 1),
            f,
            t,
            (n - 1) as nat,
        ),
        f.len() > 0 && !occurs_at(s, f, i) ==> replace_n(s.skip(i), f, t, n) == seq![s[i]]
            + replace_n(s.skip(i + 1), f, t, n),
{
    let rest = s.skip(i);
    assert(rest.drop_first() =~= s.skip(i + 1));
    if f.len() > 0 && i + f.len() <= s.len() {
        assert(rest.skip(f.len() as int) =~= s.skip(i + f.len()));
        assert(rest.take(f.len() as int) =~= s.subrange(i, i + f.len()));
    }
    if f.len() > 0 && rest.len() < f.len() {
        assert(rest.drop_first().len() < f.len());
        assert(rest =~= seq![s[i]] + rest.drop_first());
    }
}

/// Rust's `str::replacen` on characters.
pub fn replacen_chars(s: &[char], f: &[char], t: &[char], n: usize) -> (r: Vec<char>)
    ensures
        r@ == replace_n(s@, f@, t@, n as nat),
{
    let mut out: Vec<char> = Vec::new();
    let mut i: usize = 0;
    let mut left = n;
    assert(s@.skip(0) =~= s@);
    assert(out@ + replace_n(s@, f@, t@, n as nat) =~= replace_n(s@, f@, t@, n as nat));
    while i < s.len() && left > 0
        invariant
            i <= s.len(),
            replace_n(s@, f@, t@, n as nat) == out@ + replace_n(s@.skip(i as int), f@, t@, left as nat),
        decreases s.len() - i,
    {
        proof {
            lemma_replace_n_step(s@, f@, t@, i as int, left as nat);
        }
        if f.len() > 0 && occurs_at_exec(s, f, i) {
            append_chars(&mut out, t);
            i = i + f.len();
            left = left - 1;
        } else {
            if f.len() == 0 {
                append_chars(&mut out, t);
                left = left - 1;
            }
            out.push(s[i]);
            i = i + 1;
        }
    }
    if left == 0 {
        append_from(&mut out, s, i);
    } else {
        assert(s@.skip(i as int) =~= Seq::<char>::empty());
        if f.len() == 0 {
            append_chars(&mut out, t);
        }
    }
    out
}

/// Rust's `str::replace` on strings.
pub fn str_replace(s: &str, f: &str, t: &str) -> (r: String)
    ensures
        r@ == replace_all(s@, f@, t@),
{
    let sv = chars_of(s);
    let fv = chars_of(f);
    let tv = chars_of(t);
    let rv = replace_chars(sv.as_slice(), fv.as_slice(), tv.as_slice());
    string_of(rv.as_slice())
}

/// Rust's `str::replacen` on strings.
pub fn str_replacen(s: &str, f: &str, t: &str, n: usize) -> (r: String)
    ensures
        r@ == replace_n(s@, f@, t@, n as nat),
{
    let sv = chars_of(s);
    let fv = chars_of(f);
    let tv = chars_of(t);
    let rv = replacen_chars(sv.as_slice(), fv.as_slice(), tv.as_slice(), n);
    string_of(rv.as_slice())
}

// ---------------------------------------------------------------------------
// Splitting and joining
// ---------------------------------------------------------------------------

pub proof fn lemma_push_deep(v: Seq<String>, x: String)
    ensures
        v.push(x).map_values(|y: String| y@) == v.map_values(|y: String| y@).push(x@),
{
    assert(v.push(x).map_values(|y: String| y@) =~= v.map_values(|y: String| y@).push(x@));
}

/// Pushing a string onto a vector pushes its view onto the vector's deep view.
pub proof fn lemma_vec_push_deep(before: Vec<String>, after: Vec<String>, x: String)
    requires
        after@ == before@.push(x),
    ensures
        after.deep_view() == before.deep_view().push(x@),
{
    assert(after.deep_view() =~= before.deep_view().push(x@));
}

/// Rust's `str::split` on one character.
pub fn str_split(s: &str, c: char) -> (r: Vec<String>)
    ensures
        r.deep_view() == split_on(s@, c),
{
    let sv = chars_of(s);
    let mut done: Vec<String> = Vec::new();
    let mut cur: Vec<char> = Vec::new();
    let mut i: usize = 0;
    assert(sv@.take(0) =~= Seq::<char>::empty());
    assert(done.deep_view().push(cur@) =~= seq![Seq::<char>::empty()]);
    while i < sv.len()
        invariant
            i <= sv.len(),
            sv@ == s@,
            split_on(sv@.take(i as int), c) == done.deep_view().push(cur@),
        decreases sv.len() - i,
    {
        let ghost pre = sv@.take(i as int + 1);
        assert(pre.drop_last() =~= sv@.take(i as int));
        if sv[i] == c {
            let piece = string_of(cur.as_slice());
            proof {
                lemma_push_deep(done@, piece);
            }
            done.push(piece);
            cur = Vec::new();
            assert(done.deep_view().push(cur@) =~= split_on(pre, c));
        } else {
            cur.push(sv[i]);
            assert(done.deep_view().push(cur@) =~= split_on(pre, c));
        }
        i = i + 1;
    }
    assert(sv@.take(sv@.len() as int) =~= sv@);
    let last = string_of(cur.as_slice());
    proof {
        lemma_push_deep(done@, last);
    }
    done.push(last);
    done
}

/// The pieces joined with `sep` between neighbours (Rust's `join` on a
/// vector of strings).
pub fn str_join(parts: &Vec<String>, sep: &str) -> (r: String)
    ensures
        r@ == join(parts.deep_view(), sep@),
{
    let mut out = String::new();
    let mut i: usize = 0;
    assert(parts.deep_view().take(0) =~= Seq::<Seq<char>>::empty());
    while i < parts.len()
        invariant
            i <= parts.len(),
            out@ == join(parts.deep_view().take(i as int), sep@),
        decreases parts.len() - i,
    {
        let ghost dv = parts.deep_view();
        assert(dv.take(i + 1).drop_last() =~= dv.take(i as int));
        assert(dv.take(i + 1).last() == parts@[i as int]@);
        if i > 0 {
            out.append(sep);
        } else {
            assert(dv.take(1) =~= seq![parts@[0]@]);
        }
        out.append(parts[i].as_str());
        i = i + 1;
    }
    assert(parts.deep_view().take(parts.len() as int) =~= parts.deep_view());
    out
}

/// Whether `c` is white space (std's `char::is_whitespace`).
pub fn is_space_exec(c: char) -> (b: bool)
    ensures
        b == is_space(c),
{
    let u = c as u32;
    (0x9 <= u && u <= 0xd) || u == 0x20 || u == 0x85 || u == 0xa0 || u == 0x1680 || (0x2000 <= u
        && u <= 0x200a) || u == 0x2028 || u == 0x2029 || u == 0x202f || u == 0x205f || u == 0x3000
}

/// Rust's `str::trim` on characters: the range `[a, b)` of `s` that remains.
fn trim_bounds(s: &[char]) -> (r: (usize, usize))
    ensures
        r.0 <= r.1 <= s@.len(),
        trim(s@) == s@.subrange(r.0 as int, r.1 as int),
{
    let mut a: usize = 0;
    assert(s@.skip(0) =~= s@);
    while a < s.len() && is_space_exec(s[a])
        invariant
            a <= s.len(),
            trim_start(s@) == trim_start(s@.skip(a as int)),
        decreases s.len() - a,
    {
        assert(s@.skip(a as int).drop_first() =~= s@.skip(a + 1));
        a = a + 1;
    }
    assert(trim_start(s@.skip(a as int)) == s@.skip(a as int));
    let mut b: usize = s.len();
    assert(s@.subrange(a as int, b as int) =~= s@.skip(a as int));
    while b > a && is_space_exec(s[b - 1])
        invariant
            a <= b <= s.len(),
            trim(s@) == trim_end(s@.subrange(a as int, b as int)),
        decreases b,
    {
        assert(s@.subrange(a as int, b as int).drop_last() =~= s@.subrange(a as int, b - 1));
        b = b - 1;
    }
    (a, b)
}

/// Rust's `str::trim` on strings.
pub fn str_trim(s: &str) -> (r: String)
    ensures
        r@ == trim(s@),
{
    let sv = chars_of(s);
    let (a, b) = trim_bounds(sv.as_slice());
    s.substring_char(a, b).to_owned()
}

/// Rust's `str::split_whitespace` on strings.
pub fn str_words(s: &str) -> (r: Vec<String>)
    ensures
        r.deep_view() == words(s@),
{
    let sv = chars_of(s);
    let mut done: Vec<String> = Vec::new();
    let mut cur: Vec<char> = Vec::new();
    let mut i: usize = 0;
    assert(sv@.take(0) =~= Seq::<char>::empty());
    assert(split_at_space(Seq::<char>::empty()).drop_last() =~= Seq::<Seq<char>>::empty());
    while i < sv.len()
        invariant
            i <= sv.len(),
            sv@ == s@,
            split_at_space(sv@.take(i as int)).len() >= 1,
            split_at_space(sv@.take(i as int)).last() == cur@,
            non_empty(split_at_space(sv@.take(i as int)).drop_last()) == done.deep_view(),
        decreases sv.len() - i,
    {
        let ghost pre = sv@.take(i as int + 1);
        let ghost old_p = split_at_space(sv@.take(i as int));
        assert(pre.drop_last() =~= sv@.take(i as int));
        if is_space_exec(sv[i]) {
            assert(split_at_space(pre).drop_last() =~= old_p);
            if cur.len() > 0 {
                let piece = string_of(cur.as_slice());
                proof {
                    lemma_push_deep(done@, piece);
                }
                done.push(piece);
            }
            cur = Vec::new();
        } else {
            cur.push(sv[i]);
            assert(split_at_space(pre).drop_last() =~= old_p.drop_last());
        }
        i = i + 1;
    }
    assert(sv@.take(sv@.len() as int) =~= sv@);
    let ghost p = split_at_space(sv@);
    assert(p =~= p.drop_last().push(p.last()));
    if cur.len() > 0 {
        let last = string_of(cur.as_slice());
        proof {
            lemma_push_deep(done@, last);
        }
        done.push(last);
    }
    done
}

/// `split_on` always yields at least one piece.
pub proof fn lemma_split_on_nonempty(s: Seq<char>, c: char)
    ensures
        split_on(s, c).len() >= 1,
    decreases s.len(),
{
    if s.len() > 0 {
        lemma_split_on_nonempty(s.drop_last(), c);
    }
}

/// `s` without one trailing carriage return.
pub fn str_strip_cr(s: &str) -> (r: String)
    ensures
        r@ == strip_cr(s@),
{
    let n = s.unicode_len();
    if n > 0 && s.get_char(n - 1) == '\r' {
        s.substring_char(0, n - 1).to_owned()
    } else {
        s.to_owned()
    }
}

/// Rust's `str::lines` on strings.
pub fn str_lines(s: &str) -> (r: Vec<String>)
    ensures
        r.deep_view() == lines(s@),
{
    let parts = str_split(s, '\n');
    let n_chars = s.unicode_len();
    proof {
        lemma_split_on_nonempty(s@, '\n');
    }
    let n = if n_chars == 0 {
        0
    } else if s.get_char(n_chars - 1) == '\n' {
        parts.len() - 1
    } else {
        parts.len()
    };
    let ghost kept = if s@.len() == 0 {
        Seq::<Seq<char>>::empty()
    } else if s@.last() == '\n' {
        parts.deep_view().drop_last()
    } else {
        parts.deep_view()
    };
    assert(kept.len() == n);
    let mut r: Vec<String> = Vec::new();
    let mut k: usize = 0;
    while k < n
        invariant
            k <= n <= parts.len(),
            kept.len() == n,
            forall|j: int| 0 <= j < n ==> kept[j] == parts@[j]@,
            r.deep_view() == kept.take(k as int).map_values(|l: Seq<char>| strip_cr(l)),
        decreases n - k,
    {
        let line = str_strip_cr(parts[k].as_str());
        proof {
            lemma_push_deep(r@, line);
        }
        r.push(line);
        assert(kept.take(k + 1).map_values(|l: Seq<char>| strip_cr(l)) =~= kept.take(
            k as int,
        ).map_values(|l: Seq<char>| strip_cr(l)).push(strip_cr(kept[k as int])));
        k = k + 1;
    }
    assert(kept.take(n as int) =~= kept);
    r
}

/// The Unicode lower-case form of `s`, as std's `str::to_lowercase` computes
/// it (each character mapped by the Unicode Lowercase mapping, with the final
/// sigma rule).
pub uninterp spec fn lowercase(s: Seq<char>) -> Seq<char>;

/// std's `str::to_lowercase`. The contract claims only that the result is
/// `lowercase` of the argument, a function of the argument alone.
#[verifier::external_body]
pub(crate) fn str_lowercase(s: &str) -> (r: String)
    ensures
        r@ == lowercase(s@),
{
    s.to_lowercase()
}

// ---------------------------------------------------------------------------
// Byte positions
// ---------------------------------------------------------------------------

/// The number of bytes that UTF-8 takes for `c`.
pub open spec fn char_width(c: char) -> int {
    let u = c as u32;
    if u < 0x80 {
        1
    } else if u < 0x800 {
        2
    } else if u < 0x10000 {
        3
    } else {
        4
    }
}

/// The number of bytes that UTF-8 takes for `s`.
pub open spec fn byte_len(s: Seq<char>) -> int
    decreases s.len(),
{
    if s.len() == 0 {
        0
    } else {
        byte_len(s.drop_last()) + char_width(s.last())
    }
}

/// Byte offset `b` falls between two characters of `s` (or at either end).
pub open spec fn is_boundary(s: Seq<char>, b: int) -> bool {
    exists|k: int| 0 <= k <= s.len() && byte_len(s.take(k)) == b
}

/// The number of characters before byte offset `b`.
pub open spec fn chars_before(s: Seq<char>, b: int) -> int {
    choose|k: int| 0 <= k <= s.len() && byte_len(s.take(k)) == b
}

/// `byte_len` of prefixes grows strictly with the prefix.
pub proof fn lemma_byte_len_grows(s: Seq<char>, k1: int, k2: int)
    requires
        0 <= k1 < k2 <= s.len(),
    ensures
        byte_len(s.take(k1)) < byte_len(s.take(k2)),
    decreases k2 - k1,
{
    assert(s.take(k2).drop_last() =~= s.take(k2 - 1));
    if k1 < k2 - 1 {
        lemma_byte_len_grows(s, k1, k2 - 1);
    }
}

/// The number of characters of `s` before byte offset `b`, when `b` falls
/// between two characters.
pub fn chars_before_exec(s: &[char], b: usize) -> (r: Option<usize>)
    ensures
        match r {
            Some(k) => k <= s@.len() && is_boundary(s@, b as int) && chars_before(s@, b as int)
                == k,
            None => !is_boundary(s@, b as int),
        },
{
    let mut k: usize = 0;
    let mut acc: usize = 0;
    assert(s@.take(0) =~= Seq::<char>::empty());
    while k < s.len() && acc < b
        invariant
            k <= s.len(),
            acc == byte_len(s@.take(k as int)),
            acc <= b,
        decreases s.len() - k,
    {
        let c = s[k];
        let u = c as u32;
        let w: usize = if u < 0x80 {
            1
        } else if u < 0x800 {
            2
        } else if u < 0x10000 {
            3
        } else {
            4
        };
        assert(s@.take(k + 1).drop_last() =~= s@.take(k as int));
        if w > b - acc {
            proof {
                assert forall|k2: int| 0 <= k2 <= s@.len() implies byte_len(s@.take(k2)) != b by {
                    if k2 < k + 1 {
                        if k2 < k {
                            lemma_byte_len_grows(s@, k2, k as int);
                        }
                    } else if k2 > k + 1 {
                        lemma_byte_len_grows(s@, k + 1, k2);
                    }
                }
            }
            return None;
        }
        acc = acc + w;
        k = k + 1;
    }
    if acc == b {
        proof {
            let j = chars_before(s@, b as int);
            assert(0 <= j <= s@.len() && byte_len(s@.take(j)) == b);
            if j < k {
                lemma_byte_len_grows(s@, j, k as int);
            } else if j > k {
                lemma_byte_len_grows(s@, k as int, j);
            }
        }
        Some(k)
    } else {
        proof {
            assert forall|k2: int| 0 <= k2 <= s@.len() implies byte_len(s@.take(k2)) != b by {
                if k2 < k {
                    lemma_byte_len_grows(s@, k2, k as int);
                }
            }
        }
        None
    }
}

/// `s` from byte offset `b` on (Rust's `&s[b..]`).
pub fn str_from_byte(s: &str, b: usize) -> (r: String)
    requires
        is_boundary(s@, b as int),
    ensures
        r@ == s@.skip(chars_before(s@, b as int)),
{
    let sv = chars_of(s);
    let k = chars_before_exec(sv.as_slice(), b).unwrap();
    let n = s.unicode_len();
    s.substring_char(k, n).to_owned()
}

/// Rust's `str::split` on a non-empty string separator: the pieces between
/// the leftmost non-overlapping occurrences of `sep`.
#[verifier::opaque]
pub open spec fn split_str(s: Seq<char>, sep: Seq<char>) -> Seq<Seq<char>>
    decreases s.len(),
{
    if sep.len() == 0 || !contains(s, sep) {
        seq![s]
    } else {
        let i = first_occurrence(s, sep);
        if 0 <= i && i + sep.len() <= s.len() {
            seq![s.take(i)] + split_str(s.skip(i + sep.len()), sep)
        } else {
            seq![s]
        }
    }
}

/// The first position at which `p` occurs in `s` (when it occurs).
pub open spec fn first_occurrence(s: Seq<char>, p: Seq<char>) -> int {
    choose|i: int| occurs_at(s, p, i) && forall|j: int| 0 <= j < i ==> !occurs_at(s, p, j)
}

proof fn lemma_first_occurrence(s: Seq<char>, p: Seq<char>, i: int)
    requires
        occurs_at(s, p, i),
        forall|j: int| 0 <= j < i ==> !occurs_at(s, p, j),
    ensures
        first_occurrence(s, p) == i,
{
    let k = first_occurrence(s, p);
    assert(occurs_at(s, p, k) && forall|j: int| 0 <= j < k ==> !occurs_at(s, p, j));
    if k < i {
        assert(!occurs_at(s, p, k));
    }
    if i < k {
        assert(!occurs_at(s, p, i));
    }
}

proof fn lemma_occurs_shift(s: Seq<char>, p: Seq<char>, from: int, j: int)
    requires
        0 <= from <= s.len(),
    ensures
        occurs_at(s.skip(from), p, j) <==> (0 <= j && occurs_at(s, p, from + j)),
{
    if 0 <= j && occurs_at(s, p, from + j) {
        assert(s.skip(from).subrange(j, j + p.len()) =~= s.subrange(from + j, from + j + p.len()));
    }
    if occurs_at(s.skip(from), p, j) {
        assert(s.skip(from).subrange(j, j + p.len()) =~= s.subrange(from + j, from + j + p.len()));
    }
}

proof fn lemma_split_str_found(s: Seq<char>, p: Seq<char>, from: int, i: int)
    requires
        0 <= from <= i,
        p.len() > 0,
        occurs_at(s, p, i),
        forall|j: int| from <= j < i ==> !occurs_at(s, p, j),
    ensures
        split_str(s.skip(from), p) == seq![s.subrange(from, i)] + split_str(s.skip(i + p.len()), p),
{
    reveal(split_str);
    let rest = s.skip(from);
    assert forall|j: int| 0 <= j < i - from implies !occurs_at(rest, p, j) by {
        lemma_occurs_shift(s, p, from, j);
    }
    lemma_occurs_shift(s, p, from, i - from);
    lemma_first_occurrence(rest, p, i - from);
    assert(contains(rest, p));
    assert(rest.take(i - from) =~= s.subrange(from, i));
    assert(rest.skip(i - from + p.len()) =~= s.skip(i + p.len()));
}

proof fn lemma_split_str_none(s: Seq<char>, p: Seq<char>, from: int)
    requires
        0 <= from <= s.len(),
        forall|j: int| from <= j ==> !occurs_at(s, p, j),
    ensures
        split_str(s.skip(from), p) == seq![s.skip(from)],
{
    reveal(split_str);
    let rest = s.skip(from);
    assert forall|j: int| !occurs_at(rest, p, j) by {
        lemma_occurs_shift(s, p, from, j);
    }
}

/// Rust's `str::split` on a non-empty string separator.
pub fn str_split_str(s: &str, sep: &str) -> (r: Vec<String>)
    requires
        sep@.len() > 0,
    ensures
        r.deep_view() == split_str(s@, sep@),
{
    let sv = chars_of(s);
    let pv = chars_of(sep);
    let mut out: Vec<String> = Vec::new();
    let mut from: usize = 0;
    assert(sv@.skip(0) =~= sv@);
    assert(out.deep_view() + split_str(s@, sep@) =~= split_str(s@, sep@));
    loop
        invariant
            from <= sv@.len(),
            sv@ == s@,
            pv@ == sep@,
            pv@.len() > 0,
            split_str(s@, sep@) == out.deep_view() + split_str(sv@.skip(from as int), pv@),
        decreases sv@.len() - from,
    {
        match find_from(sv.as_slice(), pv.as_slice(), from) {
            Some(i) => {
                proof {
                    lemma_split_str_found(sv@, pv@, from as int, i as int);
                }
                let piece = s.substring_char(from, i).to_owned();
                let ghost before = out;
                let ghost x = piece;
                out.push(piece);
                proof {
                    lemma_vec_push_deep(before, out, x);
                    assert(out.deep_view() + split_str(sv@.skip(i + pv@.len()), pv@)
                        =~= before.deep_view() + (seq![x@] + split_str(
                        sv@.skip(i + pv@.len()),
                        pv@,
                    )));
                }
                let n = sv.len();
                let m = pv.len();
                assert(i + m <= n);
                from = i + m;
            },
            None => {
                proof {
                    lemma_split_str_none(sv@, pv@, from as int);
                }
                let piece = s.substring_char(from, sv.len()).to_owned();
                assert(piece@ =~= sv@.skip(from as int));
                let ghost before = out;
                let ghost x = piece;
                out.push(piece);
                proof {
                    lemma_vec_push_deep(before, out, x);
                    assert(out.deep_view() =~= before.deep_view() + seq![x@]);
                }
                return out;
            },
        }
    }
}

/// The position of the first `c` in `s` (`s.len()` when there is none).
pub open spec fn char_index(s: Seq<char>, c: char) -> int
    decreases s.len(),
{
    if s.len() == 0 {
        0
    } else if s[0] == c {
        0
    } else {
        1 + char_index(s.drop_first(), c)
    }
}

/// What comes before the first `c` in `s` (all of `s` when there is none).
pub open spec fn before_char(s: Seq<char>, c: char) -> Seq<char> {
    s.take(char_index(s, c))
}

/// What comes after the first `c` in `s` (nothing when there is none).
pub open spec fn after_char(s: Seq<char>, c: char) -> Seq<char> {
    if char_index(s, c) < s.len() {
        s.skip(char_index(s, c) + 1)
    } else {
        Seq::<char>::empty()
    }
}

proof fn lemma_char_index(s: Seq<char>, c: char, i: int)
    requires
        0 <= i <= s.len(),
        forall|k: int| 0 <= k < i ==> s[k] != c,
        i < s.len() ==> s[i] == c,
    ensures
        char_index(s, c) == i,
    decreases i,
{
    if i > 0 {
        assert forall|k: int| 0 <= k < i - 1 implies s.drop_first()[k] != c by {
            assert(s.drop_first()[k] == s[k + 1]);
        }
        lemma_char_index(s.drop_first(), c, i - 1);
    }
}

/// The position of the first `c` in `s`.
pub fn char_index_exec(s: &[char], c: char) -> (r: usize)
    ensures
        r == char_index(s@, c),
        r <= s@.len(),
        r < s@.len() <==> has_char(s@, c),
{
    let mut i: usize = 0;
    while i < s.len() && s[i] != c
        invariant
            i <= s.len(),
            forall|k: int| 0 <= k < i ==> s@[k] != c,
        decreases s.len() - i,
    {
        i = i + 1;
    }
    proof {
        lemma_char_index(s@, c, i as int);
        if i == s.len() {
            assert(!s@.contains(c));
        } else {
            assert(s@[i as int] == c);
        }
    }
    i
}

/// What comes before the first `c` in `s`.
pub fn str_before_char(s: &str, c: char) -> (r: String)
    ensures
        r@ == before_char(s@, c),
{
    let v = chars_of(s);
    let i = char_index_exec(v.as_slice(), c);
    s.substring_char(0, i).to_owned()
}

/// What comes after the first `c` in `s`.
pub fn str_after_char(s: &str, c: char) -> (r: String)
    ensures
        r@ == after_char(s@, c),
{
    let v = chars_of(s);
    let i = char_index_exec(v.as_slice(), c);
    if i < v.len() {
        s.substring_char(i + 1, v.len()).to_owned()
    } else {
        proof {
            reveal_strlit("");
        }
        owned("")
    }
}

/// Borrowed views of owned strings.
pub fn str_refs(v: &Vec<String>) -> (r: Vec<&str>)
    ensures
        r.deep_view() == v.deep_view(),
{
    let mut r: Vec<&str> = Vec::new();
    let mut i: usize = 0;
    while i < v.len()
        invariant
            i <= v.len(),
            r.deep_view() == v.deep_view().take(i as int),
        decreases v.len() - i,
    {
        let ghost before = r.deep_view();
        r.push(v[i].as_str());
        assert(r.deep_view() =~= before.push(v@[i as int]@));
        assert(v.deep_view().take(i + 1) =~= v.deep_view().take(i as int).push(v@[i as int]@));
        i = i + 1;
    }
    assert(v.deep_view().take(v.len() as int) =~= v.deep_view());
    r
}

/// Whether byte offset `b` falls between two characters of `s`.
pub fn str_is_boundary(s: &str, b: usize) -> (r: bool)
    ensures
        r == is_boundary(s@, b as int),
{
    let sv = chars_of(s);
    chars_before_exec(sv.as_slice(), b).is_some()
}

} // verus!
