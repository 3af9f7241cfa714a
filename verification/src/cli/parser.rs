//! The argument list that the program hands its parser.
use crate::text;
use crate::ARGUMENT_PLACEHOLDER;
use vstd::prelude::*;

verus! {

/// The first position of `x` in `a`, if it occurs.
pub open spec fn first_position(a: Seq<Seq<char>>, x: Seq<char>) -> Option<int> {
    if exists|i: int| 0 <= i < a.len() && a[i] == x {
        Some(choose|i: int| 0 <= i < a.len() && a[i] == x && forall|j: int| 0 <= j < i ==> a[j] != x)
    } else {
        None
    }
}

/// The arguments as the parser should see them: when the placeholder occurs,
/// the arguments after it come first, then `--`, then those before it;
/// otherwise `--` is put in front unless the list is empty or starts with an
/// option or with `--`.
pub open spec fn prepared(a: Seq<Seq<char>>, placeholder: Seq<char>) -> Seq<Seq<char>> {
    match first_position(a, placeholder) {
        Some(i) => a.skip(i + 1) + seq!["--"@] + a.take(i),
        None => if a.len() > 0 && !text::starts_with(a[0], "-"@) && a[0] != "--"@ {
            seq!["--"@] + a
        } else {
            a
        },
    }
}

proof fn lemma_first_position(a: Seq<Seq<char>>, x: Seq<char>, i: int)
    requires
        0 <= i < a.len(),
        a[i] == x,
        forall|j: int| 0 <= j < i ==> a[j] != x,
    ensures
        first_position(a, x) == Some(i),
{
    let k = choose|k: int| 0 <= k < a.len() && a[k] == x && forall|j: int| 0 <= j < k ==> a[j] != x;
    assert(0 <= k < a.len() && a[k] == x && forall|j: int| 0 <= j < k ==> a[j] != x);
    if k < i {
        assert(a[k] != x);
    }
    if i < k {
        assert(a[i] != x);
    }
}

/// The first position of `x` in `v`, if it occurs.
fn position_of(v: &Vec<String>, x: &str) -> (r: Option<usize>)
    ensures
        match r {
            Some(i) => i < v.len() && first_position(v.deep_view(), x@) == Some(i as int),
            None => first_position(v.deep_view(), x@) is None,
        },
{
    let ghost a = v.deep_view();
    let mut index: usize = 0;
    while index < v.len()
        invariant
            index <= v.len(),
            a == v.deep_view(),
            forall|j: int| 0 <= j < index ==> a[j] != x@,
        decreases v.len() - index,
    {
        if text::str_eq(v[index].as_str(), x) {
            proof {
                lemma_first_position(a, x@, index as int);
            }
            return Some(index);
        }
        index = index + 1;
    }
    None
}

/// Prepares arguments by:
/// - Removing placeholder and moving arguments after it to beginning, we need this
///   to distinguish arguments from `command` with ours;
/// - Adding `--` before `command`, so that our parser ignores arguments of `command`.
pub fn prepare_arguments(argv: Vec<String>) -> (r: Vec<String>)
    ensures
        r.deep_view() == prepared(argv.deep_view(), ARGUMENT_PLACEHOLDER@),
{
    let ghost a = argv.deep_view();
    let found = position_of(&argv, ARGUMENT_PLACEHOLDER);
    if let Some(index) = found {
        let mut processed: Vec<String> = Vec::new();
        let mut k = index + 1;
        while k < argv.len()
            invariant
                index < k <= argv.len(),
                a == argv.deep_view(),
                processed.deep_view() == a.subrange(index + 1, k as int),
            decreases argv.len() - k,
        {
            let item = text::owned(argv[k].as_str());
            assert(item@ == a[k as int]);
            let ghost before = processed;
            let ghost x = item;
            processed.push(item);
            proof {
                text::lemma_vec_push_deep(before, processed, x);
            }
            k = k + 1;
            assert(processed.deep_view() =~= a.subrange(index + 1, k as int));
        }
        let sep = text::owned("--");
        proof {
            assert(a.skip(index + 1) =~= a.subrange(index + 1, a.len() as int));
            assert(a.take(0) =~= Seq::<Seq<char>>::empty());
        }
        let ghost before = processed;
        let ghost x = sep;
        processed.push(sep);
        proof {
            text::lemma_vec_push_deep(before, processed, x);
        }
        let mut k: usize = 0;
        while k < index
            invariant
                k <= index < argv.len(),
                a == argv.deep_view(),
                processed.deep_view() == a.skip(index + 1) + seq!["--"@] + a.take(k as int),
            decreases index - k,
        {
            let item = text::owned(argv[k].as_str());
            assert(item@ == a[k as int]);
            let ghost before = processed;
            let ghost x = item;
            processed.push(item);
            proof {
                text::lemma_vec_push_deep(before, processed, x);
            }
            k = k + 1;
            assert(processed.deep_view() =~= a.skip(index + 1) + seq!["--"@] + a.take(k as int));
        }
        processed
    } else {
        assert(!(exists|i: int| 0 <= i < a.len() && a[i] == ARGUMENT_PLACEHOLDER@));
        let mut argv = argv;
        if argv.len() > 0 && !text::str_starts_with(argv[0].as_str(), "-") && !text::str_eq(
            argv[0].as_str(),
            "--",
        ) {
            let sep = text::owned("--");
            argv.insert(0, sep);
            assert(argv.deep_view() =~= seq!["--"@] + a);
        }
        argv
    }
}

} // verus!
