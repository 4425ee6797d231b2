//! Facts about filtering sequences that the table code leans on.

use vstd::prelude::*;

verus! {

broadcast use vstd::seq_lib::group_seq_lib_default;

/// One more element of the prefix goes through the filter or not.
pub proof fn lemma_take_filter_step<A>(s: Seq<A>, p: spec_fn(A) -> bool, i: int)
    requires
        0 <= i < s.len(),
    ensures
        s.take(i + 1).filter(p) == if p(s[i]) {
            s.take(i).filter(p).push(s[i])
        } else {
            s.take(i).filter(p)
        },
{
    assert(s.take(i + 1) =~= s.take(i).push(s[i]));
    s.take(i).lemma_filter_push(s[i], p);
}

/// The whole sequence is its longest prefix.
pub proof fn lemma_take_all<A>(s: Seq<A>)
    ensures
        s.take(s.len() as int) == s,
{
    assert(s.take(s.len() as int) =~= s);
}

/// If nothing before `i` passes the filter and `s[i]` does, the filter
/// starts with `s[i]`.
pub proof fn lemma_first_match<A>(s: Seq<A>, p: spec_fn(A) -> bool, i: int)
    requires
        0 <= i < s.len(),
        s.take(i).filter(p).len() == 0,
        p(s[i]),
    ensures
        s.filter(p).len() > 0,
        s.filter(p)[0] == s[i],
{
    let a = s.take(i);
    let b = s.skip(i);
    assert(s =~= a + b);
    Seq::filter_distributes_over_add(a, b, p);
    assert(b =~= seq![s[i]] + s.skip(i + 1));
    s.skip(i + 1).lemma_filter_prepend(s[i], p);
    assert(a.filter(p) =~= Seq::<A>::empty());
}

/// A filter that keeps nothing of any prefix keeps nothing at all.
pub proof fn lemma_no_match<A>(s: Seq<A>, p: spec_fn(A) -> bool)
    requires
        s.take(s.len() as int).filter(p).len() == 0,
    ensures
        s.filter(p).len() == 0,
        forall|j: int| 0 <= j < s.len() ==> !p(#[trigger] s[j]),
{
    lemma_take_all(s);
    assert forall|j: int| 0 <= j < s.len() implies !p(#[trigger] s[j]) by {
        if p(s[j]) {
            s.lemma_filter_contains(p, j);
        }
    }
}

/// Everything a filter keeps passes it, and everything that passes is kept.
pub proof fn lemma_filter_members<A>(s: Seq<A>, p: spec_fn(A) -> bool)
    ensures
        forall|j: int| 0 <= j < s.filter(p).len() ==> p(#[trigger] s.filter(p)[j]),
        forall|j: int| 0 <= j < s.len() && p(s[j]) ==> #[trigger] s.filter(p).contains(s[j]),
{
    assert forall|j: int| 0 <= j < s.filter(p).len() implies p(#[trigger] s.filter(p)[j]) by {
        s.lemma_filter_pred(p, j);
    }
    assert forall|j: int| 0 <= j < s.len() && p(s[j]) implies #[trigger] s.filter(p).contains(s[j]) by {
        s.lemma_filter_contains(p, j);
    }
}

/// Whatever a filter keeps was in the sequence.
pub proof fn lemma_filter_subset<A>(s: Seq<A>, p: spec_fn(A) -> bool, x: A)
    requires
        s.filter(p).contains(x),
    ensures
        s.contains(x),
        p(x),
    decreases s.len(),
{
    reveal(Seq::filter);
    if s.len() > 0 {
        let rest = s.drop_last().filter(p);
        if rest.contains(x) {
            lemma_filter_subset(s.drop_last(), p, x);
            let k = choose|k: int| 0 <= k < s.drop_last().len() && s.drop_last()[k] == x;
            assert(s[k] == x);
        } else {
            assert(p(s.last()));
            let k = choose|k: int| 0 <= k < s.filter(p).len() && s.filter(p)[k] == x;
            assert(s.filter(p) == rest.push(s.last()));
            if k < rest.len() {
                assert(rest[k] == x);
                assert(false);
            }
            assert(x == s.last());
            assert(s[s.len() - 1] == x);
        }
    }
}

/// A filter that nothing passes keeps nothing.
pub proof fn lemma_all_fail_filter_empty<A>(s: Seq<A>, p: spec_fn(A) -> bool)
    requires
        forall|j: int| 0 <= j < s.len() ==> !p(#[trigger] s[j]),
    ensures
        s.filter(p).len() == 0,
{
    if s.filter(p).len() > 0 {
        let x = s.filter(p)[0];
        assert(s.filter(p).contains(x));
        lemma_filter_subset(s, p, x);
        let k = choose|k: int| 0 <= k < s.len() && s[k] == x;
        assert(!p(s[k]));
    }
}

} // verus!
