//! Sequence operations that the contracts of this crate are written with.

use vstd::prelude::*;

verus! {

/// The concatenation `f(lo) + f(lo + 1) + ... + f(hi - 1)`.
pub open spec fn concat_range<E>(lo: int, hi: int, f: spec_fn(int) -> Seq<E>) -> Seq<E>
    decreases hi - lo,
{
    if hi <= lo {
        Seq::empty()
    } else {
        concat_range(lo, hi - 1, f) + f(hi - 1)
    }
}

/// The sequence `[e]` if `b` holds, else the empty sequence.
pub open spec fn only_if<E>(b: bool, e: E) -> Seq<E> {
    if b {
        seq![e]
    } else {
        Seq::empty()
    }
}

/// The values of a list of pairs, without their keys.
pub open spec fn values<K, V>(s: Seq<(K, V)>) -> Seq<V> {
    s.map_values(|p: (K, V)| p.1)
}

/// A concatenation is empty exactly when all its parts are.
pub proof fn lemma_concat_range_empty<E>(lo: int, hi: int, f: spec_fn(int) -> Seq<E>)
    ensures
        concat_range(lo, hi, f).len() == 0 <==> forall|i: int|
            lo <= i < hi ==> (#[trigger] f(i)).len() == 0,
    decreases hi - lo,
{
    if hi > lo {
        lemma_concat_range_empty(lo, hi - 1, f);
    }
}

/// Every element of a concatenation is an element of one of its parts.
pub proof fn lemma_concat_range_origin<E>(
    lo: int,
    hi: int,
    f: spec_fn(int) -> Seq<E>,
    k: int,
) -> (r: (int, int))
    requires
        0 <= k < concat_range(lo, hi, f).len(),
    ensures
        lo <= r.0 < hi,
        0 <= r.1 < f(r.0).len(),
        concat_range(lo, hi, f)[k] == f(r.0)[r.1],
    decreases hi - lo,
{
    let front = concat_range(lo, hi - 1, f);
    if k < front.len() {
        lemma_concat_range_origin(lo, hi - 1, f, k)
    } else {
        (hi - 1, k - front.len())
    }
}

/// Filtering one more element of `s`.
pub proof fn lemma_filter_step<A>(s: Seq<A>, i: int, p: spec_fn(A) -> bool)
    requires
        0 <= i < s.len(),
    ensures
        s.take(i + 1).filter(p) == (if p(s[i]) {
            s.take(i).filter(p).push(s[i])
        } else {
            s.take(i).filter(p)
        }),
{
    reveal(Seq::filter);
    assert(s.take(i + 1).drop_last() =~= s.take(i));
}

/// A filtered sequence is empty exactly when no element passes the filter.
pub proof fn lemma_filter_empty<A>(s: Seq<A>, p: spec_fn(A) -> bool)
    ensures
        s.filter(p).len() == 0 <==> forall|i: int| 0 <= i < s.len() ==> !p(#[trigger] s[i]),
    decreases s.len(),
{
    reveal(Seq::filter);
    if s.len() > 0 {
        let init = s.drop_last();
        lemma_filter_empty(init, p);
        if s.filter(p).len() == 0 {
            assert forall|i: int| 0 <= i < s.len() implies !p(#[trigger] s[i]) by {
                if i < init.len() {
                    assert(!p(init[i]));
                }
            }
        } else if !p(s.last()) {
            let j = choose|j: int| 0 <= j < init.len() && p(#[trigger] init[j]);
            assert(p(s[j]));
        } else {
            assert(p(s[s.len() - 1]));
        }
    }
}

/// A filtered sequence holds the elements that pass the filter.
pub proof fn lemma_filter_contains<A>(s: Seq<A>, p: spec_fn(A) -> bool, x: A)
    ensures
        s.filter(p).contains(x) <==> s.contains(x) && p(x),
    decreases s.len(),
{
    reveal(Seq::filter);
    if s.len() > 0 {
        let init = s.drop_last();
        let front = init.filter(p);
        lemma_filter_contains(init, p, x);
        if s.contains(x) {
            let i = s.index_of(x);
            if i < init.len() {
                assert(init[i] == x);
            }
        }
        if init.contains(x) {
            let i = init.index_of(x);
            assert(s[i] == x);
        }
        if p(s.last()) {
            assert(front.push(s.last())[front.len() as int] == s.last());
            if front.contains(x) {
                let i = front.index_of(x);
                assert(front.push(s.last())[i] == x);
            }
            if front.push(s.last()).contains(x) {
                let i = front.push(s.last()).index_of(x);
                if i < front.len() {
                    assert(front[i] == x);
                } else {
                    assert(s[s.len() - 1] == x);
                }
            }
        }
    }
}

/// Two sequences, one after the other, hold what either of them holds.
pub proof fn lemma_add_contains<A>(s: Seq<A>, t: Seq<A>, x: A)
    ensures
        (s + t).contains(x) <==> s.contains(x) || t.contains(x),
{
    if s.contains(x) {
        assert((s + t)[s.index_of(x)] == x);
    }
    if t.contains(x) {
        assert((s + t)[s.len() + t.index_of(x)] == x);
    }
    if (s + t).contains(x) {
        let i = (s + t).index_of(x);
        if i < s.len() {
            assert(s[i] == x);
        } else {
            assert(t[i - s.len()] == x);
        }
    }
}

/// A concatenation holds what one of its parts holds.
pub proof fn lemma_concat_range_contains<E>(lo: int, hi: int, f: spec_fn(int) -> Seq<E>, x: E)
    ensures
        concat_range(lo, hi, f).contains(x) <==> exists|i: int|
            lo <= i < hi && (#[trigger] f(i)).contains(x),
    decreases hi - lo,
{
    if hi > lo {
        lemma_concat_range_contains(lo, hi - 1, f, x);
        lemma_add_contains(concat_range(lo, hi - 1, f), f(hi - 1), x);
    }
}

/// One element on its own holds itself if it is there.
pub proof fn lemma_only_if_contains<E>(b: bool, e: E, x: E)
    ensures
        only_if(b, e).contains(x) <==> b && x == e,
{
    if b {
        assert(only_if(b, e)[0] == e);
    }
}

/// Filtering leaves no more elements than there were.
pub proof fn lemma_filter_len<A>(s: Seq<A>, p: spec_fn(A) -> bool)
    ensures
        s.filter(p).len() <= s.len(),
    decreases s.len(),
{
    reveal(Seq::filter);
    if s.len() > 0 {
        lemma_filter_len(s.drop_last(), p);
    }
}

} // verus!
