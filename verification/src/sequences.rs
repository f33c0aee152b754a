//! Facts about filtered sequences.

use vstd::prelude::*;

verus! {

/// Filtering a sequence with one more element: the element is appended
/// where it passes, and dropped where it does not.
pub proof fn lemma_filter_push<A>(s: Seq<A>, x: A, p: spec_fn(A) -> bool)
    ensures
        s.push(x).filter(p) == if p(x) {
            s.filter(p).push(x)
        } else {
            s.filter(p)
        },
{
    reveal(Seq::filter);
    assert(s.push(x).drop_last() =~= s);
}

/// A filter never lengthens a sequence.
pub proof fn lemma_filter_len<A>(s: Seq<A>, p: spec_fn(A) -> bool)
    ensures
        s.filter(p).len() <= s.len(),
    decreases s.len(),
{
    reveal(Seq::filter);
    if s.len() > 0 {
        lemma_filter_len(s.drop_last(), p);
    }
}

/// What a filter lets through passes its test and was in the sequence.
pub proof fn lemma_filter_all<A>(s: Seq<A>, p: spec_fn(A) -> bool)
    ensures
        forall|i: int| 0 <= i < s.filter(p).len() ==> p(#[trigger] s.filter(p)[i]),
        forall|i: int|
            0 <= i < s.filter(p).len() ==> s.contains(#[trigger] s.filter(p)[i]),
    decreases s.len(),
{
    reveal(Seq::filter);
    if s.len() > 0 {
        lemma_filter_all(s.drop_last(), p);
        let rest = s.drop_last().filter(p);
        assert forall|i: int| 0 <= i < s.filter(p).len() implies s.contains(
            #[trigger] s.filter(p)[i],
        ) by {
            if i < rest.len() {
                let j = choose|j: int| 0 <= j < s.drop_last().len() && s.drop_last()[j] == rest[i];
                assert(s[j] == rest[i]);
            } else {
                assert(s[s.len() - 1] == s.last());
            }
        }
    }
}

/// Filtering a sequence with one more element in front: the element stays
/// in front where it passes, and is dropped where it does not.
pub proof fn lemma_filter_prepend<A>(x: A, rest: Seq<A>, p: spec_fn(A) -> bool)
    ensures
        (seq![x] + rest).filter(p) == if p(x) {
            seq![x] + rest.filter(p)
        } else {
            rest.filter(p)
        },
{
    Seq::filter_distributes_over_add(seq![x], rest, p);
    lemma_filter_push(Seq::<A>::empty(), x, p);
    reveal(Seq::filter);
    assert(Seq::<A>::empty().push(x) =~= seq![x]);
    assert(Seq::<A>::empty().filter(p) =~= Seq::<A>::empty());
    if p(x) {
        assert(seq![x].filter(p) =~= seq![x]);
    } else {
        assert(seq![x].filter(p) =~= Seq::<A>::empty());
        assert(Seq::<A>::empty() + rest.filter(p) =~= rest.filter(p));
    }
}

/// A filter leaves a sequence unchanged where every element satisfies it.
pub proof fn lemma_filter_identity<A>(s: Seq<A>, p: spec_fn(A) -> bool)
    requires
        forall|i: int| 0 <= i < s.len() ==> p(#[trigger] s[i]),
    ensures
        s.filter(p) == s,
    decreases s.len(),
{
    reveal(Seq::filter);
    if s.len() > 0 {
        lemma_filter_identity(s.drop_last(), p);
        assert(s.drop_last().push(s.last()) =~= s);
    }
}

/// Two filters give the same whichever is applied first.
pub proof fn lemma_filter_commutes<A>(s: Seq<A>, p: spec_fn(A) -> bool, q: spec_fn(A) -> bool)
    ensures
        s.filter(p).filter(q) == s.filter(q).filter(p),
    decreases s.len(),
{
    reveal(Seq::filter);
    if s.len() > 0 {
        let init = s.drop_last();
        let x = s.last();
        lemma_filter_commutes(init, p, q);
        assert(init.push(x) =~= s);
        lemma_filter_push(init, x, p);
        lemma_filter_push(init, x, q);
        lemma_filter_push(init.filter(p), x, q);
        lemma_filter_push(init.filter(q), x, p);
    }
}

/// Filtering and then mapping gives the same as mapping and then filtering
/// by a test that agrees on the mapped values.
pub proof fn lemma_filter_map_commutes<A, B>(
    s: Seq<A>,
    f: spec_fn(A) -> B,
    p: spec_fn(A) -> bool,
    q: spec_fn(B) -> bool,
)
    requires
        forall|x: A| #[trigger] p(x) == q(f(x)),
    ensures
        s.filter(p).map_values(f) == s.map_values(f).filter(q),
    decreases s.len(),
{
    reveal(Seq::filter);
    if s.len() > 0 {
        let init = s.drop_last();
        let x = s.last();
        lemma_filter_map_commutes(init, f, p, q);
        assert(init.push(x) =~= s);
        lemma_filter_push(init, x, p);
        assert(s.map_values(f) =~= init.map_values(f).push(f(x)));
        lemma_filter_push(init.map_values(f), f(x), q);
        assert(p(x) == q(f(x)));
        if p(x) {
            assert(init.filter(p).push(x).map_values(f) =~= init.filter(p).map_values(f).push(
                f(x),
            ));
        }
    } else {
        assert(s.filter(p).map_values(f) =~= s.map_values(f).filter(q));
    }
}

/// Moves every element of `from` to the end of `to`, last element first.
pub fn move_reversed<T>(from: &mut Vec<T>, to: &mut Vec<T>)
    ensures
        final(from)@ == Seq::<T>::empty(),
        final(to)@ == old(to)@ + old(from)@.reverse(),
{
    let ghost source = from@;
    let ghost target = to@;
    proof {
        assert(source.skip(source.len() as int) =~= Seq::<T>::empty());
        assert(target + Seq::<T>::empty().reverse() =~= target);
    }
    while from.len() > 0
        invariant
            from@ == source.take(from@.len() as int),
            from@.len() <= source.len(),
            to@ == target + source.skip(from@.len() as int).reverse(),
        decreases from.len(),
    {
        let ghost k = from@.len() as int;
        let item = from.pop().unwrap();
        to.push(item);
        proof {
            assert(from@ =~= source.take(k - 1));
            assert(to@ =~= target + source.skip(k - 1).reverse());
        }
    }
    proof {
        assert(source.skip(0) =~= source);
        assert(from@ =~= Seq::<T>::empty());
    }
}

} // verus!
