//! Sorting amounts from the largest to the smallest.

use vstd::prelude::*;
use vstd::relations::{sorted_by, total_ordering};
use vstd::seq_lib::{lemma_sorted_unique, to_multiset_build, to_multiset_insert};

verus! {

/// The order "not smaller than" on integers.
pub open spec fn descending() -> spec_fn(int, int) -> bool {
    |a: int, b: int| a >= b
}

/// The values of a sequence of amounts, in order.
pub open spec fn amounts(values: Seq<u128>) -> Seq<int> {
    values.map_values(|x: u128| x as int)
}

/// `values` from the largest to the smallest.
pub open spec fn sorted_descending(values: Seq<int>) -> Seq<int> {
    values.sort_by(descending())
}

/// "Not smaller than" orders the integers totally.
pub proof fn lemma_descending_total()
    ensures
        total_ordering(descending()),
{
}

/// Returns the amounts from the largest to the smallest.
pub fn sort_descending(values: &Vec<u128>) -> (sorted: Vec<u128>)
    ensures
        amounts(sorted@) == sorted_descending(amounts(values@)),
        sorted@.len() == values@.len(),
{
    let mut sorted: Vec<u128> = Vec::new();
    let n = values.len();
    let mut i: usize = 0;
    proof {
        assert(amounts(values@).take(0) =~= Seq::<int>::empty());
        assert(amounts(sorted@) =~= Seq::<int>::empty());
    }
    while i < n
        invariant
            n == values.len(),
            i <= n,
            sorted@.len() == i,
            sorted_by(amounts(sorted@), descending()),
            amounts(sorted@).to_multiset() == amounts(values@).take(i as int).to_multiset(),
        decreases n - i,
    {
        let x = values[i];
        let mut p: usize = 0;
        while p < sorted.len() && sorted[p] >= x
            invariant
                p <= sorted.len(),
                forall|j: int| 0 <= j < p ==> sorted@[j] >= x,
            decreases sorted.len() - p,
        {
            p = p + 1;
        }
        let ghost before = sorted@;
        sorted.insert(p, x);
        proof {
            before.insert_ensures(p as int, x);
            assert(amounts(sorted@) =~= amounts(before).insert(p as int, x as int));
            to_multiset_insert(amounts(before), p as int, x as int);
            assert(amounts(values@).take(i as int + 1) =~= amounts(values@).take(i as int).push(
                x as int,
            ));
            to_multiset_build(amounts(values@).take(i as int), x as int);
            assert forall|a: int, b: int| 0 <= a < b < sorted@.len() implies amounts(sorted@)[a]
                >= amounts(sorted@)[b] by {
                if b < p {
                    assert(descending()(amounts(before)[a], amounts(before)[b]));
                } else if b == p {
                    assert(before[a] >= x);
                } else if a < p {
                    assert(descending()(amounts(before)[a], amounts(before)[b - 1]));
                } else if a == p {
                    assert(before[p as int] < x);
                    assert(descending()(amounts(before)[p as int], amounts(before)[b - 1]) || p
                        == b - 1);
                } else {
                    assert(descending()(amounts(before)[a - 1], amounts(before)[b - 1]));
                }
            }
        }
        i = i + 1;
    }
    proof {
        assert(amounts(values@).take(n as int) =~= amounts(values@));
        lemma_descending_total();
        amounts(values@).lemma_sort_by_ensures(descending());
        lemma_sorted_unique(
            amounts(sorted@),
            sorted_descending(amounts(values@)),
            descending(),
        );
    }
    sorted
}

} // verus!
