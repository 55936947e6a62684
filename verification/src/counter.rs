//! The counter store: the running total of readings accepted so far, and the
//! laws that make the total independent of the order in which batches arrive.

use vstd::prelude::*;

verus! {

/// The total after adding a batch of `n` readings to `total`: the exact sum
/// while it fits in a `usize`, and `usize::MAX` from there on.
pub open spec fn bounded_sum(total: nat, n: nat) -> nat {
    if total + n <= usize::MAX {
        total + n
    } else {
        usize::MAX as nat
    }
}

/// The number of readings in all the batches of `sizes` together.
pub open spec fn batch_sum(sizes: Seq<nat>) -> nat
    decreases sizes.len(),
{
    if sizes.len() == 0 {
        0
    } else {
        batch_sum(sizes.drop_last()) + sizes.last()
    }
}

/// The total of a store that started at `start` and then accepted batches of
/// the given sizes, one after another.
pub open spec fn total_after(start: nat, sizes: Seq<nat>) -> nat
    decreases sizes.len(),
{
    if sizes.len() == 0 {
        start
    } else {
        bounded_sum(total_after(start, sizes.drop_last()), sizes.last())
    }
}

/// Running total of the readings accepted since the store was created.
///
/// The total never decreases. Additions saturate at `usize::MAX`; they never
/// wrap around. A caller that shares one store between concurrent requests
/// serialises them by handing out the exclusive borrow that `increment_by`
/// takes, so every addition is applied whole.
pub struct CounterStore {
    total_processed: usize,
}

impl View for CounterStore {
    type V = nat;

    closed spec fn view(&self) -> nat {
        self.total_processed as nat
    }
}

impl CounterStore {
    /// A store that has accepted nothing yet.
    pub fn new() -> (store: Self)
        ensures
            store@ == 0,
    {
        CounterStore { total_processed: 0 }
    }

    /// The current total.
    pub fn read(&self) -> (total: usize)
        ensures
            total == self@,
    {
        self.total_processed
    }

    /// Adds `n` to the total and returns the new total.
    pub fn increment_by(&mut self, n: usize) -> (new_total: usize)
        ensures
            final(self)@ == bounded_sum(old(self)@, n as nat),
            new_total == final(self)@,
    {
        self.total_processed = self.total_processed.saturating_add(n);
        self.total_processed
    }
}

proof fn lemma_batch_sum_remove(sizes: Seq<nat>, i: int)
    requires
        0 <= i < sizes.len(),
    ensures
        batch_sum(sizes) == batch_sum(sizes.remove(i)) + sizes[i],
    decreases sizes.len(),
{
    if i == sizes.len() - 1 {
        assert(sizes.remove(i) =~= sizes.drop_last());
    } else {
        lemma_batch_sum_remove(sizes.drop_last(), i);
        assert(sizes.remove(i).drop_last() =~= sizes.drop_last().remove(i));
    }
}

proof fn lemma_batch_sum_rearranged(a: Seq<nat>, b: Seq<nat>)
    requires
        a.to_multiset() == b.to_multiset(),
    ensures
        batch_sum(a) == batch_sum(b),
    decreases a.len(),
{
    broadcast use vstd::seq_lib::group_to_multiset_ensures;

    assert(a.len() == a.to_multiset().len());
    assert(b.len() == b.to_multiset().len());
    if a.len() > 0 {
        let x = a.last();
        assert(a =~= a.drop_last().push(x));
        assert(b.to_multiset().count(x) > 0);
        let i = choose|i: int| 0 <= i < b.len() && b[i] == x;
        assert(b.remove(i).to_multiset() =~= a.drop_last().to_multiset());
        lemma_batch_sum_rearranged(a.drop_last(), b.remove(i));
        lemma_batch_sum_remove(b, i);
    }
}

/// However many batches a store accepts, its total is the starting total plus
/// the number of readings in all of them, capped at `usize::MAX`.
pub proof fn total_after_is_sum_of_batches(start: nat, sizes: Seq<nat>)
    requires
        start <= usize::MAX,
    ensures
        total_after(start, sizes) == bounded_sum(start, batch_sum(sizes)),
        start + batch_sum(sizes) <= usize::MAX ==> total_after(start, sizes) == start + batch_sum(
            sizes,
        ),
        start <= total_after(start, sizes) <= usize::MAX,
    decreases sizes.len(),
{
    if sizes.len() > 0 {
        total_after_is_sum_of_batches(start, sizes.drop_last());
    }
}

/// The order in which batches reach the store does not matter: two runs that
/// accept the same batches, in whatever order, end with the same total.
pub proof fn total_is_independent_of_order(start: nat, first: Seq<nat>, second: Seq<nat>)
    requires
        start <= usize::MAX,
        first.to_multiset() == second.to_multiset(),
    ensures
        total_after(start, first) == total_after(start, second),
{
    total_after_is_sum_of_batches(start, first);
    total_after_is_sum_of_batches(start, second);
    lemma_batch_sum_rearranged(first, second);
}

/// Nothing is deduplicated: a batch of `n` readings that is submitted twice is
/// counted twice.
pub proof fn resubmission_counts_twice(start: nat, n: nat)
    requires
        start <= usize::MAX,
    ensures
        total_after(start, seq![n, n]) == bounded_sum(start, 2 * n),
        start + 2 * n <= usize::MAX ==> total_after(start, seq![n, n]) == total_after(
            start,
            seq![n],
        ) + n,
{
    let twice = seq![n, n];
    assert(twice.drop_last() =~= seq![n]);
    assert(seq![n].drop_last() =~= Seq::<nat>::empty());
    reveal_with_fuel(total_after, 3);
}

} // verus!
