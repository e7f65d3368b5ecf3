//! A small linear congruential generator and the sampling built on it.

use core::ops::Range;
use vstd::prelude::*;

verus! {

/// A linear congruential generator over 32 bits of state.
///
/// Fast and tiny; not suitable where unpredictability matters.
#[derive(Clone, Copy, Debug, PartialEq, Eq, Structural)]
pub struct SimpleRng {
    pub state: u32,
}

/// The state that follows `state`.
pub open spec fn lcg_next(state: u32) -> u32 {
    state.wrapping_mul(1664525).wrapping_add(1013904223)
}

/// Draws from a half-open range.
pub trait RangeSampler<T>: Sized {
    /// The ranges that can be drawn from: those that are not empty.
    spec fn accepts(range: Range<T>) -> bool;

    /// The value drawn from `range`, and the generator afterwards.
    spec fn sampled(&self, range: Range<T>) -> (T, Self);

    fn gen_range(&mut self, range: Range<T>) -> (value: T)
        requires
            Self::accepts(range),
        ensures
            (value, *final(self)) == old(self).sampled(range),
    ;
}

impl SimpleRng {
    pub fn new(seed: u32) -> (rng: Self)
        ensures
            rng.state == seed,
    {
        SimpleRng { state: seed }
    }

    /// Advances the state and returns it.
    pub fn gen(&mut self) -> (value: u32)
        ensures
            final(self).state == lcg_next(old(self).state),
            value == final(self).state,
    {
        self.state = self.state.wrapping_mul(1664525).wrapping_add(1013904223);
        self.state
    }

    /// Two draws glued into one machine word, the first in the upper half.
    pub open spec fn wide(self) -> usize {
        (((lcg_next(self.state) as u64) << 32) | (lcg_next(lcg_next(self.state)) as u64)) as usize
    }

    pub fn gen_usize(&mut self) -> (value: usize)
        ensures
            final(self).state == lcg_next(lcg_next(old(self).state)),
            value == old(self).wide(),
    {
        let high: u64 = self.gen() as u64;
        let low: u64 = self.gen() as u64;
        #[verifier::truncate]
        (((high << 32) | low) as usize)
    }
}

impl RangeSampler<u32> for SimpleRng {
    open spec fn accepts(range: Range<u32>) -> bool {
        range.start < range.end
    }

    open spec fn sampled(&self, range: Range<u32>) -> (u32, Self) {
        (
            (range.start + lcg_next(self.state) % ((range.end - range.start) as u32)) as u32,
            SimpleRng { state: lcg_next(self.state) },
        )
    }

    fn gen_range(&mut self, range: Range<u32>) -> (value: u32)
        ensures
            range.start <= value < range.end,
    {
        let range_size: u32 = range.end - range.start;
        range.start + self.gen() % range_size
    }
}

impl RangeSampler<usize> for SimpleRng {
    open spec fn accepts(range: Range<usize>) -> bool {
        range.start < range.end
    }

    open spec fn sampled(&self, range: Range<usize>) -> (usize, Self) {
        (
            (range.start + self.wide() % ((range.end - range.start) as usize)) as usize,
            SimpleRng { state: lcg_next(lcg_next(self.state)) },
        )
    }

    fn gen_range(&mut self, range: Range<usize>) -> (value: usize)
        ensures
            range.start <= value < range.end,
    {
        let range_size: usize = range.end - range.start;
        range.start + self.gen_usize() % range_size
    }
}

impl RangeSampler<i32> for SimpleRng {
    open spec fn accepts(range: Range<i32>) -> bool {
        range.start < range.end && range.end - range.start <= i32::MAX
    }

    open spec fn sampled(&self, range: Range<i32>) -> (i32, Self) {
        (
            (range.start + lcg_next(self.state) % ((range.end - range.start) as u32)) as i32,
            SimpleRng { state: lcg_next(self.state) },
        )
    }

    fn gen_range(&mut self, range: Range<i32>) -> (value: i32)
        ensures
            range.start <= value < range.end,
    {
        let range_size: i32 = range.end - range.start;
        let offset: u32 = self.gen() % (range_size as u32);
        range.start + (offset as i32)
    }
}

/// Exchanges two items of a vector through `<[T]>::swap`, which panics on an
/// index past the end; both indices are therefore required to be in range.
#[verifier::external_body]
fn swap_items<T>(vec: &mut Vec<T>, i: usize, j: usize)
    requires
        i < old(vec)@.len(),
        j < old(vec)@.len(),
    ensures
        final(vec)@ == old(vec)@.update(i as int, old(vec)@[j as int]).update(
            j as int,
            old(vec)@[i as int],
        ),
{
    vec.swap(i, j);
}

/// The items after the Fisher-Yates pass has handled positions `from..`.
pub open spec fn shuffled<T>(items: Seq<T>, rng: SimpleRng, from: nat) -> Seq<T>
    decreases items.len() - from,
{
    if from >= items.len() {
        items
    } else {
        let (j, next) = rng.sampled(from as usize..items.len() as usize);
        shuffled(
            items.update(from as int, items[j as int]).update(j as int, items[from as int]),
            next,
            from + 1,
        )
    }
}

/// The generator after that pass.
pub open spec fn shuffled_rng(len: nat, rng: SimpleRng, from: nat) -> SimpleRng
    decreases len - from,
{
    if from >= len {
        rng
    } else {
        shuffled_rng(len, SimpleRng { state: lcg_next(lcg_next(rng.state)) }, from + 1)
    }
}

/// Exchanging two items keeps the collection of items.
pub proof fn lemma_swap_keeps_items<T>(items: Seq<T>, i: int, j: int)
    requires
        0 <= i < items.len(),
        0 <= j < items.len(),
    ensures
        items.update(i, items[j]).update(j, items[i]).to_multiset() =~= items.to_multiset(),
{
    broadcast use vstd::seq_lib::group_to_multiset_ensures;

    let first = items.update(i, items[j]);
    vstd::seq_lib::to_multiset_update(items, i, items[j]);
    vstd::seq_lib::to_multiset_update(first, j, items[i]);
    assert(first[j] == items[j]);
    assert(items.to_multiset().count(items[i]) > 0) by {
        assert(items.contains(items[i]));
    }
    assert(items.to_multiset().count(items[j]) > 0) by {
        assert(items.contains(items[j]));
    }
}

/// Shuffling moves items around and neither adds nor loses one.
pub proof fn lemma_shuffled_is_permutation<T>(items: Seq<T>, rng: SimpleRng, from: nat)
    requires
        items.len() <= usize::MAX,
    ensures
        shuffled(items, rng, from).len() == items.len(),
        shuffled(items, rng, from).to_multiset() =~= items.to_multiset(),
    decreases items.len() - from,
{
    if from < items.len() {
        let (drawn, next) = rng.sampled(from as usize..items.len() as usize);
        let j = drawn as int;
        assert(from <= j < items.len()) by {
            let size = (items.len() - from) as usize;
            assert(0 <= rng.wide() % size < size);
        }
        let swapped = items.update(from as int, items[j]).update(j, items[from as int]);
        lemma_swap_keeps_items(items, from as int, j);
        lemma_shuffled_is_permutation(swapped, next, from + 1);
    }
}

/// Rearranges `vec` in place, drawing one index per position.
pub fn shuffle<T>(vec: &mut Vec<T>, rng: &mut SimpleRng)
    ensures
        final(vec)@ == shuffled(old(vec)@, *old(rng), 0),
        *final(rng) == shuffled_rng(old(vec)@.len(), *old(rng), 0),
        final(vec)@.len() == old(vec)@.len(),
        final(vec)@.to_multiset() =~= old(vec)@.to_multiset(),
{
    let len = vec.len();
    let mut i: usize = 0;
    while i < len
        invariant
            i <= len,
            vec@.len() == len,
            shuffled(vec@, *rng, i as nat) == shuffled(old(vec)@, *old(rng), 0),
            shuffled_rng(len as nat, *rng, i as nat) == shuffled_rng(
                old(vec)@.len(),
                *old(rng),
                0,
            ),
        decreases len - i,
    {
        let j = rng.gen_range(i..len);
        swap_items(vec, i, j);
        i += 1;
    }
    proof {
        lemma_shuffled_is_permutation(old(vec)@, *old(rng), 0);
    }
}

} // verus!
