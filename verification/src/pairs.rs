//! The cache of pairwise distances that one evaluation of the force field
//! fills.
//!
//! The distance between two bodies is the same in both directions, so the
//! cache keeps one slot per unordered pair, in a flat buffer: the pair of the
//! bodies `low < high` has the slot `high * (high - 1) / 2 + low`. A distance
//! that is stored for `(i, j)` is found again under `(j, i)`.

use vstd::prelude::*;

verus! {

/// The number of unordered pairs of distinct bodies among `bodies`.
pub open spec fn pair_count(bodies: int) -> int {
    bodies * (bodies - 1) / 2
}

/// The slot of the unordered pair of `first` and `second`.
pub open spec fn pair_slot(first: int, second: int) -> int {
    if first < second {
        pair_count(second) + first
    } else {
        pair_count(first) + second
    }
}

/// One more body pairs up with each of the bodies before it.
pub proof fn lemma_pair_count_step(bodies: int)
    requires
        0 <= bodies,
    ensures
        pair_count(bodies + 1) == pair_count(bodies) + bodies,
        0 <= pair_count(bodies),
{
    assert((bodies + 1) * bodies == bodies * (bodies - 1) + 2 * bodies) by (nonlinear_arith);
    assert(0 <= bodies * (bodies - 1)) by (nonlinear_arith)
        requires
            0 <= bodies,
    ;
}

/// More bodies form at least as many pairs.
pub proof fn lemma_pair_count_grows(fewer: int, more: int)
    requires
        0 <= fewer <= more,
    ensures
        pair_count(fewer) <= pair_count(more),
    decreases more - fewer,
{
    if fewer < more {
        lemma_pair_count_grows(fewer, more - 1);
        lemma_pair_count_step(more - 1);
    }
}

/// The pairs among `bodies` bodies fill the slots below `pair_count(bodies)`.
pub proof fn lemma_pair_slot_in_range(first: int, second: int, bodies: int)
    requires
        0 <= first < bodies,
        0 <= second < bodies,
        first != second,
    ensures
        0 <= pair_slot(first, second) < pair_count(bodies),
{
    let high = if first < second {
        second
    } else {
        first
    };
    lemma_pair_count_step(high);
    lemma_pair_count_grows(high + 1, bodies);
}

/// Two pairs share a slot only if they are the same unordered pair.
pub proof fn lemma_pair_slot_injective(first: int, second: int, other_first: int, other_second: int)
    requires
        0 <= first,
        0 <= second,
        first != second,
        0 <= other_first,
        0 <= other_second,
        other_first != other_second,
        pair_slot(first, second) == pair_slot(other_first, other_second),
    ensures
        (first == other_first && second == other_second) || (first == other_second && second
            == other_first),
{
    let high = if first < second {
        second
    } else {
        first
    };
    let other_high = if other_first < other_second {
        other_second
    } else {
        other_first
    };
    lemma_pair_count_step(high);
    lemma_pair_count_step(other_high);
    if high < other_high {
        lemma_pair_count_grows(high + 1, other_high);
    } else if other_high < high {
        lemma_pair_count_grows(other_high + 1, high);
    }
}

/// The distances computed so far in one evaluation, one per unordered pair
/// of distinct bodies.
#[derive(Debug)]
pub struct PairCache<T> {
    slots: Vec<Option<T>>,
    bodies: usize,
}

impl<T> View for PairCache<T> {
    type V = Map<(int, int), T>;

    /// The distance of every ordered pair whose distance has been stored, in
    /// either direction.
    closed spec fn view(&self) -> Map<(int, int), T> {
        Map::new(
            |pair: (int, int)|
                0 <= pair.0 < self.bodies && 0 <= pair.1 < self.bodies && pair.0 != pair.1
                    && self.slots@[pair_slot(pair.0, pair.1)] is Some,
            |pair: (int, int)| self.slots@[pair_slot(pair.0, pair.1)]->Some_0,
        )
    }
}

/// The slot of the pair of `first` and `second` in the buffer.
fn slot_of(first: usize, second: usize) -> (slot: usize)
    requires
        first != second,
        pair_slot(first as int, second as int) <= usize::MAX,
    ensures
        slot == pair_slot(first as int, second as int),
{
    let (low, high) = if first < second {
        (first, second)
    } else {
        (second, first)
    };
    proof {
        lemma_pair_count_step(high as int);
        assert(high as int * (high - 1) <= 0xffff_ffff_ffff_ffff * 0xffff_ffff_ffff_ffff)
            by (nonlinear_arith)
            requires
                1 <= high <= 0xffff_ffff_ffff_ffff,
        ;
    }
    let below: u128 = (high as u128) * ((high - 1) as u128) / 2;
    below as usize + low
}

impl<T> PairCache<T> {
    /// The number of bodies.
    pub closed spec fn spec_bodies(&self) -> usize {
        self.bodies
    }

    /// The buffer has one slot per unordered pair.
    pub closed spec fn wf(&self) -> bool {
        self.slots@.len() == pair_count(self.bodies as int)
    }

    /// An empty cache for `bodies` bodies, unless their pairs are more than
    /// a buffer can hold.
    pub fn new(bodies: usize) -> (outcome: Option<Self>)
        ensures
            outcome is Some <==> pair_count(bodies as int) <= usize::MAX,
            outcome matches Some(cache) ==> cache.wf() && cache.bodies() == bodies && cache@
                == Map::<(int, int), T>::empty(),
    {
        if bodies == 0 {
            let cache = PairCache { slots: Vec::new(), bodies };
            assert(cache@ =~= Map::<(int, int), T>::empty());
            return Some(cache);
        }
        proof {
            lemma_pair_count_step(bodies as int);
            assert(bodies as int * (bodies - 1) <= 0xffff_ffff_ffff_ffff * 0xffff_ffff_ffff_ffff)
                by (nonlinear_arith)
                requires
                    1 <= bodies <= 0xffff_ffff_ffff_ffff,
            ;
        }
        let wanted: u128 = (bodies as u128) * ((bodies - 1) as u128) / 2;
        if wanted > usize::MAX as u128 {
            return None;
        }
        let count = wanted as usize;
        let mut slots: Vec<Option<T>> = Vec::new();
        let mut filled: usize = 0;
        while filled < count
            invariant
                filled <= count,
                slots@.len() == filled,
                forall|k: int| 0 <= k < filled ==> slots@[k] is None,
            decreases count - filled,
        {
            slots.push(None);
            filled += 1;
        }
        let cache = PairCache { slots, bodies };
        proof {
            assert forall|pair: (int, int)| !cache@.contains_key(pair) by {
                if 0 <= pair.0 < bodies && 0 <= pair.1 < bodies && pair.0 != pair.1 {
                    lemma_pair_slot_in_range(pair.0, pair.1, bodies as int);
                }
            }
            assert(cache@ =~= Map::<(int, int), T>::empty());
        }
        Some(cache)
    }

    /// The number of bodies.
    #[verifier::when_used_as_spec(spec_bodies)]
    pub fn bodies(&self) -> (bodies: usize)
        ensures
            bodies == self.bodies(),
    {
        self.bodies
    }

    /// Only pairs of distinct bodies have a distance, and each has the same
    /// one in both directions.
    pub proof fn lemma_symmetric(&self, first: int, second: int)
        requires
            self@.contains_key((first, second)),
        ensures
            first != second,
            0 <= first < self.bodies(),
            0 <= second < self.bodies(),
            self@.contains_key((second, first)),
            self@[(second, first)] == self@[(first, second)],
    {
    }

    /// Stores the distance between two distinct bodies, for both directions.
    /// No other pair changes.
    pub fn store(&mut self, first: usize, second: usize, distance: T)
        requires
            old(self).wf(),
            first < old(self).bodies(),
            second < old(self).bodies(),
            first != second,
        ensures
            final(self).wf(),
            final(self).bodies() == old(self).bodies(),
            final(self)@ == old(self)@.insert((first as int, second as int), distance).insert(
                (second as int, first as int),
                distance,
            ),
    {
        proof {
            lemma_pair_slot_in_range(first as int, second as int, self.bodies as int);
            assert(self.slots@.len() == self.slots.len());
        }
        let slot = slot_of(first, second);
        self.slots.set(slot, Some(distance));
        proof {
            let after = self@;
            let wanted = old(self)@.insert((first as int, second as int), distance).insert(
                (second as int, first as int),
                distance,
            );
            assert forall|pair: (int, int)|
                #![trigger after.dom().contains(pair)]
                #![trigger wanted.dom().contains(pair)]
                after.dom().contains(pair) == wanted.dom().contains(pair) && (after.dom().contains(
                    pair,
                ) ==> after[pair] == wanted[pair]) by {
                if 0 <= pair.0 < self.bodies && 0 <= pair.1 < self.bodies && pair.0 != pair.1 {
                    lemma_pair_slot_in_range(pair.0, pair.1, self.bodies as int);
                    if pair_slot(pair.0, pair.1) == slot {
                        lemma_pair_slot_injective(pair.0, pair.1, first as int, second as int);
                    }
                }
            }
            assert(after =~= wanted);
        }
    }
}

impl<T: Copy> PairCache<T> {
    /// The distance between two bodies, if it has been stored in either
    /// direction. A body has no distance to itself, and a body that is not
    /// there has none at all.
    pub fn get(&self, first: usize, second: usize) -> (distance: Option<T>)
        requires
            self.wf(),
        ensures
            distance == if self@.contains_key((first as int, second as int)) {
                Some(self@[(first as int, second as int)])
            } else {
                None
            },
    {
        if first >= self.bodies || second >= self.bodies || first == second {
            return None;
        }
        proof {
            lemma_pair_slot_in_range(first as int, second as int, self.bodies as int);
            assert(self.slots@.len() == self.slots.len());
        }
        self.slots[slot_of(first, second)]
    }
}

} // verus!
