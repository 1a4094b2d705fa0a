//! Free rule functions: move legality and the random board assignment.

use vstd::prelude::*;
use vstd::seq_lib::group_to_multiset_ensures;

verus! {

/// Swapping two entries of a sequence leaves its multiset untouched.
pub proof fn lemma_swap_to_multiset<A>(s: Seq<A>, i: int, j: int)
    requires
        0 <= i < s.len(),
        0 <= j < s.len(),
    ensures
        s.update(i, s[j]).update(j, s[i]).to_multiset() == s.to_multiset(),
{
    broadcast use group_to_multiset_ensures;

    let s1 = s.update(i, s[j]);
    let s2 = s1.update(j, s[i]);
    assert(s1[j] == s[j]);
    assert(s1.to_multiset() == s.to_multiset().insert(s[j]).remove(s[i]));
    assert(s2.to_multiset() == s1.to_multiset().insert(s[i]).remove(s[j]));
    assert(s2.to_multiset() =~= s.to_multiset());
}

/// The direction pair of the given rotation that asks for a ship bigger
/// than size 1. Rotations beyond 3 fall to the last row of the table, as
/// the executable match does.
pub open spec fn needs_over_one(rotate: u8, direction: u8) -> bool {
    if rotate == 0 {
        direction == 1 || direction == 7
    } else if rotate == 1 {
        direction == 7 || direction == 9
    } else if rotate == 2 {
        direction == 3 || direction == 9
    } else {
        direction == 1 || direction == 3
    }
}

/// The single direction of the given rotation that asks for a ship of a
/// size other than 2.
pub open spec fn needs_not_two(rotate: u8, direction: u8) -> bool {
    if rotate == 0 {
        direction == 4
    } else if rotate == 1 {
        direction == 8
    } else if rotate == 2 {
        direction == 6
    } else {
        direction == 2
    }
}

/// The move-legality table: for each rotation, two directions are open to
/// ships bigger than size 1, one direction is open to ships of a size other
/// than 2, and every other direction is closed.
pub open spec fn move_legal(rotate: u8, value: u8, direction: u8) -> bool {
    if needs_over_one(rotate, direction) {
        value > 1
    } else if needs_not_two(rotate, direction) {
        value != 2
    } else {
        false
    }
}

/// Whether a ship of size `value` standing at rotation `rotate` may move in
/// compass direction `direction`.
pub fn can_move(rotate: u8, value: u8, direction: u8) -> (r: bool)
    ensures
        r == move_legal(rotate, value, direction),
{
    match rotate {
        0 => {
            match direction {
                1 | 7 => value > 1,
                4 => value != 2,
                _ => false,
            }
        },
        1 => {
            match direction {
                7 | 9 => value > 1,
                8 => value != 2,
                _ => false,
            }
        },
        2 => {
            match direction {
                3 | 9 => value > 1,
                6 => value != 2,
                _ => false,
            }
        },
        _ => {
            match direction {
                1 | 3 => value > 1,
                2 => value != 2,
                _ => false,
            }
        },
    }
}

/// Relies on rand::random: draws a value of `T` from the thread-local
/// generator; nothing is promised of the outcome.
pub assume_specification<T>[ rand::random::<T> ]() -> (r: T)
    where
        rand::distributions::Standard: rand::distributions::Distribution<T>,
;

/// The cell indices in board order.
pub open spec fn identity_indexes() -> Seq<usize> {
    Seq::new(12, |k: int| k as usize)
}

/// The Fisher-Yates step that draw number `i` dictates: position `i` is
/// swapped with a position chosen among the `s.len() - i` not yet placed.
pub open spec fn fisher_yates_swap<A>(s: Seq<A>, draw: usize, i: int) -> Seq<A> {
    let a = i + (draw as int) % (s.len() - i);
    s.update(i, s[a]).update(a, s[i])
}

/// The first `n` Fisher-Yates steps that `draws` dictate, applied to `s`.
pub open spec fn fisher_yates_steps<A>(s: Seq<A>, draws: Seq<usize>, n: int) -> Seq<A>
    decreases n,
{
    if n <= 0 {
        s
    } else {
        fisher_yates_swap(fisher_yates_steps(s, draws, n - 1), draws[n - 1], n - 1)
    }
}

/// The permutation of the 12 cell indices that the 12 draws dictate.
pub open spec fn fisher_yates(draws: Seq<usize>) -> Seq<usize> {
    fisher_yates_steps(identity_indexes(), draws, 12)
}

/// Turn 12 raw draws into the permutation of the cell indices they
/// dictate, swap by swap: exactly [`fisher_yates`] of the draws, and so
/// always the indices 0..11, each once, in some order.
pub fn shuffle_indexes(draws: &Vec<usize>) -> (r: Vec<usize>)
    requires
        draws@.len() == 12,
    ensures
        r@ == fisher_yates(draws@),
        r@.len() == 12,
        forall|k: int| 0 <= k < 12 ==> #[trigger] r@[k] < 12,
        forall|k1: int, k2: int| 0 <= k1 < k2 < 12 ==> r@[k1] != r@[k2],
        r@.to_multiset() == identity_indexes().to_multiset(),
{
    let mut indexes: Vec<usize> = Vec::new();
    let mut i: usize = 0;
    while i < 12
        invariant
            i <= 12,
            indexes@.len() == i,
            forall|k: int| 0 <= k < i ==> #[trigger] indexes@[k] == k,
        decreases 12 - i,
    {
        indexes.push(i);
        i = i + 1;
    }
    proof {
        assert(indexes@ =~= identity_indexes());
    }

    i = 0;
    while i < 12
        invariant
            i <= 12,
            draws@.len() == 12,
            indexes@.len() == 12,
            indexes@ == fisher_yates_steps(identity_indexes(), draws@, i as int),
            forall|k: int| 0 <= k < 12 ==> #[trigger] indexes@[k] < 12,
            forall|k1: int, k2: int| 0 <= k1 < k2 < 12 ==> indexes@[k1] != indexes@[k2],
            indexes@.to_multiset() == identity_indexes().to_multiset(),
        decreases 12 - i,
    {
        // choose among the 12 - i entries not yet placed, then move past
        // the i entries that are already set up
        let a: usize = draws[i] % (12 - i) + i;
        let ghost pre = indexes@;
        let buf = indexes[i];
        indexes[i] = indexes[a];
        indexes[a] = buf;
        proof {
            lemma_swap_to_multiset(pre, i as int, a as int);
            assert(indexes@ == fisher_yates_swap(pre, draws@[i as int], i as int));
        }
        i = i + 1;
    }
    indexes
}

/// A uniformly random permutation of the 12 cell indices: the Fisher-Yates
/// shuffle of 12 draws from the process-wide generator. Exactly the
/// indices 0..11, each once, in some order; with uniform independent
/// draws, every order is equally likely.
pub fn random_fields_indexes() -> (r: Vec<usize>)
    ensures
        r@.len() == 12,
        forall|k: int| 0 <= k < 12 ==> #[trigger] r@[k] < 12,
        forall|k1: int, k2: int| 0 <= k1 < k2 < 12 ==> r@[k1] != r@[k2],
        r@.to_multiset() == identity_indexes().to_multiset(),
{
    let mut draws: Vec<usize> = Vec::new();
    let mut i: usize = 0;
    while i < 12
        invariant
            i <= 12,
            draws@.len() == i,
        decreases 12 - i,
    {
        draws.push(rand::random::<usize>());
        i = i + 1;
    }
    shuffle_indexes(&draws)
}

} // verus!
