//! The pairs of bodies, in the one order in which a step visits them.

use vstd::prelude::*;

verus! {

/// Number of bodies: the Sun and four planets.
pub const BODIES_COUNT: usize = 5;

/// Number of unordered pairs of distinct bodies.
pub const INTERACTIONS: usize = BODIES_COUNT * (BODIES_COUNT - 1) / 2;

/// The unordered pairs of bodies, lesser index first, in canonical order.
pub open spec fn canonical_pairs() -> Seq<(int, int)> {
    seq![(0, 1), (0, 2), (0, 3), (0, 4), (1, 2), (1, 3), (1, 4), (2, 3), (2, 4), (3, 4)]
}

/// The lesser body of the pair at place `k`.
pub open spec fn pair_first(k: int) -> int {
    canonical_pairs()[k].0
}

/// The greater body of the pair at place `k`.
pub open spec fn pair_second(k: int) -> int {
    canonical_pairs()[k].1
}

/// Whether `(i, j)` names an unordered pair of distinct bodies.
pub open spec fn is_pair(i: int, j: int) -> bool {
    0 <= i < j < BODIES_COUNT
}

/// The place of the pair `(i, j)` in the canonical order: the pairs whose
/// lesser body is below `i` come first, then those of `i` by greater body.
pub open spec fn pair_index(i: int, j: int) -> int {
    i * (2 * BODIES_COUNT - i - 1) / 2 + (j - i - 1)
}

/// Where the pairs of each lesser body begin.
proof fn lemma_row_starts(i: int)
    requires
        0 <= i < BODIES_COUNT,
    ensures
        pair_index(i, i + 1) == if i == 0 {
            0int
        } else if i == 1 {
            4
        } else if i == 2 {
            7
        } else if i == 3 {
            9
        } else {
            10
        },
{
    assert(i * (2 * 5 - i - 1) == if i == 0 {
        0int
    } else if i == 1 {
        8
    } else if i == 2 {
        14
    } else if i == 3 {
        18
    } else {
        20
    }) by (nonlinear_arith)
        requires
            0 <= i < 5,
    ;
}

/// Every place holds a pair, and that pair's index is the place.
pub proof fn lemma_place_holds_pair(k: int)
    requires
        0 <= k < INTERACTIONS,
    ensures
        is_pair(pair_first(k), pair_second(k)),
        pair_index(pair_first(k), pair_second(k)) == k,
{
    lemma_row_starts(pair_first(k));
}

/// Every pair stands at its index.
pub proof fn lemma_pair_stands_at_index(i: int, j: int)
    requires
        is_pair(i, j),
    ensures
        0 <= pair_index(i, j) < INTERACTIONS,
        pair_first(pair_index(i, j)) == i,
        pair_second(pair_index(i, j)) == j,
{
    lemma_row_starts(i);
}

/// The canonical order lists every pair exactly once: the pair `(i, j)` is
/// found at place `k` if and only if `k` is its index.
pub proof fn lemma_each_pair_once(i: int, j: int, k: int)
    requires
        is_pair(i, j),
        0 <= k < INTERACTIONS,
    ensures
        (pair_first(k) == i && pair_second(k) == j) <==> k == pair_index(i, j),
{
    lemma_pair_stands_at_index(i, j);
    lemma_place_holds_pair(k);
}

/// The canonical order is the lexicographic one.
pub proof fn lemma_pairs_ascend(k: int, l: int)
    requires
        0 <= k < l < INTERACTIONS,
    ensures
        pair_first(k) < pair_first(l) || (pair_first(k) == pair_first(l) && pair_second(k)
            < pair_second(l)),
{
}

/// Lists the pairs in canonical order.
pub fn pairs() -> (table: [(usize, usize); INTERACTIONS])
    ensures
        forall|k: int|
            0 <= k < INTERACTIONS ==> (#[trigger] table[k]).0 == pair_first(k) && table[k].1
                == pair_second(k),
{
    let mut table: [(usize, usize); INTERACTIONS] = [(0usize, 0usize); INTERACTIONS];
    let mut k: usize = 0;
    let mut i: usize = 0;
    while i < BODIES_COUNT - 1
        invariant
            i <= BODIES_COUNT - 1,
            k <= INTERACTIONS,
            k == pair_index(i as int, i + 1),
            forall|t: int|
                0 <= t < k ==> (#[trigger] table[t]).0 == pair_first(t) && table[t].1
                    == pair_second(t),
        decreases BODIES_COUNT - 1 - i,
    {
        let mut j: usize = i + 1;
        while j < BODIES_COUNT
            invariant
                i < BODIES_COUNT - 1,
                i < j <= BODIES_COUNT,
                k <= INTERACTIONS,
                k == pair_index(i as int, j as int),
                forall|t: int|
                    0 <= t < k ==> (#[trigger] table[t]).0 == pair_first(t) && table[t].1
                        == pair_second(t),
            decreases BODIES_COUNT - j,
        {
            proof {
                lemma_pair_stands_at_index(i as int, j as int);
            }
            table[k] = (i, j);
            k += 1;
            j += 1;
        }
        proof {
            lemma_row_starts(i as int);
            lemma_row_starts(i + 1);
        }
        i += 1;
    }
    proof {
        lemma_row_starts(i as int);
    }
    table
}

} // verus!
