//! Vector bookkeeping utilities for the resource layers around the
//! library.

use vstd::prelude::*;

verus! {

/// Whether a sequence of indices is sorted ascending.
pub open spec fn sorted_s(s: Seq<usize>) -> bool {
    forall|i: int, j: int| 0 <= i < j < s.len() ==> s[i] <= s[j]
}

/// Whether a sequence holds no value twice.
pub open spec fn distinct_s(s: Seq<usize>) -> bool {
    forall|i: int, j: int| 0 <= i < j < s.len() ==> s[i] != s[j]
}

/// The elements of `s` from position `p` on whose positions are not listed
/// in `idx`, in their original order.
pub open spec fn remove_positions_from_s<T>(s: Seq<T>, idx: Seq<usize>, p: int) -> Seq<T>
    decreases s.len() - p,
{
    if p < 0 || p >= s.len() {
        Seq::empty()
    } else {
        let rest = remove_positions_from_s(s, idx, p + 1);
        if idx.contains(p as usize) {
            rest
        } else {
            seq![s[p]] + rest
        }
    }
}

/// The elements of `s` whose positions are not listed in `idx`: the
/// survivors of a multi-index removal, order preserved.
pub open spec fn remove_positions_s<T>(s: Seq<T>, idx: Seq<usize>) -> Seq<T> {
    remove_positions_from_s(s, idx, 0)
}

/// Two index lists holding the same values remove the same positions.
proof fn lemma_remove_positions_same_set<T>(s: Seq<T>, idx1: Seq<usize>, idx2: Seq<usize>, p: int)
    requires
        forall|x: usize| #[trigger] idx1.contains(x) == idx2.contains(x),
    ensures
        remove_positions_from_s(s, idx1, p) == remove_positions_from_s(s, idx2, p),
    decreases s.len() - p,
{
    if 0 <= p < s.len() {
        lemma_remove_positions_same_set(s, idx1, idx2, p + 1);
    }
}

/// Swapping two adjacent elements keeps the length, the values and their
/// distinctness.
proof fn lemma_swap_props(s: Seq<usize>, j: int)
    requires
        1 <= j < s.len(),
    ensures
        ({
            let s2 = s.update(j - 1, s[j]).update(j, s[j - 1]);
            &&& s2.len() == s.len()
            &&& forall|x: usize| #[trigger] s2.contains(x) == s.contains(x)
            &&& (distinct_s(s) ==> distinct_s(s2))
        }),
{
    let s2 = s.update(j - 1, s[j]).update(j, s[j - 1]);
    assert forall|x: usize| #[trigger] s2.contains(x) == s.contains(x) by {
        if s2.contains(x) {
            let i = choose|i: int| 0 <= i < s2.len() && s2[i] == x;
            if i == j - 1 {
                assert(s[j] == x);
            } else if i == j {
                assert(s[j - 1] == x);
            } else {
                assert(s[i] == x);
            }
            assert(s.contains(x));
        }
        if s.contains(x) {
            let i = choose|i: int| 0 <= i < s.len() && s[i] == x;
            if i == j - 1 {
                assert(s2[j] == x);
            } else if i == j {
                assert(s2[j - 1] == x);
            } else {
                assert(s2[i] == x);
            }
            assert(s2.contains(x));
        }
    }
    if distinct_s(s) {
        assert forall|p: int, q: int| 0 <= p < q < s2.len() implies s2[p] != s2[q] by {
            let pp: int = if p == j - 1 {
                j
            } else if p == j {
                j - 1
            } else {
                p
            };
            let qq: int = if q == j - 1 {
                j
            } else if q == j {
                j - 1
            } else {
                q
            };
            assert(s2[p] == s[pp] && s2[q] == s[qq]);
            assert(pp != qq);
        }
    }
}

/// Swaps the elements at `j - 1` and `j`.
fn swap_adjacent(v: &mut Vec<usize>, j: usize)
    requires
        1 <= j < old(v)@.len(),
    ensures
        final(v)@ == old(v)@.update(j - 1, old(v)@[j as int]).update(j as int, old(v)@[j - 1]),
{
    let a = v[j - 1];
    let b = v[j];
    v.set(j - 1, b);
    v.set(j, a);
}

/// Sorts a vector of indices ascending by adjacent exchanges: the result
/// is sorted, of the same length, holds exactly the same values, and stays
/// free of duplicates.
fn sort_indices(v: &mut Vec<usize>)
    requires
        distinct_s(old(v)@),
    ensures
        final(v)@.len() == old(v)@.len(),
        sorted_s(final(v)@),
        distinct_s(final(v)@),
        forall|x: usize| #[trigger] final(v)@.contains(x) == old(v)@.contains(x),
{
    let n = v.len();
    let mut i: usize = 0;
    while i < n
        invariant
            i <= n,
            v@.len() == n,
            distinct_s(v@),
            forall|x: usize| #[trigger] v@.contains(x) == old(v)@.contains(x),
            forall|p: int, q: int| n - i <= p < q < n ==> v@[p] <= v@[q],
            forall|p: int, q: int| 0 <= p < n - i && n - i <= q < n ==> v@[p] <= v@[q],
        decreases n - i,
    {
        let mut j: usize = 0;
        while j + 1 < n - i
            invariant
                i < n,
                j + 1 <= n - i,
                v@.len() == n,
                distinct_s(v@),
                forall|x: usize| #[trigger] v@.contains(x) == old(v)@.contains(x),
                forall|k: int| 0 <= k <= j ==> v@[k] <= v@[j as int],
                forall|p: int, q: int| n - i <= p < q < n ==> v@[p] <= v@[q],
                forall|p: int, q: int| 0 <= p < n - i && n - i <= q < n ==> v@[p] <= v@[q],
            decreases n - i - j,
        {
            if v[j] > v[j + 1] {
                proof {
                    lemma_swap_props(v@, j + 1);
                }
                swap_adjacent(v, j + 1);
            }
            j = j + 1;
        }
        i = i + 1;
    }
}

/// Whether `x` occurs in the vector.
fn contains_index(v: &Vec<usize>, x: usize) -> (r: bool)
    ensures
        r == v@.contains(x),
{
    let n = v.len();
    let mut i: usize = 0;
    while i < n
        invariant
            i <= n,
            n == v@.len(),
            forall|k: int| 0 <= k < i ==> v@[k] != x,
        decreases n - i,
    {
        if v[i] == x {
            return true;
        }
        i = i + 1;
    }
    false
}

/// Removes from `vec` the elements at the positions listed in `indices`,
/// preserving the order of the survivors, and leaves `indices` sorted
/// ascending with its values unchanged.  The positions must be distinct
/// and in bounds: a repeated or out-of-range position is a fatal caller
/// error.
pub fn vec_remove_multiple<T>(vec: &mut Vec<T>, indices: &mut Vec<usize>)
    requires
        distinct_s(old(indices)@),
        forall|i: int|
            0 <= i < old(indices)@.len() ==> (old(indices)@[i] as int) < old(vec)@.len(),
    ensures
        final(indices)@.len() == old(indices)@.len(),
        sorted_s(final(indices)@),
        forall|x: usize| #[trigger] final(indices)@.contains(x) == old(indices)@.contains(x),
        final(vec)@ == remove_positions_s(old(vec)@, old(indices)@),
{
    sort_indices(indices);
    let ghost orig = vec@;
    let n = vec.len();
    let mut p = n;
    while p > 0
        invariant
            p <= n,
            n == orig.len(),
            orig.len() <= usize::MAX,
            vec@ == orig.take(p as int) + remove_positions_from_s(orig, indices@, p as int),
            forall|x: usize| #[trigger] indices@.contains(x) == old(indices)@.contains(x),
            indices@.len() == old(indices)@.len(),
            sorted_s(indices@),
        decreases p,
    {
        p = p - 1;
        let ghost pre = vec@;
        let hit = contains_index(indices, p);
        if hit {
            proof {
                assert(pre.len() == p + 1 + remove_positions_from_s(
                    orig,
                    indices@,
                    p + 1,
                ).len());
            }
            vec.remove(p);
            proof {
                assert(vec@ =~= orig.take(p as int) + remove_positions_from_s(
                    orig,
                    indices@,
                    p as int,
                ));
            }
        } else {
            proof {
                assert(vec@ =~= orig.take(p as int) + remove_positions_from_s(
                    orig,
                    indices@,
                    p as int,
                ));
            }
        }
    }
    proof {
        assert(vec@ =~= remove_positions_from_s(orig, indices@, 0));
        lemma_remove_positions_same_set(orig, indices@, old(indices)@, 0);
    }
}

} // verus!
