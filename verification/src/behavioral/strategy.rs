//! Strategy: a family of interchangeable sorting algorithms behind one
//! interface, each proved to sort and to keep the contents.

use vstd::prelude::*;
use vstd::seq_lib::group_to_multiset_ensures;
use vstd::seq_lib::lemma_multiset_commutative;
use vstd::multiset::group_multiset_axioms;
use vstd::pervasive::VecAdditionalExecFns;

verus! {

/// The elements of `v` with positions in `[lo, hi)` are in ascending order.
pub open spec fn sorted_between(v: Seq<i32>, lo: int, hi: int) -> bool {
    forall|i: int, j: int| lo <= i < j < hi ==> v[i] <= v[j]
}

/// The whole of `v` is in ascending order.
pub open spec fn sorted(v: Seq<i32>) -> bool {
    sorted_between(v, 0, v.len() as int)
}

/// Swapping two positions keeps the contents of a sequence.
proof fn lemma_swap_preserves_multiset(s: Seq<i32>, a: int, b: int)
    requires
        0 <= a < s.len(),
        0 <= b < s.len(),
    ensures
        s.update(a, s[b]).update(b, s[a]).to_multiset() == s.to_multiset(),
{
    broadcast use group_to_multiset_ensures;
    broadcast use group_multiset_axioms;

    if a == b {
        assert(s.update(a, s[b]).update(b, s[a]) =~= s);
    } else {
        let s1 = s.update(a, s[b]);
        assert(s.contains(s[a]));
        assert(s1.contains(s1[b]));
        assert(s.update(a, s[b]).update(b, s[a]).to_multiset() =~= s.to_multiset());
    }
}

/// Two sequences that are equal outside `[lo, hi)` and hold the same
/// contents overall hold the same contents inside `[lo, hi)` too.
proof fn lemma_frame_subrange_multiset(v1: Seq<i32>, v2: Seq<i32>, lo: int, hi: int)
    requires
        v1.len() == v2.len(),
        0 <= lo <= hi <= v1.len(),
        v1.to_multiset() == v2.to_multiset(),
        forall|k: int| 0 <= k < lo ==> v1[k] == v2[k],
        forall|k: int| hi <= k < v1.len() ==> v1[k] == v2[k],
    ensures
        v1.subrange(lo, hi).to_multiset() == v2.subrange(lo, hi).to_multiset(),
{
    broadcast use group_multiset_axioms;

    let len = v1.len() as int;
    let p1 = v1.subrange(0, lo);
    let m1 = v1.subrange(lo, hi);
    let s1 = v1.subrange(hi, len);
    let p2 = v2.subrange(0, lo);
    let m2 = v2.subrange(lo, hi);
    let s2 = v2.subrange(hi, len);
    assert(v1 =~= (p1 + m1) + s1);
    assert(v2 =~= (p2 + m2) + s2);
    lemma_multiset_commutative(p1 + m1, s1);
    lemma_multiset_commutative(p1, m1);
    lemma_multiset_commutative(p2 + m2, s2);
    lemma_multiset_commutative(p2, m2);
    assert(p1 =~= p2);
    assert(s1 =~= s2);
    assert forall|x: i32| m1.to_multiset().count(x) == #[trigger] m2.to_multiset().count(
        x,
    ) by {
        assert(v1.to_multiset().count(x) == p1.to_multiset().count(x) + m1.to_multiset().count(x)
            + s1.to_multiset().count(x));
        assert(v2.to_multiset().count(x) == p2.to_multiset().count(x) + m2.to_multiset().count(x)
            + s2.to_multiset().count(x));
    }
    assert(m1.to_multiset() =~= m2.to_multiset());
}

/// Whatever holds the same contents as `s1` draws every element from `s1`.
proof fn lemma_multiset_same_members(s1: Seq<i32>, s2: Seq<i32>)
    requires
        s1.to_multiset() == s2.to_multiset(),
    ensures
        forall|k: int| 0 <= k < s2.len() ==> s1.contains(#[trigger] s2[k]),
{
    broadcast use group_to_multiset_ensures;

    assert forall|k: int| 0 <= k < s2.len() implies s1.contains(#[trigger] s2[k]) by {
        assert(s2.contains(s2[k]));
        assert(s2.to_multiset().count(s2[k]) > 0);
    }
}

/// Exchanges the elements at positions `a` and `b`.
fn swap_elements(arr: &mut Vec<i32>, a: usize, b: usize)
    requires
        a < old(arr).len(),
        b < old(arr).len(),
    ensures
        final(arr)@ == old(arr)@.update(a as int, old(arr)@[b as int]).update(
            b as int,
            old(arr)@[a as int],
        ),
        final(arr)@.to_multiset() == old(arr)@.to_multiset(),
{
    let va = arr[a];
    let vb = arr[b];
    arr.set(a, vb);
    arr.set(b, va);
    proof {
        lemma_swap_preserves_multiset(old(arr)@, a as int, b as int);
    }
}

/// Partitions `arr[lo..hi]` around its last element: afterwards the
/// pivot sits at the returned position, everything before it is no
/// larger, and everything after it within the range is strictly larger.
pub fn partition(arr: &mut Vec<i32>, lo: usize, hi: usize) -> (p: usize)
    requires
        lo < hi <= old(arr).len(),
    ensures
        lo <= p < hi,
        final(arr).len() == old(arr).len(),
        forall|k: int| 0 <= k < lo ==> final(arr)@[k] == old(arr)@[k],
        forall|k: int| hi <= k < old(arr).len() ==> final(arr)@[k] == old(arr)@[k],
        final(arr)@.to_multiset() == old(arr)@.to_multiset(),
        forall|k: int| lo <= k < p ==> final(arr)@[k] <= final(arr)@[p as int],
        forall|k: int| p < k < hi ==> final(arr)@[k] > final(arr)@[p as int],
{
    let pivot = arr[hi - 1];
    let mut i = lo;
    let mut j = lo;
    while j < hi - 1
        invariant
            lo <= i <= j <= hi - 1 < arr.len(),
            arr.len() == old(arr).len(),
            pivot == arr@[hi - 1],
            forall|k: int| 0 <= k < lo ==> arr@[k] == old(arr)@[k],
            forall|k: int| hi <= k < arr.len() ==> arr@[k] == old(arr)@[k],
            arr@.to_multiset() == old(arr)@.to_multiset(),
            forall|k: int| lo <= k < i ==> arr@[k] <= pivot,
            forall|k: int| i <= k < j ==> arr@[k] > pivot,
        decreases hi - 1 - j,
    {
        if arr[j] <= pivot {
            swap_elements(arr, i, j);
            i += 1;
        }
        j += 1;
    }
    swap_elements(arr, i, hi - 1);
    i
}

/// Sorts `arr[lo..hi]` in place, leaving everything outside the range
/// untouched and the contents of the whole vector unchanged.
pub fn quick_sort_range(arr: &mut Vec<i32>, lo: usize, hi: usize)
    requires
        lo <= hi <= old(arr).len(),
    ensures
        final(arr).len() == old(arr).len(),
        forall|k: int| 0 <= k < lo ==> final(arr)@[k] == old(arr)@[k],
        forall|k: int| hi <= k < old(arr).len() ==> final(arr)@[k] == old(arr)@[k],
        final(arr)@.to_multiset() == old(arr)@.to_multiset(),
        sorted_between(final(arr)@, lo as int, hi as int),
    decreases hi - lo,
{
    if hi - lo <= 1 {
        return ;
    }
    let p = partition(arr, lo, hi);
    let ghost after_part = arr@;
    let ghost pivot = arr@[p as int];
    quick_sort_range(arr, lo, p);
    let ghost after_left = arr@;
    proof {
        lemma_frame_subrange_multiset(after_part, after_left, lo as int, p as int);
        lemma_multiset_same_members(
            after_part.subrange(lo as int, p as int),
            after_left.subrange(lo as int, p as int),
        );
        assert forall|k: int| lo <= k < p implies after_left[k] <= pivot by {
            assert(after_left.subrange(lo as int, p as int)[k - lo] == after_left[k]);
            let w = choose|w: int|
                0 <= w < p - lo && #[trigger] after_part.subrange(lo as int, p as int)[w]
                    == after_left[k];
            assert(after_part[lo + w] == after_left[k]);
        }
    }
    quick_sort_range(arr, p + 1, hi);
    let ghost after_right = arr@;
    proof {
        lemma_frame_subrange_multiset(after_left, after_right, p + 1, hi as int);
        lemma_multiset_same_members(
            after_left.subrange(p + 1, hi as int),
            after_right.subrange(p + 1, hi as int),
        );
        assert forall|k: int| p < k < hi implies after_right[k] > pivot by {
            assert(after_right.subrange(p + 1, hi as int)[k - (p + 1)] == after_right[k]);
            let w = choose|w: int|
                0 <= w < hi - (p + 1) && #[trigger] after_left.subrange(p + 1, hi as int)[w]
                    == after_right[k];
            assert(after_left[p + 1 + w] == after_right[k]);
        }
        assert forall|k: int| lo <= k < p implies after_right[k] <= pivot by {
            assert(after_right[k] == after_left[k]);
        }
        assert(after_right[p as int] == pivot);
        assert forall|a: int, b: int| lo <= a < b < hi implies after_right[a]
            <= after_right[b] by {
            if b < p {
                assert(after_right[a] == after_left[a] && after_right[b] == after_left[b]);
            }
        }
    }
}

/// Sorts the whole vector in ascending order, keeping its contents.
pub fn quick_sort(arr: &mut Vec<i32>)
    ensures
        final(arr).len() == old(arr).len(),
        final(arr)@.to_multiset() == old(arr)@.to_multiset(),
        sorted(final(arr)@),
{
    let len = arr.len();
    quick_sort_range(arr, 0, len);
}

/// A sorting algorithm: every strategy sorts in place and keeps the
/// vector's contents.
pub trait SortStrategy {
    fn sort(&self, data: &mut Vec<i32>)
        ensures
            final(data).len() == old(data).len(),
            final(data)@.to_multiset() == old(data)@.to_multiset(),
            sorted(final(data)@),
    ;
}

/// Quicksort, recursing around a pivot.
pub struct QuickSort;

impl SortStrategy for QuickSort {
    fn sort(&self, data: &mut Vec<i32>) {
        quick_sort(data);
    }
}

/// Bubble sort, repeatedly floating the largest element to the end.
pub struct BubbleSort;

impl SortStrategy for BubbleSort {
    fn sort(&self, data: &mut Vec<i32>) {
        let len = data.len();
        if len == 0 {
            return ;
        }
        let mut i: usize = 0;
        while i < len
            invariant
                0 < len == data.len() == old(data).len(),
                i <= len,
                data@.to_multiset() == old(data)@.to_multiset(),
                sorted_between(data@, len - i, len as int),
                forall|a: int, b: int|
                    0 <= a < len - i && len - i <= b < len ==> data@[a] <= data@[b],
            decreases len - i,
        {
            let mut j: usize = 0;
            while j < len - i - 1
                invariant
                    0 < len == data.len() == old(data).len(),
                    i < len,
                    j <= len - i - 1,
                    data@.to_multiset() == old(data)@.to_multiset(),
                    sorted_between(data@, len - i, len as int),
                    forall|a: int, b: int|
                        0 <= a < len - i && len - i <= b < len ==> data@[a] <= data@[b],
                    forall|k: int| 0 <= k < j ==> data@[k] <= data@[j as int],
                decreases len - i - 1 - j,
            {
                if data[j] > data[j + 1] {
                    swap_elements(data, j, j + 1);
                }
                j += 1;
            }
            i += 1;
        }
    }
}

/// The strategies a [`Sorter`] can be configured with.
pub enum Strategy {
    Quick(QuickSort),
    Bubble(BubbleSort),
}

/// Context that delegates sorting to its current strategy.
pub struct Sorter {
    pub strategy: Strategy,
}

impl Sorter {
    pub fn new(strategy: Strategy) -> (sorter: Sorter)
        ensures
            sorter.strategy == strategy,
    {
        Sorter { strategy }
    }

    pub fn set_strategy(&mut self, strategy: Strategy)
        ensures
            final(self).strategy == strategy,
    {
        self.strategy = strategy;
    }

    pub fn sort(&self, data: &mut Vec<i32>)
        ensures
            final(data).len() == old(data).len(),
            final(data)@.to_multiset() == old(data)@.to_multiset(),
            sorted(final(data)@),
    {
        match &self.strategy {
            Strategy::Quick(s) => s.sort(data),
            Strategy::Bubble(s) => s.sort(data),
        }
    }
}

} // verus!
