//! Inclusive codepoint ranges, tables of them, and the membership search.

use vstd::prelude::*;

verus! {

/// An inclusive interval of codepoints: `(start, end)`.
pub type CodeRange = (u32, u32);

/// `c` lies in the closed interval `r`.
pub open spec fn range_holds(r: CodeRange, c: u32) -> bool {
    r.0 <= c && c <= r.1
}

/// Some range of `t` holds `c`.
pub open spec fn table_contains(t: Seq<CodeRange>, c: u32) -> bool {
    exists|i: int| 0 <= i < t.len() && range_holds(#[trigger] t[i], c)
}

/// The structural invariant of a table: no range is empty, and each range
/// ends strictly before the next one starts.
pub open spec fn table_ordered(t: Seq<CodeRange>) -> bool {
    &&& forall|i: int| 0 <= i < t.len() ==> (#[trigger] t[i]).0 <= t[i].1
    &&& forall|i: int, j: int|
        0 <= i && j == i + 1 && j < t.len() ==> (#[trigger] t[i]).1 < (#[trigger] t[j]).0
}

/// The codepoint halfway between the two ends of `r`, rounded down.
pub open spec fn midpoint(r: CodeRange) -> u32 {
    ((r.0 + r.1) / 2) as u32
}

/// In an ordered table every earlier range ends before every later one
/// starts, however far apart the two stand.
pub proof fn lemma_ordered_pairwise(t: Seq<CodeRange>, i: int, j: int)
    requires
        table_ordered(t),
        0 <= i < j < t.len(),
    ensures
        t[i].1 < t[j].0,
    decreases j - i,
{
    if j > i + 1 {
        lemma_ordered_pairwise(t, i, j - 1);
        assert(t[j - 1].0 <= t[j - 1].1);
        assert(t[j - 1].1 < t[j].0);
    }
}

/// A non-empty range holds its start, its end and its midpoint, so the table
/// it stands in contains all three.
pub proof fn lemma_range_points_contained(t: Seq<CodeRange>, i: int)
    requires
        0 <= i < t.len(),
        t[i].0 <= t[i].1,
    ensures
        range_holds(t[i], midpoint(t[i])),
        table_contains(t, t[i].0),
        table_contains(t, t[i].1),
        table_contains(t, midpoint(t[i])),
{
    let r = t[i];
    assert(range_holds(r, r.0));
    assert(range_holds(r, r.1));
    assert(range_holds(r, midpoint(r)));
}

/// Binary search for the range that holds `c`.
///
/// Each probe is a three-way comparison: the probed range matches when it
/// holds `c`; otherwise the search goes right when the range starts below
/// `c` and left when it starts above. A `true` answer is always backed by a
/// range of `arr`; on an ordered table the answer is exactly membership.
pub fn in_table(arr: &[CodeRange], c: u32) -> (found: bool)
    ensures
        found ==> table_contains(arr@, c),
        table_ordered(arr@) ==> (found <==> table_contains(arr@, c)),
{
    let mut lo: usize = 0;
    let mut hi: usize = arr.len();
    while lo < hi
        invariant
            lo <= hi <= arr.len(),
            table_ordered(arr@) ==> forall|k: int|
                0 <= k < arr.len() && range_holds(#[trigger] arr@[k], c) ==> lo <= k < hi,
        decreases hi - lo,
    {
        let mid: usize = lo + (hi - lo) / 2;
        let (start, end) = arr[mid];
        if start <= c && c <= end {
            assert(range_holds(arr@[mid as int], c));
            return true;
        } else if start < c {
            proof {
                if table_ordered(arr@) {
                    assert forall|k: int|
                        0 <= k < arr.len() && range_holds(#[trigger] arr@[k], c) implies mid
                        < k by {
                        if k < mid {
                            lemma_ordered_pairwise(arr@, k, mid as int);
                        }
                    }
                }
            }
            lo = mid + 1;
        } else {
            proof {
                if table_ordered(arr@) {
                    assert forall|k: int|
                        0 <= k < arr.len() && range_holds(#[trigger] arr@[k], c) implies k
                        < mid by {
                        if k > mid {
                            lemma_ordered_pairwise(arr@, mid as int, k);
                        }
                    }
                }
            }
            hi = mid;
        }
    }
    false
}

} // verus!
