//! What holds of a set that is listed as runs.
//!
//! A run is a closed interval of numbers that the set holds, with the
//! numbers next to it on either side not in the set. A set has exactly one
//! list of runs in ascending order.

use vstd::prelude::*;
use crate::received::is_runs_of;

verus! {

/// Runs are in ascending order and apart: of any two, the earlier ends at
/// least two below where the later starts.
pub proof fn lemma_runs_are_apart(runs: Seq<(u32, u32)>, set: Set<u32>, i: int, j: int)
    requires
        is_runs_of(runs, set),
        0 <= i < j < runs.len(),
    ensures
        runs[i].1 + 1 < runs[j].0,
    decreases j - i,
{
    if j > i + 1 {
        lemma_runs_are_apart(runs, set, i, j - 1);
        assert(runs[j - 1].1 + 1 < runs[j - 1 + 1].0);
        assert(runs[j - 1].0 <= runs[j - 1].1);
    } else {
        assert(runs[i].1 + 1 < runs[i + 1].0);
    }
}

/// A number lies in at most one run.
pub proof fn lemma_runs_are_disjoint(
    runs: Seq<(u32, u32)>,
    set: Set<u32>,
    i: int,
    j: int,
    x: u32,
)
    requires
        is_runs_of(runs, set),
        0 <= i < runs.len(),
        0 <= j < runs.len(),
        runs[i].0 <= x <= runs[i].1,
        runs[j].0 <= x <= runs[j].1,
    ensures
        i == j,
{
    if i < j {
        lemma_runs_are_apart(runs, set, i, j);
    } else if j < i {
        lemma_runs_are_apart(runs, set, j, i);
    }
}

/// Runs are maximal: every number of a run is in the set, and the numbers
/// next to the run on either side are not.
pub proof fn lemma_runs_are_maximal(runs: Seq<(u32, u32)>, set: Set<u32>, i: int)
    requires
        is_runs_of(runs, set),
        0 <= i < runs.len(),
    ensures
        forall|x: u32| runs[i].0 <= x <= runs[i].1 ==> set.contains(x),
        runs[i].0 > 0 ==> !set.contains((runs[i].0 - 1) as u32),
        runs[i].1 < u32::MAX ==> !set.contains((runs[i].1 + 1) as u32),
{
    assert forall|x: u32| runs[i].0 <= x <= runs[i].1 implies set.contains(x) by {
        assert(runs[i].0 <= x <= runs[i].1);
    }
    assert(runs[i].0 <= runs[i].1);
    if runs[i].0 > 0 {
        let below = (runs[i].0 - 1) as u32;
        if set.contains(below) {
            let j = choose|j: int|
                0 <= j < runs.len() && (#[trigger] runs[j]).0 <= below <= runs[j].1;
            assert(runs[j].0 <= runs[j].1);
            if j < i {
                lemma_runs_are_apart(runs, set, j, i);
            } else if i < j {
                lemma_runs_are_apart(runs, set, i, j);
            }
        }
    }
    if runs[i].1 < u32::MAX {
        let above = (runs[i].1 + 1) as u32;
        if set.contains(above) {
            let j = choose|j: int|
                0 <= j < runs.len() && (#[trigger] runs[j]).0 <= above <= runs[j].1;
            assert(runs[j].0 <= runs[j].1);
            if j < i {
                lemma_runs_are_apart(runs, set, j, i);
            } else if i < j {
                lemma_runs_are_apart(runs, set, i, j);
            }
        }
    }
}

/// A stretch of numbers that the set holds and that starts inside a run
/// ends inside that run.
pub proof fn lemma_stretch_ends_in_run(
    runs: Seq<(u32, u32)>,
    set: Set<u32>,
    i: int,
    lo: u32,
    hi: u32,
)
    requires
        is_runs_of(runs, set),
        0 <= i < runs.len(),
        runs[i].0 <= lo <= runs[i].1,
        lo <= hi,
        forall|x: u32| lo <= x <= hi ==> set.contains(x),
    ensures
        hi <= runs[i].1,
    decreases hi - lo,
{
    if lo < hi {
        let before = (hi - 1) as u32;
        lemma_stretch_ends_in_run(runs, set, i, lo, before);
        if hi > runs[i].1 {
            assert(set.contains(hi));
            let j = choose|j: int| 0 <= j < runs.len() && (#[trigger] runs[j]).0 <= hi <= runs[j].1;
            if j < i {
                lemma_runs_are_apart(runs, set, j, i);
            } else if i < j {
                lemma_runs_are_apart(runs, set, i, j);
            }
        }
    }
}

/// A stretch of numbers that the set holds and that ends inside a run
/// starts inside that run.
pub proof fn lemma_stretch_starts_in_run(
    runs: Seq<(u32, u32)>,
    set: Set<u32>,
    i: int,
    lo: u32,
    hi: u32,
)
    requires
        is_runs_of(runs, set),
        0 <= i < runs.len(),
        runs[i].0 <= hi <= runs[i].1,
        lo <= hi,
        forall|x: u32| lo <= x <= hi ==> set.contains(x),
    ensures
        runs[i].0 <= lo,
    decreases hi - lo,
{
    if lo < hi {
        let after = (lo + 1) as u32;
        lemma_stretch_starts_in_run(runs, set, i, after, hi);
        if lo < runs[i].0 {
            assert(set.contains(lo));
            let j = choose|j: int| 0 <= j < runs.len() && (#[trigger] runs[j]).0 <= lo <= runs[j].1;
            assert(runs[j].0 <= runs[j].1);
            if j < i {
                lemma_runs_are_apart(runs, set, j, i);
            } else if i < j {
                lemma_runs_are_apart(runs, set, i, j);
            }
        }
    }
}

/// Each run of one list of the runs of a set is a run of any other.
pub proof fn lemma_run_is_shared(
    a: Seq<(u32, u32)>,
    b: Seq<(u32, u32)>,
    set: Set<u32>,
    i: int,
) -> (j: int)
    requires
        is_runs_of(a, set),
        is_runs_of(b, set),
        0 <= i < a.len(),
    ensures
        0 <= j < b.len(),
        b[j] == a[i],
{
    lemma_runs_are_maximal(a, set, i);
    assert(a[i].0 <= a[i].1);
    assert(set.contains(a[i].0));
    let j = choose|j: int| 0 <= j < b.len() && (#[trigger] b[j]).0 <= a[i].0 <= b[j].1;
    lemma_runs_are_maximal(b, set, j);
    lemma_stretch_ends_in_run(b, set, j, a[i].0, a[i].1);
    lemma_stretch_starts_in_run(a, set, i, b[j].0, a[i].0);
    lemma_stretch_ends_in_run(a, set, i, a[i].0, b[j].1);
    j
}

/// Two lists of the runs of one set agree up to any place that both reach.
proof fn lemma_runs_agree(a: Seq<(u32, u32)>, b: Seq<(u32, u32)>, set: Set<u32>, k: int)
    requires
        is_runs_of(a, set),
        is_runs_of(b, set),
        0 <= k < a.len(),
    ensures
        k < b.len(),
        a[k] == b[k],
    decreases k,
{
    if k > 0 {
        lemma_runs_agree(a, b, set, k - 1);
    }
    assert forall|m: int| 0 <= m < k implies m < b.len() && a[m] == b[m] by {
        lemma_runs_agree(a, b, set, m);
    }
    let j = lemma_run_is_shared(a, b, set, k);
    assert(a[k].0 <= a[k].1);
    if j < k {
        assert(a[j] == b[j]);
        lemma_runs_are_apart(a, set, j, k);
    } else if j > k {
        let back = lemma_run_is_shared(b, a, set, k);
        assert(b[k].0 <= b[k].1);
        lemma_runs_are_apart(b, set, k, j);
        if back < k {
            assert(a[back] == b[back]);
            lemma_runs_are_apart(b, set, back, k);
        } else if back > k {
            lemma_runs_are_apart(a, set, k, back);
        }
    }
}

/// A set has one list of runs: any two lists of the runs of one set are the
/// same list.
pub proof fn lemma_runs_are_unique(a: Seq<(u32, u32)>, b: Seq<(u32, u32)>, set: Set<u32>)
    requires
        is_runs_of(a, set),
        is_runs_of(b, set),
    ensures
        a == b,
{
    if a.len() > 0 {
        lemma_runs_agree(a, b, set, a.len() - 1);
    }
    if b.len() > 0 {
        lemma_runs_agree(b, a, set, b.len() - 1);
    }
    assert forall|k: int| 0 <= k < a.len() implies a[k] == b[k] by {
        lemma_runs_agree(a, b, set, k);
    }
    assert(a =~= b);
}

/// The numbers from `lo` to `hi` are one run.
pub proof fn lemma_interval_is_one_run(lo: u32, hi: u32)
    requires
        lo <= hi,
    ensures
        is_runs_of(seq![(lo, hi)], crate::received::interval(lo, hi)),
{
    let runs = seq![(lo, hi)];
    let set = crate::received::interval(lo, hi);
    assert forall|x: u32|
        set.contains(x) <==> exists|i: int|
            0 <= i < runs.len() && (#[trigger] runs[i]).0 <= x <= runs[i].1 by {
        if set.contains(x) {
            assert(runs[0].0 <= x <= runs[0].1);
        }
    }
}

} // verus!
