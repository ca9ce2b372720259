//! The set of sequence numbers that have been received, kept as sorted
//! ranges by `range_set_blaze`.

use range_set_blaze::RangeSetBlaze;
use vstd::prelude::*;

verus! {

/// A set of sequence numbers. It holds a `RangeSetBlaze<u32>`, which Verus
/// does not look into: all that is known of it is what the functions of this
/// module say of `contents`.
#[verifier::external_body]
pub struct ReceivedSet {
    ranges: RangeSetBlaze<u32>,
}

/// The sequence numbers that `set` holds.
pub uninterp spec fn contents(set: ReceivedSet) -> Set<u32>;

/// The sequence numbers from `start` to `end`, both included. Empty where
/// `end` is below `start`.
pub open spec fn interval(start: u32, end: u32) -> Set<u32> {
    Set::new(|x: u32| start <= x <= end)
}

/// Makes a set that holds nothing, with `RangeSetBlaze::new`.
///
/// Trusted: that the new set is empty.
#[verifier::external_body]
pub(crate) fn empty_set() -> (set: ReceivedSet)
    ensures
        contents(set) == Set::<u32>::empty(),
{
    ReceivedSet { ranges: RangeSetBlaze::new() }
}

/// Adds `value` to `set` with `RangeSetBlaze::insert`.
///
/// Trusted: that afterwards the set holds `value` and what it held before,
/// that the result says whether `value` was new, and that the call does not
/// panic: every `u32` is a value that the set can hold.
#[verifier::external_body]
pub(crate) fn insert(set: &mut ReceivedSet, value: u32) -> (fresh: bool)
    ensures
        contents(*final(set)) == contents(*old(set)).insert(value),
        fresh == !contents(*old(set)).contains(value),
    no_unwind
{
    set.ranges.insert(value)
}

/// Whether `runs` lists `set` as its runs: closed intervals, none empty, in
/// ascending order, with a gap of at least one number between neighbours, and
/// together holding exactly the numbers of `set`.
pub open spec fn is_runs_of(runs: Seq<(u32, u32)>, set: Set<u32>) -> bool {
    &&& forall|i: int| 0 <= i < runs.len() ==> (#[trigger] runs[i]).0 <= runs[i].1
    &&& forall|i: int|
        0 <= i < runs.len() - 1 ==> (#[trigger] runs[i]).1 + 1 < runs[i + 1].0
    &&& forall|x: u32|
        set.contains(x) <==> exists|i: int|
            0 <= i < runs.len() && (#[trigger] runs[i]).0 <= x <= runs[i].1
}

/// Makes the set of the numbers from `start` to `end`, both included, with
/// `RangeSetBlaze::from_iter` on the one range `start..=end`.
///
/// Trusted: that the set holds exactly those numbers, and so nothing where
/// `end` is below `start`.
#[verifier::external_body]
pub(crate) fn interval_set(start: u32, end: u32) -> (set: ReceivedSet)
    ensures
        contents(set) == interval(start, end),
{
    ReceivedSet { ranges: RangeSetBlaze::from_iter([start..=end]) }
}

/// The numbers of `a` that `b` does not hold, with the `-` of two
/// `RangeSetBlaze`.
///
/// Trusted: that the result is the set difference.
#[verifier::external_body]
pub(crate) fn difference(a: &ReceivedSet, b: &ReceivedSet) -> (d: ReceivedSet)
    ensures
        contents(d) == contents(*a).difference(contents(*b)),
{
    ReceivedSet { ranges: &a.ranges - &b.ranges }
}

/// The runs of `set`, first and last number of each, with
/// `RangeSetBlaze::ranges`.
///
/// Trusted: that the ranges come in ascending order, that none is empty,
/// that neighbours neither overlap nor touch, and that together they hold
/// exactly the numbers of the set.
#[verifier::external_body]
pub(crate) fn runs(set: &ReceivedSet) -> (runs: Vec<(u32, u32)>)
    ensures
        is_runs_of(runs@, contents(*set)),
{
    set.ranges.ranges().map(|r| (*r.start(), *r.end())).collect()
}

/// Whether `set` holds `value`, with `RangeSetBlaze::contains`.
///
/// Trusted: that the answer is membership.
#[verifier::external_body]
pub(crate) fn contains(set: &ReceivedSet, value: u32) -> (held: bool)
    ensures
        held == contents(*set).contains(value),
{
    set.ranges.contains(value)
}

} // verus!
