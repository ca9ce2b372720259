//! The log synchronisation engine.
//!
//! A device keeps an append-only log of readings, each under a sequence
//! number, and says which window of them it holds. The engine remembers which
//! records have arrived, and on each reconciliation works out which of the
//! window are still missing and cuts them into batches to ask for. It keeps
//! no book of what it has asked for: a record that does not arrive is simply
//! still missing the next time.

use vstd::prelude::*;
use crate::received::{
    contents, difference, empty_set, insert, interval, interval_set, is_runs_of, runs, ReceivedSet,
};

verus! {

/// How many records one request asks for, unless told otherwise.
pub const DEFAULT_BATCH_SIZE: u32 = 10;

/// What the listener tells the engine.
#[derive(Debug, Clone, Copy, PartialEq, Eq, Structural)]
pub enum SyncMessages {
    /// The device holds the records from the first to the second sequence
    /// number, both included. Replaces what was known of the window.
    LogRangeAvailable(u32, u32),
    /// The record with this sequence number has arrived.
    LogReceived(u32),
}

/// What the engine knows, as mathematics sees it.
#[verifier::ext_equal]
pub struct SyncModel {
    /// The sequence numbers of the records that have arrived.
    pub received: Set<u32>,
    /// The window that the device last told of, if it told of any.
    pub window: Option<(u32, u32)>,
    /// How many records one request asks for.
    pub batch_size: u32,
    /// The batches that are still to be asked for, in the order in which to
    /// ask. The engine is syncing while there are any, and idle otherwise.
    pub queued: Seq<(u32, u32)>,
}

/// Whether the engine has batches to ask for.
#[derive(Debug, Clone, Copy, PartialEq, Eq, Structural)]
pub enum SyncState {
    /// Nothing is queued: the next tick is for a reconciliation.
    Idle,
    /// Batches are queued: each tick is for asking for the next of them.
    Syncing,
}

impl SyncModel {
    /// Whether there are batches to ask for.
    pub open spec fn state(self) -> SyncState {
        if self.queued.len() > 0 {
            SyncState::Syncing
        } else {
            SyncState::Idle
        }
    }

    /// The model after `message`: the latest window wins, and the set of
    /// received records only grows.
    pub open spec fn apply(self, message: SyncMessages) -> SyncModel {
        match message {
            SyncMessages::LogRangeAvailable(start, end) => SyncModel {
                window: Some((start, end)),
                ..self
            },
            SyncMessages::LogReceived(sequence_number) => SyncModel {
                received: self.received.insert(sequence_number),
                ..self
            },
        }
    }

    /// The model after all of `messages`, in their order.
    pub open spec fn apply_all(self, messages: Seq<SyncMessages>) -> SyncModel
        decreases messages.len(),
    {
        if messages.len() == 0 {
            self
        } else {
            self.apply_all(messages.drop_last()).apply(messages.last())
        }
    }

    /// The records of the window that have not arrived. Nothing is missing
    /// while no window is known.
    pub open spec fn missing(self) -> Set<u32> {
        match self.window {
            Some((start, end)) => interval(start, end).difference(self.received),
            None => Set::empty(),
        }
    }
}

/// How many batches of at most `n` the numbers from `start` to `end` make:
/// their count divided by `n`, rounded up.
pub open spec fn batch_count(start: int, end: int, n: int) -> int {
    (end - start + n) / n
}

/// Batch `k` of the numbers from `start` to `end` in batches of `n`: `n`
/// numbers from `start + k n` on, or as many as are left.
pub open spec fn batch(start: int, end: int, n: int, k: int) -> (u32, u32) {
    (
        (start + k * n) as u32,
        if start + k * n + n - 1 <= end {
            (start + k * n + n - 1) as u32
        } else {
            end as u32
        },
    )
}

/// Whether `x` is one of the numbers that `range` asks for.
pub open spec fn within(range: (u32, u32), x: u32) -> bool {
    range.0 <= x <= range.1
}

/// Which batch of a range that starts at `start` holds `x`, in batches of
/// `n`: the distance of `x` from the start divided by `n`, rounded down.
pub open spec fn batch_index(start: u32, n: u32, x: u32) -> int {
    (x - start) / (n as int)
}

/// The batches of at most `n` that the numbers from `start` to `end` make,
/// in ascending order. There are no numbers, and so no batches, where `end`
/// is below `start`.
pub open spec fn batches(start: u32, end: u32, n: u32) -> Seq<(u32, u32)> {
    if start <= end {
        Seq::new(
            batch_count(start as int, end as int, n as int) as nat,
            |k: int| batch(start as int, end as int, n as int, k),
        )
    } else {
        Seq::empty()
    }
}

/// The batches that a list of runs makes: those of the first run, then those
/// of the second, and so on.
pub open spec fn plan(runs: Seq<(u32, u32)>, n: u32) -> Seq<(u32, u32)>
    decreases runs.len(),
{
    if runs.len() == 0 {
        Seq::empty()
    } else {
        plan(runs.drop_last(), n) + batches(runs.last().0, runs.last().1, n)
    }
}

/// Cuts the numbers from `start` to `end`, both included, into batches of
/// `batch_size`; the last batch takes what is left.
pub fn batches_of(start: u32, end: u32, batch_size: u32) -> (out: Vec<(u32, u32)>)
    requires
        batch_size >= 1,
    ensures
        out@ == batches(start, end, batch_size),
{
    let mut out: Vec<(u32, u32)> = Vec::new();
    if start > end {
        return out;
    }
    let mut lo: u32 = start;
    let ghost mut k: int = 0;
    proof {
        lemma_more_batches(start as int, end as int, batch_size as int, -1);
    }
    loop
        invariant_except_break
            start <= lo <= end,
            lo == start + k * batch_size,
            0 <= k < batch_count(start as int, end as int, batch_size as int),
            out@ == batches(start, end, batch_size).take(k),
        invariant
            start <= end,
            batch_size >= 1,
        ensures
            out@ == batches(start, end, batch_size),
        decreases end - lo,
    {
        let hi: u32 = if end - lo >= batch_size - 1 {
            lo + (batch_size - 1)
        } else {
            end
        };
        out.push((lo, hi));
        proof {
            let all = batches(start, end, batch_size);
            assert(all[k] == (lo, hi));
            assert(out@ =~= all.take(k + 1));
        }
        if hi == end {
            proof {
                lemma_last_batch(start as int, end as int, batch_size as int, k);
                assert(batches(start, end, batch_size).take(k + 1) =~= batches(
                    start,
                    end,
                    batch_size,
                ));
            }
            break;
        }
        proof {
            lemma_more_batches(start as int, end as int, batch_size as int, k);
            assert((k + 1) * batch_size == k * batch_size + batch_size) by (nonlinear_arith);
            k = k + 1;
        }
        lo = hi + 1;
    }
    out
}

/// Cuts each of `runs` into batches of `batch_size`, run after run.
pub fn plan_batches(runs: &Vec<(u32, u32)>, batch_size: u32) -> (out: Vec<(u32, u32)>)
    requires
        batch_size >= 1,
    ensures
        out@ == plan(runs@, batch_size),
{
    let mut out: Vec<(u32, u32)> = Vec::new();
    let mut i: usize = 0;
    while i < runs.len()
        invariant
            i <= runs@.len(),
            batch_size >= 1,
            out@ == plan(runs@.take(i as int), batch_size),
        decreases runs@.len() - i,
    {
        let run: (u32, u32) = runs[i];
        let mut more: Vec<(u32, u32)> = batches_of(run.0, run.1, batch_size);
        proof {
            let next = runs@.take(i + 1);
            assert(next.drop_last() =~= runs@.take(i as int));
            assert(next.last() == run);
        }
        out.append(&mut more);
        i += 1;
    }
    assert(runs@.take(i as int) =~= runs@);
    out
}

/// What one reconciliation found: the runs of missing records, and the
/// batches to ask for.
#[derive(Debug, PartialEq, Eq)]
pub struct Reconciliation {
    /// The missing records, as runs in ascending order.
    pub missing: Vec<(u32, u32)>,
    /// The batches to ask for, in the order in which to ask.
    pub batches: Vec<(u32, u32)>,
}

/// The state of the engine: what has arrived, the window that the device
/// last told of, and the batches that are still to be asked for.
pub struct LogSync {
    received: ReceivedSet,
    window: Option<(u32, u32)>,
    batch_size: u32,
    queue: Vec<(u32, u32)>,
    asked: usize,
}

impl View for LogSync {
    type V = SyncModel;

    closed spec fn view(&self) -> SyncModel {
        SyncModel {
            received: contents(self.received),
            window: self.window,
            batch_size: self.batch_size,
            queued: self.queue@.skip(self.asked as int),
        }
    }
}

impl LogSync {
    /// A batch holds at least one record, and no more batches have been
    /// asked for than were queued.
    #[verifier::type_invariant]
    spec fn inv(self) -> bool {
        &&& self.batch_size >= 1
        &&& self.asked <= self.queue@.len()
    }

    /// An engine that has received nothing and knows of no window, with the
    /// default batch size.
    pub fn new() -> (engine: LogSync)
        ensures
            engine@ == (SyncModel {
                received: Set::empty(),
                window: None,
                batch_size: DEFAULT_BATCH_SIZE,
                queued: Seq::empty(),
            }),
    {
        LogSync {
            received: empty_set(),
            window: None,
            batch_size: DEFAULT_BATCH_SIZE,
            queue: Vec::new(),
            asked: 0,
        }
    }

    /// An engine that has received nothing and knows of no window, and asks
    /// for `batch_size` records at a time. There is none for a batch size of
    /// zero.
    pub fn with_batch_size(batch_size: u32) -> (r: Option<LogSync>)
        ensures
            batch_size == 0 ==> r is None,
            batch_size >= 1 ==> r is Some && r->Some_0@ == (SyncModel {
                received: Set::empty(),
                window: None,
                batch_size,
                queued: Seq::empty(),
            }),
    {
        if batch_size == 0 {
            None
        } else {
            Some(
                LogSync {
                    received: empty_set(),
                    window: None,
                    batch_size,
                    queue: Vec::new(),
                    asked: 0,
                },
            )
        }
    }

    /// An engine that knows of no window and has received the records with
    /// the sequence numbers of `history`, with the default batch size. This
    /// is how a session takes up where an earlier one left off.
    pub fn seeded(history: &[u32]) -> (engine: LogSync)
        ensures
            engine@ == (SyncModel {
                received: history@.to_set(),
                window: None,
                batch_size: DEFAULT_BATCH_SIZE,
                queued: Seq::empty(),
            }),
    {
        let mut engine = LogSync::new();
        let mut i: usize = 0;
        while i < history.len()
            invariant
                i <= history@.len(),
                engine@ == (SyncModel {
                    received: history@.take(i as int).to_set(),
                    window: None,
                    batch_size: DEFAULT_BATCH_SIZE,
                    queued: Seq::empty(),
                }),
            decreases history@.len() - i,
        {
            proof {
                let before = history@.take(i as int);
                let after = history@.take(i + 1);
                assert(after =~= before.push(history@[i as int]));
                assert(after.to_set() =~= before.to_set().insert(history@[i as int])) by {
                    assert forall|x: u32| after.to_set().contains(x) <==> before.to_set().insert(
                        history@[i as int],
                    ).contains(x) by {
                        if after.contains(x) {
                            let k = choose|k: int| 0 <= k < after.len() && after[k] == x;
                            if k < i {
                                assert(before[k] == x);
                            }
                        }
                        if before.contains(x) {
                            let k = choose|k: int| 0 <= k < before.len() && before[k] == x;
                            assert(after[k] == x);
                        }
                        if x == history@[i as int] {
                            assert(after[i as int] == x);
                        }
                    }
                }
            }
            engine.apply(SyncMessages::LogReceived(history[i]));
            i += 1;
        }
        assert(history@.take(i as int) =~= history@);
        engine
    }

    /// The window that the device last told of.
    pub fn window(&self) -> (w: Option<(u32, u32)>)
        ensures
            w == self@.window,
    {
        self.window
    }

    /// How many records one request asks for.
    pub fn batch_size(&self) -> (n: u32)
        ensures
            n == self@.batch_size,
            n >= 1,
    {
        proof {
            use_type_invariant(self);
        }
        self.batch_size
    }

    /// Whether the record with this sequence number has arrived.
    pub fn has_received(&self, sequence_number: u32) -> (held: bool)
        ensures
            held == self@.received.contains(sequence_number),
    {
        crate::received::contains(&self.received, sequence_number)
    }

    /// Takes in one message from the listener.
    pub fn apply(&mut self, message: SyncMessages)
        ensures
            final(self)@ == old(self)@.apply(message),
    {
        proof {
            use_type_invariant(&*self);
        }
        match message {
            SyncMessages::LogRangeAvailable(start, end) => {
                self.window = Some((start, end));
            },
            SyncMessages::LogReceived(sequence_number) => {
                insert(&mut self.received, sequence_number);
            },
        }
    }

    /// Takes in all the messages that are pending, in their order.
    pub fn apply_all(&mut self, messages: &[SyncMessages])
        ensures
            final(self)@ == old(self)@.apply_all(messages@),
    {
        let mut i: usize = 0;
        while i < messages.len()
            invariant
                i <= messages@.len(),
                self@ == old(self)@.apply_all(messages@.take(i as int)),
            decreases messages@.len() - i,
        {
            proof {
                let next = messages@.take(i + 1);
                assert(next.drop_last() =~= messages@.take(i as int));
                assert(next.last() == messages@[i as int]);
            }
            self.apply(messages[i]);
            i += 1;
        }
        assert(messages@.take(i as int) =~= messages@);
    }

    /// The records of the window that have not arrived, as runs in ascending
    /// order. Worked out afresh from the window and the received records as
    /// they are now.
    pub fn missing(&self) -> (missing: Vec<(u32, u32)>)
        ensures
            is_runs_of(missing@, self@.missing()),
    {
        match self.window {
            Some((start, end)) => {
                let window: ReceivedSet = interval_set(start, end);
                let left: ReceivedSet = difference(&window, &self.received);
                runs(&left)
            },
            None => {
                let none: Vec<(u32, u32)> = Vec::new();
                none
            },
        }
    }

    /// Whether the engine has batches to ask for.
    pub fn state(&self) -> (state: SyncState)
        ensures
            state == self@.state(),
    {
        proof {
            use_type_invariant(self);
        }
        if self.asked < self.queue.len() {
            SyncState::Syncing
        } else {
            SyncState::Idle
        }
    }

    /// Starts a round: takes in the pending messages, works out what is
    /// missing, and queues the batches to ask for in place of any that were
    /// still queued. Hands back the runs of missing records.
    pub fn begin(&mut self, messages: &[SyncMessages]) -> (missing: Vec<(u32, u32)>)
        ensures
            is_runs_of(missing@, final(self)@.missing()),
            final(self)@ == (SyncModel {
                queued: plan(missing@, old(self)@.batch_size),
                ..old(self)@.apply_all(messages@)
            }),
            final(self)@.batch_size >= 1,
    {
        self.apply_all(messages);
        let missing: Vec<(u32, u32)> = self.missing();
        let batches: Vec<(u32, u32)> = plan_batches(&missing, self.batch_size());
        proof {
            use_type_invariant(&*self);
            lemma_apply_all_keeps(old(self)@, messages@);
            assert(batches@.skip(0) =~= batches@);
        }
        self.asked = 0;
        self.queue = batches;
        missing
    }

    /// The next batch to ask for, which then leaves the queue; `None` once
    /// the queue is empty.
    pub fn next_request(&mut self) -> (batch: Option<(u32, u32)>)
        ensures
            match batch {
                Some(b) => {
                    &&& old(self)@.queued.len() > 0
                    &&& b == old(self)@.queued[0]
                    &&& final(self)@ == (SyncModel {
                        queued: old(self)@.queued.skip(1),
                        ..old(self)@
                    })
                },
                None => old(self)@.queued.len() == 0 && final(self)@ == old(self)@,
            },
    {
        proof {
            use_type_invariant(&*self);
        }
        if self.asked < self.queue.len() {
            let batch: (u32, u32) = self.queue[self.asked];
            proof {
                assert(self.queue@.skip(self.asked as int).skip(1) =~= self.queue@.skip(
                    self.asked + 1,
                ));
            }
            self.asked = self.asked + 1;
            Some(batch)
        } else {
            None
        }
    }

    /// One reconciliation: takes in the pending messages, then works out
    /// what is missing and cuts it into batches.
    pub fn reconcile(&mut self, messages: &[SyncMessages]) -> (found: Reconciliation)
        ensures
            final(self)@ == old(self)@.apply_all(messages@),
            final(self)@.batch_size >= 1,
            is_runs_of(found.missing@, final(self)@.missing()),
            found.batches@ == plan(found.missing@, final(self)@.batch_size),
    {
        self.apply_all(messages);
        let missing: Vec<(u32, u32)> = self.missing();
        let batches: Vec<(u32, u32)> = plan_batches(&missing, self.batch_size());
        Reconciliation { missing, batches }
    }
}

/// Messages change neither the batch size nor what is queued.
pub proof fn lemma_apply_all_keeps(model: SyncModel, messages: Seq<SyncMessages>)
    ensures
        model.apply_all(messages).batch_size == model.batch_size,
        model.apply_all(messages).queued == model.queued,
    decreases messages.len(),
{
    if messages.len() > 0 {
        lemma_apply_all_keeps(model, messages.drop_last());
    }
}

/// A record that arrives twice counts once: taking in the same sequence
/// number a second time changes nothing.
pub proof fn lemma_receive_is_idempotent(model: SyncModel, sequence_number: u32)
    ensures
        model.apply(SyncMessages::LogReceived(sequence_number)).apply(
            SyncMessages::LogReceived(sequence_number),
        ) == model.apply(SyncMessages::LogReceived(sequence_number)),
{
    let once = model.apply(SyncMessages::LogReceived(sequence_number));
    let twice = once.apply(SyncMessages::LogReceived(sequence_number));
    assert(twice.received =~= once.received);
}

/// What is missing and what has arrived of the window make up the window
/// between them, and share nothing.
pub proof fn lemma_missing_completes_window(model: SyncModel, start: u32, end: u32)
    requires
        model.window == Some((start, end)),
    ensures
        model.missing().union(model.received.intersect(interval(start, end))) == interval(
            start,
            end,
        ),
        model.missing().disjoint(model.received),
        model.missing().subset_of(interval(start, end)),
{
    assert(model.missing().union(model.received.intersect(interval(start, end))) =~= interval(
        start,
        end,
    ));
}

/// Once the whole window has arrived nothing is missing: there is no run and
/// no batch to ask for.
pub proof fn lemma_nothing_missing(model: SyncModel, runs: Seq<(u32, u32)>)
    requires
        model.window matches Some((start, end)) ==> interval(start, end).subset_of(model.received),
        is_runs_of(runs, model.missing()),
    ensures
        model.missing() == Set::<u32>::empty(),
        runs.len() == 0,
        plan(runs, model.batch_size) == Seq::<(u32, u32)>::empty(),
{
    assert(model.missing() =~= Set::<u32>::empty());
    if runs.len() > 0 {
        assert(runs[0].0 <= runs[0].0 <= runs[0].1);
        assert(model.missing().contains(runs[0].0));
    }
}

/// For batch `k` of a range: it starts `k n` above the start of the range,
/// lies within the range, and holds `n` numbers unless it is the last one.
pub proof fn lemma_batch_bounds(start: u32, end: u32, n: u32, k: int)
    requires
        start <= end,
        n >= 1,
        0 <= k < batch_count(start as int, end as int, n as int),
    ensures
        batches(start, end, n).len() == batch_count(start as int, end as int, n as int),
        batches(start, end, n)[k].0 == start + k * n,
        start <= batches(start, end, n)[k].0 <= batches(start, end, n)[k].1 <= end,
        batches(start, end, n)[k].1 - batches(start, end, n)[k].0 < n,
        k < batches(start, end, n).len() - 1 ==> batches(start, end, n)[k].1 == start + k * n + n
            - 1,
        k == batches(start, end, n).len() - 1 ==> batches(start, end, n)[k].1 == end,
{
    let d = end - start + n;
    let q = d / (n as int);
    vstd::arithmetic::div_mod::lemma_fundamental_div_mod(d, n as int);
    vstd::arithmetic::div_mod::lemma_mod_bound(d, n as int);
    assert(0 <= k * n) by (nonlinear_arith)
        requires
            k >= 0,
            n >= 1,
    ;
    assert((k + 1) * n <= q * n) by (nonlinear_arith)
        requires
            k + 1 <= q,
            n >= 1,
    ;
    assert((k + 1) * n == k * n + n) by (nonlinear_arith);
    assert(q * n == n * q) by (nonlinear_arith);
    assert(start + k * n <= end);
    if k < q - 1 {
        assert((k + 2) * n <= q * n) by (nonlinear_arith)
            requires
                k + 2 <= q,
                n >= 1,
        ;
        assert((k + 2) * n == k * n + n + n) by (nonlinear_arith);
    } else {
        assert(k + 1 == q);
        assert(d < (k + 1) * n + n);
    }
}

/// Batches cover a range with neither gap nor overlap: there are as many as
/// the count of numbers divided by `n`, rounded up, and each number of the
/// range lies in exactly one batch, the one that its distance from the start
/// divided by `n` names.
pub proof fn lemma_batches_cover(start: u32, end: u32, n: u32)
    requires
        start <= end,
        n >= 1,
    ensures
        ({
            let b = batches(start, end, n);
            let count = b.len() as int;
            &&& count == batch_count(start as int, end as int, n as int)
            &&& (count - 1) * n < end - start + 1 <= count * n
            &&& forall|x: u32|
                start <= x <= end ==> 0 <= #[trigger] batch_index(start, n, x) < count && within(
                    b[batch_index(start, n, x)],
                    x,
                )
            &&& forall|x: u32, k: int|
                0 <= k < count && #[trigger] within(b[k], x) ==> k == batch_index(start, n, x)
        }),
{
    let b = batches(start, end, n);
    let count = b.len() as int;
    let d = end - start + n;
    vstd::arithmetic::div_mod::lemma_fundamental_div_mod(d, n as int);
    vstd::arithmetic::div_mod::lemma_mod_bound(d, n as int);
    lemma_more_batches(start as int, end as int, n as int, -1);
    assert(count * n == n * count) by (nonlinear_arith);
    assert((count - 1) * n == count * n - n) by (nonlinear_arith);
    assert forall|x: u32| start <= x <= end implies 0 <= #[trigger] batch_index(start, n, x)
        < count && within(b[batch_index(start, n, x)], x) by {
        let k = (x - start) / (n as int);
        lemma_index_of(start as int, end as int, n as int, x as int);
        lemma_batch_bounds(start, end, n, k);
    }
    assert forall|x: u32, k: int| 0 <= k < count && #[trigger] within(b[k], x) implies k
        == batch_index(start, n, x) by {
        lemma_batch_bounds(start, end, n, k);
        let r = x - start - k * n;
        assert(x - start == n * k + r) by (nonlinear_arith)
            requires
                r == x - start - k * n,
        ;
        vstd::arithmetic::div_mod::lemma_fundamental_div_mod_converse(
            x - start,
            n as int,
            k,
            r,
        );
    }
}

/// The batch that holds `x` is the one that the distance of `x` from the
/// start, divided by `n`, names.
proof fn lemma_index_of(start: int, end: int, n: int, x: int)
    requires
        n >= 1,
        start <= x <= end,
    ensures
        0 <= (x - start) / n < batch_count(start, end, n),
        start + ((x - start) / n) * n <= x <= start + ((x - start) / n) * n + n - 1,
{
    let k = (x - start) / n;
    vstd::arithmetic::div_mod::lemma_fundamental_div_mod(x - start, n);
    vstd::arithmetic::div_mod::lemma_mod_bound(x - start, n);
    assert(k * n == n * k) by (nonlinear_arith);
    assert(k >= 0) by (nonlinear_arith)
        requires
            n >= 1,
            x - start >= 0,
            x - start == n * k + (x - start) % n,
            0 <= (x - start) % n < n,
    ;
    if start + k * n + n - 1 < end {
        lemma_more_batches(start, end, n, k);
    } else {
        lemma_last_batch(start, end, n, k);
    }
}

/// Whether `runs` are closed intervals, none empty, in ascending order and
/// with a gap between neighbours.
pub open spec fn apart(runs: Seq<(u32, u32)>) -> bool {
    &&& forall|i: int| 0 <= i < runs.len() ==> (#[trigger] runs[i]).0 <= runs[i].1
    &&& forall|i: int, j: int|
        0 <= i < j < runs.len() ==> (#[trigger] runs[i]).1 + 1 < (#[trigger] runs[j]).0
}

/// The runs of a set are apart.
pub proof fn lemma_runs_of_are_apart(runs: Seq<(u32, u32)>, set: Set<u32>)
    requires
        is_runs_of(runs, set),
    ensures
        apart(runs),
{
    assert forall|i: int, j: int| 0 <= i < j < runs.len() implies (#[trigger] runs[i]).1 + 1 < (
    #[trigger] runs[j]).0 by {
        crate::runs::lemma_runs_are_apart(runs, set, i, j);
    }
}

/// The plan for a list of runs starts with the plan for all but the last.
proof fn lemma_plan_unfolds(runs: Seq<(u32, u32)>, n: u32)
    requires
        runs.len() > 0,
    ensures
        plan(runs, n) == plan(runs.drop_last(), n) + batches(runs.last().0, runs.last().1, n),
        plan(runs.drop_last(), n).len() <= plan(runs, n).len(),
{
}

/// Every batch of a plan lies within one of the runs that it was cut from.
pub proof fn lemma_batch_lies_in_a_run(runs: Seq<(u32, u32)>, n: u32, k: int) -> (i: int)
    requires
        apart(runs),
        n >= 1,
        0 <= k < plan(runs, n).len(),
    ensures
        0 <= i < runs.len(),
        runs[i].0 <= plan(runs, n)[k].0 <= plan(runs, n)[k].1 <= runs[i].1,
    decreases runs.len(),
{
    lemma_plan_unfolds(runs, n);
    let init = runs.drop_last();
    let before = plan(init, n);
    if k < before.len() {
        let i = lemma_batch_lies_in_a_run(init, n, k);
        assert(init[i] == runs[i]);
        i
    } else {
        let last = runs.last();
        assert(last.0 <= last.1);
        lemma_batch_bounds(last.0, last.1, n, k - before.len());
        runs.len() - 1
    }
}

/// The batches of a plan are in ascending order and share no number.
pub proof fn lemma_plan_is_ascending(runs: Seq<(u32, u32)>, n: u32, k1: int, k2: int)
    requires
        apart(runs),
        n >= 1,
        0 <= k1 < k2 < plan(runs, n).len(),
    ensures
        plan(runs, n)[k1].1 < plan(runs, n)[k2].0,
    decreases runs.len(),
{
    lemma_plan_unfolds(runs, n);
    let init = runs.drop_last();
    let before = plan(init, n);
    let last = runs.last();
    assert(last.0 <= last.1);
    if k2 < before.len() {
        lemma_plan_is_ascending(init, n, k1, k2);
    } else if k1 < before.len() {
        let i = lemma_batch_lies_in_a_run(init, n, k1);
        assert(init[i] == runs[i]);
        assert(runs[i].1 + 1 < runs[runs.len() - 1].0);
        lemma_batch_bounds(last.0, last.1, n, k2 - before.len());
    } else {
        let a = k1 - before.len();
        let b = k2 - before.len();
        lemma_batch_bounds(last.0, last.1, n, a);
        lemma_batch_bounds(last.0, last.1, n, b);
        assert((a + 1) * n <= b * n) by (nonlinear_arith)
            requires
                a + 1 <= b,
                n >= 1,
        ;
        assert((a + 1) * n == a * n + n) by (nonlinear_arith);
    }
}

/// A plan asks for exactly the numbers of its runs: a number lies in a
/// batch of the plan if and only if it lies in one of the runs.
pub proof fn lemma_plan_covers(runs: Seq<(u32, u32)>, n: u32, x: u32)
    requires
        apart(runs),
        n >= 1,
    ensures
        (exists|k: int| 0 <= k < plan(runs, n).len() && within(#[trigger] plan(runs, n)[k], x))
            <==> (exists|i: int| 0 <= i < runs.len() && within(#[trigger] runs[i], x)),
    decreases runs.len(),
{
    if exists|k: int| 0 <= k < plan(runs, n).len() && within(#[trigger] plan(runs, n)[k], x) {
        let k = choose|k: int|
            0 <= k < plan(runs, n).len() && within(#[trigger] plan(runs, n)[k], x);
        let i = lemma_batch_lies_in_a_run(runs, n, k);
        assert(within(runs[i], x));
    }
    if exists|i: int| 0 <= i < runs.len() && within(#[trigger] runs[i], x) {
        let i = choose|i: int| 0 <= i < runs.len() && within(#[trigger] runs[i], x);
        lemma_plan_unfolds(runs, n);
        let init = runs.drop_last();
        let before = plan(init, n);
        let last = runs.last();
        if i < runs.len() - 1 {
            assert(init[i] == runs[i]);
            assert(within(init[i], x));
            lemma_plan_covers(init, n, x);
            let k = choose|k: int| 0 <= k < before.len() && within(#[trigger] before[k], x);
            assert(plan(runs, n)[k] == before[k]);
            assert(within(plan(runs, n)[k], x));
        } else {
            assert(last.0 <= x <= last.1);
            lemma_batches_cover(last.0, last.1, n);
            let k = batch_index(last.0, n, x);
            let b = batches(last.0, last.1, n);
            assert(within(b[k], x));
            assert(plan(runs, n)[before.len() + k] == b[k]);
            assert(within(plan(runs, n)[before.len() + k], x));
        }
    }
}

/// What a plan achieves: it asks for every number of the set that its runs
/// list, for no other number, and for none twice.
pub proof fn lemma_plan_asks_once_for_each(runs: Seq<(u32, u32)>, set: Set<u32>, n: u32)
    requires
        is_runs_of(runs, set),
        n >= 1,
    ensures
        forall|x: u32|
            set.contains(x) <==> exists|k: int|
                0 <= k < plan(runs, n).len() && within(#[trigger] plan(runs, n)[k], x),
        forall|x: u32, k1: int, k2: int|
            0 <= k1 < plan(runs, n).len() && 0 <= k2 < plan(runs, n).len() && #[trigger] within(
                plan(runs, n)[k1],
                x,
            ) && #[trigger] within(plan(runs, n)[k2], x) ==> k1 == k2,
{
    lemma_runs_of_are_apart(runs, set);
    assert forall|x: u32|
        set.contains(x) <==> exists|k: int|
            0 <= k < plan(runs, n).len() && within(#[trigger] plan(runs, n)[k], x) by {
        lemma_plan_covers(runs, n, x);
        if set.contains(x) {
            let i = choose|i: int| 0 <= i < runs.len() && (#[trigger] runs[i]).0 <= x <= runs[i].1;
            assert(within(runs[i], x));
        }
        if exists|i: int| 0 <= i < runs.len() && within(#[trigger] runs[i], x) {
            let i = choose|i: int| 0 <= i < runs.len() && within(#[trigger] runs[i], x);
            assert(runs[i].0 <= x <= runs[i].1);
        }
    }
    assert forall|x: u32, k1: int, k2: int|
        0 <= k1 < plan(runs, n).len() && 0 <= k2 < plan(runs, n).len() && #[trigger] within(
            plan(runs, n)[k1],
            x,
        ) && #[trigger] within(plan(runs, n)[k2], x) implies k1 == k2 by {
        if k1 < k2 {
            lemma_plan_is_ascending(runs, n, k1, k2);
        } else if k2 < k1 {
            lemma_plan_is_ascending(runs, n, k2, k1);
        }
    }
}

/// A round that is answered in full leaves nothing missing: once every
/// record that the plan asks for has arrived, the same window misses none.
pub proof fn lemma_answered_round_completes(
    model: SyncModel,
    runs: Seq<(u32, u32)>,
    arrived: Set<u32>,
)
    requires
        model.batch_size >= 1,
        is_runs_of(runs, model.missing()),
        forall|x: u32, k: int|
            0 <= k < plan(runs, model.batch_size).len() && #[trigger] within(
                plan(runs, model.batch_size)[k],
                x,
            ) ==> arrived.contains(x),
    ensures
        (SyncModel { received: model.received.union(arrived), ..model }).missing()
            == Set::<u32>::empty(),
{
    let after = SyncModel { received: model.received.union(arrived), ..model };
    lemma_plan_asks_once_for_each(runs, model.missing(), model.batch_size);
    assert forall|x: u32| !after.missing().contains(x) by {
        if after.missing().contains(x) {
            assert(model.missing().contains(x));
            let k = choose|k: int|
                0 <= k < plan(runs, model.batch_size).len() && within(
                    #[trigger] plan(runs, model.batch_size)[k],
                    x,
                );
            assert(within(plan(runs, model.batch_size)[k], x));
        }
    }
    assert(after.missing() =~= Set::<u32>::empty());
}

/// Where batch `k` reaches the end, it is the last one.
proof fn lemma_last_batch(start: int, end: int, n: int, k: int)
    requires
        n >= 1,
        k >= 0,
        start + k * n <= end <= start + k * n + n - 1,
    ensures
        batch_count(start, end, n) == k + 1,
{
    let d = end - start + n;
    assert((k + 1) * n == k * n + n) by (nonlinear_arith);
    assert((k + 1) * n <= d < (k + 1) * n + n);
    vstd::arithmetic::div_mod::lemma_fundamental_div_mod_converse(d, n, k + 1, d - (k + 1) * n);
}

/// Where batch `k` stops short of the end, another follows it.
proof fn lemma_more_batches(start: int, end: int, n: int, k: int)
    requires
        n >= 1,
        k >= -1,
        start + k * n + n - 1 < end,
    ensures
        k + 1 < batch_count(start, end, n),
{
    let d = end - start + n;
    let q = d / n;
    vstd::arithmetic::div_mod::lemma_fundamental_div_mod(d, n);
    vstd::arithmetic::div_mod::lemma_mod_bound(d, n);
    assert((k + 2) * n == k * n + n + n) by (nonlinear_arith);
    assert(d >= (k + 2) * n);
    assert(q >= k + 2) by (nonlinear_arith)
        requires
            n >= 1,
            d == n * q + d % n,
            0 <= d % n < n,
            d >= (k + 2) * n,
    ;
}

} // verus!
