//! Click and key counters, their read-and-reset, and the laws that no event is
//! lost or counted twice.

use vstd::prelude::*;

verus! {

/// What a qualifying input event counts as.
#[derive(Clone, Copy, Debug, PartialEq, Eq, Structural)]
pub enum EventKind {
    Click,
    Key,
}

/// A snapshot of the two counters.
#[derive(Clone, Copy, Debug, PartialEq, Eq, Structural)]
pub struct ActivityCounters {
    pub clicks: u64,
    pub keys: u64,
}

/// The counters that every run starts from.
pub open spec fn zero_counters() -> ActivityCounters {
    ActivityCounters { clicks: 0, keys: 0 }
}

/// One more, wrapping to zero past `u64::MAX`.
pub open spec fn bump(n: u64) -> u64 {
    if n == u64::MAX {
        0
    } else {
        (n + 1) as u64
    }
}

/// The counters after one event of kind `k`.
pub open spec fn step(c: ActivityCounters, k: EventKind) -> ActivityCounters {
    match k {
        EventKind::Click => ActivityCounters { clicks: bump(c.clicks), keys: c.keys },
        EventKind::Key => ActivityCounters { clicks: c.clicks, keys: bump(c.keys) },
    }
}

/// The counters after the events of `events`, in order.
pub open spec fn run_events(c: ActivityCounters, events: Seq<EventKind>) -> ActivityCounters
    decreases events.len(),
{
    if events.len() == 0 {
        c
    } else {
        step(run_events(c, events.drop_last()), events.last())
    }
}

/// How many events of kind `k` there are in `events`.
pub open spec fn count_kind(events: Seq<EventKind>, k: EventKind) -> nat
    decreases events.len(),
{
    if events.len() == 0 {
        0
    } else {
        count_kind(events.drop_last(), k) + if events.last() == k {
            1nat
        } else {
            0nat
        }
    }
}

/// The modulus of the counters' wrapping arithmetic.
pub open spec fn word() -> nat {
    0x1_0000_0000_0000_0000nat
}

/// The process-wide store of the two counters.
pub struct CounterStore {
    counts: ActivityCounters,
}

impl View for CounterStore {
    type V = ActivityCounters;

    closed spec fn view(&self) -> ActivityCounters {
        self.counts
    }
}

impl CounterStore {
    /// A store with both counters at zero.
    pub fn new() -> (r: CounterStore)
        ensures
            r@ == zero_counters(),
    {
        CounterStore { counts: ActivityCounters { clicks: 0, keys: 0 } }
    }

    /// Counts one event of kind `kind`.
    pub fn record(&mut self, kind: EventKind)
        ensures
            final(self)@ == step(old(self)@, kind),
    {
        match kind {
            EventKind::Click => {
                self.counts.clicks = self.counts.clicks.wrapping_add(1);
            },
            EventKind::Key => {
                self.counts.keys = self.counts.keys.wrapping_add(1);
            },
        }
    }

    /// Counts an event that was classified as `kind`; `None` is ignored.
    pub fn record_classified(&mut self, kind: Option<EventKind>)
        ensures
            final(self)@ == match kind {
                Some(k) => step(old(self)@, k),
                None => old(self)@,
            },
    {
        if let Some(k) = kind {
            self.record(k);
        }
    }

    /// Returns the counters and sets both to zero.
    pub fn snapshot_and_reset(&mut self) -> (r: ActivityCounters)
        ensures
            r == old(self)@,
            final(self)@ == zero_counters(),
    {
        let r = self.counts;
        self.counts = ActivityCounters { clicks: 0, keys: 0 };
        r
    }
}

proof fn lemma_bump_mod(n: u64)
    ensures
        bump(n) as int == (n as int + 1) % (word() as int),
{
    if n == u64::MAX {
        assert((u64::MAX as int + 1) % (word() as int) == 0);
    } else {
        assert((n as int + 1) % (word() as int) == n as int + 1);
    }
}

/// Counting a run of events from zero yields, for each kind, the number of
/// events of that kind (modulo 2^64, as the counters wrap).
pub proof fn lemma_run_counts(events: Seq<EventKind>)
    ensures
        run_events(zero_counters(), events).clicks as int == (count_kind(events, EventKind::Click)
            as int) % (word() as int),
        run_events(zero_counters(), events).keys as int == (count_kind(events, EventKind::Key)
            as int) % (word() as int),
    decreases events.len(),
{
    if events.len() > 0 {
        let prev = events.drop_last();
        lemma_run_counts(prev);
        let c = run_events(zero_counters(), prev);
        lemma_bump_mod(c.clicks);
        lemma_bump_mod(c.keys);
        let m = word() as int;
        let nc = count_kind(prev, EventKind::Click) as int;
        let nk = count_kind(prev, EventKind::Key) as int;
        vstd::arithmetic::div_mod::lemma_add_mod_noop(nc, 1, m);
        vstd::arithmetic::div_mod::lemma_add_mod_noop(nk, 1, m);
        vstd::arithmetic::div_mod::lemma_mod_twice(nc, m);
        vstd::arithmetic::div_mod::lemma_mod_twice(nk, m);
        vstd::arithmetic::div_mod::lemma_small_mod(1nat, m as nat);
    }
}

/// One operation on the store: an event counted, or a read-and-reset.
pub enum CounterOp {
    Event(EventKind),
    Snapshot,
}

/// The store after `ops` from zero, and the clicks and keys that the
/// snapshots among them returned in all.
pub open spec fn replay(ops: Seq<CounterOp>) -> (ActivityCounters, int, int)
    decreases ops.len(),
{
    if ops.len() == 0 {
        (zero_counters(), 0, 0)
    } else {
        let (c, seen_clicks, seen_keys) = replay(ops.drop_last());
        match ops.last() {
            CounterOp::Event(k) => (step(c, k), seen_clicks, seen_keys),
            CounterOp::Snapshot => (zero_counters(), seen_clicks + c.clicks, seen_keys + c.keys),
        }
    }
}

/// How many events of kind `k` the operations count.
pub open spec fn injected(ops: Seq<CounterOp>, k: EventKind) -> nat
    decreases ops.len(),
{
    if ops.len() == 0 {
        0
    } else {
        injected(ops.drop_last(), k) + match ops.last() {
            CounterOp::Event(e) => if e == k {
                1nat
            } else {
                0nat
            },
            CounterOp::Snapshot => 0nat,
        }
    }
}

proof fn lemma_tally_step(seen: int, c: u64, n: int)
    requires
        seen >= 0,
        n >= 0,
        (seen + c) % (word() as int) == n % (word() as int),
    ensures
        (seen + bump(c)) % (word() as int) == (n + 1) % (word() as int),
{
    let m = word() as int;
    lemma_bump_mod(c);
    vstd::arithmetic::div_mod::lemma_add_mod_noop_right(seen, c + 1, m);
    vstd::arithmetic::div_mod::lemma_add_mod_noop(seen + c, 1, m);
    vstd::arithmetic::div_mod::lemma_add_mod_noop(n, 1, m);
}

/// However events and read-and-resets interleave, no event is lost or counted
/// twice: what all snapshots returned plus what the store still holds equals,
/// for each kind, the number of events injected (modulo 2^64, as the counters
/// wrap).
pub proof fn lemma_no_event_lost(ops: Seq<CounterOp>)
    ensures
        ({
            let (c, seen_clicks, seen_keys) = replay(ops);
            &&& (seen_clicks + c.clicks) % (word() as int) == (injected(ops, EventKind::Click) as int)
                % (word() as int)
            &&& (seen_keys + c.keys) % (word() as int) == (injected(ops, EventKind::Key) as int) % (
            word() as int)
        }),
    decreases ops.len(),
{
    if ops.len() > 0 {
        let prev = ops.drop_last();
        lemma_no_event_lost(prev);
        let (c, seen_clicks, seen_keys) = replay(prev);
        lemma_replay_nonneg(prev);
        match ops.last() {
            CounterOp::Event(k) => {
                if k == EventKind::Click {
                    lemma_tally_step(seen_clicks, c.clicks, injected(prev, EventKind::Click) as int);
                } else {
                    lemma_tally_step(seen_keys, c.keys, injected(prev, EventKind::Key) as int);
                }
            },
            CounterOp::Snapshot => {},
        }
    }
}

/// The operations that inject `events`, in order, with no read between them.
pub open spec fn injections(events: Seq<EventKind>) -> Seq<CounterOp> {
    events.map_values(|e: EventKind| CounterOp::Event(e))
}

proof fn lemma_replay_injections(events: Seq<EventKind>)
    ensures
        replay(injections(events)) == (run_events(zero_counters(), events), 0int, 0int),
    decreases events.len(),
{
    if events.len() > 0 {
        let prev = events.drop_last();
        assert(injections(events).drop_last() =~= injections(prev));
        lemma_replay_injections(prev);
    }
}

/// Injecting events and then reading twice: the first read returns, for each
/// kind, the number of events of that kind (modulo 2^64), and the second read
/// returns zero for both.
pub proof fn lemma_read_twice(events: Seq<EventKind>)
    ensures
        ({
            let first = injections(events).push(CounterOp::Snapshot);
            let second = first.push(CounterOp::Snapshot);
            &&& replay(first).1 == (count_kind(events, EventKind::Click) as int) % (word() as int)
            &&& replay(first).2 == (count_kind(events, EventKind::Key) as int) % (word() as int)
            &&& replay(second).1 == replay(first).1
            &&& replay(second).2 == replay(first).2
            &&& replay(second).0 == zero_counters()
        }),
{
    let first = injections(events).push(CounterOp::Snapshot);
    let second = first.push(CounterOp::Snapshot);
    assert(first.drop_last() =~= injections(events));
    assert(second.drop_last() =~= first);
    lemma_replay_injections(events);
    lemma_run_counts(events);
}

/// However events and read-and-resets interleave, while fewer than 2^64 events
/// of a kind are injected, what all snapshots returned plus what the store
/// still holds equals exactly the number of events of that kind injected.
pub proof fn lemma_no_event_lost_exact(ops: Seq<CounterOp>)
    requires
        injected(ops, EventKind::Click) < word(),
        injected(ops, EventKind::Key) < word(),
    ensures
        ({
            let (c, seen_clicks, seen_keys) = replay(ops);
            &&& seen_clicks + c.clicks == injected(ops, EventKind::Click)
            &&& seen_keys + c.keys == injected(ops, EventKind::Key)
        }),
    decreases ops.len(),
{
    if ops.len() > 0 {
        let prev = ops.drop_last();
        lemma_no_event_lost_exact(prev);
        lemma_replay_nonneg(prev);
    }
}

proof fn lemma_replay_nonneg(ops: Seq<CounterOp>)
    ensures
        replay(ops).1 >= 0,
        replay(ops).2 >= 0,
    decreases ops.len(),
{
    if ops.len() > 0 {
        lemma_replay_nonneg(ops.drop_last());
    }
}

} // verus!
