//! The window of recent input events, which sets how strongly fast typing
//! boosts the pulses. Times are nanoseconds on a monotonic clock.
use vstd::prelude::*;
use std::collections::VecDeque;

verus! {

/// The most events that the window remembers.
pub const MAX_EVENTS: usize = 512;

/// How long an event counts as recent: one second.
pub const EVENT_WINDOW_NANOS: u64 = 1_000_000_000;

/// An event at time `t` has left the window at time `now`: more than the
/// window has passed since it (no time has passed if `t` is later).
pub open spec fn expired(t: u64, now: u64) -> bool {
    t < now && now - t > EVENT_WINDOW_NANOS
}

/// `times` with its expired events removed from the front, up to the first
/// one that is still recent.
pub open spec fn spec_prune(times: Seq<u64>, now: u64) -> Seq<u64>
    decreases times.len(),
{
    if times.len() > 0 && expired(times[0], now) {
        spec_prune(times.drop_first(), now)
    } else {
        times
    }
}

/// `times` with its oldest events dropped until at most `MAX_EVENTS` are left.
pub open spec fn spec_cap(times: Seq<u64>) -> Seq<u64> {
    if times.len() > MAX_EVENTS {
        times.skip(times.len() - MAX_EVENTS)
    } else {
        times
    }
}

/// The window after an event at `now`: appended, capped, then pruned.
pub open spec fn spec_record(times: Seq<u64>, now: u64) -> Seq<u64> {
    spec_prune(spec_cap(times.push(now)), now)
}

/// Pruning keeps a suffix of the window, and what it drops had expired.
pub proof fn lemma_prune_suffix(times: Seq<u64>, now: u64)
    ensures
        spec_prune(times, now).len() <= times.len(),
        spec_prune(times, now) == times.skip(times.len() - spec_prune(times, now).len()),
        forall|i: int|
            0 <= i < times.len() - spec_prune(times, now).len() ==> expired(#[trigger] times[i], now),
        spec_prune(times, now).len() > 0 ==> !expired(spec_prune(times, now)[0], now),
    decreases times.len(),
{
    if times.len() > 0 && expired(times[0], now) {
        let rest = times.drop_first();
        lemma_prune_suffix(rest, now);
        let p = spec_prune(rest, now);
        assert(rest.skip(rest.len() - p.len()) =~= times.skip(times.len() - p.len()));
        assert forall|i: int| 0 <= i < times.len() - p.len() implies expired(#[trigger] times[i], now) by {
            if i > 0 {
                assert(times[i] == rest[i - 1]);
            }
        }
    } else {
        assert(times.skip(0) =~= times);
    }
}

/// A recorded window never holds more than `MAX_EVENTS` events.
pub proof fn lemma_record_bounded(times: Seq<u64>, now: u64)
    ensures
        spec_record(times, now).len() <= MAX_EVENTS,
{
    lemma_prune_suffix(spec_cap(times.push(now)), now);
}

/// The times are in the order of the clock: none is later than one after it.
pub open spec fn time_ordered(times: Seq<u64>) -> bool {
    forall|i: int, j: int| 0 <= i <= j < times.len() ==> times[i] <= times[j]
}

/// Pruning a window whose events came in time order leaves only recent
/// events, still in order.
pub proof fn lemma_ordered_prune_all_recent(times: Seq<u64>, now: u64)
    requires
        time_ordered(times),
    ensures
        time_ordered(spec_prune(times, now)),
        forall|i: int| 0 <= i < spec_prune(times, now).len() ==> !expired(#[trigger] spec_prune(times, now)[i], now),
{
    lemma_prune_suffix(times, now);
    let p = spec_prune(times, now);
    let off = times.len() - p.len();
    assert forall|i: int, j: int| 0 <= i <= j < p.len() implies p[i] <= p[j] by {
        assert(p[i] == times[off + i]);
        assert(p[j] == times[off + j]);
    }
    assert forall|i: int| 0 <= i < p.len() implies !expired(#[trigger] p[i], now) by {
        assert(p[0] <= p[i]);
    }
}

/// Recording, at a time no earlier than the last event, into a window whose
/// events came in time order keeps them in order, and leaves in the window
/// only events less than the window old.
pub proof fn lemma_record_all_recent(times: Seq<u64>, now: u64)
    requires
        time_ordered(times),
        times.len() > 0 ==> times.last() <= now,
    ensures
        time_ordered(spec_record(times, now)),
        forall|i: int| 0 <= i < spec_record(times, now).len() ==> !expired(#[trigger] spec_record(times, now)[i], now),
{
    let pushed = times.push(now);
    assert forall|i: int, j: int| 0 <= i <= j < pushed.len() implies pushed[i] <= pushed[j] by {
        if j == times.len() {
            if i < j {
                assert(times[i] <= times.last());
            }
        }
    }
    let capped = spec_cap(pushed);
    assert forall|i: int, j: int| 0 <= i <= j < capped.len() implies capped[i] <= capped[j] by {
        if pushed.len() > MAX_EVENTS {
            let off = pushed.len() - MAX_EVENTS;
            assert(capped[i] == pushed[off + i]);
            assert(capped[j] == pushed[off + j]);
        }
    }
    lemma_ordered_prune_all_recent(capped, now);
}

/// An event recorded at `now` is the newest one in the window afterwards.
pub proof fn lemma_record_keeps_now(times: Seq<u64>, now: u64)
    ensures
        spec_record(times, now).len() > 0,
        spec_record(times, now).last() == now,
{
    let capped = spec_cap(times.push(now));
    assert(capped.len() > 0 && capped.last() == now);
    lemma_prune_suffix(capped, now);
    let p = spec_prune(capped, now);
    if p.len() == 0 {
        assert(expired(capped[capped.len() - 1], now));
    } else {
        assert(p.last() == capped[capped.len() - 1]);
    }
}

/// An event leaves the window exactly when more than one second (10^9 ns)
/// separates it from `now`, and the window never holds more than 512 events
/// after a record.
pub proof fn lemma_window_limits(t: u64, now: u64, times: Seq<u64>)
    ensures
        expired(t, now) <==> (t < now && now - t > 1_000_000_000),
        spec_record(times, now).len() <= 512,
{
    lemma_record_bounded(times, now);
}

/// The times of recent events, oldest first.
#[derive(Debug)]
pub struct EventWindow {
    times: VecDeque<u64>,
}

impl View for EventWindow {
    type V = Seq<u64>;

    closed spec fn view(&self) -> Seq<u64> {
        self.times@
    }
}

impl EventWindow {
    /// An empty window.
    pub fn new() -> (r: EventWindow)
        ensures
            r@ == Seq::<u64>::empty(),
    {
        EventWindow { times: VecDeque::with_capacity(MAX_EVENTS) }
    }

    /// How many events the window holds.
    pub fn len(&self) -> (r: usize)
        ensures
            r == self@.len(),
    {
        self.times.len()
    }

    /// Drops, oldest first, the events that have left the window at `now`,
    /// up to the first one that is still recent.
    pub fn prune(&mut self, now: u64)
        ensures
            final(self)@ == spec_prune(old(self)@, now),
    {
        loop
            invariant
                spec_prune(self.times@, now) == spec_prune(old(self)@, now),
            ensures
                self.times@ == spec_prune(old(self)@, now),
            decreases self.times@.len(),
        {
            let expired_front = if self.times.len() > 0 {
                let t = self.times[0];
                t < now && now - t > EVENT_WINDOW_NANOS
            } else {
                false
            };
            if !expired_front {
                break;
            }
            self.times.pop_front();
        }
    }

    /// Records an event at `now`: appends it, forgets the oldest events
    /// beyond `MAX_EVENTS`, then prunes the window at `now`.
    pub fn record(&mut self, now: u64)
        ensures
            final(self)@ == spec_record(old(self)@, now),
            final(self)@.len() <= MAX_EVENTS,
    {
        let ghost pushed = old(self)@.push(now);
        self.times.push_back(now);
        while self.times.len() > MAX_EVENTS
            invariant
                self.times@.len() <= pushed.len(),
                self.times@ == pushed.skip(pushed.len() - self.times@.len()),
                pushed.len() > MAX_EVENTS ==> self.times@.len() >= MAX_EVENTS,
                pushed.len() <= MAX_EVENTS ==> self.times@.len() == pushed.len(),
            decreases self.times@.len(),
        {
            self.times.pop_front();
            assert(self.times@ =~= pushed.skip(pushed.len() - self.times@.len()));
        }
        assert(pushed.skip(0) =~= pushed);
        assert(self.times@ =~= spec_cap(pushed));
        let ghost capped = self.times@;
        self.prune(now);
        proof {
            lemma_prune_suffix(capped, now);
        }
    }
}

} // verus!
