//! The schedule of the server's periodic status report.
use vstd::prelude::*;

verus! {

/// Milliseconds between two status reports of the server.
pub const HEARTBEAT_PERIOD_MS: u64 = 60_000;

/// When the next status report is due.
pub struct Heartbeat {
    next_due_ms: u64,
}

/// What a tick at `now_ms` does to a schedule whose next report is due at
/// `next_due_ms`: whether it reports, and the new due time.
pub open spec fn after_tick(next_due_ms: u64, now_ms: u64) -> (bool, u64) {
    if now_ms < next_due_ms {
        (false, next_due_ms)
    } else {
        (true, if now_ms + HEARTBEAT_PERIOD_MS <= u64::MAX { (now_ms + HEARTBEAT_PERIOD_MS) as u64 } else { u64::MAX })
    }
}

impl Heartbeat {
    /// The time, in milliseconds since the server started, at which the next
    /// report is due.
    pub closed spec fn due_at(&self) -> u64 {
        self.next_due_ms
    }

    /// A schedule whose first report is due at once.
    pub fn new() -> (heartbeat: Heartbeat)
        ensures
            heartbeat.due_at() == 0,
    {
        Heartbeat { next_due_ms: 0 }
    }

    /// The time at which the next report is due.
    pub fn next_due_ms(&self) -> (due: u64)
        ensures
            due == self.due_at(),
    {
        self.next_due_ms
    }

    /// Says whether a report is due at `now_ms` (milliseconds since the server
    /// started); when it is, the next one is scheduled a period later.
    pub fn tick(&mut self, now_ms: u64) -> (report: bool)
        ensures
            (report, final(self).due_at()) == after_tick(old(self).due_at(), now_ms),
    {
        if now_ms < self.next_due_ms {
            return false;
        }
        self.next_due_ms = now_ms.saturating_add(HEARTBEAT_PERIOD_MS);
        true
    }
}

impl Default for Heartbeat {
    /// A schedule whose first report is due at once.
    fn default() -> (heartbeat: Heartbeat)
        ensures
            heartbeat.due_at() == 0,
    {
        Heartbeat::new()
    }
}

/// A fresh schedule reports at the first tick, whenever it comes.
pub proof fn lemma_first_tick_reports(now_ms: u64)
    ensures
        after_tick(0, now_ms).0,
{
}

/// A tick that does not report leaves the schedule as it was.
pub proof fn lemma_quiet_tick_keeps_schedule(next_due_ms: u64, now_ms: u64)
    ensures
        !after_tick(next_due_ms, now_ms).0 ==> after_tick(next_due_ms, now_ms).1 == next_due_ms,
        after_tick(next_due_ms, now_ms).0 <==> now_ms >= next_due_ms,
{
}

/// Two reports are at least a period apart: after a report at `first_ms`, a
/// later tick at `later_ms` reports only if a whole period has passed.
pub proof fn lemma_reports_a_period_apart(next_due_ms: u64, first_ms: u64, later_ms: u64)
    requires
        after_tick(next_due_ms, first_ms).0,
        first_ms + HEARTBEAT_PERIOD_MS <= u64::MAX,
    ensures
        after_tick(after_tick(next_due_ms, first_ms).1, later_ms).0 <==> later_ms >= first_ms + HEARTBEAT_PERIOD_MS,
{
}

/// The due time after a schedule that was due at `next_due_ms` has been
/// ticked at each of `times`, in order.
pub open spec fn due_after_ticks(next_due_ms: u64, times: Seq<u64>) -> u64
    decreases times.len(),
{
    if times.len() == 0 {
        next_due_ms
    } else {
        after_tick(due_after_ticks(next_due_ms, times.drop_last()), times.last()).1
    }
}

/// Whether the tick at `times[i]` reports, in a run of ticks at `times` on a
/// schedule that was due at `next_due_ms`.
pub open spec fn reports_at(next_due_ms: u64, times: Seq<u64>, i: int) -> bool {
    after_tick(due_after_ticks(next_due_ms, times.take(i)), times[i]).0
}

/// Ticking never moves the due time earlier.
proof fn lemma_due_never_earlier(next_due_ms: u64, times: Seq<u64>, k1: int, k2: int)
    requires
        0 <= k1 <= k2 <= times.len(),
    ensures
        due_after_ticks(next_due_ms, times.take(k1)) <= due_after_ticks(next_due_ms, times.take(k2)),
    decreases k2 - k1,
{
    if k1 < k2 {
        lemma_due_never_earlier(next_due_ms, times, k1, k2 - 1);
        assert(times.take(k2).drop_last() =~= times.take(k2 - 1));
        assert(times.take(k2).last() == times[k2 - 1]);
    }
}

/// In any run of ticks, two reports are at least a period apart: if the ticks
/// at `times[i]` and at a later `times[j]` both report, and the period after
/// the first report still fits in the millisecond clock, then
/// `times[j] >= times[i] + HEARTBEAT_PERIOD_MS`.
pub proof fn lemma_reports_spaced_in_any_run(next_due_ms: u64, times: Seq<u64>, i: int, j: int)
    requires
        0 <= i < j < times.len(),
        reports_at(next_due_ms, times, i),
        reports_at(next_due_ms, times, j),
        times[i] + HEARTBEAT_PERIOD_MS <= u64::MAX,
    ensures
        times[j] >= times[i] + HEARTBEAT_PERIOD_MS,
{
    assert(times.take(i + 1).drop_last() =~= times.take(i));
    assert(times.take(i + 1).last() == times[i]);
    assert(due_after_ticks(next_due_ms, times.take(i + 1)) == times[i] + HEARTBEAT_PERIOD_MS);
    lemma_due_never_earlier(next_due_ms, times, i + 1, j);
}

/// In any run of ticks, a tick reports exactly when it comes at or after the
/// due time, and a tick that does not report leaves the due time unchanged.
pub proof fn lemma_tick_in_run(next_due_ms: u64, times: Seq<u64>, i: int)
    requires
        0 <= i < times.len(),
    ensures
        reports_at(next_due_ms, times, i) <==> times[i] >= due_after_ticks(next_due_ms, times.take(i)),
        !reports_at(next_due_ms, times, i) ==> due_after_ticks(next_due_ms, times.take(i + 1)) == due_after_ticks(next_due_ms, times.take(i)),
{
    assert(times.take(i + 1).drop_last() =~= times.take(i));
    assert(times.take(i + 1).last() == times[i]);
}

} // verus!
