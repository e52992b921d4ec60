use vstd::prelude::*;

verus! {

/// Least time between two written rows: 500 ms, in nanoseconds.
pub const LOGGING_PERIOD_NS: u64 = 500_000_000;

/// Whether a point arriving at `now` is written, when the previous row was
/// written (or the consumer started) at `last`. Times are monotonic
/// nanoseconds.
pub open spec fn due(last: u64, now: u64) -> bool {
    now - last >= LOGGING_PERIOD_NS
}

/// The time of the last write after a point arrives at `now`.
pub open spec fn step(last: u64, now: u64) -> u64 {
    if due(last, now) {
        now
    } else {
        last
    }
}

/// The number of rows written for points arriving at `times`, in order, when
/// the previous row was written at `last`.
pub open spec fn rows_written(last: u64, times: Seq<u64>) -> nat
    decreases times.len(),
{
    if times.len() == 0 {
        0
    } else {
        (if due(last, times[0]) {
            1nat
        } else {
            0nat
        }) + rows_written(step(last, times[0]), times.drop_first())
    }
}

/// Whether `times` come in order and all within one period of the first.
pub open spec fn is_burst(times: Seq<u64>) -> bool {
    &&& times.len() > 0
    &&& forall|a: int, b: int| 0 <= a <= b < times.len() ==> times[a] <= times[b]
    &&& times.last() - times[0] < LOGGING_PERIOD_NS
}

proof fn lemma_quiet_within_period(last: u64, times: Seq<u64>)
    requires
        forall|a: int| 0 <= a < times.len() ==> times[a] - last < LOGGING_PERIOD_NS,
    ensures
        rows_written(last, times) == 0,
    decreases times.len(),
{
    if times.len() > 0 {
        lemma_quiet_within_period(last, times.drop_first());
    }
}

/// A burst of points that arrive within less than one period, the first of
/// them at least one period after the previous write, yields exactly one row:
/// the first point's.
pub proof fn lemma_burst_writes_one_row(last: u64, times: Seq<u64>)
    requires
        is_burst(times),
        due(last, times[0]),
    ensures
        rows_written(last, times) == 1,
{
    let rest = times.drop_first();
    assert forall|a: int| 0 <= a < rest.len() implies rest[a] - times[0] < LOGGING_PERIOD_NS by {
        assert(rest[a] == times[a + 1]);
        assert(times[a + 1] <= times[times.len() - 1]);
    }
    lemma_quiet_within_period(times[0], rest);
}

/// The consumer's sampling rule: a point is written only when at least one
/// period has passed since the previous row was written, or since the consumer
/// started; the others are discarded.
#[derive(Debug, Clone, Copy, PartialEq, Eq, Structural)]
pub struct Throttle {
    /// Monotonic time, in nanoseconds, of the last write or of the start.
    pub last_written: u64,
}

impl Throttle {
    /// The rule of a consumer that started at `started_at`.
    pub fn new(started_at: u64) -> (r: Throttle)
        ensures
            r.last_written == started_at,
    {
        Throttle { last_written: started_at }
    }

    /// Decides whether the point arriving at `now` is written, and if so
    /// records `now` as the time of the last write.
    pub fn should_write(&mut self, now: u64) -> (write: bool)
        ensures
            write == due(old(self).last_written, now),
            final(self).last_written == step(old(self).last_written, now),
    {
        if now >= self.last_written && now - self.last_written >= LOGGING_PERIOD_NS {
            self.last_written = now;
            true
        } else {
            false
        }
    }
}

} // verus!
