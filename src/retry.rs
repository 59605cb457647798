//! Reconnect policy: exponential backoff with a stability reset.
//!
//! Instants and spans are plain milliseconds, sleeps are whole seconds.
use vstd::prelude::*;

verus! {

/// Seconds in one minute.
pub const SECS_PER_MINUTE: u64 = 60;

/// Sleep after an attempt when no failure history is left.
pub const MIN_SLEEP_SECS: u64 = 1;

/// 2 to the power `n`.
pub open spec fn pow2(n: nat) -> nat
    decreases n,
{
    if n == 0 {
        1
    } else {
        2 * pow2((n - 1) as nat)
    }
}

pub open spec fn min_nat(a: nat, b: nat) -> nat {
    if a <= b {
        a
    } else {
        b
    }
}

/// The sleep, in seconds, that follows an attempt made with `count` failures
/// behind it: one second for none, else `2^(count-1)` minutes capped at `max_secs`.
pub open spec fn sleep_secs(count: nat, max_secs: nat) -> nat {
    if count == 0 {
        MIN_SLEEP_SECS as nat
    } else {
        min_nat(pow2((count - 1) as nat) * (SECS_PER_MINUTE as nat), max_secs)
    }
}

/// An attempt that ran for longer than the window was a healthy session.
pub open spec fn is_stable(before_ms: int, after_ms: int, window_ms: int) -> bool {
    after_ms - before_ms > window_ms
}

/// The failure count once an attempt that ran `elapsed_ms` has been judged.
pub open spec fn reset_count(count: nat, elapsed_ms: int, window_ms: int) -> nat {
    if elapsed_ms > window_ms {
        0
    } else {
        count
    }
}

/// One more attempt on the count, held within `u64`.
pub open spec fn inc_count(count: nat) -> nat {
    if count < u64::MAX {
        count + 1
    } else {
        count
    }
}

/// The count after a run of attempts, from a fresh state, whose running times
/// are `elapsed` in order.
pub open spec fn count_after(elapsed: Seq<int>, window_ms: int) -> nat
    decreases elapsed.len(),
{
    if elapsed.len() == 0 {
        0
    } else {
        inc_count(reset_count(count_after(elapsed.drop_last(), window_ms), elapsed.last(), window_ms))
    }
}

/// The sleep that follows the last attempt of a non-empty run.
pub open spec fn sleep_after(elapsed: Seq<int>, window_ms: int, max_secs: nat) -> nat {
    sleep_secs(
        reset_count(count_after(elapsed.drop_last(), window_ms), elapsed.last(), window_ms),
        max_secs,
    )
}

pub proof fn lemma_pow2_positive(n: nat)
    ensures
        pow2(n) >= 1,
    decreases n,
{
    if n > 0 {
        lemma_pow2_positive((n - 1) as nat);
    }
}

pub proof fn lemma_pow2_monotone(a: nat, b: nat)
    requires
        a <= b,
    ensures
        pow2(a) <= pow2(b),
    decreases b - a,
{
    if a < b {
        lemma_pow2_monotone(a, (b - 1) as nat);
        lemma_pow2_positive((b - 1) as nat);
    }
}

/// How long to wait after an attempt that had `count` failures behind it.
pub fn to_sleep_duration(count: u64, max_retry_secs: u64) -> (r: u64)
    ensures
        r == sleep_secs(count as nat, max_retry_secs as nat),
{
    if count == 0 {
        return MIN_SLEEP_SECS;
    }
    let mut secs: u64 = SECS_PER_MINUTE;
    let mut i: u64 = 1;
    while i < count
        invariant
            1 <= i <= count,
            secs as nat == pow2((i - 1) as nat) * 60,
        decreases count - i,
    {
        if secs >= max_retry_secs || secs > u64::MAX / 2 {
            proof {
                lemma_pow2_monotone((i - 1) as nat, (count - 1) as nat);
                lemma_pow2_monotone(i as nat, (count - 1) as nat);
                assert(pow2(i as nat) == 2 * pow2((i - 1) as nat));
            }
            return max_retry_secs;
        }
        secs = secs * 2;
        i = i + 1;
    }
    if secs < max_retry_secs {
        secs
    } else {
        max_retry_secs
    }
}

/// Whether an attempt that began at `before_ms` and ended at `after_ms` ran
/// for longer than `window_ms`.
pub fn can_reset(before_ms: i64, after_ms: i64, window_ms: i64) -> (r: bool)
    ensures
        r == is_stable(before_ms as int, after_ms as int, window_ms as int),
{
    (after_ms as i128) - (before_ms as i128) > window_ms as i128
}

/// What the reconnect supervisor carries from one attempt to the next.
pub struct RetryState {
    /// Attempts since the last reset.
    pub count: u64,
}

impl RetryState {
    pub fn new() -> (r: RetryState)
        ensures
            r.count == 0,
    {
        RetryState { count: 0 }
    }

    /// Judges an attempt that ran from `before_ms` to `after_ms`: the count is
    /// reset when it ran longer than `window_ms`, the sleep is taken from the
    /// count so judged, and then the count goes up by one.
    pub fn record_attempt(&mut self, before_ms: i64, after_ms: i64, window_ms: i64, max_retry_secs: u64) -> (sleep: u64)
        ensures
            sleep == sleep_secs(
                reset_count(old(self).count as nat, after_ms - before_ms, window_ms as int),
                max_retry_secs as nat,
            ),
            final(self).count == inc_count(
                reset_count(old(self).count as nat, after_ms - before_ms, window_ms as int),
            ),
    {
        if can_reset(before_ms, after_ms, window_ms) {
            self.count = 0;
        }
        let sleep = to_sleep_duration(self.count, max_retry_secs);
        if self.count < u64::MAX {
            self.count = self.count + 1;
        }
        sleep
    }
}

/// While no attempt outlives the window, each attempt adds one to the count,
/// and the sleep after the `n`-th attempt is the one owed to `n - 1` failures:
/// the doubling schedule, capped, with no reset.
pub proof fn lemma_short_attempts_follow_schedule(elapsed: Seq<int>, window_ms: int, max_secs: nat)
    requires
        elapsed.len() <= u64::MAX,
        forall|i: int| 0 <= i < elapsed.len() ==> #[trigger] elapsed[i] <= window_ms,
    ensures
        count_after(elapsed, window_ms) == elapsed.len(),
        elapsed.len() > 0 ==> sleep_after(elapsed, window_ms, max_secs) == sleep_secs(
            (elapsed.len() - 1) as nat,
            max_secs,
        ),
    decreases elapsed.len(),
{
    if elapsed.len() > 0 {
        let prefix = elapsed.drop_last();
        assert forall|i: int| 0 <= i < prefix.len() implies #[trigger] prefix[i] <= window_ms by {
            assert(prefix[i] == elapsed[i]);
        }
        lemma_short_attempts_follow_schedule(prefix, window_ms, max_secs);
        assert(elapsed.last() == elapsed[elapsed.len() - 1]);
    }
}

/// An attempt that outlives the window clears the history: the sleep after it
/// is the shortest one, and one attempt is counted.
pub proof fn lemma_long_attempt_resets(elapsed: Seq<int>, window_ms: int, max_secs: nat)
    requires
        elapsed.len() > 0,
        elapsed.last() > window_ms,
    ensures
        sleep_after(elapsed, window_ms, max_secs) == MIN_SLEEP_SECS,
        count_after(elapsed, window_ms) == 1,
{
}

} // verus!
