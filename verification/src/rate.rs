//! Shared outbound rate limiter.
//!
//! The limiter issues at most `quota` tokens in any sliding window of
//! `window` clock ticks (the window is one time unit of the configured
//! rate, measured in whatever tick resolution the caller's clock has).
//! Every outbound request — primary and secondary resource, retries
//! included — takes one token. The state records the timestamps of all
//! issued tokens; `try_acquire` grants a token exactly when the window
//! ending now still has room, and well-formedness guarantees the bound in
//! every window, not just the current one.

use vstd::prelude::*;

verus! {

/// Number of issue timestamps in `s` that lie in the half-open window
/// `(lo, hi]`.
pub open spec fn count_window(s: Seq<u64>, lo: int, hi: int) -> int
    decreases s.len(),
{
    if s.len() == 0 {
        0
    } else {
        count_window(s.drop_last(), lo, hi) + (if lo < s.last() && s.last() <= hi {
            1int
        } else {
            0int
        })
    }
}

/// Appending one timestamp adds its own window contribution and nothing
/// else.
proof fn lemma_count_window_push(s: Seq<u64>, x: u64, lo: int, hi: int)
    ensures
        count_window(s.push(x), lo, hi) == count_window(s, lo, hi) + (if lo < x && x <= hi {
            1int
        } else {
            0int
        }),
{
    assert(s.push(x).drop_last() =~= s);
    assert(s.push(x).last() == x);
}

/// A window that sits later than `(lo1, hi1]` but still below every
/// timestamp's upper bound `hi1` holds no more timestamps than
/// `(lo1, hi1]` itself.
proof fn lemma_count_window_mono(s: Seq<u64>, lo1: int, hi1: int, lo2: int, hi2: int)
    requires
        lo1 <= lo2,
        forall|i: int| 0 <= i < s.len() ==> s[i] <= hi1,
    ensures
        count_window(s, lo2, hi2) <= count_window(s, lo1, hi1),
    decreases s.len(),
{
    if s.len() > 0 {
        assert(forall|i: int| 0 <= i < s.drop_last().len() ==> s.drop_last()[i] <= hi1);
        lemma_count_window_mono(s.drop_last(), lo1, hi1, lo2, hi2);
        assert(s.last() == s[s.len() - 1]);
    }
}

/// Token-issuing throttle shared by every task of the pipeline.
pub struct SlidingWindowLimiter {
    /// Tokens allowed per window.
    pub quota: u32,
    /// Window length in clock ticks.
    pub window: u64,
    /// Timestamps (in clock ticks) at which tokens were issued.
    pub issued: Vec<u64>,
}

impl SlidingWindowLimiter {
    /// In every window of length `window`, at most `quota` tokens were
    /// issued.
    pub open spec fn rate_bounded(self) -> bool {
        forall|t: int| #[trigger] count_window(self.issued@, t - self.window, t) <= self.quota
    }

    /// Every recorded issue happened at or before `now`.
    pub open spec fn issued_by(self, now: u64) -> bool {
        forall|i: int| 0 <= i < self.issued@.len() ==> self.issued@[i] <= now
    }

    /// Well-formedness: the rate bound holds of the recorded history.
    pub open spec fn wf(self) -> bool {
        self.rate_bounded()
    }

    /// A fresh limiter that has issued nothing.
    pub fn new(quota: u32, window: u64) -> (rl: SlidingWindowLimiter)
        ensures
            rl.wf(),
            rl.quota == quota,
            rl.window == window,
            rl.issued@ == Seq::<u64>::empty(),
    {
        let rl = SlidingWindowLimiter { quota, window, issued: Vec::new() };
        proof {
            assert forall|t: int| #[trigger] count_window(rl.issued@, t - rl.window, t)
                <= rl.quota by {
                assert(count_window(rl.issued@, t - rl.window, t) == 0);
            }
        }
        rl
    }

    /// Issue a token stamped `now` exactly when the window ending at `now`
    /// has fewer than `quota` tokens; otherwise change nothing and make
    /// the caller wait for replenishment. `now` must not precede any
    /// already-issued token (the clock is monotonic).
    pub fn try_acquire(&mut self, now: u64) -> (granted: bool)
        requires
            old(self).wf(),
            old(self).issued_by(now),
        ensures
            final(self).wf(),
            final(self).issued_by(now),
            final(self).quota == old(self).quota,
            final(self).window == old(self).window,
            granted == (count_window(old(self).issued@, now - old(self).window, now as int) < old(
                self,
            ).quota),
            granted ==> final(self).issued@ == old(self).issued@.push(now),
            !granted ==> final(self).issued@ == old(self).issued@,
    {
        let ghost s = self.issued@;
        let ghost lo = now - self.window;
        let mut count: usize = 0;
        let mut idx: usize = 0;
        while idx < self.issued.len()
            invariant
                idx <= self.issued@.len(),
                count <= idx,
                *self == *old(self),
                old(self).issued_by(now),
                lo == now - self.window,
                s == self.issued@,
                count == count_window(s.take(idx as int), lo, now as int),
            decreases self.issued@.len() - idx,
        {
            let e = self.issued[idx];
            proof {
                assert(s.take(idx as int + 1).drop_last() =~= s.take(idx as int));
                assert(s.take(idx as int + 1).last() == s[idx as int]);
                assert(e <= now);
            }
            if now - e < self.window {
                count = count + 1;
            }
            idx = idx + 1;
        }
        proof {
            assert(s.take(s.len() as int) =~= s);
        }
        if (count as u64) < (self.quota as u64) {
            self.issued.push(now);
            proof {
                let news = self.issued@;
                let w = self.window as int;
                let q = self.quota as int;
                assert forall|t: int| #[trigger] count_window(news, t - w, t) <= q by {
                    lemma_count_window_push(s, now, t - w, t);
                    if t - w < now && now <= t {
                        lemma_count_window_mono(s, now - w, now as int, t - w, t);
                        assert(count_window(s, now - w, now as int) < q);
                    } else {
                        assert(count_window(s, t - w, t) <= q);
                    }
                }
            }
            true
        } else {
            false
        }
    }
}

/// Rate-bound law: over any sliding window of one time unit (`window`
/// ticks) ending at any instant `t`, the number of tokens the limiter has
/// issued does not exceed the configured quota.
pub proof fn lemma_rate_bound(rl: SlidingWindowLimiter, t: int)
    requires
        rl.wf(),
    ensures
        count_window(rl.issued@, t - rl.window, t) <= rl.quota,
{
}

} // verus!
