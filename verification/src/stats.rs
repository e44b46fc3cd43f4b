//! Sliding-window frame statistics.
//!
//! A bounded FIFO of the most recent frame-time samples (microseconds),
//! with a running sum for O(1) averaging and cumulative minimum/maximum
//! values that only an explicit reset clears.

use vstd::prelude::*;
use std::collections::VecDeque;

verus! {

/// Number of samples the sliding window retains.
pub const SLIDING_WINDOW_SIZE: usize = 100;

/// One frame-time measurement, in microseconds.
pub struct Sample {
    pub frame_time_us: u64,
}

/// Sum of a sequence of samples, as an unbounded integer.
pub open spec fn sum_seq(s: Seq<u64>) -> int
    decreases s.len(),
{
    if s.len() == 0 {
        0
    } else {
        sum_seq(s.drop_last()) + s.last()
    }
}

pub proof fn lemma_sum_seq_nonneg(s: Seq<u64>)
    ensures
        sum_seq(s) >= 0,
    decreases s.len(),
{
    if s.len() > 0 {
        lemma_sum_seq_nonneg(s.drop_last());
    }
}

pub proof fn lemma_sum_seq_push(s: Seq<u64>, v: u64)
    ensures
        sum_seq(s.push(v)) == sum_seq(s) + v,
{
    assert(s.push(v).drop_last() =~= s);
}

pub proof fn lemma_sum_seq_drop_first(s: Seq<u64>)
    requires
        s.len() > 0,
    ensures
        sum_seq(s) == s[0] + sum_seq(s.drop_first()),
    decreases s.len(),
{
    if s.len() == 1 {
        assert(s.drop_first() =~= Seq::<u64>::empty());
        assert(sum_seq(s.drop_first()) == 0);
        assert(s.drop_last().len() == 0);
        assert(sum_seq(s.drop_last()) == 0);
        assert(sum_seq(s) == sum_seq(s.drop_last()) + s.last());
        assert(s.last() == s[0]);
    } else {
        let t = s.drop_last();
        lemma_sum_seq_drop_first(t);
        assert(t[0] == s[0]);
        assert(sum_seq(s) == sum_seq(t) + s.last());
        assert(sum_seq(t) == t[0] + sum_seq(t.drop_first()));
        assert(s.drop_first().drop_last() =~= t.drop_first());
        assert(s.drop_first().len() > 0);
        assert(sum_seq(s.drop_first()) == sum_seq(s.drop_first().drop_last())
            + s.drop_first().last());
        assert(s.drop_first().last() == s.last());
        assert(sum_seq(s.drop_first()) == sum_seq(t.drop_first()) + s.last());
        assert(sum_seq(s) == s[0] + sum_seq(s.drop_first()));
    }
}

/// Abstract state of the statistics accumulator: the window of samples
/// held (oldest first), the running sum, and the cumulative extremes.
pub struct StatsModel {
    pub window: Seq<u64>,
    pub sum: u64,
    pub min: u64,
    pub max: u64,
}

impl StatsModel {
    /// The window never exceeds its bound and the running sum always
    /// equals the sum of the samples currently held.
    pub open spec fn wf(self) -> bool {
        &&& self.window.len() <= SLIDING_WINDOW_SIZE
        &&& self.sum == sum_seq(self.window)
    }
}

/// Derived view of the statistics: average frame time (floored integer
/// microseconds), frames per second in thousandths, and the cumulative
/// extremes in microseconds.
#[derive(Clone, Copy, Debug, PartialEq, Eq, Structural)]
pub struct Snapshot {
    /// Frames per second, in thousandths of a frame per second; zero when
    /// no data is available.
    pub fps_milli: u64,
    /// Mean frame time over the window, floored, in microseconds; zero
    /// when no data is available.
    pub frame_time_us: u64,
    /// Smallest sample seen since the last reset (`u64::MAX` when none).
    pub frame_time_min_us: u64,
    /// Largest sample seen since the last reset (zero when none).
    pub frame_time_max_us: u64,
}

/// Bounded sliding-window sampler with running sum and cumulative extremes.
pub struct Stats {
    count: usize,
    sum: u64,
    min: u64,
    max: u64,
    samples: VecDeque<u64>,
}

impl View for Stats {
    type V = StatsModel;

    closed spec fn view(&self) -> StatsModel {
        StatsModel { window: self.samples@, sum: self.sum, min: self.min, max: self.max }
    }
}

impl Stats {
    pub closed spec fn wf(self) -> bool {
        &&& self@.wf()
        &&& self.count == self@.window.len()
    }

    /// A well-formed accumulator has a well-formed abstract state.
    pub proof fn lemma_wf_model(self)
        requires
            self.wf(),
        ensures
            self@.wf(),
    {
    }

    /// What one call of `add_sample` does to the abstract state: when the
    /// window is full the oldest sample leaves, the new sample is appended,
    /// the sum follows the window, and the extremes only tighten.
    pub open spec fn add_sample_spec(m: StatsModel, v: u64) -> StatsModel {
        let kept = if m.window.len() < SLIDING_WINDOW_SIZE {
            m.window
        } else {
            m.window.drop_first()
        };
        StatsModel {
            window: kept.push(v),
            sum: (sum_seq(kept) + v) as u64,
            min: if v < m.min { v } else { m.min },
            max: if v > m.max { v } else { m.max },
        }
    }

    /// What `clear_min_and_max` does: the extremes return to their
    /// sentinels; the window and sum are untouched.
    pub open spec fn clear_min_and_max_spec(m: StatsModel) -> StatsModel {
        StatsModel { window: m.window, sum: m.sum, min: u64::MAX, max: 0u64 }
    }

    /// What `snapshot` returns for a given abstract state.  On an empty
    /// window the average and fps are defined as zero ("no data") instead
    /// of propagating a division by zero.
    pub open spec fn snapshot_spec(m: StatsModel) -> Snapshot {
        let avg = if m.window.len() == 0 {
            0u64
        } else {
            (m.sum as int / m.window.len() as int) as u64
        };
        Snapshot {
            fps_milli: if avg == 0 {
                0u64
            } else {
                (1_000_000_000int / avg as int) as u64
            },
            frame_time_us: avg,
            frame_time_min_us: m.min,
            frame_time_max_us: m.max,
        }
    }

    pub fn new() -> (r: Self)
        ensures
            r.wf(),
            r@.window == Seq::<u64>::empty(),
            r@.sum == 0u64,
            r@.min == u64::MAX,
            r@.max == 0u64,
    {
        Stats {
            count: 0,
            sum: 0,
            min: u64::MAX,
            max: u64::MIN,
            samples: VecDeque::with_capacity(SLIDING_WINDOW_SIZE),
        }
    }

    /// The samples currently held, oldest first.
    pub fn samples(&self) -> (r: Vec<u64>)
        ensures
            r@ == self@.window,
    {
        let mut r: Vec<u64> = Vec::new();
        let mut i: usize = 0;
        while i < self.samples.len()
            invariant
                i <= self.samples@.len(),
                r@ == self.samples@.subrange(0, i as int),
            decreases self.samples@.len() - i,
        {
            r.push(self.samples[i]);
            i = i + 1;
        }
        assert(r@ =~= self@.window);
        r
    }

    pub fn snapshot(&self) -> (r: Snapshot)
        requires
            self.wf(),
        ensures
            r == Self::snapshot_spec(self@),
    {
        let avg: u64 = if self.count == 0 {
            0
        } else {
            self.sum / (self.count as u64)
        };
        let fps_milli: u64 = if avg == 0 {
            0
        } else {
            1_000_000_000u64 / avg
        };
        Snapshot {
            fps_milli,
            frame_time_us: avg,
            frame_time_min_us: self.min,
            frame_time_max_us: self.max,
        }
    }

    pub fn clear_min_and_max(&mut self)
        ensures
            final(self)@ == Self::clear_min_and_max_spec(old(self)@),
            final(self).wf() == old(self).wf(),
    {
        self.min = u64::MAX;
        self.max = u64::MIN;
    }

    /// Append one sample.  When the window already holds
    /// `SLIDING_WINDOW_SIZE` samples the oldest is evicted first; the
    /// running sum follows the window contents exactly.
    pub fn add_sample(&mut self, sample: Sample)
        requires
            old(self).wf(),
            old(self)@.sum + sample.frame_time_us <= u64::MAX,
        ensures
            final(self).wf(),
            final(self)@ == Self::add_sample_spec(old(self)@, sample.frame_time_us),
    {
        proof {
            lemma_sum_seq_nonneg(self.samples@);
        }
        let oldest: Option<u64> = if self.count < SLIDING_WINDOW_SIZE {
            self.count = self.count + 1;
            None
        } else {
            proof {
                lemma_sum_seq_drop_first(self.samples@);
                lemma_sum_seq_nonneg(self.samples@.drop_first());
            }
            self.samples.pop_front()
        };

        let micros = sample.frame_time_us;
        self.sum = self.sum + micros;
        self.samples.push_back(micros);

        if let Some(oldest) = oldest {
            self.sum = self.sum - oldest;
        }

        if micros < self.min {
            self.min = micros;
        }
        if micros > self.max {
            self.max = micros;
        }

        proof {
            let m = old(self)@;
            let kept = if m.window.len() < SLIDING_WINDOW_SIZE {
                m.window
            } else {
                m.window.drop_first()
            };
            lemma_sum_seq_push(kept, micros);
            if m.window.len() >= SLIDING_WINDOW_SIZE {
                lemma_sum_seq_drop_first(m.window);
            }
        }
    }
}

impl Default for Stats {
    fn default() -> (r: Self)
        ensures
            r.wf(),
            r@.window == Seq::<u64>::empty(),
            r@.sum == 0u64,
            r@.min == u64::MAX,
            r@.max == 0u64,
    {
        Stats::new()
    }
}

/// The least multiple of `f` that is at least `n`, for `n ≥ 1`.
pub open spec fn round_up_spec(n: int, f: int) -> int {
    n - 1 - (n - 1) % f + f
}

/// Rounds `n` up to the next multiple of `f` that is strictly greater than
/// `n - 1`: the result is the least multiple of `f` that is at least `n`.
pub fn round_up(n: usize, f: usize) -> (r: usize)
    requires
        1 <= n,
        1 <= f,
        n + f <= usize::MAX,
    ensures
        r == round_up_spec(n as int, f as int),
        r % f == 0,
        n <= r,
        r < n + f,
{
    proof {
        let m = (n - 1) as int;
        let fi = f as int;
        vstd::arithmetic::div_mod::lemma_fundamental_div_mod(m, fi);
        assert(m - m % fi == fi * (m / fi));
        assert(fi * (m / fi) + fi == (m / fi + 1) * fi) by (nonlinear_arith);
        vstd::arithmetic::div_mod::lemma_mod_multiples_basic(m / fi + 1, fi);
        assert(m % fi <= m) by (nonlinear_arith)
            requires
                m >= 0,
                fi >= 1,
        ;
    }
    n - 1 - (n - 1) % f + f
}

/// The snapshot's average frame time is the arithmetic mean of the samples
/// currently held, floored to whole microseconds.
pub proof fn lemma_snapshot_avg_is_mean(m: StatsModel)
    requires
        m.wf(),
        m.window.len() > 0,
    ensures
        Stats::snapshot_spec(m).frame_time_us == sum_seq(m.window) / m.window.len() as int,
{
    lemma_sum_seq_nonneg(m.window);
}

/// Adding a sample keeps the window within its bound and keeps the running
/// sum equal to the sum of the samples held; once the window is full, each
/// new sample evicts exactly the oldest one.
pub proof fn lemma_add_sample_preserves_window_sum(m: StatsModel, v: u64)
    requires
        m.wf(),
        m.sum + v <= u64::MAX,
    ensures
        Stats::add_sample_spec(m, v).wf(),
        m.window.len() < SLIDING_WINDOW_SIZE ==> Stats::add_sample_spec(m, v).window
            == m.window.push(v),
        m.window.len() == SLIDING_WINDOW_SIZE ==> Stats::add_sample_spec(m, v).window
            == m.window.drop_first().push(v),
{
    lemma_sum_seq_nonneg(m.window);
    let kept = if m.window.len() < SLIDING_WINDOW_SIZE {
        m.window
    } else {
        m.window.drop_first()
    };
    if m.window.len() >= SLIDING_WINDOW_SIZE {
        lemma_sum_seq_drop_first(m.window);
        lemma_sum_seq_nonneg(m.window.drop_first());
    }
    lemma_sum_seq_push(kept, v);
}

/// The cumulative minimum changes only when a strictly smaller sample
/// arrives, the maximum only when a strictly larger one does; eviction has
/// no effect on either, since the result depends only on the old extremes
/// and the new sample.
pub proof fn lemma_min_max_monotone(m1: StatsModel, m2: StatsModel, v: u64)
    requires
        m1.min == m2.min,
        m1.max == m2.max,
    ensures
        Stats::add_sample_spec(m1, v).min == Stats::add_sample_spec(m2, v).min,
        Stats::add_sample_spec(m1, v).max == Stats::add_sample_spec(m2, v).max,
        Stats::add_sample_spec(m1, v).min == if v < m1.min { v } else { m1.min },
        Stats::add_sample_spec(m1, v).max == if v > m1.max { v } else { m1.max },
        Stats::clear_min_and_max_spec(m1).min == u64::MAX,
        Stats::clear_min_and_max_spec(m1).max == 0u64,
        Stats::clear_min_and_max_spec(m1).window == m1.window,
{
}

} // verus!
