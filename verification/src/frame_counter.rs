//! Rolling frame-timing statistics.
//!
//! Durations are carried as whole nanoseconds (`u64`), so the counting
//! and eviction logic is exact and fully specified. Derived rates in
//! floating point (frames per second, mean frame time) are left to the
//! caller, who reads the history through [`FrameCounter::past_n_durations`].

use std::collections::VecDeque;
use std::time::Instant;
use vstd::prelude::*;

verus! {

/// Upper bound on the number of frame durations kept in the history;
/// once full, the oldest entry is evicted first.
pub const N_DURATIONS: usize = 360;

/// The mathematical state of a [`FrameCounter`]: how many frames have
/// been presented, and the retained durations, oldest first.
pub struct CounterModel {
    pub count: int,
    pub history: Seq<u64>,
}

/// One history update: append the new duration, then evict from the
/// front until at most [`N_DURATIONS`] entries remain.
pub open spec fn step_history(h: Seq<u64>, nanos: u64) -> Seq<u64> {
    let pushed = h.push(nanos);
    if pushed.len() <= N_DURATIONS {
        pushed
    } else {
        pushed.skip(pushed.len() - N_DURATIONS)
    }
}

/// The state of a fresh counter: nothing presented, empty history.
pub open spec fn counter_init() -> CounterModel {
    CounterModel { count: 0, history: Seq::empty() }
}

/// The state after one more presented frame of the given duration.
pub open spec fn counter_step(m: CounterModel, nanos: u64) -> CounterModel {
    CounterModel { count: m.count + 1, history: step_history(m.history, nanos) }
}

/// The state of a fresh counter after presenting the given frame
/// durations in order.
pub open spec fn counter_after(durations: Seq<u64>) -> CounterModel
    decreases durations.len(),
{
    if durations.len() == 0 {
        counter_init()
    } else {
        counter_step(counter_after(durations.drop_last()), durations.last())
    }
}

/// Rolling frame-timing statistics: a monotone frame count, the most
/// recent frame's duration, and a bounded history of past durations.
pub struct FrameCounter {
    absolute_count: u64,
    last_instant: Instant,
    last_frame_time: u64,
    past_n_durations: VecDeque<u64>,
}

impl FrameCounter {
    /// Number of frames presented so far.
    pub closed spec fn count(&self) -> u64 {
        self.absolute_count
    }

    /// Retained frame durations in nanoseconds, oldest first.
    pub closed spec fn history(&self) -> Seq<u64> {
        self.past_n_durations@
    }

    /// Duration of the most recent frame, in nanoseconds.
    pub closed spec fn last_nanos(&self) -> u64 {
        self.last_frame_time
    }

    /// The counter's mathematical state.
    pub open spec fn model(&self) -> CounterModel {
        CounterModel { count: self.count() as int, history: self.history() }
    }

    /// The history never exceeds its bound.
    pub open spec fn wf(&self) -> bool {
        self.history().len() <= N_DURATIONS
    }

    /// Record a completed frame whose duration is already known:
    /// increment the absolute count, remember the duration, and append
    /// it to the history, evicting the oldest entries beyond the bound.
    pub fn record_frame(&mut self, nanos: u64)
        requires
            old(self).wf(),
            old(self).count() < u64::MAX,
        ensures
            final(self).wf(),
            final(self).last_nanos() == nanos,
            final(self).model() == counter_step(old(self).model(), nanos),
    {
        self.absolute_count = self.absolute_count + 1;
        self.last_frame_time = nanos;
        self.past_n_durations.push_back(nanos);
        let ghost pushed = old(self).history().push(nanos);
        while self.past_n_durations.len() > N_DURATIONS
            invariant
                self.past_n_durations@.len() <= pushed.len(),
                self.past_n_durations@ == pushed.skip(pushed.len() - self.past_n_durations@.len()),
                self.past_n_durations@.len() >= vstd::math::min(pushed.len() as int, N_DURATIONS as int),
                self.absolute_count == old(self).count() + 1,
                self.last_frame_time == nanos,
            decreases self.past_n_durations@.len(),
        {
            let _ = self.past_n_durations.pop_front();
        }
        proof {
            assert(self.past_n_durations@ =~= step_history(old(self).history(), nanos));
        }
    }

    /// Record a completed frame timed against the internal clock: the
    /// elapsed time since the previous call (saturating at `u64::MAX`
    /// nanoseconds) becomes the frame's duration, and the clock is
    /// re-read for the next frame. The duration itself depends on the
    /// clock, so only its handling is specified.
    pub fn frame_presented(&mut self)
        requires
            old(self).wf(),
            old(self).count() < u64::MAX,
        ensures
            final(self).wf(),
            final(self).model() == counter_step(old(self).model(), final(self).last_nanos()),
    {
        let elapsed = self.last_instant.elapsed();
        let wide: u128 = elapsed.as_nanos();
        let nanos: u64 = if wide > u64::MAX as u128 {
            u64::MAX
        } else {
            wide as u64
        };
        self.last_instant = Instant::now();
        self.record_frame(nanos);
    }

    /// How many frames have been presented since creation.
    pub fn absolute_frame_count(&self) -> (r: u64)
        ensures
            r == self.count(),
    {
        self.absolute_count
    }

    /// Duration of the most recent frame, in nanoseconds.
    pub fn last_frame_time(&self) -> (r: u64)
        ensures
            r == self.last_nanos(),
    {
        self.last_frame_time
    }

    /// The retained frame durations in nanoseconds, oldest to newest —
    /// the exact contents of the history, in its order.
    pub fn past_n_durations(&self) -> (r: Vec<u64>)
        ensures
            r@ == self.history(),
    {
        let mut out: Vec<u64> = Vec::new();
        let mut i: usize = 0;
        while i < self.past_n_durations.len()
            invariant
                i <= self.past_n_durations@.len(),
                out@ == self.history().take(i as int),
            decreases self.past_n_durations@.len() - i,
        {
            out.push(self.past_n_durations[i]);
            i = i + 1;
        }
        proof {
            assert(out@ =~= self.history());
        }
        out
    }
}

impl Default for FrameCounter {
    /// A fresh counter: zero frames, empty history, clock started now.
    fn default() -> (r: Self)
        ensures
            r.wf(),
            r.model() == counter_init(),
            r.last_nanos() == 0,
    {
        let r = FrameCounter {
            absolute_count: 0,
            last_instant: Instant::now(),
            last_frame_time: 0,
            past_n_durations: VecDeque::new(),
        };
        proof {
            assert(r.model().history =~= counter_init().history);
        }
        r
    }
}

/// After presenting `n` frames from a fresh counter, the absolute count
/// is exactly `n`, and the history holds exactly the most recent
/// `min(n, N_DURATIONS)` durations, oldest to newest.
pub proof fn lemma_counter_after_frames(durations: Seq<u64>)
    ensures
        counter_after(durations).count == durations.len(),
        counter_after(durations).history == durations.skip(
            vstd::math::max(durations.len() - N_DURATIONS, 0),
        ),
        counter_after(durations).history.len() == vstd::math::min(
            durations.len() as int,
            N_DURATIONS as int,
        ),
    decreases durations.len(),
{
    if durations.len() == 0 {
        assert(counter_after(durations).history =~= durations.skip(0));
    } else {
        let prefix = durations.drop_last();
        lemma_counter_after_frames(prefix);
        let prev = counter_after(prefix).history;
        let pushed = prev.push(durations.last());
        assert(pushed =~= durations.skip(vstd::math::max(prefix.len() - N_DURATIONS, 0)));
        if pushed.len() <= N_DURATIONS {
            assert(counter_after(durations).history =~= durations.skip(
                vstd::math::max(durations.len() - N_DURATIONS, 0),
            ));
        } else {
            assert(counter_after(durations).history =~= durations.skip(
                vstd::math::max(durations.len() - N_DURATIONS, 0),
            ));
        }
    }
}

} // verus!
