//! Frame and text-rendering timing: the most recent samples, bounded in
//! number, and running totals.
use vstd::prelude::*;

use std::collections::VecDeque;
use std::time::{Duration, Instant};

verus! {

/// std's `Instant`, a reading of the monotonic clock; opaque here.
#[verifier::external_type_specification]
#[verifier::external_body]
pub struct ExInstant(Instant);

/// Reads the monotonic clock (std `Instant::now`). Nothing is claimed of the
/// reading.
#[verifier::external_body]
fn instant_now() -> Instant {
    Instant::now()
}

/// The time since `start` (std `Instant::elapsed`). It depends on the clock,
/// so nothing is claimed of it.
#[verifier::external_body]
fn instant_elapsed(start: &Instant) -> Duration {
    start.elapsed()
}

/// `samples` with `d` added at the back and, when that makes more than
/// `max` samples, the oldest one dropped.
pub open spec fn with_sample(samples: Seq<Duration>, d: Duration, max: nat) -> Seq<Duration> {
    if samples.len() + 1 > max {
        samples.push(d).drop_first()
    } else {
        samples.push(d)
    }
}

/// Frame timing and text-rendering timing.
pub struct PerfMonitor {
    frame_times: VecDeque<Duration>,
    text_render_times: VecDeque<Duration>,
    max_samples: usize,
    current_frame_start: Option<Instant>,
    current_text_start: Option<Instant>,
    total_frames: u64,
    total_text_renders: u64,
}

impl PerfMonitor {
    /// The frame-time samples, oldest first.
    pub closed spec fn frame_samples(&self) -> Seq<Duration> {
        self.frame_times@
    }

    /// The text-rendering-time samples, oldest first.
    pub closed spec fn text_samples(&self) -> Seq<Duration> {
        self.text_render_times@
    }

    /// The most samples kept of each kind.
    pub closed spec fn spec_max_samples(&self) -> nat {
        self.max_samples as nat
    }

    /// Whether a frame is being timed.
    pub closed spec fn frame_started(&self) -> bool {
        self.current_frame_start is Some
    }

    /// Whether a text rendering is being timed.
    pub closed spec fn text_started(&self) -> bool {
        self.current_text_start is Some
    }

    /// The frames timed since creation or the last reset.
    pub closed spec fn spec_total_frames(&self) -> u64 {
        self.total_frames
    }

    /// The text renderings timed since creation or the last reset.
    pub closed spec fn spec_total_text_renders(&self) -> u64 {
        self.total_text_renders
    }

    /// Whether each kind holds no more samples than the limit.
    pub open spec fn within_limit(&self) -> bool {
        &&& self.frame_samples().len() <= self.spec_max_samples()
        &&& self.text_samples().len() <= self.spec_max_samples()
    }

    /// A monitor keeping at most `max_samples` samples of each kind.
    pub fn new(max_samples: usize) -> (m: PerfMonitor)
        ensures
            m.frame_samples() == Seq::<Duration>::empty(),
            m.text_samples() == Seq::<Duration>::empty(),
            m.spec_max_samples() == max_samples,
            m.within_limit(),
            !m.frame_started(),
            !m.text_started(),
            m.spec_total_frames() == 0,
            m.spec_total_text_renders() == 0,
    {
        PerfMonitor {
            frame_times: VecDeque::with_capacity(max_samples),
            text_render_times: VecDeque::with_capacity(max_samples),
            max_samples,
            current_frame_start: None,
            current_text_start: None,
            total_frames: 0,
            total_text_renders: 0,
        }
    }

    /// Starts timing a frame, restarting the clock if one was being timed.
    pub fn start_frame(&mut self)
        ensures
            old(self).within_limit() ==> final(self).within_limit(),
            final(self).frame_started(),
            final(self).text_started() == old(self).text_started(),
            final(self).frame_samples() == old(self).frame_samples(),
            final(self).text_samples() == old(self).text_samples(),
            final(self).spec_max_samples() == old(self).spec_max_samples(),
            final(self).spec_total_frames() == old(self).spec_total_frames(),
            final(self).spec_total_text_renders() == old(self).spec_total_text_renders(),
    {
        self.current_frame_start = Some(instant_now());
    }

    /// Records a frame that took `d`.
    pub fn record_frame(&mut self, d: Duration)
        requires
            old(self).spec_total_frames() < u64::MAX,
        ensures
            old(self).within_limit() ==> final(self).within_limit(),
            final(self).frame_samples() == with_sample(
                old(self).frame_samples(),
                d,
                old(self).spec_max_samples(),
            ),
            final(self).spec_total_frames() == old(self).spec_total_frames() + 1,
            final(self).text_samples() == old(self).text_samples(),
            final(self).spec_max_samples() == old(self).spec_max_samples(),
            final(self).frame_started() == old(self).frame_started(),
            final(self).text_started() == old(self).text_started(),
            final(self).spec_total_text_renders() == old(self).spec_total_text_renders(),
    {
        self.frame_times.push_back(d);
        if self.frame_times.len() > self.max_samples {
            let _ = self.frame_times.pop_front();
        }
        proof {
            assert(self.frame_times@ =~= with_sample(old(self).frame_times@, d, self.max_samples as nat));
        }
        self.total_frames = self.total_frames + 1;
    }

    /// Stops timing the current frame and records it; does nothing when no
    /// frame is being timed.
    pub fn end_frame(&mut self)
        requires
            old(self).frame_started() ==> old(self).spec_total_frames() < u64::MAX,
        ensures
            old(self).within_limit() ==> final(self).within_limit(),
            !final(self).frame_started(),
            old(self).frame_started() ==> {
                &&& exists|d: Duration|
                    final(self).frame_samples() == with_sample(
                        old(self).frame_samples(),
                        d,
                        old(self).spec_max_samples(),
                    )
                &&& final(self).spec_total_frames() == old(self).spec_total_frames() + 1
            },
            !old(self).frame_started() ==> {
                &&& final(self).frame_samples() == old(self).frame_samples()
                &&& final(self).spec_total_frames() == old(self).spec_total_frames()
            },
            final(self).text_samples() == old(self).text_samples(),
            final(self).spec_max_samples() == old(self).spec_max_samples(),
            final(self).text_started() == old(self).text_started(),
            final(self).spec_total_text_renders() == old(self).spec_total_text_renders(),
    {
        if let Some(start) = self.current_frame_start.take() {
            let d = instant_elapsed(&start);
            self.record_frame(d);
            proof {
                assert(self.frame_samples() == with_sample(
                    old(self).frame_samples(),
                    d,
                    old(self).spec_max_samples(),
                ));
            }
        }
    }

    /// Starts timing a text rendering, restarting the clock if one was being
    /// timed.
    pub fn start_text_render(&mut self)
        ensures
            old(self).within_limit() ==> final(self).within_limit(),
            final(self).text_started(),
            final(self).frame_started() == old(self).frame_started(),
            final(self).frame_samples() == old(self).frame_samples(),
            final(self).text_samples() == old(self).text_samples(),
            final(self).spec_max_samples() == old(self).spec_max_samples(),
            final(self).spec_total_frames() == old(self).spec_total_frames(),
            final(self).spec_total_text_renders() == old(self).spec_total_text_renders(),
    {
        self.current_text_start = Some(instant_now());
    }

    /// Records a text rendering that took `d`.
    pub fn record_text_render(&mut self, d: Duration)
        requires
            old(self).spec_total_text_renders() < u64::MAX,
        ensures
            old(self).within_limit() ==> final(self).within_limit(),
            final(self).text_samples() == with_sample(
                old(self).text_samples(),
                d,
                old(self).spec_max_samples(),
            ),
            final(self).spec_total_text_renders() == old(self).spec_total_text_renders() + 1,
            final(self).frame_samples() == old(self).frame_samples(),
            final(self).spec_max_samples() == old(self).spec_max_samples(),
            final(self).frame_started() == old(self).frame_started(),
            final(self).text_started() == old(self).text_started(),
            final(self).spec_total_frames() == old(self).spec_total_frames(),
    {
        self.text_render_times.push_back(d);
        if self.text_render_times.len() > self.max_samples {
            let _ = self.text_render_times.pop_front();
        }
        proof {
            assert(self.text_render_times@ =~= with_sample(
                old(self).text_render_times@,
                d,
                self.max_samples as nat,
            ));
        }
        self.total_text_renders = self.total_text_renders + 1;
    }

    /// Stops timing the current text rendering and records it; does nothing
    /// when none is being timed.
    pub fn end_text_render(&mut self)
        requires
            old(self).text_started() ==> old(self).spec_total_text_renders() < u64::MAX,
        ensures
            old(self).within_limit() ==> final(self).within_limit(),
            !final(self).text_started(),
            old(self).text_started() ==> {
                &&& exists|d: Duration|
                    final(self).text_samples() == with_sample(
                        old(self).text_samples(),
                        d,
                        old(self).spec_max_samples(),
                    )
                &&& final(self).spec_total_text_renders() == old(self).spec_total_text_renders() + 1
            },
            !old(self).text_started() ==> {
                &&& final(self).text_samples() == old(self).text_samples()
                &&& final(self).spec_total_text_renders() == old(self).spec_total_text_renders()
            },
            final(self).frame_samples() == old(self).frame_samples(),
            final(self).spec_max_samples() == old(self).spec_max_samples(),
            final(self).frame_started() == old(self).frame_started(),
            final(self).spec_total_frames() == old(self).spec_total_frames(),
    {
        if let Some(start) = self.current_text_start.take() {
            let d = instant_elapsed(&start);
            self.record_text_render(d);
            proof {
                assert(self.text_samples() == with_sample(
                    old(self).text_samples(),
                    d,
                    old(self).spec_max_samples(),
                ));
            }
        }
    }

    /// Clears the samples and the totals; a timing in progress goes on.
    pub fn reset(&mut self)
        ensures
            old(self).within_limit() ==> final(self).within_limit(),
            final(self).frame_samples() == Seq::<Duration>::empty(),
            final(self).text_samples() == Seq::<Duration>::empty(),
            final(self).spec_total_frames() == 0,
            final(self).spec_total_text_renders() == 0,
            final(self).spec_max_samples() == old(self).spec_max_samples(),
            final(self).frame_started() == old(self).frame_started(),
            final(self).text_started() == old(self).text_started(),
    {
        self.frame_times.clear();
        self.text_render_times.clear();
        self.total_frames = 0;
        self.total_text_renders = 0;
    }

    /// The frame-time samples, oldest first.
    pub fn frame_times(&self) -> (s: &VecDeque<Duration>)
        ensures
            s@ == self.frame_samples(),
    {
        &self.frame_times
    }

    /// The text-rendering-time samples, oldest first.
    pub fn text_render_times(&self) -> (s: &VecDeque<Duration>)
        ensures
            s@ == self.text_samples(),
    {
        &self.text_render_times
    }

    /// The frames timed since creation or the last reset.
    pub fn total_frames(&self) -> (n: u64)
        ensures
            n == self.spec_total_frames(),
    {
        self.total_frames
    }

    /// The text renderings timed since creation or the last reset.
    pub fn total_text_renders(&self) -> (n: u64)
        ensures
            n == self.spec_total_text_renders(),
    {
        self.total_text_renders
    }

    /// The most samples kept of each kind.
    pub fn max_samples(&self) -> (n: usize)
        ensures
            n == self.spec_max_samples(),
    {
        self.max_samples
    }
}

/// Never more samples than the limit: recording a sample into a list within
/// the limit keeps it within the limit, and (unless the limit is zero) the
/// newest sample is the last one.
pub proof fn lemma_with_sample_bounded(samples: Seq<Duration>, d: Duration, max: nat)
    requires
        samples.len() <= max,
    ensures
        with_sample(samples, d, max).len() <= max,
        max > 0 ==> with_sample(samples, d, max).last() == d,
{
}


} // verus!
