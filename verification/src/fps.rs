//! Frame-rate measurement and frame pacing.
use vstd::prelude::*;
use std::collections::VecDeque;
use std::time::{Duration, Instant};

verus! {

#[verifier::external_type_specification]
#[verifier::external_body]
pub struct ExInstant(Instant);

/// `Instant::now`: the current time; nothing is known of the value.
#[verifier::external_body]
fn instant_now() -> Instant {
    Instant::now()
}

/// `Instant::elapsed`: the time since `i`; nothing is known of the value.
#[verifier::external_body]
fn instant_elapsed(i: &Instant) -> Duration {
    i.elapsed()
}

/// `Duration::as_nanos`: the whole nanoseconds of `d`; nothing is stated of
/// the value, since `Duration` is opaque here.
#[verifier::external_body]
fn duration_nanos(d: &Duration) -> u128 {
    d.as_nanos()
}

/// The last `window` items of `s` (all of them when there are fewer).
pub open spec fn last_window<T>(s: Seq<T>, window: nat) -> Seq<T> {
    if s.len() > window {
        s.skip(s.len() - window)
    } else {
        s
    }
}

/// Keeps the times of the most recent frames, at most `window_size` of them.
pub struct FpsCounter {
    frame_times: VecDeque<Instant>,
    window_size: usize,
}

impl FpsCounter {
    pub closed spec fn spec_frame_times(&self) -> Seq<Instant> {
        self.frame_times@
    }

    pub closed spec fn spec_window_size(&self) -> usize {
        self.window_size
    }

    /// A counter that remembers the last `window_size` frames.
    pub fn new(window_size: usize) -> (r: Self)
        ensures
            r.spec_frame_times().len() == 0,
            r.spec_window_size() == window_size,
    {
        FpsCounter { frame_times: VecDeque::with_capacity(window_size), window_size }
    }

    /// Records a frame at the current time and forgets the oldest frames
    /// beyond the window.
    pub fn tick(&mut self)
        ensures
            exists|t: Instant|
                final(self).spec_frame_times() == last_window(
                    #[trigger] old(self).spec_frame_times().push(t),
                    old(self).spec_window_size() as nat,
                ),
            final(self).spec_window_size() == old(self).spec_window_size(),
    {
        let now = instant_now();
        let ghost pushed = self.frame_times@.push(now);
        self.frame_times.push_back(now);
        while self.frame_times.len() > self.window_size
            invariant
                self.window_size == old(self).window_size,
                pushed == old(self).frame_times@.push(now),
                pushed.len() >= self.frame_times@.len(),
                self.frame_times@.len() == pushed.len() || self.frame_times@.len() >= self.window_size,
                self.frame_times@ == pushed.skip(pushed.len() - self.frame_times@.len()),
            decreases self.frame_times@.len(),
        {
            let ghost before = self.frame_times@;
            let _ = self.frame_times.pop_front();
            assert(self.frame_times@ == pushed.skip(pushed.len() - self.frame_times@.len())) by {
                assert(before.drop_first() == self.frame_times@);
            }
        }
        assert(self.frame_times@ == last_window(pushed, self.window_size as nat)) by {
            if pushed.len() <= self.window_size {
                assert(pushed.skip(0) == pushed);
            }
        }
        assert(self.spec_frame_times() == last_window(old(self).spec_frame_times().push(now), old(self).spec_window_size() as nat));
    }

    /// The frames counted and the first and last frame times of the window,
    /// when at least two frames are recorded: the rate is the count over the
    /// time between them.
    pub fn sample_span(&self) -> (r: Option<(usize, Instant, Instant)>)
        ensures
            self.spec_frame_times().len() < 2 ==> r is None,
            self.spec_frame_times().len() >= 2 ==> r == Some((
                (self.spec_frame_times().len() - 1) as usize,
                self.spec_frame_times()[0],
                self.spec_frame_times().last(),
            )),
    {
        let n = self.frame_times.len();
        if n < 2 {
            None
        } else {
            Some((n - 1, self.frame_times[0], self.frame_times[n - 1]))
        }
    }
}

/// How long to wait before the next frame: the rest of the target frame time
/// when less than that has passed, in nanoseconds.
pub open spec fn wait_nanos(target_micros: Option<u64>, elapsed_nanos: u128) -> Option<u128> {
    match target_micros {
        Some(t) => if (elapsed_nanos as int) < t * 1000 {
            Some((t * 1000 - elapsed_nanos) as u128)
        } else {
            None
        },
        None => None,
    }
}

/// Paces frames to an optional frame-rate limit.
///
/// The target frame time is kept in whole microseconds, as the limit sets it.
pub struct FrameTimer {
    last_frame_time: Instant,
    target_frame_micros: Option<u64>,
}

impl FrameTimer {
    pub closed spec fn spec_target_micros(&self) -> Option<u64> {
        self.target_frame_micros
    }

    pub closed spec fn spec_last_frame_time(&self) -> Instant {
        self.last_frame_time
    }

    /// A timer started now, with no limit.
    pub fn new() -> (r: Self)
        ensures
            r.spec_target_micros() is None,
    {
        FrameTimer { last_frame_time: instant_now(), target_frame_micros: None }
    }

    /// Limits to `fps` frames per second (a frame time of `1_000_000 / fps`
    /// microseconds, rounded down); 0 removes the limit.
    pub fn set_fps_limit(&mut self, fps: u32)
        ensures
            final(self).spec_target_micros() == (if fps > 0 {
                Some((1_000_000int / (fps as int)) as u64)
            } else {
                None::<u64>
            }),
            final(self).spec_last_frame_time() == old(self).spec_last_frame_time(),
    {
        if fps > 0 {
            let duration_micros: u64 = 1_000_000 / fps as u64;
            self.target_frame_micros = Some(duration_micros);
        } else {
            self.target_frame_micros = None;
        }
    }

    /// The wait before the next frame for a frame time target and the time
    /// that has passed since the last frame.
    pub fn sleep_for(target_micros: Option<u64>, elapsed_nanos: u128) -> (r: Option<u128>)
        ensures
            r == wait_nanos(target_micros, elapsed_nanos),
    {
        match target_micros {
            Some(t) => {
                let target: u128 = t as u128 * 1000;
                if elapsed_nanos < target {
                    Some(target - elapsed_nanos)
                } else {
                    None
                }
            },
            None => None,
        }
    }

    /// How long the caller should sleep before drawing the next frame, in
    /// nanoseconds: `wait_nanos` of the target for the time the clock reports
    /// since the last frame, so nothing without a limit, and never more than
    /// the target frame time.
    pub fn pending_wait(&self) -> (r: Option<u128>)
        ensures
            exists|elapsed: u128| r == #[trigger] wait_nanos(self.spec_target_micros(), elapsed),
            self.spec_target_micros() is None ==> r is None,
            match (self.spec_target_micros(), r) {
                (Some(t), Some(w)) => 0 < w <= t * 1000,
                _ => true,
            },
    {
        match self.target_frame_micros {
            Some(_) => {
                let elapsed = instant_elapsed(&self.last_frame_time);
                let nanos = duration_nanos(&elapsed);
                FrameTimer::sleep_for(self.target_frame_micros, nanos)
            },
            None => {
                assert(wait_nanos(self.target_frame_micros, 0) is None);
                None
            },
        }
    }

    /// Starts timing the next frame from now.
    pub fn mark_frame(&mut self)
        ensures
            final(self).spec_target_micros() == old(self).spec_target_micros(),
    {
        self.last_frame_time = instant_now();
    }

    /// The time since the last frame.
    pub fn frame_time(&self) -> Duration {
        instant_elapsed(&self.last_frame_time)
    }
}

} // verus!

verus! {

/// After a tick, the counter holds at most `window` frame times, and the
/// newest one, when any is kept, is the frame just recorded.
pub proof fn window_keeps_newest<T>(s: Seq<T>, t: T, window: nat)
    ensures
        last_window(s.push(t), window).len() <= window || last_window(s.push(t), window).len() == s.len() + 1,
        last_window(s.push(t), window).len() <= s.len() + 1,
        window > 0 ==> last_window(s.push(t), window).len() > 0 && last_window(s.push(t), window).last() == t,
        s.len() < window ==> last_window(s.push(t), window) == s.push(t),
{
}

/// Sleeping the wait that `wait_nanos` gives brings the time since the last
/// frame exactly to the target frame time; there is no wait without a target
/// or once the target time has passed.
pub proof fn wait_completes_frame(target_micros: Option<u64>, elapsed_nanos: u128)
    ensures
        match wait_nanos(target_micros, elapsed_nanos) {
            Some(w) => match target_micros {
                Some(t) => w > 0 && elapsed_nanos + w == t * 1000,
                None => false,
            },
            None => match target_micros {
                Some(t) => elapsed_nanos >= t * 1000,
                None => true,
            },
        },
{
}

} // verus!
