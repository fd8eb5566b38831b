//! An elapsed-time tracker: accumulates wall-clock duration, in nanoseconds,
//! across explicit start/pause/resume transitions, using a clock source that
//! is fixed at construction.

use vstd::prelude::*;

use crate::report::push_seconds;
use crate::report::seconds_chars;

verus! {

/// Where a timer reads the current time from, fixed at construction.
///
/// `Monotonic` reads a monotonic platform clock. `Manual` holds the current
/// reading directly and is advanced explicitly through
/// [`Timer::advance_clock`]; it serves execution targets without direct
/// clock access, where the caller injects the time, and deterministic tests.
#[derive(Clone, Copy, Debug)]
pub enum ClockSource {
    Monotonic,
    Manual(u64),
}

/// The abstract state of a [`Timer`]: the duration accumulated so far and,
/// while the timer is running, the clock reading it started running at.
pub struct TimerView {
    pub accumulated_ns: u64,
    pub running_since: Option<u64>,
}

/// `a + b`, saturating at `u64::MAX`.
pub open spec fn sat_add(a: u64, b: u64) -> u64 {
    if a + b > u64::MAX {
        u64::MAX
    } else {
        (a + b) as u64
    }
}

/// The duration from the reading `since` to the reading `now`; zero if the
/// clock appears to have gone backwards.
pub open spec fn elapsed_ns(since: u64, now: u64) -> u64 {
    if now >= since {
        (now - since) as u64
    } else {
        0
    }
}

impl TimerView {
    /// The state after `start()` at clock reading `now`: everything
    /// accumulated so far is discarded and the timer runs from `now`.
    pub open spec fn started(self, now: u64) -> TimerView {
        TimerView { accumulated_ns: 0, running_since: Some(now) }
    }

    /// The state after `resume()` at clock reading `now`: the accumulated
    /// duration is kept and the timer runs from `now`.
    pub open spec fn resumed(self, now: u64) -> TimerView {
        TimerView { accumulated_ns: self.accumulated_ns, running_since: Some(now) }
    }

    /// The state after `pause()` at clock reading `now`: if running, the
    /// closed interval is added to the accumulated duration; if not, the
    /// state is unchanged.
    pub open spec fn paused(self, now: u64) -> TimerView {
        match self.running_since {
            Some(since) => TimerView {
                accumulated_ns: sat_add(self.accumulated_ns, elapsed_ns(since, now)),
                running_since: None,
            },
            None => self,
        }
    }

    /// What `time()` reads: the accumulated duration. An open interval that
    /// is still running is not included.
    pub open spec fn time(self) -> u64 {
        self.accumulated_ns
    }
}

/// How a timer renders in a report: its accumulated duration as seconds,
/// followed by the unit `s`.
pub open spec fn timer_chars(v: TimerView) -> Seq<char> {
    seconds_chars(v.accumulated_ns as nat) + "s"@
}

/// An elapsed-time tracker.
///
/// `start()` begins a fresh measurement window, `pause()` closes the current
/// interval and adds it to the total, `resume()` opens a further interval
/// without discarding the total, and `time()` reads the total in
/// nanoseconds.
#[derive(Clone, Copy, Debug)]
pub struct Timer {
    accumulated_ns: u64,
    running_since: Option<u64>,
    clock: ClockSource,
}

impl View for Timer {
    type V = TimerView;

    closed spec fn view(&self) -> TimerView {
        TimerView {
            accumulated_ns: self.accumulated_ns,
            running_since: self.running_since,
        }
    }
}

/// Relies on `time::precise_time_ns`: the current value of a monotonic
/// platform clock, in nanoseconds from an unspecified epoch. Nothing is
/// assumed of the value returned.
#[verifier::external_body]
fn monotonic_now_ns() -> u64 {
    time::precise_time_ns()
}

impl Timer {
    /// The clock source this timer was constructed with.
    pub closed spec fn clock_source(self) -> ClockSource {
        self.clock
    }

    /// Creates a timer that is not running, with nothing accumulated, that
    /// will read the given clock source.
    pub fn new(clock: ClockSource) -> (t: Timer)
        ensures
            t@ == (TimerView { accumulated_ns: 0, running_since: None }),
            t.clock_source() == clock,
    {
        Timer { accumulated_ns: 0, running_since: None, clock }
    }

    /// The current reading of this timer's clock source.
    fn read_clock(&self) -> (now: u64)
        ensures
            self.clock_source() matches ClockSource::Manual(t) ==> now == t,
    {
        match self.clock {
            ClockSource::Monotonic => monotonic_now_ns(),
            ClockSource::Manual(t) => t,
        }
    }

    /// Begins a fresh measurement window: the accumulated duration is reset
    /// to zero and the timer runs from the current clock reading. Prior
    /// accumulated time is discarded.
    pub fn start(&mut self)
        ensures
            final(self).clock_source() == old(self).clock_source(),
            match old(self).clock_source() {
                ClockSource::Manual(now) => final(self)@ == old(self)@.started(now),
                ClockSource::Monotonic => exists|now: u64| final(self)@ == #[trigger] old(self)@.started(now),
            },
    {
        let now = self.read_clock();
        self.accumulated_ns = 0;
        self.running_since = Some(now);
        proof {
            assert(self@ == old(self)@.started(now));
        }
    }

    /// If the timer is running, adds the interval since it started running
    /// to the accumulated duration and stops it. If it is not running, this
    /// is a no-op: the state is unchanged and no error is raised.
    pub fn pause(&mut self)
        ensures
            final(self).clock_source() == old(self).clock_source(),
            final(self)@.running_since is None || old(self)@.running_since is None,
            match old(self).clock_source() {
                ClockSource::Manual(now) => final(self)@ == old(self)@.paused(now),
                ClockSource::Monotonic => exists|now: u64| final(self)@ == #[trigger] old(self)@.paused(now),
            },
    {
        let now = self.read_clock();
        match self.running_since {
            Some(since) => {
                let delta = if now >= since {
                    now - since
                } else {
                    0
                };
                self.accumulated_ns = if delta > u64::MAX - self.accumulated_ns {
                    u64::MAX
                } else {
                    self.accumulated_ns + delta
                };
                self.running_since = None;
            },
            None => {},
        }
        proof {
            assert(self@ == old(self)@.paused(now));
        }
    }

    /// Begins running from the current clock reading without resetting the
    /// accumulated duration, so that further intervals add to it. Calling
    /// this while already running overwrites the running start reading and
    /// silently discards the interval that was open.
    pub fn resume(&mut self)
        ensures
            final(self).clock_source() == old(self).clock_source(),
            final(self)@.accumulated_ns == old(self)@.accumulated_ns,
            match old(self).clock_source() {
                ClockSource::Manual(now) => final(self)@ == old(self)@.resumed(now),
                ClockSource::Monotonic => exists|now: u64| final(self)@ == #[trigger] old(self)@.resumed(now),
            },
    {
        let now = self.read_clock();
        self.running_since = Some(now);
        proof {
            assert(self@ == old(self)@.resumed(now));
        }
    }

    /// The accumulated duration in nanoseconds. While the timer is running,
    /// the interval currently open is not included.
    pub fn time(&self) -> (r: u64)
        ensures
            r == self@.time(),
    {
        self.accumulated_ns
    }

    /// The accumulated duration rendered as seconds, such as `0.01s`.
    pub fn time_string(&self) -> (r: String)
        ensures
            r@ == timer_chars(self@),
    {
        let mut s = String::new();
        push_seconds(&mut s, self.accumulated_ns);
        s.append("s");
        proof {
            assert(s@ =~= timer_chars(self@));
        }
        s
    }

    /// Advances a `Manual` clock source by `delta_ns` nanoseconds,
    /// saturating at the largest representable reading. On a `Monotonic`
    /// source this does nothing: only the platform advances that clock.
    /// The timer's own state is unchanged either way.
    pub fn advance_clock(&mut self, delta_ns: u64)
        ensures
            final(self)@ == old(self)@,
            match old(self).clock_source() {
                ClockSource::Manual(t) => final(self).clock_source()
                    == ClockSource::Manual(sat_add(t, delta_ns)),
                ClockSource::Monotonic => final(self).clock_source() == old(self).clock_source(),
            },
    {
        match self.clock {
            ClockSource::Manual(t) => {
                let advanced = if delta_ns > u64::MAX - t {
                    u64::MAX
                } else {
                    t + delta_ns
                };
                self.clock = ClockSource::Manual(advanced);
            },
            ClockSource::Monotonic => {},
        }
    }
}

/// From any state, starting at clock reading `now` and pausing after the
/// clock has advanced by `delta_ns` measures exactly `delta_ns`.
pub proof fn lemma_start_advance_pause(v: TimerView, now: u64, delta_ns: u64)
    requires
        now + delta_ns <= u64::MAX,
    ensures
        v.started(now).paused((now + delta_ns) as u64).time() == delta_ns,
{
}

/// Pausing a timer that is not running leaves its state unchanged.
pub proof fn lemma_pause_idle_is_noop(v: TimerView, now: u64)
    requires
        v.running_since is None,
    ensures
        v.paused(now) == v,
{
}

/// `start` is destructive: a second measurement window discards the first,
/// so two windows of `delta1_ns` and `delta2_ns` in a row measure
/// `delta2_ns`, not their sum.
pub proof fn lemma_start_discards(
    v: TimerView,
    now1: u64,
    delta1_ns: u64,
    now2: u64,
    delta2_ns: u64,
)
    requires
        now1 + delta1_ns <= u64::MAX,
        now2 + delta2_ns <= u64::MAX,
    ensures
        v.started(now1).paused((now1 + delta1_ns) as u64).started(now2).paused(
            (now2 + delta2_ns) as u64,
        ).time() == delta2_ns,
{
}

/// `resume` is additive: an interval of `delta2_ns` measured after a
/// `resume` adds to the `delta1_ns` already accumulated, whatever clock
/// reading the timer resumes at.
pub proof fn lemma_resume_accumulates(
    v: TimerView,
    now1: u64,
    delta1_ns: u64,
    now2: u64,
    delta2_ns: u64,
)
    requires
        now1 + delta1_ns <= u64::MAX,
        now2 + delta2_ns <= u64::MAX,
        delta1_ns + delta2_ns <= u64::MAX,
    ensures
        v.started(now1).paused((now1 + delta1_ns) as u64).resumed(now2).paused(
            (now2 + delta2_ns) as u64,
        ).time() == delta1_ns + delta2_ns,
{
}

/// Reading the time while the timer is running excludes the interval that
/// is still open: right after a `start`, whatever the clock reads, the
/// measured time is zero.
pub proof fn lemma_running_excludes_open_interval(v: TimerView, now: u64)
    ensures
        v.started(now).time() == 0,
{
}

} // verus!
