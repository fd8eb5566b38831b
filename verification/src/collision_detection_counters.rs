//! Performance counters for one collision-detection stage: the number of
//! contact pairs produced and the time spent in its broad and narrow
//! phases.

use vstd::prelude::*;

use crate::report::dec_digits;
use crate::report::push_decimal;
use crate::timer::ClockSource;
use crate::timer::Timer;
use crate::timer::TimerView;
use crate::timer::timer_chars;

verus! {

/// Performance counters related to collision detection.
///
/// The contact-pair count is set by the caller once per stage; the two
/// timers are bracketed by the caller around the respective sub-stage.
pub struct CollisionDetectionCounters {
    /// Number of contact pairs detected.
    pub ncontact_pairs: usize,
    /// Time spent for the broad-phase of the collision detection.
    pub broad_phase_time: Timer,
    /// Time spent for the narrow-phase of the collision detection.
    pub narrow_phase_time: Timer,
}

impl CollisionDetectionCounters {
    /// The three report lines: contact-pair count, broad-phase time,
    /// narrow-phase time, each ended by a newline.
    pub open spec fn report_chars(self) -> Seq<char> {
        "Number of contact pairs: "@ + dec_digits(self.ncontact_pairs as nat) + "\n"@
            + "Broad-phase time: "@ + timer_chars(self.broad_phase_time@) + "\n"@
            + "Narrow-phase time: "@ + timer_chars(self.narrow_phase_time@) + "\n"@
    }

    /// Creates counters initialized to zero, whose timers read the given
    /// clock source.
    pub fn new(clock: ClockSource) -> (c: CollisionDetectionCounters)
        ensures
            c.ncontact_pairs == 0,
            c.broad_phase_time@ == (TimerView { accumulated_ns: 0, running_since: None }),
            c.narrow_phase_time@ == (TimerView { accumulated_ns: 0, running_since: None }),
            c.broad_phase_time.clock_source() == clock,
            c.narrow_phase_time.clock_source() == clock,
    {
        CollisionDetectionCounters {
            ncontact_pairs: 0,
            broad_phase_time: Timer::new(clock),
            narrow_phase_time: Timer::new(clock),
        }
    }

    /// The report: exactly the three lines of [`Self::report_chars`].
    pub fn report(&self) -> (r: String)
        ensures
            r@ == self.report_chars(),
    {
        let mut s = String::new();
        s.append("Number of contact pairs: ");
        push_decimal(&mut s, self.ncontact_pairs as u64);
        s.append("\n");
        s.append("Broad-phase time: ");
        let broad = self.broad_phase_time.time_string();
        s.append(broad.as_str());
        s.append("\n");
        s.append("Narrow-phase time: ");
        let narrow = self.narrow_phase_time.time_string();
        s.append(narrow.as_str());
        s.append("\n");
        proof {
            assert(s@ =~= self.report_chars());
        }
        s
    }
}

} // verus!
