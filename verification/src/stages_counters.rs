//! Performance counters for one simulation step: one elapsed-time tracker
//! per top-level pipeline stage.

use vstd::prelude::*;

use crate::timer::ClockSource;
use crate::timer::Timer;
use crate::timer::TimerView;
use crate::timer::timer_chars;

verus! {

/// Performance counters related to each stage of the time step.
pub struct StagesCounters {
    /// Time spent for updating the kinematic and dynamics of every body.
    pub update_time: Timer,
    /// Total time spent for the collision detection (including both broad-
    /// and narrow-phases).
    pub collision_detection_time: Timer,
    /// Time spent for the computation of collision islands and body
    /// activation/deactivation (sleeping).
    pub island_construction_time: Timer,
    /// Total time spent for the constraints resolution and position update.
    pub solver_time: Timer,
}

impl StagesCounters {
    /// The four report lines in stage order: update, collision detection,
    /// island construction, solver, each ended by a newline.
    pub open spec fn report_chars(self) -> Seq<char> {
        "Update time: "@ + timer_chars(self.update_time@) + "\n"@
            + "Collision detection time: "@ + timer_chars(self.collision_detection_time@) + "\n"@
            + "Island construction time: "@ + timer_chars(self.island_construction_time@) + "\n"@
            + "Solver time: "@ + timer_chars(self.solver_time@) + "\n"@
    }

    /// Creates counters initialized to zero, whose timers read the given
    /// clock source.
    pub fn new(clock: ClockSource) -> (c: StagesCounters)
        ensures
            c.update_time@ == (TimerView { accumulated_ns: 0, running_since: None }),
            c.collision_detection_time@ == (TimerView { accumulated_ns: 0, running_since: None }),
            c.island_construction_time@ == (TimerView { accumulated_ns: 0, running_since: None }),
            c.solver_time@ == (TimerView { accumulated_ns: 0, running_since: None }),
            c.update_time.clock_source() == clock,
            c.collision_detection_time.clock_source() == clock,
            c.island_construction_time.clock_source() == clock,
            c.solver_time.clock_source() == clock,
    {
        StagesCounters {
            update_time: Timer::new(clock),
            collision_detection_time: Timer::new(clock),
            island_construction_time: Timer::new(clock),
            solver_time: Timer::new(clock),
        }
    }

    /// The report: exactly the four lines of [`Self::report_chars`].
    pub fn report(&self) -> (r: String)
        ensures
            r@ == self.report_chars(),
    {
        let mut s = String::new();
        s.append("Update time: ");
        let update = self.update_time.time_string();
        s.append(update.as_str());
        s.append("\n");
        s.append("Collision detection time: ");
        let collision = self.collision_detection_time.time_string();
        s.append(collision.as_str());
        s.append("\n");
        s.append("Island construction time: ");
        let island = self.island_construction_time.time_string();
        s.append(island.as_str());
        s.append("\n");
        s.append("Solver time: ");
        let solver = self.solver_time.time_string();
        s.append(solver.as_str());
        s.append("\n");
        proof {
            assert(s@ =~= self.report_chars());
        }
        s
    }
}

} // verus!
