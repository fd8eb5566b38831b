//! Stage-based performance instrumentation for a real-time physics
//! simulation loop: per-stage elapsed-time trackers with start/pause/resume
//! semantics, counters for a collision-detection stage, and human-readable
//! reports.

pub mod collision_detection_counters;
pub mod report;
pub mod stages_counters;
pub mod timer;

pub use collision_detection_counters::CollisionDetectionCounters;
pub use stages_counters::StagesCounters;
pub use timer::ClockSource;
pub use timer::Timer;
pub use timer::TimerView;
