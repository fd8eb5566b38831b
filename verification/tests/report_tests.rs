use counters::ClockSource;
use counters::CollisionDetectionCounters;
use counters::StagesCounters;

#[test]
fn collision_detection_report_lists_count_and_phases() {
    let mut c = CollisionDetectionCounters::new(ClockSource::Manual(0));
    c.ncontact_pairs = 42;
    c.broad_phase_time.start();
    c.broad_phase_time.advance_clock(10_000_000);
    c.broad_phase_time.pause();
    c.narrow_phase_time.start();
    c.narrow_phase_time.advance_clock(30_000_000);
    c.narrow_phase_time.pause();
    assert_eq!(
        c.report(),
        "Number of contact pairs: 42\nBroad-phase time: 0.01s\nNarrow-phase time: 0.03s\n"
    );
}

#[test]
fn collision_detection_report_starts_at_zero() {
    let c = CollisionDetectionCounters::new(ClockSource::Manual(0));
    assert_eq!(
        c.report(),
        "Number of contact pairs: 0\nBroad-phase time: 0s\nNarrow-phase time: 0s\n"
    );
}

#[test]
fn stages_report_with_all_timers_at_zero() {
    let s = StagesCounters::new(ClockSource::Manual(0));
    assert_eq!(
        s.report(),
        "Update time: 0s\nCollision detection time: 0s\nIsland construction time: 0s\nSolver time: 0s\n"
    );
}

#[test]
fn stages_report_lists_each_stage() {
    let mut s = StagesCounters::new(ClockSource::Manual(0));
    s.update_time.start();
    s.update_time.advance_clock(1_000_000);
    s.update_time.pause();
    s.collision_detection_time.start();
    s.collision_detection_time.advance_clock(40_000_000);
    s.collision_detection_time.pause();
    s.island_construction_time.start();
    s.island_construction_time.advance_clock(2_500_000);
    s.island_construction_time.pause();
    s.solver_time.start();
    s.solver_time.advance_clock(3_000_000_000);
    s.solver_time.pause();
    assert_eq!(
        s.report(),
        "Update time: 0.001s\nCollision detection time: 0.04s\nIsland construction time: 0.0025s\nSolver time: 3s\n"
    );
}

#[test]
fn repeated_steps_keep_only_the_last_window() {
    let mut s = StagesCounters::new(ClockSource::Manual(0));
    for _ in 0..3 {
        s.update_time.start();
        s.update_time.advance_clock(1_000_000);
        s.update_time.pause();
    }
    assert_eq!(s.update_time.time(), 1_000_000);
}
