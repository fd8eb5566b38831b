use counters::ClockSource;
use counters::Timer;

fn manual_timer() -> Timer {
    Timer::new(ClockSource::Manual(0))
}

#[test]
fn fresh_timer_reads_zero() {
    let t = manual_timer();
    assert_eq!(t.time(), 0);
}

#[test]
fn start_advance_pause_measures_the_interval() {
    let mut t = manual_timer();
    t.start();
    t.advance_clock(10_000_000);
    t.pause();
    assert_eq!(t.time(), 10_000_000);
}

#[test]
fn pause_without_start_is_a_noop() {
    let mut t = manual_timer();
    t.advance_clock(5_000);
    t.pause();
    assert_eq!(t.time(), 0);
    t.start();
    t.advance_clock(7_000);
    t.pause();
    let measured = t.time();
    t.pause();
    assert_eq!(t.time(), measured);
}

#[test]
fn start_discards_the_previous_window() {
    let mut t = manual_timer();
    t.start();
    t.advance_clock(4_000);
    t.pause();
    t.start();
    t.advance_clock(9_000);
    t.pause();
    assert_eq!(t.time(), 9_000);
}

#[test]
fn resume_adds_to_the_previous_window() {
    let mut t = manual_timer();
    t.start();
    t.advance_clock(4_000);
    t.pause();
    t.resume();
    t.advance_clock(9_000);
    t.pause();
    assert_eq!(t.time(), 13_000);
}

#[test]
fn time_while_running_excludes_the_open_interval() {
    let mut t = manual_timer();
    t.start();
    t.advance_clock(42_000);
    assert_eq!(t.time(), 0);
}

#[test]
fn resume_while_running_discards_the_open_interval() {
    let mut t = manual_timer();
    t.start();
    t.advance_clock(5_000);
    t.resume();
    t.advance_clock(7_000);
    t.pause();
    assert_eq!(t.time(), 7_000);
}

#[test]
fn clock_advance_saturates() {
    let mut t = manual_timer();
    t.start();
    t.advance_clock(u64::MAX);
    t.pause();
    assert_eq!(t.time(), u64::MAX);
    t.resume();
    t.advance_clock(5);
    t.pause();
    assert_eq!(t.time(), u64::MAX);
}

#[test]
fn monotonic_timer_measures_without_failing() {
    let mut t = Timer::new(ClockSource::Monotonic);
    t.start();
    t.pause();
    let measured = t.time();
    t.pause();
    assert_eq!(t.time(), measured);
}

#[test]
fn time_string_renders_seconds() {
    let cases: Vec<(u64, &str)> = vec![
        (0, "0s"),
        (1, "0.000000001s"),
        (999_999_999, "0.999999999s"),
        (1_000_000_000, "1s"),
        (1_500_000_000, "1.5s"),
        (2_030_000_000, "2.03s"),
        (10_000_000, "0.01s"),
        (1_000_000, "0.001s"),
        (12_345_678_901, "12.345678901s"),
    ];
    for (ns, expected) in cases {
        let mut t = manual_timer();
        t.start();
        t.advance_clock(ns);
        t.pause();
        assert_eq!(t.time(), ns);
        assert_eq!(t.time_string(), expected);
    }
}
