use axe_man_adventure::timer::{FrameTimer, GlobalTimer, ATTACK_FRAME_NANOS, DYING_FRAME_NANOS, GLOBAL_FRAME_NANOS};

#[test]
fn frame_lengths_follow_the_frame_rates() {
    // 1/3.75 s and 1/15 s as single-precision seconds, in nanoseconds.
    assert_eq!(GLOBAL_FRAME_NANOS, 266_666_681);
    assert_eq!(DYING_FRAME_NANOS, 266_666_681);
    assert_eq!(ATTACK_FRAME_NANOS, 66_666_670);
}

#[test]
fn timer_adds_time_below_its_period() {
    let mut timer = FrameTimer::new(100);
    assert!(!timer.tick(30));
    assert_eq!(timer.elapsed_nanos(), 30);
    assert_eq!(timer.duration_nanos(), 100);
}

#[test]
fn timer_wraps_round_when_the_period_is_reached() {
    let mut timer = FrameTimer::new(100);
    assert!(!timer.tick(30));
    assert!(timer.tick(80));
    assert_eq!(timer.elapsed_nanos(), 10);
    assert!(timer.tick(250));
    assert_eq!(timer.elapsed_nanos(), 60);
    assert!(timer.tick(40));
    assert_eq!(timer.elapsed_nanos(), 0);
}

#[test]
fn timer_with_no_time_passing_does_not_finish() {
    let mut timer = FrameTimer::new(100);
    assert!(!timer.tick(0));
    assert_eq!(timer.elapsed_nanos(), 0);
    assert!(timer.elapsed_nanos() < timer.duration_nanos());
}

#[test]
fn global_clock_starts_at_the_first_frame() {
    let clock = GlobalTimer::new();
    assert_eq!(clock.frame(), 0);
    assert_eq!(clock.timer().duration_nanos(), GLOBAL_FRAME_NANOS);
    assert_eq!(clock.timer().elapsed_nanos(), 0);
}

#[test]
fn global_clock_cycles_through_four_frames() {
    let mut clock = GlobalTimer::new();
    let mut seen = Vec::new();
    for _ in 0..5 {
        clock.tick(GLOBAL_FRAME_NANOS);
        seen.push(clock.frame());
    }
    assert_eq!(seen, vec![1, 2, 3, 0, 1]);
}

#[test]
fn global_clock_waits_for_a_whole_frame() {
    let mut clock = GlobalTimer::new();
    clock.tick(GLOBAL_FRAME_NANOS / 2);
    assert_eq!(clock.frame(), 0);
    clock.tick(GLOBAL_FRAME_NANOS / 2);
    assert_eq!(clock.frame(), 0);
    clock.tick(1);
    assert_eq!(clock.frame(), 1);
    assert_eq!(clock.timer().elapsed_nanos(), 0);
}

#[test]
fn global_clock_moves_one_frame_for_a_long_update() {
    let mut clock = GlobalTimer::new();
    clock.tick(GLOBAL_FRAME_NANOS * 3);
    assert_eq!(clock.frame(), 1);
}

#[test]
fn global_frame_counts_only_finishing_updates() {
    // Eleven updates, of which six finish the timer: the frame ends at 6 % 4.
    let mut clock = GlobalTimer::new();
    let deltas = [
        GLOBAL_FRAME_NANOS,
        1,
        GLOBAL_FRAME_NANOS - 1,
        10,
        GLOBAL_FRAME_NANOS * 5,
        GLOBAL_FRAME_NANOS,
        0,
        GLOBAL_FRAME_NANOS,
        3,
        GLOBAL_FRAME_NANOS,
        7,
    ];
    let mut finishing = 0;
    for delta in deltas {
        let before = clock.frame();
        clock.tick(delta);
        if clock.frame() != before {
            finishing += 1;
        }
    }
    assert_eq!(finishing, 6);
    assert_eq!(clock.frame(), 2);
}
