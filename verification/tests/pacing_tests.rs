use mew::pacing::{frame_interval_nanos, next_tick, sleep_nanos, snap_schedule, NANOS_PER_SEC};

#[test]
fn interval_of_thirty_fps_is_a_thirtieth_of_a_second() {
    assert_eq!(frame_interval_nanos(30), 33_333_333);
    assert_eq!(frame_interval_nanos(15), 66_666_666);
    assert_eq!(frame_interval_nanos(60), 16_666_666);
    assert_eq!(frame_interval_nanos(1), NANOS_PER_SEC);
}

#[test]
fn stale_schedule_snaps_to_now() {
    assert_eq!(snap_schedule(100, 250), 250);
    assert_eq!(snap_schedule(250, 100), 250);
    assert_eq!(snap_schedule(100, 100), 100);
}

#[test]
fn sleep_is_the_remaining_time_or_nothing() {
    assert_eq!(sleep_nanos(500, 200), 300);
    assert_eq!(sleep_nanos(200, 500), 0);
    assert_eq!(sleep_nanos(200, 200), 0);
}

#[test]
fn schedule_advances_by_one_interval() {
    assert_eq!(next_tick(1_000, 33_333_333), 33_334_333);
    assert_eq!(next_tick(u64::MAX - 5, 10), u64::MAX);
}

#[test]
fn on_time_ticks_average_the_configured_interval() {
    // A run of 120 on-time ticks at 30 fps: consecutive deadlines are spaced
    // exactly one interval apart, so the mean inter-present gap is the
    // interval itself (~33.3 ms).
    let interval = frame_interval_nanos(30);
    let mut deadline: u64 = 0;
    let mut presents: Vec<u64> = Vec::new();
    for _ in 0..120 {
        // The loop wakes exactly at the deadline.
        let now = deadline;
        let snapped = snap_schedule(deadline, now);
        presents.push(snapped);
        deadline = next_tick(snapped, interval);
    }
    let gaps: Vec<u64> = presents.windows(2).map(|w| w[1] - w[0]).collect();
    assert!(gaps.iter().all(|g| *g == interval));
    let mean = gaps.iter().sum::<u64>() / gaps.len() as u64;
    assert_eq!(mean, 33_333_333);
}

#[test]
fn a_delayed_tick_does_not_queue_a_backlog() {
    // One tick is 200 ms late. The schedule snaps forward to the present
    // instead of replaying the missed frames, and from there the cadence is
    // one interval again — no drift, no burst of catch-up frames.
    let interval = frame_interval_nanos(30);
    let mut deadline: u64 = 1_000_000;
    let late_now = deadline + 200_000_000;
    let snapped = snap_schedule(deadline, late_now);
    assert_eq!(snapped, late_now);
    assert_eq!(sleep_nanos(deadline, late_now), 0);
    deadline = next_tick(snapped, interval);
    assert_eq!(deadline, late_now + interval);
    // The next tick, on time again, waits a full interval: exactly one
    // frame is due, not the six that fell into the delay.
    assert_eq!(sleep_nanos(deadline, late_now), interval);
}
