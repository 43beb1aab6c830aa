//! Frame pacing: the running schedule that spaces presented frames at the
//! configured rate.
//!
//! The playback loop keeps an ideal timestamp for the next tick and advances
//! it by one whole frame interval after every frame, instead of re-deriving
//! it from the wall clock. A tick that finishes late snaps the schedule
//! forward to the present, so a single slow frame neither drifts the cadence
//! permanently nor queues a backlog of catch-up frames.

use vstd::prelude::*;

verus! {

/// Number of nanoseconds in one second.
pub const NANOS_PER_SEC: u64 = 1_000_000_000;

/// Length of one frame interval for a target rate of `fps` frames per second.
pub open spec fn spec_frame_interval_nanos(fps: u32) -> int {
    NANOS_PER_SEC as int / fps as int
}

/// The schedule snapped forward: a schedule that has fallen behind the clock
/// is moved up to `now`; one still in the future is left alone.
pub open spec fn spec_snap(target: u64, now: u64) -> u64 {
    if target < now {
        now
    } else {
        target
    }
}

/// The schedule advanced by one frame interval, pinned to the clock's range.
pub open spec fn spec_advance(target: u64, interval: u64) -> u64 {
    if target + interval <= u64::MAX {
        (target + interval) as u64
    } else {
        u64::MAX
    }
}

/// Nanoseconds of one frame interval at `fps` frames per second.
pub fn frame_interval_nanos(fps: u32) -> (interval: u64)
    requires
        fps > 0,
    ensures
        interval == spec_frame_interval_nanos(fps),
{
    NANOS_PER_SEC / (fps as u64)
}

/// Snaps a stale schedule forward to `now`, leaving a future schedule alone.
pub fn snap_schedule(target: u64, now: u64) -> (snapped: u64)
    ensures
        snapped == spec_snap(target, now),
        now <= snapped,
        target <= snapped,
{
    if target < now {
        now
    } else {
        target
    }
}

/// How long the loop should sleep before a tick scheduled at `target`:
/// the remaining time, or nothing when the schedule is already due.
pub fn sleep_nanos(target: u64, now: u64) -> (pause: u64)
    ensures
        pause == if now <= target { (target - now) as int } else { 0int },
        now + pause == spec_snap(target, now),
{
    if now <= target {
        target - now
    } else {
        0
    }
}

/// Advances the schedule by one frame interval after a presented frame.
pub fn next_tick(target: u64, interval: u64) -> (next: u64)
    ensures
        next == spec_advance(target, interval),
        target <= next,
{
    if target <= u64::MAX - interval {
        target + interval
    } else {
        u64::MAX
    }
}

/// Pacing law: a tick that runs on schedule advances the ideal timestamp by
/// exactly one frame interval, so consecutive on-time frames are spaced
/// `interval` apart; a tick that observes the schedule in the past snaps it
/// to the present, so a delay never queues more than the one late frame.
pub proof fn lemma_schedule_paces(target: u64, now: u64, interval: u64)
    requires
        target + interval <= u64::MAX,
    ensures
        now <= target ==> spec_advance(spec_snap(target, now), interval) == target + interval,
        target < now ==> spec_snap(target, now) == now,
{
}

} // verus!
