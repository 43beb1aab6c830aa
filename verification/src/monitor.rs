//! The performance monitor's pause policy.
//!
//! An external watcher observes the battery and the foreground window and
//! periodically writes the pause flag into the shared configuration; the
//! playback loop only obeys the flag. The observations themselves — battery
//! state, foreground window rectangle, screen size — are made by the
//! surrounding application and handed here as plain values; this module
//! decides whether they demand a pause and installs the decision.

use vstd::prelude::*;

use crate::player::{config_inv, PlayerState, SharedState};

verus! {

/// How many pixels short of the screen a foreground window may fall in each
/// direction and still count as covering it.
pub const FULLSCREEN_TOLERANCE: i32 = 5;

/// How often the monitor re-evaluates its observations, in seconds.
pub const MONITOR_POLL_SECS: u64 = 3;

/// What the battery reported, reduced to plain values.
#[derive(Clone, Copy, Debug, PartialEq, Eq, Structural)]
pub struct BatteryReading {
    /// The battery is discharging: the machine runs unplugged.
    pub discharging: bool,
    /// State of charge, in whole percent of a full battery.
    pub percent: i32,
}

/// Whether a window rectangle covers the screen up to the tolerance — the
/// heuristic for "a fullscreen application is in front".
pub open spec fn spec_covers_screen(
    left: int,
    top: int,
    right: int,
    bottom: int,
    screen_w: int,
    screen_h: int,
) -> bool {
    &&& (if right - left >= 0 {
        right - left
    } else {
        left - right
    }) >= screen_w - FULLSCREEN_TOLERANCE
    &&& (if bottom - top >= 0 {
        bottom - top
    } else {
        top - bottom
    }) >= screen_h - FULLSCREEN_TOLERANCE
}

/// The pause policy: playback yields while the battery discharges below the
/// threshold, or while a foreground window covers the whole screen.
pub open spec fn spec_should_pause(
    battery: Option<BatteryReading>,
    fullscreen: bool,
    threshold: i32,
) -> bool {
    ||| (battery matches Some(b) && b.discharging && b.percent < threshold)
    ||| fullscreen
}

/// Decides whether a foreground window's rectangle covers the screen.
pub fn covers_screen(
    left: i32,
    top: i32,
    right: i32,
    bottom: i32,
    screen_w: i32,
    screen_h: i32,
) -> (covers: bool)
    ensures
        covers == spec_covers_screen(
            left as int,
            top as int,
            right as int,
            bottom as int,
            screen_w as int,
            screen_h as int,
        ),
{
    let width: i64 = (right as i64) - (left as i64);
    let width: i64 = if width >= 0 {
        width
    } else {
        -width
    };
    let height: i64 = (bottom as i64) - (top as i64);
    let height: i64 = if height >= 0 {
        height
    } else {
        -height
    };
    width >= (screen_w as i64) - (FULLSCREEN_TOLERANCE as i64) && height >= (screen_h as i64) - (
    FULLSCREEN_TOLERANCE as i64)
}

/// Decides the pause policy from one round of observations.
pub fn should_pause(battery: &Option<BatteryReading>, fullscreen: bool, threshold: i32) -> (pause:
    bool)
    ensures
        pause == spec_should_pause(*battery, fullscreen, threshold),
{
    let battery_low = match battery {
        Some(b) => b.discharging && b.percent < threshold,
        None => false,
    };
    battery_low || fullscreen
}

/// Watches the machine on behalf of the playback loop and writes only the
/// pause flag of the shared configuration.
pub struct PerformanceMonitor {
    state: SharedState,
}

impl PerformanceMonitor {
    /// The shared cell this monitor writes into.
    pub closed spec fn spec_state(&self) -> SharedState {
        self.state
    }

    /// The cell admits exactly the configurations obeying [`config_inv`].
    pub open spec fn wf(&self) -> bool {
        forall|s: PlayerState| (*self.spec_state()).inv(s) == config_inv(s)
    }

    /// A monitor writing into the player's shared configuration.
    pub fn new(state: SharedState) -> (monitor: PerformanceMonitor)
        requires
            forall|s: PlayerState| (*state).inv(s) == config_inv(s),
        ensures
            monitor.wf(),
    {
        PerformanceMonitor { state }
    }

    /// One monitor pass: decides the pause policy from the observations and
    /// installs it, replacing only the pause flag of the currently
    /// installed configuration.
    pub fn apply_observations(
        &self,
        battery: &Option<BatteryReading>,
        fullscreen: bool,
        threshold: i32,
    )
        requires
            self.wf(),
    {
        let pause = should_pause(battery, fullscreen, threshold);
        let (current, handle) = self.state.acquire_write();
        let updated = PlayerState {
            is_paused: pause,
            fps: current.fps,
            path: current.path,
            resolution: current.resolution,
        };
        proof {
            assert(config_inv(current));
            assert(config_inv(updated));
            assert((*self.spec_state()).inv(updated));
        }
        handle.release_write(updated);
    }
}

} // verus!
