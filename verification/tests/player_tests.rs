use mew::monitor::{covers_screen, should_pause, BatteryReading, PerformanceMonitor};
use mew::player::{
    frame_action, heartbeat_due, poll_delay_millis, render_followup, DecodeOutcome, FrameAction,
    PlayerState, RenderFollowup, TickPlan, WallpaperPlayer, BACKOFF_MILLIS, HEARTBEAT_NANOS,
    IDLE_POLL_MILLIS, PAUSED_POLL_MILLIS,
};
use mew::surface::SurfaceError;

#[test]
fn player_starts_unpaused_with_no_source() {
    let player = WallpaperPlayer::new();
    let snap = player.snapshot();
    assert!(!snap.is_paused);
    assert_eq!(snap.fps, 30);
    assert_eq!(snap.path, "");
    assert_eq!(snap.resolution, "1080p");
}

#[test]
fn snapshot_returns_the_whole_installed_configuration() {
    // A writer installs {path="B", fps=60} as one value; a snapshot can only
    // ever be a whole installed value, never {path="B", fps=<old>} nor
    // {path=<old>, fps=60}.
    let player = WallpaperPlayer::new();
    let old = player.snapshot();
    let installed = PlayerState {
        is_paused: false,
        fps: 60,
        path: "B".to_string(),
        resolution: "1440p".to_string(),
    };
    player.apply_config(installed);
    let observed = player.snapshot();
    let whole_old = observed.path == old.path && observed.fps == old.fps;
    let whole_new = observed.path == "B" && observed.fps == 60;
    assert!(whole_old || whole_new);
    assert!(whole_new);
}

#[test]
fn get_state_shares_the_same_cell() {
    let player = WallpaperPlayer::new();
    let shared = player.get_state();
    let (current, write) = shared.acquire_write();
    write.release_write(PlayerState {
        is_paused: true,
        fps: current.fps,
        path: current.path,
        resolution: current.resolution,
    });
    assert!(player.snapshot().is_paused);
}

#[test]
fn monitor_pauses_on_low_battery_and_resumes() {
    let player = WallpaperPlayer::new();
    let monitor = PerformanceMonitor::new(player.get_state());
    let low = Some(BatteryReading {
        discharging: true,
        percent: 12,
    });
    monitor.apply_observations(&low, false, 20);
    let paused = player.snapshot();
    assert!(paused.is_paused);
    assert_eq!(paused.fps, 30);
    assert_eq!(paused.path, "");
    let charged = Some(BatteryReading {
        discharging: false,
        percent: 12,
    });
    monitor.apply_observations(&charged, false, 20);
    assert!(!player.snapshot().is_paused);
}

#[test]
fn pause_policy_cases() {
    let low_discharging = Some(BatteryReading {
        discharging: true,
        percent: 19,
    });
    let at_threshold = Some(BatteryReading {
        discharging: true,
        percent: 20,
    });
    let low_plugged = Some(BatteryReading {
        discharging: false,
        percent: 5,
    });
    assert!(should_pause(&low_discharging, false, 20));
    assert!(!should_pause(&at_threshold, false, 20));
    assert!(!should_pause(&low_plugged, false, 20));
    assert!(!should_pause(&None, false, 20));
    assert!(should_pause(&None, true, 20));
}

#[test]
fn fullscreen_heuristic_allows_five_pixels() {
    assert!(covers_screen(0, 0, 1920, 1080, 1920, 1080));
    assert!(covers_screen(0, 0, 1915, 1075, 1920, 1080));
    assert!(!covers_screen(0, 0, 1914, 1080, 1920, 1080));
    // A mirrored rectangle counts by its absolute extent.
    assert!(covers_screen(1920, 1080, 0, 0, 1920, 1080));
    assert!(!covers_screen(0, 0, 800, 600, 1920, 1080));
}

#[test]
fn decode_outcomes_map_to_their_actions() {
    assert_eq!(frame_action(&DecodeOutcome::Frame), FrameAction::Present);
    assert_eq!(
        frame_action(&DecodeOutcome::EndOfStream),
        FrameAction::RestartAndRetry
    );
    assert_eq!(frame_action(&DecodeOutcome::Error), FrameAction::Backoff);
}

#[test]
fn any_present_failure_rebuilds_the_surface() {
    assert_eq!(render_followup(&Ok(())), RenderFollowup::Continue);
    assert_eq!(
        render_followup(&Err(SurfaceError::HostLayerLost)),
        RenderFollowup::RebuildSurface
    );
    assert_eq!(
        render_followup(&Err(SurfaceError::DeviceOperationFailed)),
        RenderFollowup::RebuildSurface
    );
}

#[test]
fn poll_delays_match_the_plans() {
    assert_eq!(poll_delay_millis(&TickPlan::Idle), IDLE_POLL_MILLIS);
    assert_eq!(poll_delay_millis(&TickPlan::Retry), IDLE_POLL_MILLIS);
    assert_eq!(poll_delay_millis(&TickPlan::Paused), PAUSED_POLL_MILLIS);
    assert_eq!(poll_delay_millis(&TickPlan::Reload), 0);
    assert_eq!(poll_delay_millis(&TickPlan::Advance), 0);
    assert_eq!(BACKOFF_MILLIS, 100);
}

#[test]
fn heartbeat_fires_after_ten_seconds() {
    assert!(!heartbeat_due(0, HEARTBEAT_NANOS));
    assert!(heartbeat_due(0, HEARTBEAT_NANOS + 1));
    assert!(!heartbeat_due(5, 5));
}
