use mew::config::{fps_for_preset, Settings};

#[test]
fn default_settings_match_the_documented_values() {
    let s = Settings::default();
    assert_eq!(s.version, "1.0.0");
    assert_eq!(s.wallpaper.path, "");
    assert_eq!(s.wallpaper.resolution, "1080p");
    assert_eq!(s.wallpaper.fps_preset, "balanced");
    assert_eq!(s.wallpaper.scaling_mode, "fill");
    assert!(s.performance.pause_on_battery);
    assert_eq!(s.performance.battery_threshold, 20);
    assert!(s.performance.pause_on_fullscreen);
    assert!(!s.startup.launch_with_windows);
    assert!(s.startup.start_minimized);
}

#[test]
fn fps_presets_map_to_their_rates() {
    assert_eq!(fps_for_preset(&"Power Saver".to_string()), 15);
    assert_eq!(fps_for_preset(&"Balanced".to_string()), 30);
    assert_eq!(fps_for_preset(&"Performance".to_string()), 60);
}

#[test]
fn unknown_presets_fall_back_to_balanced() {
    assert_eq!(fps_for_preset(&"".to_string()), 30);
    assert_eq!(fps_for_preset(&"balanced".to_string()), 30);
    assert_eq!(fps_for_preset(&"performance".to_string()), 30);
    assert_eq!(fps_for_preset(&"Ultra".to_string()), 30);
}
