//! Persisted engine settings and the frame-rate presets.
//!
//! The settings value itself is plain data; reading and writing it on disk is
//! the surrounding application's business. The engine only relies on the
//! default values stated here and on the mapping from a named frame-rate
//! preset to a concrete rate.

use vstd::prelude::*;
use vstd::string::StringExecFns;

verus! {

/// Which video plays and how it is scaled and paced.
pub struct WallpaperSettings {
    pub path: String,
    pub resolution: String,
    pub fps_preset: String,
    pub scaling_mode: String,
}

/// When playback yields to the rest of the machine.
pub struct PerformanceSettings {
    pub pause_on_battery: bool,
    pub battery_threshold: i32,
    pub pause_on_fullscreen: bool,
}

/// How the engine starts with the session.
pub struct StartupSettings {
    pub launch_with_windows: bool,
    pub start_minimized: bool,
}

/// The whole persisted configuration.
pub struct Settings {
    pub version: String,
    pub wallpaper: WallpaperSettings,
    pub performance: PerformanceSettings,
    pub startup: StartupSettings,
}

/// The default settings: no source selected, balanced pacing, pausing on low
/// battery below twenty percent and on a fullscreen foreground window.
pub open spec fn is_default_settings(s: Settings) -> bool {
    &&& s.version@ == "1.0.0"@
    &&& s.wallpaper.path@ == Seq::<char>::empty()
    &&& s.wallpaper.resolution@ == "1080p"@
    &&& s.wallpaper.fps_preset@ == "balanced"@
    &&& s.wallpaper.scaling_mode@ == "fill"@
    &&& s.performance.pause_on_battery == true
    &&& s.performance.battery_threshold == 20i32
    &&& s.performance.pause_on_fullscreen == true
    &&& s.startup.launch_with_windows == false
    &&& s.startup.start_minimized == true
}

impl Default for Settings {
    /// Builds the default settings used when nothing was persisted yet.
    fn default() -> (s: Settings)
        ensures
            is_default_settings(s),
    {
        Settings {
            version: String::from_str("1.0.0"),
            wallpaper: WallpaperSettings {
                path: String::new(),
                resolution: String::from_str("1080p"),
                fps_preset: String::from_str("balanced"),
                scaling_mode: String::from_str("fill"),
            },
            performance: PerformanceSettings {
                pause_on_battery: true,
                battery_threshold: 20,
                pause_on_fullscreen: true,
            },
            startup: StartupSettings {
                launch_with_windows: false,
                start_minimized: true,
            },
        }
    }
}

/// The frame rate that a named preset stands for. Unknown names fall back to
/// the balanced rate, so a malformed persisted preset never stalls playback.
pub open spec fn spec_fps_for_preset(name: Seq<char>) -> u32 {
    if name == "Power Saver"@ {
        15u32
    } else if name == "Balanced"@ {
        30u32
    } else if name == "Performance"@ {
        60u32
    } else {
        30u32
    }
}

/// Maps a preset name to its concrete frame rate; the rate is never zero.
pub fn fps_for_preset(name: &String) -> (fps: u32)
    ensures
        fps == spec_fps_for_preset(name@),
        0 < fps,
{
    if *name == String::from_str("Power Saver") {
        15
    } else if *name == String::from_str("Balanced") {
        30
    } else if *name == String::from_str("Performance") {
        60
    } else {
        30
    }
}

} // verus!
