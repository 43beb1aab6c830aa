//! Core logic of a looping-video desktop wallpaper engine.
//!
//! The engine decodes a video source frame by frame, scales each frame to the
//! physical screen size, and presents it into a desktop-shell window layer,
//! paced to a configured frame rate. This crate holds the decision logic of
//! that pipeline: the decode scan state machine, the shell window-layer
//! selection, the presentation surface bookkeeping (swap-chain resize and
//! upload-texture cache), the tick scheduler, the playback state machine, and
//! the pause policy. The host-OS, GPU, and codec calls themselves live in the
//! surrounding application, which drives these functions and obeys the plans
//! they return.

pub mod config;
pub mod decoder;
pub mod discovery;
pub mod monitor;
pub mod pacing;
pub mod player;
pub mod surface;
pub mod tray;
