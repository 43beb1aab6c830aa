//! The tray integration's handle. The engine keeps only this anchor point;
//! the notification-area wiring itself is the surrounding application's
//! concern and is not part of playback correctness.

use vstd::prelude::*;

verus! {

/// Anchor for a notification-area integration.
#[derive(Clone, Copy, Debug, PartialEq, Eq, Structural)]
pub struct TrayHandler;

impl TrayHandler {
    /// A fresh tray handle; it carries no state of its own.
    pub fn new() -> (tray: TrayHandler)
        ensures
            tray == (TrayHandler {  }),
    {
        TrayHandler {  }
    }
}

} // verus!
