//! The presentation surface: bookkeeping for the swap chain, the upload
//! texture cache, and the wallpaper window's message policy.
//!
//! The GPU device, swap chain, and window live in the surrounding
//! application. This model tracks exactly what the presenter must remember
//! between frames — the swap chain's back-buffer size and the cached upload
//! texture's size — and turns each incoming frame into a plan: whether the
//! back buffers must be resized, whether the texture must be reallocated,
//! and the row pitch of the pixel upload. The application executes the plan
//! against the device in that order, releasing back-buffer references before
//! a resize and recreating the texture before the upload.

use vstd::prelude::*;

verus! {

/// How many buffers the presentation swap chain cycles: multi-buffered so a
/// frame can be composed while another is on screen.
pub const SWAP_CHAIN_BUFFERS: u32 = 3;

/// Why a present could not be carried out.
#[derive(Clone, Copy, Debug, PartialEq, Eq, Structural)]
pub enum SurfaceError {
    /// The shell window layer hosting the surface vanished; the whole
    /// surface must be rebuilt.
    HostLayerLost,
    /// A single device call failed; retry, and rebuild if it repeats.
    DeviceOperationFailed,
    /// Window-layer discovery exhausted all of its fallbacks.
    AcquisitionFailed,
}

/// The presenter's state between frames: one swap chain bound to one host
/// window, and at most one cached upload texture keyed by its size.
#[derive(Clone, Copy, Debug, PartialEq, Eq)]
pub struct WallpaperRenderer {
    /// Size of the swap chain's back buffers.
    pub swapchain_size: (u32, u32),
    /// Size of the cached upload texture, when one is cached.
    pub texture_size: Option<(u32, u32)>,
    /// Physical size of the screen, fixed when the surface was created.
    pub physical_size: (u32, u32),
}

/// The work one frame demands of the device before its pixels can be
/// uploaded and presented.
#[derive(Clone, Copy, Debug, PartialEq, Eq, Structural)]
pub struct RenderPlan {
    /// All back-buffer references must be released, the device flushed, and
    /// the swap chain's buffers resized to the frame size.
    pub resize_swapchain: bool,
    /// A fresh texture of the frame size must be allocated and cached,
    /// discarding any previous one.
    pub recreate_texture: bool,
    /// Row pitch of the pixel upload, in bytes: four bytes per pixel.
    pub row_pitch: u32,
}

/// Whether presenting a frame of this size requires a swap-chain resize.
pub open spec fn spec_needs_resize(s: WallpaperRenderer, width: u32, height: u32) -> bool {
    s.swapchain_size != (width, height)
}

/// Whether presenting a frame of this size requires a fresh upload texture:
/// the cache is keyed by size, so only a cached texture of exactly this size
/// is reused.
pub open spec fn spec_needs_texture(s: WallpaperRenderer, width: u32, height: u32) -> bool {
    s.texture_size != Some((width, height))
}

/// The presenter's state after a frame of the given size went through: both
/// the swap chain and the cached texture match the frame.
pub open spec fn spec_after_render(s: WallpaperRenderer, width: u32, height: u32) -> WallpaperRenderer {
    WallpaperRenderer {
        swapchain_size: (width, height),
        texture_size: Some((width, height)),
        physical_size: s.physical_size,
    }
}

impl WallpaperRenderer {
    /// A fresh surface, as it stands right after creation: back buffers sized
    /// to the reported physical screen size and no upload texture cached yet.
    pub fn new(screen_width: u32, screen_height: u32) -> (s: WallpaperRenderer)
        ensures
            s.swapchain_size == (screen_width, screen_height),
            s.texture_size is None,
            s.physical_size == (screen_width, screen_height),
    {
        WallpaperRenderer {
            swapchain_size: (screen_width, screen_height),
            texture_size: None,
            physical_size: (screen_width, screen_height),
        }
    }

    /// The physical pixel size of the display, fixed at creation time.
    pub fn screen_size(&self) -> (size: (u32, u32))
        ensures
            size == self.physical_size,
    {
        self.physical_size
    }

    /// Decides what one frame demands of the device and commits the
    /// resulting state. A dead host layer fails the present and changes
    /// nothing: the shell restarted and the surface must be rebuilt. With a
    /// live host, the plan resizes the swap chain exactly when the frame size
    /// differs from the back buffers, reallocates the upload texture exactly
    /// when no cached texture of this very size exists, and uploads with a
    /// row pitch of four bytes per pixel; afterwards both match the frame.
    pub fn render_frame(&mut self, host_alive: bool, width: u32, height: u32) -> (r: Result<
        RenderPlan,
        SurfaceError,
    >)
        requires
            width * 4 <= u32::MAX,
        ensures
            !host_alive ==> (r matches Err(e) && e == SurfaceError::HostLayerLost && *final(self)
                == *old(self)),
            host_alive ==> (r matches Ok(p) && p.resize_swapchain == spec_needs_resize(
                *old(self),
                width,
                height,
            ) && p.recreate_texture == spec_needs_texture(*old(self), width, height) && p.row_pitch
                == width * 4 && *final(self) == spec_after_render(*old(self), width, height)),
    {
        if !host_alive {
            return Err(SurfaceError::HostLayerLost);
        }
        let resize_swapchain = !(self.swapchain_size.0 == width && self.swapchain_size.1 == height);
        let recreate_texture = match self.texture_size {
            None => true,
            Some((w, h)) => !(w == width && h == height),
        };
        self.swapchain_size = (width, height);
        self.texture_size = Some((width, height));
        Ok(RenderPlan { resize_swapchain, recreate_texture, row_pitch: width * 4 })
    }
}

/// Resize law: the upload-texture cache is keyed by size, not sticky. A
/// frame of a new size never reuses the cached texture, and a later frame
/// returning to the previous size must allocate afresh again.
pub proof fn lemma_texture_cache_keyed_by_size(
    s: WallpaperRenderer,
    w1: u32,
    h1: u32,
    w2: u32,
    h2: u32,
)
    requires
        (w1, h1) != (w2, h2),
    ensures
        spec_needs_texture(spec_after_render(s, w1, h1), w2, h2),
        spec_needs_texture(spec_after_render(spec_after_render(s, w1, h1), w2, h2), w1, h1),
{
}

/// Window message codes and answers the wallpaper window handles itself, as
/// the host windowing system defines them.
pub const WM_ERASEBKGND: u32 = 0x0014;

/// Message asking the window to set the cursor shape.
pub const WM_SETCURSOR: u32 = 0x0020;

/// Message asking whether the window wants activation from a mouse click.
pub const WM_MOUSEACTIVATE: u32 = 0x0021;

/// Message asking which part of the window a point hits.
pub const WM_NCHITTEST: u32 = 0x0084;

/// Hit-test answer meaning the point passes through to the window beneath.
pub const HTTRANSPARENT: i32 = -1;

/// Mouse-activation answer refusing activation, leaving input to the shell.
pub const MA_NOACTIVATE: i32 = 3;

/// The wallpaper window's own answer to a window message, when it has one:
/// clicks fall through to the desktop icons, activation is refused, the
/// cursor and background are left alone. Every other message goes to the
/// default handler.
pub open spec fn spec_window_message_response(msg: u32) -> Option<i32> {
    if msg == WM_NCHITTEST {
        Some(HTTRANSPARENT)
    } else if msg == WM_MOUSEACTIVATE {
        Some(MA_NOACTIVATE)
    } else if msg == WM_SETCURSOR {
        Some(1i32)
    } else if msg == WM_ERASEBKGND {
        Some(1i32)
    } else {
        None
    }
}

/// Answers the messages that keep the wallpaper window click-through,
/// non-activating, and unpainted by the shell; `None` defers to the default
/// handler.
pub fn window_message_response(msg: u32) -> (r: Option<i32>)
    ensures
        r == spec_window_message_response(msg),
{
    if msg == WM_NCHITTEST {
        Some(HTTRANSPARENT)
    } else if msg == WM_MOUSEACTIVATE {
        Some(MA_NOACTIVATE)
    } else if msg == WM_SETCURSOR {
        Some(1)
    } else if msg == WM_ERASEBKGND {
        Some(1)
    } else {
        None
    }
}

} // verus!
