//! Choosing the desktop-shell window layer that hosts the wallpaper.
//!
//! After the shell is signalled to spawn its worker layers, the application
//! enumerates the candidate worker windows and reports, for each, its size
//! and whether it hosts the icon-view sub-window. This module holds the
//! prioritized fallback chain that picks the host from those observations:
//! first a screen-sized worker layer free of the icon view, then the
//! icon-view window itself, and as a last resort the desktop root window.
//! The chain is ordered — a later strategy is taken only when every earlier
//! one found nothing.

use vstd::prelude::*;

verus! {

/// How far, in pixels, a worker layer may fall short of the screen in each
/// direction and still count as screen-sized; shells overhang or inset their
/// layers by a few pixels across versions.
pub const SCREEN_SIZE_TOLERANCE: i32 = 10;

/// One candidate worker window, as the enumeration observed it.
#[derive(Clone, Copy, Debug, PartialEq, Eq, Structural)]
pub struct WorkerLayer {
    /// Opaque handle of the worker window.
    pub handle: usize,
    /// Handle of the icon-view sub-window hosted inside this worker, when
    /// there is one. Such a worker draws the desktop icons and must not be
    /// covered by the wallpaper.
    pub icon_view: Option<usize>,
    /// Width of the worker window in pixels.
    pub width: i32,
    /// Height of the worker window in pixels.
    pub height: i32,
}

/// The window the wallpaper surface is parented against.
#[derive(Clone, Copy, Debug, PartialEq, Eq, Structural)]
pub enum HostChoice {
    /// A dedicated screen-sized worker layer without the icon view: the
    /// preferred host, sitting between the static background and the icons.
    WorkerWindow { handle: usize },
    /// No split worker layer exists: parent directly onto the icon-view
    /// window, accepting a less clean layering order.
    IconView { handle: usize },
    /// Neither was found: fall back to the desktop root window itself.
    DesktopRoot,
}

/// Whether a worker layer can host the wallpaper: it must not draw the
/// desktop icons, and it must span the screen up to the tolerance.
pub open spec fn spec_is_host_candidate(w: WorkerLayer, screen_w: i32, screen_h: i32) -> bool {
    &&& w.icon_view is None
    &&& w.width >= screen_w - SCREEN_SIZE_TOLERANCE
    &&& w.height >= screen_h - SCREEN_SIZE_TOLERANCE
}

/// No worker among the first `k` qualifies as a host candidate.
pub open spec fn spec_no_candidate_before(
    workers: Seq<WorkerLayer>,
    k: int,
    screen_w: i32,
    screen_h: i32,
) -> bool {
    forall|j: int| 0 <= j < k ==> !spec_is_host_candidate(#[trigger] workers[j], screen_w, screen_h)
}

/// No worker among the first `k` hosts the icon view.
pub open spec fn spec_no_icon_view_before(workers: Seq<WorkerLayer>, k: int) -> bool {
    forall|j: int| 0 <= j < k ==> (#[trigger] workers[j]).icon_view is None
}

/// Picks the window to host the wallpaper surface from one enumeration of
/// the shell's worker windows. `root_icon_view` is the icon-view sub-window
/// found directly under the desktop root, when there is one; `workers` are
/// the worker windows in enumeration order.
///
/// The strategies are tried strictly in priority order. A dedicated worker
/// window is chosen if and only if one qualifies, and then it is the first
/// qualifying one in enumeration order. The icon view is chosen only when
/// no worker qualifies, and then it is the one under the root if the root
/// has one, else the first worker-hosted one. The desktop root is chosen
/// only when there is no candidate and no icon view at all.
pub fn choose_host_layer(
    root_icon_view: Option<usize>,
    workers: &Vec<WorkerLayer>,
    screen_w: i32,
    screen_h: i32,
) -> (choice: HostChoice)
    ensures
        (choice matches HostChoice::WorkerWindow { handle } ==> exists|i: int|
            #![auto]
            {
                &&& 0 <= i < workers@.len()
                &&& workers@[i].handle == handle
                &&& spec_is_host_candidate(workers@[i], screen_w, screen_h)
                &&& spec_no_candidate_before(workers@, i, screen_w, screen_h)
            }),
        !(choice is WorkerWindow) ==> spec_no_candidate_before(
            workers@,
            workers@.len() as int,
            screen_w,
            screen_h,
        ),
        (choice matches HostChoice::IconView { handle } ==> (root_icon_view == Some(handle) || (
        root_icon_view is None && exists|i: int|
            #![auto]
            {
                &&& 0 <= i < workers@.len()
                &&& workers@[i].icon_view == Some(handle)
                &&& spec_no_icon_view_before(workers@, i)
            }))),
        choice is DesktopRoot ==> root_icon_view is None && spec_no_icon_view_before(
            workers@,
            workers@.len() as int,
        ),
        (root_icon_view is Some || (exists|i: int|
            0 <= i < workers@.len() && (#[trigger] workers@[i]).icon_view is Some)) ==> !(
        choice is DesktopRoot),
{
    let ghost ws = workers@;
    let mut i: usize = 0;
    while i < workers.len()
        invariant
            ws == workers@,
            i <= workers.len(),
            spec_no_candidate_before(ws, i as int, screen_w, screen_h),
        decreases workers.len() - i,
    {
        let w = workers[i];
        let wide_enough = (w.width as i64) >= (screen_w as i64) - (SCREEN_SIZE_TOLERANCE as i64);
        let tall_enough = (w.height as i64) >= (screen_h as i64) - (SCREEN_SIZE_TOLERANCE as i64);
        let no_icons = match w.icon_view {
            None => true,
            Some(_) => false,
        };
        if no_icons && wide_enough && tall_enough {
            proof {
                assert(spec_is_host_candidate(ws[i as int], screen_w, screen_h));
            }
            return HostChoice::WorkerWindow { handle: w.handle };
        }
        i = i + 1;
    }
    match find_icon_view(root_icon_view, workers) {
        Some(handle) => HostChoice::IconView { handle },
        None => HostChoice::DesktopRoot,
    }
}

/// Finds the icon-view window: the one directly under the desktop root when
/// the root hosts one, else the first worker-hosted one in enumeration
/// order, else none.
pub fn find_icon_view(root_icon_view: Option<usize>, workers: &Vec<WorkerLayer>) -> (found: Option<
    usize,
>)
    ensures
        root_icon_view is Some ==> found == root_icon_view,
        (found matches Some(handle) ==> (root_icon_view == Some(handle) || (root_icon_view is None
            && exists|i: int|
            #![auto]
            {
                &&& 0 <= i < workers@.len()
                &&& workers@[i].icon_view == Some(handle)
                &&& spec_no_icon_view_before(workers@, i)
            }))),
        found is None ==> root_icon_view is None && spec_no_icon_view_before(
            workers@,
            workers@.len() as int,
        ),
{
    if let Some(h) = root_icon_view {
        return Some(h);
    }
    let ghost ws = workers@;
    let mut i: usize = 0;
    while i < workers.len()
        invariant
            ws == workers@,
            i <= workers.len(),
            root_icon_view is None,
            spec_no_icon_view_before(ws, i as int),
        decreases workers.len() - i,
    {
        if let Some(h) = workers[i].icon_view {
            proof {
                assert(ws[i as int].icon_view == Some(h));
            }
            return Some(h);
        }
        i = i + 1;
    }
    None
}

} // verus!
