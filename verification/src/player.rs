//! The playback loop's shared configuration and its tick state machine.
//!
//! One long-lived task runs the loop. Each tick takes a single atomic
//! snapshot of the shared configuration, classifies it against the engine's
//! own state — idle, reload, paused, advance, or retry — and acts on the
//! plan: opening a session at the presenter's screen size, pacing the next
//! frame on the running schedule, looping at end of stream, and rebuilding
//! the surface after a failed present. The sleeps, the codec calls, and the
//! device calls run in the surrounding application; every decision between
//! them is taken here.

use vstd::prelude::*;
use vstd::rwlock::RwLock;
use vstd::string::StringExecFns;
use std::sync::Arc;

use crate::decoder::{DecodedFrame, SourceProbe, VideoDecoder};
use crate::pacing;
use crate::pacing::{spec_advance, spec_frame_interval_nanos, spec_snap};
use crate::surface::{SurfaceError, WallpaperRenderer};

verus! {

/// The externally writable playback configuration: which source plays, how
/// fast, and whether playback is suspended. Writers install a whole new
/// value; readers take a whole snapshot; no field is ever observed apart
/// from the others.
pub struct PlayerState {
    /// Playback is suspended while this is set.
    pub is_paused: bool,
    /// Target frames per second; always positive.
    pub fps: u32,
    /// Path of the video source; empty while none is configured.
    pub path: String,
    /// Resolution label the configurator selected.
    pub resolution: String,
}

/// The invariant every installed configuration obeys: the target rate is
/// positive, so a frame interval can always be derived from it.
pub open spec fn config_inv(s: PlayerState) -> bool {
    s.fps > 0
}

impl PlayerState {
    /// The configuration the engine starts with: no source selected, the
    /// balanced rate, not paused.
    pub fn initial() -> (s: PlayerState)
        ensures
            s.is_paused == false,
            s.fps == 30,
            s.path@ == Seq::<char>::empty(),
            s.resolution@ == "1080p"@,
            config_inv(s),
    {
        PlayerState {
            is_paused: false,
            fps: 30,
            path: String::new(),
            resolution: String::from_str("1080p"),
        }
    }

    /// An exact copy of the configuration, field for field.
    pub fn duplicate(&self) -> (copy: PlayerState)
        ensures
            copy == *self,
    {
        PlayerState {
            is_paused: self.is_paused,
            fps: self.fps,
            path: self.path.clone(),
            resolution: self.resolution.clone(),
        }
    }
}

/// The shared, guarded configuration cell: the loop reads it, external
/// configurators write it, and the lock admits only values obeying
/// [`config_inv`].
pub type SharedState = Arc<RwLock<PlayerState, spec_fn(PlayerState) -> bool>>;

/// Relies on std's `Arc::clone`: the returned handle refers to the same
/// shared allocation as the argument.
#[verifier::external_body]
fn share_state(state: &SharedState) -> (shared: SharedState)
    ensures
        shared == *state,
{
    Arc::clone(state)
}

/// Owns the shared configuration that the playback loop and the external
/// configurators communicate through.
pub struct WallpaperPlayer {
    state: SharedState,
}

impl WallpaperPlayer {
    /// The shared cell this player owns.
    pub closed spec fn spec_state(&self) -> SharedState {
        self.state
    }

    /// The guarded cell admits exactly the configurations obeying
    /// [`config_inv`].
    pub open spec fn wf(&self) -> bool {
        forall|s: PlayerState| (*self.spec_state()).inv(s) == config_inv(s)
    }

    /// A player whose shared configuration starts at
    /// [`PlayerState::initial`].
    pub fn new() -> (player: WallpaperPlayer)
        ensures
            player.wf(),
    {
        let initial = PlayerState::initial();
        let lock = RwLock::new(initial, Ghost(|s: PlayerState| config_inv(s)));
        WallpaperPlayer { state: Arc::new(lock) }
    }

    /// Hands out a handle to the shared configuration, for configurators
    /// that write it from other threads.
    pub fn get_state(&self) -> (shared: SharedState)
        ensures
            shared == self.spec_state(),
            self.wf() ==> forall|s: PlayerState| (*shared).inv(s) == config_inv(s),
    {
        share_state(&self.state)
    }

    /// Takes one atomic snapshot of the whole configuration: every field is
    /// read under a single shared acquisition of the lock, so the snapshot
    /// is one installed value — never a mixture of two writes.
    pub fn snapshot(&self) -> (snap: PlayerState)
        requires
            self.wf(),
        ensures
            config_inv(snap),
    {
        let handle = self.state.acquire_read();
        let snap = handle.borrow().duplicate();
        handle.release_read();
        snap
    }

    /// Installs a whole new configuration in one exclusive critical
    /// section, replacing every field together.
    pub fn apply_config(&self, new_state: PlayerState)
        requires
            self.wf(),
            config_inv(new_state),
    {
        let (_, handle) = self.state.acquire_write();
        handle.release_write(new_state);
    }
}

/// What one tick does, decided from the engine's state and one
/// configuration snapshot.
#[derive(Clone, Copy, Debug, PartialEq, Eq, Structural)]
pub enum TickPlan {
    /// No source is configured: wait the relaxed poll interval.
    Idle,
    /// The source path or resolution changed: replace the session.
    Reload,
    /// The pause flag is set: wait the paused poll interval.
    Paused,
    /// A session is open and playback is live: decode and present a frame.
    Advance,
    /// The last load failed and nothing changed: wait, stay willing to
    /// retry when the configuration changes again.
    Retry,
}

/// What one decode attempt reported, as the loop sees it.
#[derive(Clone, Copy, Debug, PartialEq, Eq, Structural)]
pub enum DecodeOutcome {
    /// A frame is ready to present.
    Frame,
    /// The stream ran out (or the scan ceiling was reached).
    EndOfStream,
    /// The decode failed outright.
    Error,
}

/// The loop's response to one decode outcome.
#[derive(Clone, Copy, Debug, PartialEq, Eq, Structural)]
pub enum FrameAction {
    /// Hand the frame to the presenter.
    Present,
    /// Rewind the session and immediately attempt one more decode, so the
    /// loop back to the first frame shows no visible stall.
    RestartAndRetry,
    /// Back off briefly; the session stays and the next tick retries.
    Backoff,
}

/// The loop's response to one present result.
#[derive(Clone, Copy, Debug, PartialEq, Eq, Structural)]
pub enum RenderFollowup {
    /// The frame went through; carry on.
    Continue,
    /// The present failed; rebuild the presentation surface from scratch.
    RebuildSurface,
}

/// Relaxed poll interval while no source is configured or a load failed.
pub const IDLE_POLL_MILLIS: u64 = 500;

/// Poll interval while playback is paused.
pub const PAUSED_POLL_MILLIS: u64 = 200;

/// Backoff after a failed decode or a failed surface rebuild.
pub const BACKOFF_MILLIS: u64 = 100;

/// How often the loop reports that it is alive, in nanoseconds.
pub const HEARTBEAT_NANOS: u64 = 10_000_000_000;

/// The playback thread's own state between ticks: which source the open
/// session belongs to, the session itself, the presentation surface model,
/// and the running frame schedule.
pub struct PlaybackEngine {
    /// Source path the current session was opened for; empty before the
    /// first load.
    pub last_path: String,
    /// Resolution label the current session was opened under.
    pub last_resolution: String,
    /// The open decode session, when the last load succeeded.
    pub session: Option<VideoDecoder>,
    /// The presentation surface bookkeeping.
    pub surface: WallpaperRenderer,
    /// Ideal timestamp of the next frame tick, in nanoseconds.
    pub next_deadline: u64,
}

/// The plan a tick follows, given the engine's state and one snapshot: no
/// source means idle; a changed source or resolution means reload; the
/// pause flag means paused; an open session means advance; otherwise the
/// last load failed and the tick only waits.
pub open spec fn spec_classify(eng: PlaybackEngine, cfg: PlayerState) -> TickPlan {
    if cfg.path@.len() == 0 {
        TickPlan::Idle
    } else if cfg.path@ != eng.last_path@ || cfg.resolution@ != eng.last_resolution@ {
        TickPlan::Reload
    } else if cfg.is_paused {
        TickPlan::Paused
    } else if eng.session is Some {
        TickPlan::Advance
    } else {
        TickPlan::Retry
    }
}

/// The engine with its presentation surface replaced and everything else —
/// session, source, schedule — untouched.
pub open spec fn spec_with_surface(eng: PlaybackEngine, fresh: WallpaperRenderer) -> PlaybackEngine {
    PlaybackEngine {
        last_path: eng.last_path,
        last_resolution: eng.last_resolution,
        session: eng.session,
        surface: fresh,
        next_deadline: eng.next_deadline,
    }
}

/// The loop's response to a decode outcome: a frame is presented, end of
/// stream rewinds and immediately retries, an error backs off.
pub open spec fn spec_frame_action(outcome: DecodeOutcome) -> FrameAction {
    match outcome {
        DecodeOutcome::Frame => FrameAction::Present,
        DecodeOutcome::EndOfStream => FrameAction::RestartAndRetry,
        DecodeOutcome::Error => FrameAction::Backoff,
    }
}

/// The loop's response to a present result: any failure — a lost host
/// layer above all — leads to a surface rebuild, never to termination.
pub open spec fn spec_render_followup(result: Result<(), SurfaceError>) -> RenderFollowup {
    match result {
        Ok(_) => RenderFollowup::Continue,
        Err(_) => RenderFollowup::RebuildSurface,
    }
}

/// How long a tick waits for each plan, in milliseconds: the relaxed poll
/// when idle or after a failed load, the short poll when paused, nothing
/// before a reload or an advance.
pub open spec fn spec_poll_delay_millis(plan: TickPlan) -> u64 {
    match plan {
        TickPlan::Idle => IDLE_POLL_MILLIS,
        TickPlan::Reload => 0u64,
        TickPlan::Paused => PAUSED_POLL_MILLIS,
        TickPlan::Advance => 0u64,
        TickPlan::Retry => IDLE_POLL_MILLIS,
    }
}

impl PlaybackEngine {
    /// Any open session targets the surface's physical screen size: what
    /// the decoder scales to is what the presenter covers the screen with.
    /// Every successful load establishes this, and only adopting a surface
    /// of another size — after a rebuild on a reconfigured display — can
    /// break it, until the next reload.
    pub open spec fn wf(self) -> bool {
        self.session matches Some(d) ==> (d.target_width, d.target_height)
            == self.surface.physical_size
    }

    /// A fresh engine: no session, nothing loaded yet, the schedule
    /// starting now, presenting into the given surface.
    pub fn new(surface: WallpaperRenderer, now: u64) -> (eng: PlaybackEngine)
        ensures
            eng.last_path@ == Seq::<char>::empty(),
            eng.last_resolution@ == Seq::<char>::empty(),
            eng.session is None,
            eng.surface == surface,
            eng.next_deadline == now,
    {
        PlaybackEngine {
            last_path: String::new(),
            last_resolution: String::new(),
            session: None,
            surface,
            next_deadline: now,
        }
    }

    /// Decides what this tick does from one configuration snapshot.
    pub fn classify_tick(&self, cfg: &PlayerState) -> (plan: TickPlan)
        ensures
            plan == spec_classify(*self, *cfg),
    {
        if cfg.path.as_str().is_empty() {
            TickPlan::Idle
        } else if !(cfg.path == self.last_path) || !(cfg.resolution == self.last_resolution) {
            TickPlan::Reload
        } else if cfg.is_paused {
            TickPlan::Paused
        } else if self.session.is_some() {
            TickPlan::Advance
        } else {
            TickPlan::Retry
        }
    }

    /// Adopts the result of opening a session for the snapshot's source:
    /// the engine now answers for that path and resolution, and holds a
    /// session — targeting exactly the surface's physical screen size — iff
    /// the open succeeded. The surface and the schedule are untouched.
    pub fn finish_load(&mut self, cfg: &PlayerState, probe: &SourceProbe)
        ensures
            final(self).last_path == cfg.path,
            final(self).last_resolution == cfg.resolution,
            final(self).surface == old(self).surface,
            final(self).next_deadline == old(self).next_deadline,
            probe.readable && probe.video_stream is Some ==> (final(self).session matches Some(d)
                && probe.video_stream == Some(d.video_stream_index) && d.target_width == old(
                self,
            ).surface.physical_size.0 && d.target_height == old(self).surface.physical_size.1),
            !(probe.readable && probe.video_stream is Some) ==> final(self).session is None,
            final(self).wf(),
    {
        let size = self.surface.screen_size();
        self.session = match VideoDecoder::new(probe, size.0, size.1) {
            Ok(session) => Some(session),
            Err(_) => None,
        };
        self.last_path = cfg.path.clone();
        self.last_resolution = cfg.resolution.clone();
    }

    /// Drops the session so the next matching tick reloads; used when a
    /// failing session is to be abandoned.
    pub fn drop_session(&mut self)
        ensures
            final(self).session is None,
            final(self).last_path == old(self).last_path,
            final(self).last_resolution == old(self).last_resolution,
            final(self).surface == old(self).surface,
            final(self).next_deadline == old(self).next_deadline,
    {
        self.session = None;
    }

    /// Snaps a stale schedule forward and reports how long to sleep until
    /// the tick's ideal timestamp: the remaining time, or nothing when the
    /// schedule is due. Only the schedule changes.
    pub fn wait_before_frame(&mut self, now: u64) -> (pause: u64)
        ensures
            final(self).next_deadline == spec_snap(old(self).next_deadline, now),
            now + pause == final(self).next_deadline,
            final(self).last_path == old(self).last_path,
            final(self).last_resolution == old(self).last_resolution,
            final(self).session == old(self).session,
            final(self).surface == old(self).surface,
    {
        let pause = pacing::sleep_nanos(self.next_deadline, now);
        self.next_deadline = pacing::snap_schedule(self.next_deadline, now);
        pause
    }

    /// Advances the schedule by one frame interval of the snapshot's rate,
    /// after a frame was handled. Only the schedule changes.
    pub fn after_frame(&mut self, fps: u32)
        requires
            fps > 0,
        ensures
            final(self).next_deadline == spec_advance(
                old(self).next_deadline,
                spec_frame_interval_nanos(fps) as u64,
            ),
            final(self).last_path == old(self).last_path,
            final(self).last_resolution == old(self).last_resolution,
            final(self).session == old(self).session,
            final(self).surface == old(self).surface,
    {
        let interval = pacing::frame_interval_nanos(fps);
        self.next_deadline = pacing::next_tick(self.next_deadline, interval);
    }

    /// Restarts the schedule from the present; used while no session is
    /// open, so a later load does not inherit a stale deadline.
    pub fn reset_schedule(&mut self, now: u64)
        ensures
            final(self).next_deadline == now,
            final(self).last_path == old(self).last_path,
            final(self).last_resolution == old(self).last_resolution,
            final(self).session == old(self).session,
            final(self).surface == old(self).surface,
    {
        self.next_deadline = now;
    }

    /// Replaces the presentation surface after a rebuild, keeping the
    /// session, the loaded source, and the schedule.
    pub fn adopt_surface(&mut self, fresh: WallpaperRenderer)
        ensures
            *final(self) == spec_with_surface(*old(self), fresh),
    {
        self.surface = fresh;
    }

    /// Whether the loop is actively streaming, for the periodic liveness
    /// report: a session is open.
    pub fn is_streaming(&self) -> (streaming: bool)
        ensures
            streaming == (self.session is Some),
    {
        self.session.is_some()
    }
}

/// Responds to one decode outcome.
pub fn frame_action(outcome: &DecodeOutcome) -> (action: FrameAction)
    ensures
        action == spec_frame_action(*outcome),
{
    match outcome {
        DecodeOutcome::Frame => FrameAction::Present,
        DecodeOutcome::EndOfStream => FrameAction::RestartAndRetry,
        DecodeOutcome::Error => FrameAction::Backoff,
    }
}

/// Responds to one present result.
pub fn render_followup(result: &Result<(), SurfaceError>) -> (followup: RenderFollowup)
    ensures
        followup == spec_render_followup(*result),
{
    match result {
        Ok(_) => RenderFollowup::Continue,
        Err(_) => RenderFollowup::RebuildSurface,
    }
}

/// How long a tick waits for its plan, in milliseconds.
pub fn poll_delay_millis(plan: &TickPlan) -> (millis: u64)
    ensures
        millis == spec_poll_delay_millis(*plan),
{
    match plan {
        TickPlan::Idle => IDLE_POLL_MILLIS,
        TickPlan::Reload => 0,
        TickPlan::Paused => PAUSED_POLL_MILLIS,
        TickPlan::Advance => 0,
        TickPlan::Retry => IDLE_POLL_MILLIS,
    }
}

/// Whether the periodic liveness report is due: the heartbeat interval has
/// fully passed since the last report.
pub fn heartbeat_due(last_beat: u64, now: u64) -> (due: bool)
    requires
        last_beat <= now,
    ensures
        due == (now - last_beat > HEARTBEAT_NANOS),
{
    now - last_beat > HEARTBEAT_NANOS
}

/// Idle law: a tick whose snapshot has no source path always plans to stay
/// idle — no session is opened, no decode issued, no frame presented.
pub proof fn lemma_idle_when_unconfigured(eng: PlaybackEngine, cfg: PlayerState)
    requires
        cfg.path@.len() == 0,
    ensures
        spec_classify(eng, cfg) == TickPlan::Idle,
{
}

/// Pause law: while the snapshot's pause flag is set, no tick plans to
/// decode or present; and the moment the flag clears with nothing else
/// changed, an engine whose session is open advances again.
pub proof fn lemma_pause_gates_playback(eng: PlaybackEngine, cfg: PlayerState)
    requires
        cfg.is_paused,
    ensures
        spec_classify(eng, cfg) != TickPlan::Advance,
        spec_classify(eng, cfg) == TickPlan::Paused && eng.session is Some ==> spec_classify(
            eng,
            PlayerState { is_paused: false, ..cfg },
        ) == TickPlan::Advance,
{
}

/// Recovery law: a present that failed because the host layer was lost is
/// answered with a surface rebuild, and adopting the fresh surface leaves
/// an engine that was advancing advancing still — playback resumes instead
/// of the loop terminating.
pub proof fn lemma_host_loss_recovers(
    eng: PlaybackEngine,
    cfg: PlayerState,
    fresh: WallpaperRenderer,
)
    requires
        spec_classify(eng, cfg) == TickPlan::Advance,
    ensures
        spec_render_followup(Err(SurfaceError::HostLayerLost)) == RenderFollowup::RebuildSurface,
        spec_classify(spec_with_surface(eng, fresh), cfg) == TickPlan::Advance,
{
}

/// Fit law: while the engine's session targets its surface — as every
/// successful load leaves it — each frame the session accepts carries
/// exactly the physical screen size, so every present covers the screen.
pub proof fn lemma_frames_fit_screen(eng: PlaybackEngine, frame: DecodedFrame)
    requires
        eng.wf(),
        eng.session matches Some(d) && frame.width == d.target_width && frame.height
            == d.target_height,
    ensures
        (frame.width, frame.height) == eng.surface.physical_size,
{
}

/// Snapshot-atomicity law: whatever a reader observes is one whole installed
/// configuration — every field taken from the same write, never the path of
/// one write with the rate of another. The guarded cell supplies the
/// premise: its readers only ever see values that some writer installed.
pub proof fn lemma_snapshot_untorn(history: Seq<PlayerState>, observed: PlayerState)
    requires
        exists|i: int| 0 <= i < history.len() && observed == #[trigger] history[i],
    ensures
        exists|i: int|
            #![auto]
            {
                &&& 0 <= i < history.len()
                &&& observed.is_paused == history[i].is_paused
                &&& observed.fps == history[i].fps
                &&& observed.path == history[i].path
                &&& observed.resolution == history[i].resolution
            },
{
    let i = choose|i: int| 0 <= i < history.len() && observed == #[trigger] history[i];
    assert(0 <= i < history.len() && observed.is_paused == history[i].is_paused && observed.fps
        == history[i].fps && observed.path == history[i].path && observed.resolution
        == history[i].resolution);
}

} // verus!
