//! The decode session: its open-time classification, the bounded scan that
//! turns container units into at most one displayable frame, and the frame
//! buffers it hands to the presenter.
//!
//! The codec library itself runs in the surrounding application. It reports
//! what it saw — the container probe, then one `PacketEvent` per container
//! unit — and this module decides what each observation means: keep scanning,
//! deliver a frame, treat the stream as ended, or fail. The scan gives up
//! after `SCAN_CEILING` units so that a source with a starved or absent video
//! stream can never stall a tick indefinitely.

use vstd::prelude::*;

verus! {

/// The most container units one scan examines before it settles for end of
/// stream; this bounds the work of a single decode call.
pub const SCAN_CEILING: u32 = 500;

/// Why a session could not be opened or advanced.
#[derive(Clone, Copy, Debug, PartialEq, Eq, Structural)]
pub enum DecodeError {
    /// The source was unreadable or its container corrupt.
    OpenFailed,
    /// The source holds no decodable video stream.
    NoVideoStream,
    /// A demux, decode, or scale call failed mid-stream.
    DecodeFailed,
}

/// What opening the container revealed, before any session exists.
#[derive(Clone, Copy, Debug, PartialEq, Eq, Structural)]
pub struct SourceProbe {
    /// The container opened and was readable.
    pub readable: bool,
    /// The index of the primary video stream, when one exists.
    pub video_stream: Option<usize>,
}

/// One decode session, bound to a single open media resource. Its target
/// output size is fixed for the session's whole life: a resolution change
/// replaces the session instead of mutating it.
#[derive(Clone, Copy, Debug, PartialEq, Eq, Structural)]
pub struct VideoDecoder {
    /// Which container stream carries the video.
    pub video_stream_index: usize,
    /// Width every delivered frame is scaled to.
    pub target_width: u32,
    /// Height every delivered frame is scaled to.
    pub target_height: u32,
}

/// One demultiplexed container unit, as the scan observes it.
#[derive(Clone, Copy, Debug, PartialEq, Eq, Structural)]
pub enum PacketEvent {
    /// The demuxer has no further units: the stream ran out.
    Exhausted,
    /// A unit of some stream other than the session's video stream.
    OtherStream,
    /// A video unit that decoded without yielding a displayable frame yet.
    FramePending,
    /// A video unit that yielded a displayable frame.
    FrameReady,
    /// The decoder or scaler rejected the unit.
    Failed,
}

/// What the scan concluded from one observation.
#[derive(Clone, Copy, Debug, PartialEq, Eq, Structural)]
pub enum ScanStep {
    /// No conclusion yet: examine the next unit.
    Continue,
    /// A displayable frame is ready.
    Frame,
    /// The stream, or the scan budget, is exhausted.
    EndOfStream,
    /// The decode failed and the tick should back off.
    Fail,
}

/// The verdict on one container unit, after `scanned` units were already
/// examined: past the ceiling every verdict is end of stream, otherwise the
/// unit speaks for itself.
pub open spec fn spec_scan_step(scanned: u32, event: PacketEvent) -> ScanStep {
    if scanned >= SCAN_CEILING {
        ScanStep::EndOfStream
    } else {
        match event {
            PacketEvent::Exhausted => ScanStep::EndOfStream,
            PacketEvent::OtherStream => ScanStep::Continue,
            PacketEvent::FramePending => ScanStep::Continue,
            PacketEvent::FrameReady => ScanStep::Frame,
            PacketEvent::Failed => ScanStep::Fail,
        }
    }
}

/// The outcome of scanning a whole run of container units, starting with
/// `scanned` units already examined. The run's end counts as exhaustion.
pub open spec fn spec_scan(events: Seq<PacketEvent>, scanned: u32) -> ScanStep
    decreases events.len(),
{
    if events.len() == 0 {
        spec_scan_step(scanned, PacketEvent::Exhausted)
    } else {
        let step = spec_scan_step(scanned, events[0]);
        if step is Continue {
            spec_scan(events.drop_first(), (scanned + 1) as u32)
        } else {
            step
        }
    }
}

/// Judges one container unit during a scan.
pub fn scan_step(scanned: u32, event: &PacketEvent) -> (step: ScanStep)
    ensures
        step == spec_scan_step(scanned, *event),
{
    if scanned >= SCAN_CEILING {
        ScanStep::EndOfStream
    } else {
        match event {
            PacketEvent::Exhausted => ScanStep::EndOfStream,
            PacketEvent::OtherStream => ScanStep::Continue,
            PacketEvent::FramePending => ScanStep::Continue,
            PacketEvent::FrameReady => ScanStep::Frame,
            PacketEvent::Failed => ScanStep::Fail,
        }
    }
}

/// Scans a recorded run of container units from a fresh budget and reports
/// how many units were examined along with the verdict. The count never
/// passes `SCAN_CEILING`: the scan always halts within the ceiling, with a
/// frame, an end of stream, or a failure — never without an answer.
pub fn scan_events(events: &Vec<PacketEvent>) -> (outcome: (u32, ScanStep))
    ensures
        outcome.1 == spec_scan(events@, 0),
        outcome.0 <= SCAN_CEILING,
        !(outcome.1 is Continue),
{
    let mut i: usize = 0;
    proof {
        assert(events@.skip(0) =~= events@);
    }
    while i < events.len() && i < SCAN_CEILING as usize
        invariant
            i <= events.len(),
            i <= SCAN_CEILING,
            spec_scan(events@, 0) == spec_scan(events@.skip(i as int), i as u32),
        decreases events.len() - i,
    {
        match events[i] {
            PacketEvent::Exhausted => {
                return (i as u32, ScanStep::EndOfStream);
            }
            PacketEvent::FrameReady => {
                return (i as u32, ScanStep::Frame);
            }
            PacketEvent::Failed => {
                return (i as u32, ScanStep::Fail);
            }
            PacketEvent::OtherStream => {}
            PacketEvent::FramePending => {}
        }
        proof {
            assert(events@.skip(i as int).drop_first() =~= events@.skip(i + 1));
        }
        i = i + 1;
    }
    (i as u32, ScanStep::EndOfStream)
}

/// Progress law: once `SCAN_CEILING` units have been examined, the scan's
/// outcome is settled as end of stream no matter what the container still
/// holds — a starved source is given up on instead of scanned forever.
pub proof fn lemma_scan_ceiling(events: Seq<PacketEvent>, scanned: u32)
    requires
        scanned >= SCAN_CEILING,
    ensures
        spec_scan(events, scanned) == ScanStep::EndOfStream,
{
}

/// One owned frame of interleaved pixel bytes, four bytes per pixel, already
/// scaled to the session's target size.
#[derive(Debug)]
pub struct DecodedFrame {
    /// The pixel rows, top to bottom, four bytes per pixel.
    pub data: Vec<u8>,
    /// Width of the frame in pixels.
    pub width: u32,
    /// Height of the frame in pixels.
    pub height: u32,
}

/// How many bytes a frame of the given size holds.
pub open spec fn frame_bytes(width: u32, height: u32) -> int {
    width * height * 4
}

impl DecodedFrame {
    /// A frame's buffer length matches its dimensions.
    pub open spec fn wf(self) -> bool {
        self.data@.len() == frame_bytes(self.width, self.height)
    }
}

impl VideoDecoder {
    /// Classifies the opened container: an unreadable source fails to open, a
    /// readable one without a video stream is rejected, and otherwise the
    /// session is bound to the reported stream with the requested target size.
    pub fn new(probe: &SourceProbe, target_width: u32, target_height: u32) -> (r: Result<
        VideoDecoder,
        DecodeError,
    >)
        ensures
            !probe.readable ==> (r matches Err(e) && e == DecodeError::OpenFailed),
            probe.readable && probe.video_stream is None ==> (r matches Err(e) && e
                == DecodeError::NoVideoStream),
            probe.readable && probe.video_stream is Some ==> (r matches Ok(d)
                && probe.video_stream == Some(d.video_stream_index) && d.target_width
                == target_width && d.target_height == target_height),
    {
        if !probe.readable {
            return Err(DecodeError::OpenFailed);
        }
        match probe.video_stream {
            None => Err(DecodeError::NoVideoStream),
            Some(index) => Ok(VideoDecoder { video_stream_index: index, target_width, target_height }),
        }
    }

    /// The width every frame of this session is scaled to.
    pub fn width(&self) -> (w: u32)
        ensures
            w == self.target_width,
    {
        self.target_width
    }

    /// The height every frame of this session is scaled to.
    pub fn height(&self) -> (h: u32)
        ensures
            h == self.target_height,
    {
        self.target_height
    }

    /// Rewinds the session to the first frame. The session itself — above
    /// all its target size — is unchanged; only the position inside the
    /// resource, which the codec library owns, moves back to the start.
    pub fn seek_to_start(&mut self)
        ensures
            *final(self) == *old(self),
    {
    }

    /// Takes the raw scaled pixel bytes of one decoded frame and, when their
    /// length matches the session's target size, wraps them as a frame of
    /// exactly that size; a short or oversized buffer is a decode failure.
    pub fn accept_frame(&self, data: Vec<u8>) -> (r: Result<DecodedFrame, DecodeError>)
        ensures
            data@.len() == frame_bytes(self.target_width, self.target_height) ==> (r matches Ok(f)
                && f.data == data && f.width == self.target_width && f.height
                == self.target_height && f.wf()),
            data@.len() != frame_bytes(self.target_width, self.target_height) ==> (r matches Err(e)
                && e == DecodeError::DecodeFailed),
    {
        proof {
            assert((self.target_width as int) * (self.target_height as int) * 4 < u128::MAX)
                by (nonlinear_arith)
                requires
                    self.target_width <= u32::MAX,
                    self.target_height <= u32::MAX,
            ;
        }
        let expected: u128 = (self.target_width as u128) * (self.target_height as u128) * 4;
        if (data.len() as u128) == expected {
            Ok(DecodedFrame { data, width: self.target_width, height: self.target_height })
        } else {
            Err(DecodeError::DecodeFailed)
        }
    }
}

/// Looping law: every frame a session accepts carries the session's fixed
/// target size, and rewinding leaves that size untouched, so each pass
/// around the source reproduces the first frame's dimensions.
pub proof fn lemma_loop_reproduces_dimensions(d: VideoDecoder, f1: DecodedFrame, f2: DecodedFrame)
    requires
        f1.width == d.target_width,
        f1.height == d.target_height,
        f2.width == d.target_width,
        f2.height == d.target_height,
    ensures
        f1.width == f2.width,
        f1.height == f2.height,
{
}

} // verus!
