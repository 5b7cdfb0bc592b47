//! Frames as the capture side hands them around, and the decision kernel
//! of the capture loop.
//!
//! The loop that drives a camera is outside work: it blocks on a device,
//! drains an event channel, and republishes pixels. What it decides —
//! whether it is recording, which effect is selected, when to shut down —
//! is a pure function from state and event to state, and stands here.

use vstd::prelude::*;

verus! {

/// An owned RGB frame of video: 3 bytes per pixel, row-major.
pub struct Frame {
    pub data: Vec<u8>,
    pub width: usize,
    pub height: usize,
}

impl Frame {
    /// The buffer length matches the declared layout exactly.
    pub open spec fn wf(self) -> bool {
        self.data@.len() == 3 * self.width * self.height
    }

    /// Borrow the frame's pixels without copying them.
    pub fn borrow(&self) -> (r: BorrowedFrame<'_>)
        ensures
            r.data@ == self.data@,
            r.width == self.width,
            r.height == self.height,
    {
        BorrowedFrame { data: self.data.as_slice(), width: self.width, height: self.height }
    }
}

/// A borrowed RGB frame of video.
pub struct BorrowedFrame<'a> {
    pub data: &'a [u8],
    pub width: usize,
    pub height: usize,
}

impl<'a> BorrowedFrame<'a> {
    /// The buffer length matches the declared layout exactly.
    pub open spec fn wf(self) -> bool {
        self.data@.len() == 3 * self.width * self.height
    }

    /// Copy the borrowed pixels into an owned frame.
    pub fn to_owned(self) -> (r: Frame)
        ensures
            r.data@ == self.data@,
            r.width == self.width,
            r.height == self.height,
    {
        Frame {
            data: vstd::slice::slice_to_vec(self.data),
            width: self.width,
            height: self.height,
        }
    }
}

/// The closed set of per-frame pixel transforms a capture session offers.
#[derive(Copy, Clone, Debug, Hash, PartialEq, Eq, Structural)]
pub enum Effect {
    /// Pass pixels through unchanged.
    Normal,
    /// Grayscale trichrome: averages the incoming pixel and cycles it
    /// through the stored channels.
    TricrideoGrey,
    /// Colour trichrome: refreshes one colour channel per frame, in turn.
    TricrideoColour,
}

/// An instruction to the capture loop.
pub enum CameraEvent {
    /// Select a different pixel transform.
    ChangeEffect(Effect),
    /// A recording has started: forward frames to the encoder.
    RecordingStarted,
    /// The recording has stopped.
    RecordingStopped,
    /// Leave the capture loop.
    Shutdown,
}

/// What the capture loop knows between events: whether frames are being
/// forwarded to the encoder, whether it should exit, and which transform
/// is selected.
#[derive(Copy, Clone, Debug, PartialEq, Eq, Structural)]
pub struct CaptureState {
    pub recording: bool,
    pub shutdown: bool,
    pub effect: Effect,
}

impl CaptureState {
    /// The state the capture loop starts in: idle, running, no transform.
    pub fn new() -> (r: CaptureState)
        ensures
            !r.recording,
            !r.shutdown,
            r.effect is Normal,
    {
        CaptureState { recording: false, shutdown: false, effect: Effect::Normal }
    }

    /// Apply one drained event. Shutdown is sticky; the other events each
    /// set exactly one component of the state.
    pub fn apply_event(&mut self, event: &CameraEvent)
        ensures
            final(self).shutdown == (old(self).shutdown || event is Shutdown),
            final(self).recording == (match event {
                CameraEvent::RecordingStarted => true,
                CameraEvent::RecordingStopped => false,
                _ => old(self).recording,
            }),
            final(self).effect == (match event {
                CameraEvent::ChangeEffect(e) => *e,
                _ => old(self).effect,
            }),
    {
        match event {
            CameraEvent::Shutdown => {
                self.shutdown = true;
            },
            CameraEvent::RecordingStarted => {
                self.recording = true;
            },
            CameraEvent::RecordingStopped => {
                self.recording = false;
            },
            CameraEvent::ChangeEffect(e) => {
                self.effect = *e;
            },
        }
    }
}

} // verus!
