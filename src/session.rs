use vstd::prelude::*;

use crate::error::EditorError;

verus! {

/// Width of the frames the preview sink asks for.
pub const PREVIEW_WIDTH: u32 = 1280;

/// Height of the frames the preview sink asks for.
pub const PREVIEW_HEIGHT: u32 = 720;

/// Where a preview pipeline stands.
#[derive(Clone, Copy, Debug, PartialEq, Eq, Structural)]
pub enum PlaybackState {
    Playing,
    Paused,
    Stopped,
}

/// The live preview: which sink it feeds, its playback state and the frame
/// geometry it was built for. A session that is held is never `Stopped`:
/// stopping it ends it.
#[derive(Clone, Copy, Debug, PartialEq, Eq, Structural)]
pub struct Session {
    pub sink: u64,
    pub state: PlaybackState,
    pub width: u32,
    pub height: u32,
}

/// The state a play/pause toggle leads to.
pub open spec fn toggled(s: PlaybackState) -> PlaybackState {
    match s {
        PlaybackState::Playing => PlaybackState::Paused,
        PlaybackState::Paused => PlaybackState::Playing,
        PlaybackState::Stopped => PlaybackState::Stopped,
    }
}

impl Session {
    /// A session that has just been driven to `Playing` for `sink`.
    pub fn started(sink: u64) -> (s: Session)
        ensures
            s == (Session {
                sink,
                state: PlaybackState::Playing,
                width: PREVIEW_WIDTH,
                height: PREVIEW_HEIGHT,
            }),
    {
        Session { sink, state: PlaybackState::Playing, width: PREVIEW_WIDTH, height: PREVIEW_HEIGHT }
    }

    /// The state that `toggle` moves to.
    pub fn toggle_target(&self) -> (t: PlaybackState)
        ensures
            t == toggled(self.state),
    {
        match self.state {
            PlaybackState::Playing => PlaybackState::Paused,
            PlaybackState::Paused => PlaybackState::Playing,
            PlaybackState::Stopped => PlaybackState::Stopped,
        }
    }

    /// Playing to Paused; from any other state an `InvalidTransition` that
    /// changes nothing.
    pub fn pause(&mut self) -> (r: Result<(), EditorError>)
        ensures
            old(self).state == PlaybackState::Playing ==> r is Ok && *final(self) == (Session {
                state: PlaybackState::Paused,
                ..*old(self)
            }),
            old(self).state != PlaybackState::Playing ==> r == Err::<(), EditorError>(
                EditorError::InvalidTransition,
            ) && *final(self) == *old(self),
    {
        if self.state == PlaybackState::Playing {
            self.state = PlaybackState::Paused;
            Ok(())
        } else {
            Err(EditorError::InvalidTransition)
        }
    }

    /// Paused to Playing; from any other state an `InvalidTransition` that
    /// changes nothing.
    pub fn resume(&mut self) -> (r: Result<(), EditorError>)
        ensures
            old(self).state == PlaybackState::Paused ==> r is Ok && *final(self) == (Session {
                state: PlaybackState::Playing,
                ..*old(self)
            }),
            old(self).state != PlaybackState::Paused ==> r == Err::<(), EditorError>(
                EditorError::InvalidTransition,
            ) && *final(self) == *old(self),
    {
        if self.state == PlaybackState::Paused {
            self.state = PlaybackState::Playing;
            Ok(())
        } else {
            Err(EditorError::InvalidTransition)
        }
    }

    /// Playing and Paused swap; a stopped session refuses with `InvalidTransition`.
    pub fn toggle(&mut self) -> (r: Result<(), EditorError>)
        ensures
            old(self).state != PlaybackState::Stopped ==> r is Ok && *final(self) == (Session {
                state: toggled(old(self).state),
                ..*old(self)
            }),
            old(self).state == PlaybackState::Stopped ==> r == Err::<(), EditorError>(
                EditorError::InvalidTransition,
            ) && *final(self) == *old(self),
    {
        if self.state == PlaybackState::Playing {
            self.pause()
        } else {
            self.resume()
        }
    }
}

/// What the pull callback tells the media engine when it delivers no frame.
#[derive(Clone, Copy, Debug, PartialEq, Eq, Structural)]
pub enum FlowSignal {
    /// No sample could be pulled: the stream has ended.
    Eos,
    /// The sample had no buffer, no format or a buffer that could not be mapped.
    Error,
}

/// One decoded frame for the display: its geometry and its raw pixels.
pub struct FramePayload {
    pub width: usize,
    pub height: usize,
    pub bytes: Vec<u8>,
}

/// What the pull callback read of one sample: the frame geometry from its
/// format, where it had one, and the bytes of its buffer, where it could be mapped.
pub struct PulledSample {
    pub geometry: Option<(u32, u32)>,
    pub pixels: Option<Vec<u8>>,
}

/// The decision of the pull callback on one invocation: the frame to forward,
/// or the flow signal that drops it.
pub fn extract_frame(pulled: Option<PulledSample>) -> (r: Result<FramePayload, FlowSignal>)
    ensures
        pulled is None ==> r matches Err(FlowSignal::Eos),
        pulled matches Some(s) ==> match (s.geometry, s.pixels) {
            (Some((w, h)), Some(px)) => r matches Ok(f) && f.width == w && f.height == h
                && f.bytes@ == px@,
            _ => r matches Err(FlowSignal::Error),
        },
{
    match pulled {
        None => Err(FlowSignal::Eos),
        Some(s) => match (s.geometry, s.pixels) {
            (Some((w, h)), Some(px)) => Ok(FramePayload { width: w as usize, height: h as usize, bytes: px }),
            _ => Err(FlowSignal::Error),
        },
    }
}

} // verus!
