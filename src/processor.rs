use vstd::prelude::*;

use crate::error::EditorError;
use crate::session::{PREVIEW_HEIGHT, PREVIEW_WIDTH, PlaybackState, Session, toggled};
use crate::timeline::{Clip, Timeline, TrackMask, layer_rank, placed_clip, with_clip};

verus! {

/// A command for the editor, applied one at a time in arrival order.
pub enum EditorCommand {
    /// Place the media file at `file_path` on the layer at `layer_priority`.
    AddClip { file_path: String, layer_priority: u32, start_ns: u64, duration_ns: u64 },
    /// Start previewing the timeline into the frame sink `sink`, ending any
    /// preview that is running.
    StartPreview { sink: u64 },
    /// End the preview, if one is running.
    StopPreview,
    /// Move the running preview to `position_ns`.
    SeekTo { position_ns: u64 },
    /// Swap the running preview between playing and paused.
    PlayPause,
}

/// One piece of work for the media engine. The caller performs the operations
/// of a plan in order and stops at the first one that fails.
pub enum EngineOp {
    /// Succeeds where `path` names an existing file.
    CheckPath { path: String },
    /// Resolves the media asset of `path`; fails where the engine cannot probe it.
    ResolveAsset { path: String },
    /// Adds a clip of the asset just resolved to the engine's layer at
    /// `layer_priority`, and commits the engine's timeline, so that a running
    /// preview shows the new clip. The engine numbers its layers without gaps:
    /// that layer is its `layer_position`-th, counted from zero, and has to be
    /// created there first where `new_layer` holds.
    InsertClip {
        path: String,
        layer_priority: u32,
        layer_position: usize,
        new_layer: bool,
        start_ns: u64,
        in_point_ns: u64,
        duration_ns: u64,
        tracks: TrackMask,
    },
    /// Drives the running pipeline to its null state and releases it, together
    /// with its pull callback. Never reported as failed: teardown is best effort.
    ReleasePipeline,
    /// Builds a pipeline on the timeline whose frame sink asks for packed RGBA
    /// at `width` by `height` and forwards each pulled frame to `sink`.
    BuildPipeline { sink: u64, width: u32, height: u32 },
    /// Drives the pipeline to `target`.
    SetState { target: PlaybackState },
    /// A flushing seek to the nearest sync point at or before `position_ns`.
    Seek { position_ns: u64 },
}

/// How a command that did not fail ended.
#[derive(Clone, Copy, Debug, PartialEq, Eq, Structural)]
pub enum Outcome {
    /// The command changed the editor.
    Applied,
    /// The command had nothing to act on and changed nothing.
    Ignored,
}

/// What the editor holds: the clips of each layer, by priority, and the
/// running preview, if any.
pub struct EditorState {
    pub layers: Map<u32, Seq<Clip>>,
    pub session: Option<Session>,
}

/// The engine operations that `cmd` needs in state `s`, in order.
pub open spec fn plan_of(s: EditorState, cmd: EditorCommand) -> Seq<EngineOp> {
    match cmd {
        EditorCommand::AddClip { file_path, layer_priority, start_ns, duration_ns } => {
            if duration_ns == 0 {
                seq![EngineOp::CheckPath { path: file_path }]
            } else {
                seq![
                    EngineOp::CheckPath { path: file_path },
                    EngineOp::ResolveAsset { path: file_path },
                    EngineOp::InsertClip {
                        path: file_path,
                        layer_priority,
                        layer_position: layer_rank(s.layers, layer_priority) as usize,
                        new_layer: !s.layers.contains_key(layer_priority),
                        start_ns,
                        in_point_ns: 0,
                        duration_ns,
                        tracks: TrackMask { video: true, audio: true },
                    },
                ]
            }
        },
        EditorCommand::StartPreview { sink } => {
            let build = seq![
                EngineOp::BuildPipeline { sink, width: PREVIEW_WIDTH, height: PREVIEW_HEIGHT },
                EngineOp::SetState { target: PlaybackState::Playing },
            ];
            if s.session is Some {
                seq![EngineOp::ReleasePipeline] + build
            } else {
                build
            }
        },
        EditorCommand::StopPreview => {
            if s.session is Some {
                seq![EngineOp::ReleasePipeline]
            } else {
                seq![]
            }
        },
        EditorCommand::SeekTo { position_ns } => {
            if s.session is Some {
                seq![EngineOp::Seek { position_ns }]
            } else {
                seq![]
            }
        },
        EditorCommand::PlayPause => match s.session {
            Some(live) => seq![EngineOp::SetState { target: toggled(live.state) }],
            None => seq![],
        },
    }
}

/// The state after `cmd` and what it reports, where the first `done`
/// operations of its plan succeeded and the next one, if any, failed.
pub open spec fn apply(s: EditorState, cmd: EditorCommand, done: nat) -> (
    EditorState,
    Result<Outcome, EditorError>,
) {
    match cmd {
        EditorCommand::AddClip { file_path, layer_priority, start_ns, duration_ns } => {
            if done == 0 {
                (s, Err(EditorError::PathNotFound))
            } else if duration_ns == 0 {
                (s, Err(EditorError::InvalidPlacement))
            } else if done == 1 {
                (s, Err(EditorError::AssetProbeFailed))
            } else if done == 2 {
                (s, Err(EditorError::LayerAccessError))
            } else {
                let c = placed_clip(
                    file_path,
                    start_ns,
                    duration_ns,
                    TrackMask { video: true, audio: true },
                );
                (
                    EditorState { layers: with_clip(s.layers, layer_priority, c), ..s },
                    Ok(Outcome::Applied),
                )
            }
        },
        EditorCommand::StartPreview { sink } => {
            let built: nat = if s.session is Some {
                1
            } else {
                0
            };
            let ended = EditorState { session: None, ..s };
            if done < built {
                (ended, Err(EditorError::StateChangeError))
            } else if done == built {
                (ended, Err(EditorError::PipelineBuildError))
            } else if done == built + 1 {
                (ended, Err(EditorError::StateChangeError))
            } else {
                (
                    EditorState {
                        session: Some(
                            Session {
                                sink,
                                state: PlaybackState::Playing,
                                width: PREVIEW_WIDTH,
                                height: PREVIEW_HEIGHT,
                            },
                        ),
                        ..s
                    },
                    Ok(Outcome::Applied),
                )
            }
        },
        EditorCommand::StopPreview => {
            if s.session is Some {
                (EditorState { session: None, ..s }, Ok(Outcome::Applied))
            } else {
                (s, Ok(Outcome::Ignored))
            }
        },
        EditorCommand::SeekTo { position_ns } => {
            if s.session is None {
                (s, Ok(Outcome::Ignored))
            } else if done == 0 {
                (s, Err(EditorError::SeekRejected))
            } else {
                (s, Ok(Outcome::Applied))
            }
        },
        EditorCommand::PlayPause => match s.session {
            None => (s, Err(EditorError::InvalidTransition)),
            Some(live) => {
                if done == 0 {
                    (s, Err(EditorError::StateChangeError))
                } else {
                    (
                        EditorState {
                            session: Some(Session { state: toggled(live.state), ..live }),
                            ..s
                        },
                        Ok(Outcome::Applied),
                    )
                }
            },
        },
    }
}

/// The editor's command processor: the only owner of the timeline and of the
/// preview session. For each command the caller asks for its `plan`, performs
/// the operations on the media engine in order until one fails, and reports
/// how many succeeded to `commit`.
pub struct Processor {
    timeline: Timeline,
    session: Option<Session>,
}

impl View for Processor {
    type V = EditorState;

    closed spec fn view(&self) -> EditorState {
        EditorState { layers: self.timeline@, session: self.session }
    }
}

impl Processor {
    pub closed spec fn wf(&self) -> bool {
        &&& self.timeline.wf()
        &&& self.session matches Some(live) ==> live.state != PlaybackState::Stopped
    }

    /// An editor with an empty timeline and no preview.
    pub fn new() -> (p: Processor)
        ensures
            p.wf(),
            p@.layers == Map::<u32, Seq<Clip>>::empty(),
            p@.session is None,
    {
        Processor { timeline: Timeline::new(), session: None }
    }

    /// The timeline.
    pub fn timeline(&self) -> (t: &Timeline)
        requires
            self.wf(),
        ensures
            t.wf(),
            t@ == self@.layers,
    {
        &self.timeline
    }

    /// The running preview, if any.
    pub fn session(&self) -> (s: Option<Session>)
        ensures
            s == self@.session,
    {
        self.session
    }

    /// The playback state: `Stopped` where no preview runs.
    pub fn playback_state(&self) -> (r: PlaybackState)
        requires
            self.wf(),
        ensures
            self@.session matches Some(live) ==> r == live.state,
            self@.session is None ==> r == PlaybackState::Stopped,
    {
        match self.session {
            Some(live) => live.state,
            None => PlaybackState::Stopped,
        }
    }

    /// The engine operations that `cmd` needs now, in order.
    pub fn plan(&self, cmd: &EditorCommand) -> (ops: Vec<EngineOp>)
        requires
            self.wf(),
        ensures
            ops@ == plan_of(self@, *cmd),
    {
        let mut ops: Vec<EngineOp> = Vec::new();
        match cmd {
            EditorCommand::AddClip { file_path, layer_priority, start_ns, duration_ns } => {
                ops.push(EngineOp::CheckPath { path: file_path.clone() });
                if *duration_ns > 0 {
                    let layer_position = self.timeline.layer_position(*layer_priority);
                    let new_layer = self.timeline.layer_clips(*layer_priority).is_none();
                    ops.push(EngineOp::ResolveAsset { path: file_path.clone() });
                    ops.push(
                        EngineOp::InsertClip {
                            path: file_path.clone(),
                            layer_priority: *layer_priority,
                            layer_position,
                            new_layer,
                            start_ns: *start_ns,
                            in_point_ns: 0,
                            duration_ns: *duration_ns,
                            tracks: TrackMask::audio_video(),
                        },
                    );
                }
            },
            EditorCommand::StartPreview { sink } => {
                if self.session.is_some() {
                    ops.push(EngineOp::ReleasePipeline);
                }
                ops.push(
                    EngineOp::BuildPipeline {
                        sink: *sink,
                        width: PREVIEW_WIDTH,
                        height: PREVIEW_HEIGHT,
                    },
                );
                ops.push(EngineOp::SetState { target: PlaybackState::Playing });
            },
            EditorCommand::StopPreview => {
                if self.session.is_some() {
                    ops.push(EngineOp::ReleasePipeline);
                }
            },
            EditorCommand::SeekTo { position_ns } => {
                if self.session.is_some() {
                    ops.push(EngineOp::Seek { position_ns: *position_ns });
                }
            },
            EditorCommand::PlayPause => {
                if let Some(live) = self.session {
                    ops.push(EngineOp::SetState { target: live.toggle_target() });
                }
            },
        }
        proof {
            assert(ops@ =~= plan_of(self@, *cmd));
        }
        ops
    }

    /// Applies `cmd` where the first `done` operations of its plan succeeded
    /// and the next one, if any, failed.
    pub fn commit(&mut self, cmd: EditorCommand, done: usize) -> (r: Result<Outcome, EditorError>)
        requires
            old(self).wf(),
            done <= plan_of(old(self)@, cmd).len(),
        ensures
            final(self).wf(),
            (final(self)@, r) == apply(old(self)@, cmd, done as nat),
    {
        match cmd {
            EditorCommand::AddClip { file_path, layer_priority, start_ns, duration_ns } => {
                if done == 0 {
                    return Err(EditorError::PathNotFound);
                }
                if duration_ns > 0 && done == 1 {
                    return Err(EditorError::AssetProbeFailed);
                }
                if duration_ns > 0 && done == 2 {
                    return Err(EditorError::LayerAccessError);
                }
                match self.timeline.add_clip(
                    layer_priority,
                    file_path,
                    start_ns,
                    duration_ns,
                    TrackMask::audio_video(),
                ) {
                    Ok(_) => Ok(Outcome::Applied),
                    Err(e) => Err(e),
                }
            },
            EditorCommand::StartPreview { sink } => {
                let built: usize = if self.session.is_some() {
                    1
                } else {
                    0
                };
                self.session = None;
                if done < built {
                    Err(EditorError::StateChangeError)
                } else if done == built {
                    Err(EditorError::PipelineBuildError)
                } else if done == built + 1 {
                    Err(EditorError::StateChangeError)
                } else {
                    self.session = Some(Session::started(sink));
                    Ok(Outcome::Applied)
                }
            },
            EditorCommand::StopPreview => {
                if self.session.is_some() {
                    self.session = None;
                    Ok(Outcome::Applied)
                } else {
                    Ok(Outcome::Ignored)
                }
            },
            EditorCommand::SeekTo { position_ns: _ } => {
                if self.session.is_none() {
                    Ok(Outcome::Ignored)
                } else if done == 0 {
                    Err(EditorError::SeekRejected)
                } else {
                    Ok(Outcome::Applied)
                }
            },
            EditorCommand::PlayPause => {
                match self.session {
                    None => Err(EditorError::InvalidTransition),
                    Some(mut live) => {
                        if done == 0 {
                            Err(EditorError::StateChangeError)
                        } else {
                            let r = live.toggle();
                            self.session = Some(live);
                            match r {
                                Ok(()) => Ok(Outcome::Applied),
                                Err(e) => Err(e),
                            }
                        }
                    },
                }
            },
        }
    }
}

} // verus!
