use vstd::prelude::*;

use crate::error::EditorError;
use crate::processor::{EditorCommand, EditorState, EngineOp, Outcome, apply, plan_of};
use crate::session::{PREVIEW_HEIGHT, PREVIEW_WIDTH, PlaybackState, Session};
use crate::timeline::{TrackMask, clips_at, placed_clip};

verus! {

/// The editor after `StopPreview` was applied `n` times in a row.
pub open spec fn stopped_n_times(s: EditorState, n: nat) -> EditorState
    decreases n,
{
    if n == 0 {
        s
    } else {
        apply(stopped_n_times(s, (n - 1) as nat), EditorCommand::StopPreview, 0).0
    }
}

/// A clip with a positive duration whose engine work all succeeds lands at
/// the end of its layer with the placement given; adding the same clip again
/// adds a second, distinct entry rather than merging the two.
pub proof fn lemma_add_clip_places(
    s: EditorState,
    file_path: String,
    layer_priority: u32,
    start_ns: u64,
    duration_ns: u64,
)
    requires
        duration_ns > 0,
    ensures
        ({
            let cmd = EditorCommand::AddClip { file_path, layer_priority, start_ns, duration_ns };
            let c = placed_clip(
                file_path,
                start_ns,
                duration_ns,
                TrackMask { video: true, audio: true },
            );
            let (s1, r1) = apply(s, cmd, 3);
            let (s2, r2) = apply(s1, cmd, 3);
            &&& plan_of(s, cmd).len() == 3
            &&& plan_of(s1, cmd).len() == 3
            &&& r1 == Ok::<Outcome, EditorError>(Outcome::Applied)
            &&& r2 == Ok::<Outcome, EditorError>(Outcome::Applied)
            &&& s1.layers.contains_key(layer_priority)
            &&& clips_at(s1.layers, layer_priority) == clips_at(s.layers, layer_priority).push(c)
            &&& clips_at(s2.layers, layer_priority) == clips_at(s.layers, layer_priority).push(
                c,
            ).push(c)
            &&& forall|q: u32| q != layer_priority ==> clips_at(s2.layers, q) == clips_at(s.layers, q)
            &&& s2.session == s.session
        }),
{
}

/// A zero duration is refused with `InvalidPlacement` once the path is found,
/// and no outcome of its plan changes the layers or the session.
pub proof fn lemma_zero_duration_refused(
    s: EditorState,
    file_path: String,
    layer_priority: u32,
    start_ns: u64,
    done: nat,
)
    requires
        done <= plan_of(
            s,
            EditorCommand::AddClip { file_path, layer_priority, start_ns, duration_ns: 0 },
        ).len(),
    ensures
        ({
            let cmd = EditorCommand::AddClip { file_path, layer_priority, start_ns, duration_ns: 0 };
            let (s1, r) = apply(s, cmd, done);
            &&& s1 == s
            &&& s1.layers.dom().len() == s.layers.dom().len()
            &&& done >= 1 ==> r == Err::<Outcome, EditorError>(EditorError::InvalidPlacement)
        }),
{
}

/// A path that is not found fails the clip with `PathNotFound` and changes nothing.
pub proof fn lemma_missing_path_refused(
    s: EditorState,
    file_path: String,
    layer_priority: u32,
    start_ns: u64,
    duration_ns: u64,
)
    ensures
        apply(
            s,
            EditorCommand::AddClip { file_path, layer_priority, start_ns, duration_ns },
            0,
        ) == (s, Err::<Outcome, EditorError>(EditorError::PathNotFound)),
{
}

/// With no preview running, `StopPreview` needs no engine work, never fails,
/// and leaves the editor as it was however often it is repeated.
pub proof fn lemma_stop_without_session(s: EditorState, n: nat)
    requires
        s.session is None,
    ensures
        plan_of(s, EditorCommand::StopPreview).len() == 0,
        apply(s, EditorCommand::StopPreview, 0) == (s, Ok::<Outcome, EditorError>(Outcome::Ignored)),
        stopped_n_times(s, n) == s,
    decreases n,
{
    if n > 0 {
        lemma_stop_without_session(s, (n - 1) as nat);
    }
}

/// Starting a preview while one runs first releases the running pipeline,
/// then builds exactly one new one; whatever the engine reports, at most the
/// new session is held afterwards.
pub proof fn lemma_restart_releases_first(s: EditorState, sink: u64, done: nat)
    requires
        s.session is Some,
        done <= 3,
    ensures
        ({
            let cmd = EditorCommand::StartPreview { sink };
            let ops = plan_of(s, cmd);
            let (s1, r) = apply(s, cmd, done);
            &&& ops.len() == 3
            &&& ops[0] is ReleasePipeline
            &&& ops[1] == EngineOp::BuildPipeline {
                sink,
                width: PREVIEW_WIDTH,
                height: PREVIEW_HEIGHT,
            }
            &&& ops[2] == EngineOp::SetState { target: PlaybackState::Playing }
            &&& done < 3 ==> s1.session is None && r is Err
            &&& done == 3 ==> s1.session == Some(
                Session {
                    sink,
                    state: PlaybackState::Playing,
                    width: PREVIEW_WIDTH,
                    height: PREVIEW_HEIGHT,
                },
            ) && r == Ok::<Outcome, EditorError>(Outcome::Applied)
            &&& s1.layers == s.layers
        }),
{
}

/// Two successful toggles from `Playing` pass through `Paused` and return to
/// `Playing`, asking the engine for exactly those states.
pub proof fn lemma_toggle_twice(s: EditorState)
    requires
        s.session matches Some(live) && live.state == PlaybackState::Playing,
    ensures
        ({
            let (s1, r1) = apply(s, EditorCommand::PlayPause, 1);
            let (s2, r2) = apply(s1, EditorCommand::PlayPause, 1);
            &&& plan_of(s, EditorCommand::PlayPause) == seq![
                EngineOp::SetState { target: PlaybackState::Paused },
            ]
            &&& plan_of(s1, EditorCommand::PlayPause) == seq![
                EngineOp::SetState { target: PlaybackState::Playing },
            ]
            &&& r1 == Ok::<Outcome, EditorError>(Outcome::Applied)
            &&& r2 == Ok::<Outcome, EditorError>(Outcome::Applied)
            &&& s1.session matches Some(p) && p.state == PlaybackState::Paused
            &&& s2 == s
        }),
{
}

/// A seek with no preview running needs no engine work and is reported as
/// ignored, changing nothing.
pub proof fn lemma_seek_without_session(s: EditorState, position_ns: u64)
    requires
        s.session is None,
    ensures
        plan_of(s, EditorCommand::SeekTo { position_ns }).len() == 0,
        apply(s, EditorCommand::SeekTo { position_ns }, 0) == (s, Ok::<Outcome, EditorError>(
            Outcome::Ignored,
        )),
{
}

} // verus!
