use clip_editor::error::EditorError;
use clip_editor::processor::{EditorCommand, EngineOp, Outcome, Processor};
use clip_editor::session::{
    extract_frame, FlowSignal, PlaybackState, PulledSample, Session, PREVIEW_HEIGHT,
    PREVIEW_WIDTH,
};
use clip_editor::timeline::{Timeline, TrackMask};

fn add(path: &str, layer_priority: u32, start_ns: u64, duration_ns: u64) -> EditorCommand {
    EditorCommand::AddClip {
        file_path: path.to_string(),
        layer_priority,
        start_ns,
        duration_ns,
    }
}

/// Runs `cmd` against an engine on which every operation succeeds.
fn run_ok(p: &mut Processor, cmd: EditorCommand) -> (Vec<EngineOp>, Result<Outcome, EditorError>) {
    let ops = p.plan(&cmd);
    let n = ops.len();
    let r = p.commit(cmd, n);
    (ops, r)
}

fn clip_count(p: &Processor, layer_priority: u32) -> usize {
    p.timeline().layer_clips(layer_priority).map(|c| c.len()).unwrap_or(0)
}

#[test]
fn add_clip_places_clip_on_layer() {
    let mut p = Processor::new();
    let (ops, r) = run_ok(&mut p, add("/media/a.mp4", 3, 1_000, 2_000));
    assert_eq!(r, Ok(Outcome::Applied));
    assert_eq!(ops.len(), 3);
    assert!(matches!(&ops[0], EngineOp::CheckPath { path } if path == "/media/a.mp4"));
    assert!(matches!(&ops[1], EngineOp::ResolveAsset { path } if path == "/media/a.mp4"));
    match &ops[2] {
        EngineOp::InsertClip {
            path,
            layer_priority,
            layer_position,
            new_layer,
            start_ns,
            in_point_ns,
            duration_ns,
            tracks,
        } => {
            assert_eq!(path, "/media/a.mp4");
            assert_eq!(*layer_priority, 3);
            assert_eq!(*layer_position, 0);
            assert!(*new_layer);
            assert_eq!(*start_ns, 1_000);
            assert_eq!(*in_point_ns, 0);
            assert_eq!(*duration_ns, 2_000);
            assert_eq!(*tracks, TrackMask { video: true, audio: true });
        }
        _ => panic!("third operation is not an insert"),
    }
    let clips = p.timeline().layer_clips(3).unwrap();
    assert_eq!(clips.len(), 1);
    assert_eq!(clips[0].source, "/media/a.mp4");
    assert_eq!(clips[0].start_ns, 1_000);
    assert_eq!(clips[0].in_point_ns, 0);
    assert_eq!(clips[0].duration_ns, 2_000);
    assert_eq!(clips[0].tracks, TrackMask { video: true, audio: true });
    assert_eq!(p.timeline().layer_count(), 1);
}

#[test]
fn identical_clip_added_twice_gives_two_clips() {
    let mut p = Processor::new();
    assert_eq!(run_ok(&mut p, add("/media/a.mp4", 0, 0, 10)).1, Ok(Outcome::Applied));
    assert_eq!(run_ok(&mut p, add("/media/a.mp4", 0, 0, 10)).1, Ok(Outcome::Applied));
    assert_eq!(clip_count(&p, 0), 2);
    assert_eq!(p.timeline().layer_count(), 1);
}

#[test]
fn zero_duration_is_invalid_placement() {
    let mut p = Processor::new();
    run_ok(&mut p, add("/media/a.mp4", 1, 0, 10));
    let cmd = add("/media/b.mp4", 2, 0, 0);
    let ops = p.plan(&cmd);
    assert_eq!(ops.len(), 1);
    assert_eq!(p.commit(cmd, 1), Err(EditorError::InvalidPlacement));
    assert_eq!(p.timeline().layer_count(), 1);
    assert_eq!(clip_count(&p, 1), 1);
    assert!(p.timeline().layer_clips(2).is_none());
}

#[test]
fn missing_path_is_path_not_found() {
    let mut p = Processor::new();
    assert_eq!(p.commit(add("/nowhere.mp4", 4, 0, 10), 0), Err(EditorError::PathNotFound));
    assert_eq!(p.timeline().layer_count(), 0);
    assert!(p.timeline().layer_clips(4).is_none());
    // a zero duration on a missing path reports the missing path
    assert_eq!(p.commit(add("/nowhere.mp4", 4, 0, 0), 0), Err(EditorError::PathNotFound));
    assert_eq!(p.timeline().layer_count(), 0);
}

#[test]
fn probe_and_layer_failures_leave_timeline_unchanged() {
    let mut p = Processor::new();
    assert_eq!(p.commit(add("/media/a.mp4", 0, 0, 10), 1), Err(EditorError::AssetProbeFailed));
    assert_eq!(p.commit(add("/media/a.mp4", 0, 0, 10), 2), Err(EditorError::LayerAccessError));
    assert_eq!(p.timeline().layer_count(), 0);
}

#[test]
fn layers_are_ordered_by_priority() {
    let mut p = Processor::new();
    run_ok(&mut p, add("/a", 7, 0, 1));
    run_ok(&mut p, add("/b", 2, 0, 1));
    run_ok(&mut p, add("/c", u32::MAX, 0, 1));
    run_ok(&mut p, add("/d", 0, 0, 1));
    run_ok(&mut p, add("/e", 7, 5, 1));
    assert_eq!(p.timeline().priorities(), vec![0, 2, 7, u32::MAX]);
    let layer7 = p.timeline().layer_clips(7).unwrap();
    assert_eq!(layer7[0].source, "/a");
    assert_eq!(layer7[1].source, "/e");
}

fn insert_target(p: &Processor, layer_priority: u32) -> (usize, bool) {
    let ops = p.plan(&add("/x", layer_priority, 0, 1));
    match &ops[2] {
        EngineOp::InsertClip { layer_position, new_layer, .. } => (*layer_position, *new_layer),
        _ => panic!("third operation is not an insert"),
    }
}

#[test]
fn insert_targets_gapless_engine_layer() {
    let mut p = Processor::new();
    assert_eq!(insert_target(&p, 40), (0, true));
    run_ok(&mut p, add("/a", 10, 0, 1));
    run_ok(&mut p, add("/b", 30, 0, 1));
    assert_eq!(insert_target(&p, 5), (0, true));
    assert_eq!(insert_target(&p, 10), (0, false));
    assert_eq!(insert_target(&p, 20), (1, true));
    assert_eq!(insert_target(&p, 30), (1, false));
    assert_eq!(insert_target(&p, u32::MAX), (2, true));
    assert_eq!(p.timeline().layer_position(31), 2);
}

#[test]
fn clips_may_overlap_and_use_large_values() {
    let mut p = Processor::new();
    run_ok(&mut p, add("/a", 0, 0, 100));
    run_ok(&mut p, add("/b", 0, 50, 100));
    run_ok(&mut p, add("/c", 0, u64::MAX, u64::MAX));
    assert_eq!(clip_count(&p, 0), 3);
    assert_eq!(p.timeline().layer_clips(0).unwrap()[2].start_ns, u64::MAX);
}

#[test]
fn timeline_get_or_create_layer() {
    let mut t = Timeline::new();
    assert_eq!(t.layer_count(), 0);
    t.get_or_create_layer(5);
    t.get_or_create_layer(5);
    assert_eq!(t.layer_count(), 1);
    assert_eq!(t.layer_clips(5).unwrap().len(), 0);
    let id = t
        .add_clip(5, "/a".to_string(), 0, 3, TrackMask::audio_video())
        .unwrap();
    assert_eq!(id.layer_priority, 5);
    assert_eq!(id.index, 0);
    let id2 = t.add_clip(5, "/a".to_string(), 0, 3, TrackMask::audio_video()).unwrap();
    assert_eq!(id2.index, 1);
    assert_eq!(
        t.add_clip(6, "/a".to_string(), 0, 0, TrackMask::audio_video()).unwrap_err(),
        EditorError::InvalidPlacement
    );
    assert_eq!(t.layer_count(), 1);
}

#[test]
fn stop_without_session_is_ignored_repeatedly() {
    let mut p = Processor::new();
    run_ok(&mut p, add("/a", 0, 0, 1));
    for _ in 0..5 {
        let (ops, r) = run_ok(&mut p, EditorCommand::StopPreview);
        assert!(ops.is_empty());
        assert_eq!(r, Ok(Outcome::Ignored));
        assert_eq!(p.session(), None);
        assert_eq!(p.playback_state(), PlaybackState::Stopped);
        assert_eq!(clip_count(&p, 0), 1);
    }
}

#[test]
fn start_preview_builds_and_plays() {
    let mut p = Processor::new();
    let (ops, r) = run_ok(&mut p, EditorCommand::StartPreview { sink: 9 });
    assert_eq!(r, Ok(Outcome::Applied));
    assert_eq!(ops.len(), 2);
    assert!(matches!(
        ops[0],
        EngineOp::BuildPipeline { sink: 9, width: 1280, height: 720 }
    ));
    assert!(matches!(ops[1], EngineOp::SetState { target: PlaybackState::Playing }));
    assert_eq!(
        p.session(),
        Some(Session { sink: 9, state: PlaybackState::Playing, width: 1280, height: 720 })
    );
}

#[test]
fn restart_releases_old_pipeline_first() {
    let mut p = Processor::new();
    run_ok(&mut p, EditorCommand::StartPreview { sink: 1 });
    let (ops, r) = run_ok(&mut p, EditorCommand::StartPreview { sink: 2 });
    assert_eq!(r, Ok(Outcome::Applied));
    assert_eq!(ops.len(), 3);
    assert!(matches!(ops[0], EngineOp::ReleasePipeline));
    assert!(matches!(ops[1], EngineOp::BuildPipeline { sink: 2, .. }));
    let builds = ops.iter().filter(|o| matches!(o, EngineOp::BuildPipeline { .. })).count();
    assert_eq!(builds, 1);
    assert_eq!(p.session().unwrap().sink, 2);
}

#[test]
fn start_preview_failures() {
    let mut p = Processor::new();
    assert_eq!(
        p.commit(EditorCommand::StartPreview { sink: 1 }, 0),
        Err(EditorError::PipelineBuildError)
    );
    assert_eq!(p.session(), None);
    assert_eq!(
        p.commit(EditorCommand::StartPreview { sink: 1 }, 1),
        Err(EditorError::StateChangeError)
    );
    assert_eq!(p.session(), None);
    run_ok(&mut p, EditorCommand::StartPreview { sink: 1 });
    // the old session is gone even when the new one cannot be built
    assert_eq!(
        p.commit(EditorCommand::StartPreview { sink: 2 }, 1),
        Err(EditorError::PipelineBuildError)
    );
    assert_eq!(p.session(), None);
}

#[test]
fn play_pause_twice_returns_to_playing() {
    let mut p = Processor::new();
    run_ok(&mut p, EditorCommand::StartPreview { sink: 1 });
    let (ops, r) = run_ok(&mut p, EditorCommand::PlayPause);
    assert!(matches!(ops[..], [EngineOp::SetState { target: PlaybackState::Paused }]));
    assert_eq!(r, Ok(Outcome::Applied));
    assert_eq!(p.playback_state(), PlaybackState::Paused);
    let (ops, r) = run_ok(&mut p, EditorCommand::PlayPause);
    assert!(matches!(ops[..], [EngineOp::SetState { target: PlaybackState::Playing }]));
    assert_eq!(r, Ok(Outcome::Applied));
    assert_eq!(p.playback_state(), PlaybackState::Playing);
}

#[test]
fn play_pause_failures() {
    let mut p = Processor::new();
    let (ops, r) = run_ok(&mut p, EditorCommand::PlayPause);
    assert!(ops.is_empty());
    assert_eq!(r, Err(EditorError::InvalidTransition));
    run_ok(&mut p, EditorCommand::StartPreview { sink: 1 });
    assert_eq!(p.commit(EditorCommand::PlayPause, 0), Err(EditorError::StateChangeError));
    assert_eq!(p.playback_state(), PlaybackState::Playing);
}

#[test]
fn seek_without_session_is_ignored() {
    let mut p = Processor::new();
    let (ops, r) = run_ok(&mut p, EditorCommand::SeekTo { position_ns: 7 });
    assert!(ops.is_empty());
    assert_eq!(r, Ok(Outcome::Ignored));
    assert_eq!(p.session(), None);
}

#[test]
fn seek_rejected_keeps_state() {
    let mut p = Processor::new();
    run_ok(&mut p, EditorCommand::StartPreview { sink: 1 });
    run_ok(&mut p, EditorCommand::PlayPause);
    assert_eq!(
        p.commit(EditorCommand::SeekTo { position_ns: 7 }, 0),
        Err(EditorError::SeekRejected)
    );
    assert_eq!(p.playback_state(), PlaybackState::Paused);
}

#[test]
fn session_pause_resume_table() {
    let mut s = Session { sink: 0, state: PlaybackState::Playing, width: 1, height: 1 };
    assert_eq!(s.resume(), Err(EditorError::InvalidTransition));
    assert_eq!(s.state, PlaybackState::Playing);
    assert_eq!(s.pause(), Ok(()));
    assert_eq!(s.state, PlaybackState::Paused);
    assert_eq!(s.pause(), Err(EditorError::InvalidTransition));
    assert_eq!(s.resume(), Ok(()));
    assert_eq!(s.state, PlaybackState::Playing);
    let mut stopped = Session { sink: 0, state: PlaybackState::Stopped, width: 1, height: 1 };
    assert_eq!(stopped.toggle(), Err(EditorError::InvalidTransition));
    assert_eq!(stopped.state, PlaybackState::Stopped);
}

#[test]
fn extract_frame_outcomes() {
    assert!(matches!(extract_frame(None), Err(FlowSignal::Eos)));
    let no_caps = PulledSample { geometry: None, pixels: Some(vec![1, 2]) };
    assert!(matches!(extract_frame(Some(no_caps)), Err(FlowSignal::Error)));
    let unmapped = PulledSample { geometry: Some((2, 1)), pixels: None };
    assert!(matches!(extract_frame(Some(unmapped)), Err(FlowSignal::Error)));
    let good = PulledSample { geometry: Some((2, 1)), pixels: Some(vec![1, 2, 3, 4, 5, 6, 7, 8]) };
    let f = extract_frame(Some(good)).ok().unwrap();
    assert_eq!(f.width, 2);
    assert_eq!(f.height, 1);
    assert_eq!(f.bytes, vec![1, 2, 3, 4, 5, 6, 7, 8]);
}

#[test]
fn preview_scenario() {
    let mut p = Processor::new();
    let (_, r) = run_ok(&mut p, add("/tmp/a.mp4", 0, 0, 5_000_000_000));
    assert_eq!(r, Ok(Outcome::Applied));
    let clips = p.timeline().layer_clips(0).unwrap();
    assert_eq!(clips.len(), 1);
    assert_eq!(clips[0].start_ns, 0);
    assert_eq!(clips[0].start_ns + clips[0].duration_ns, 5_000_000_000);

    let (ops, r) = run_ok(&mut p, EditorCommand::StartPreview { sink: 1 });
    assert_eq!(r, Ok(Outcome::Applied));
    assert!(matches!(
        ops[0],
        EngineOp::BuildPipeline { width: PREVIEW_WIDTH, height: PREVIEW_HEIGHT, .. }
    ));
    let s = p.session().unwrap();
    assert_eq!((s.width, s.height), (1280, 720));

    let (ops, r) = run_ok(&mut p, EditorCommand::SeekTo { position_ns: 2_000_000_000 });
    assert_eq!(r, Ok(Outcome::Applied));
    assert!(matches!(ops[..], [EngineOp::Seek { position_ns: 2_000_000_000 }]));

    let (ops, r) = run_ok(&mut p, EditorCommand::StopPreview);
    assert_eq!(r, Ok(Outcome::Applied));
    assert!(matches!(ops[..], [EngineOp::ReleasePipeline]));
    assert_eq!(p.session(), None);
    assert_eq!(p.playback_state(), PlaybackState::Stopped);
}
