use fofscreen::builder::{exit_status, BuildAction, BuildEvent, GalleryBuilder, GalleryError};
use fofscreen::capture::{
    Backend, CaptureAction, CaptureConfig, CaptureEvent, FrameFormat, FrameSource, StopReason,
};
use fofscreen::embedding::{Embedding, EMBEDDING_DIMENSION};
use fofscreen::engine::{arrival, MatchAction, MatchEngine, MatchEvent, MatchStage};
use fofscreen::gallery::Gallery;
use fofscreen::raster::Raster;
use fofscreen::recognition::{FaceRegion, Landmarks, Point, Reply, Request};

fn embedding(first: i32, second: i32) -> Embedding {
    let mut values = vec![0i32; EMBEDDING_DIMENSION];
    values[0] = first;
    values[1] = second;
    Embedding::new(values, 0).unwrap()
}

fn region() -> FaceRegion {
    FaceRegion { top: 10, left: 20, width: 30, height: 40 }
}

fn landmarks() -> Landmarks {
    Landmarks { region: region(), points: vec![Point { x: 25, y: 15 }] }
}

fn alice_gallery() -> Gallery {
    let mut builder = GalleryBuilder::new();
    for (name, first, second) in [("alice.jpg", 100_000, 0), ("alice2.jpg", 0, 150_000)] {
        builder = builder.step(BuildEvent::File(String::from(name))).0;
        builder = builder.step(BuildEvent::Reply(Reply::Regions(vec![region()]))).0;
        builder = builder.step(BuildEvent::Reply(Reply::Landmarks(landmarks()))).0;
        builder =
            builder.step(BuildEvent::Reply(Reply::Embeddings(vec![embedding(first, second)]))).0;
    }
    match builder.step(BuildEvent::EndOfDirectory).1 {
        BuildAction::Done(gallery) => gallery,
        other => panic!("expected a gallery, got {:?}", other),
    }
}

fn config() -> CaptureConfig {
    CaptureConfig {
        index: 0,
        width: 2,
        height: 2,
        fps: 30,
        format: FrameFormat::Yuyv,
        backend: Backend::Video4Linux,
        query_device: false,
    }
}

fn image() -> Raster {
    Raster::from_raw(2, 2, vec![0u8; 12]).unwrap()
}

#[test]
fn scenario_known_face_scores_below_threshold_and_raises_no_alert() {
    let engine = MatchEngine::new(alice_gallery());
    let (engine, _) = engine.step(MatchEvent::Frame(1));
    let (engine, _) = engine.step(MatchEvent::Reply(Reply::Regions(vec![region()])));
    let (engine, _) = engine.step(MatchEvent::Reply(Reply::Landmarks(landmarks())));
    let (engine, action) =
        engine.step(MatchEvent::Reply(Reply::Embeddings(vec![embedding(0, 0)])));
    match action {
        MatchAction::Report(verdict) => {
            assert_eq!(verdict.scores.len(), 2);
            assert_eq!(verdict.scores[0].name, "alice.jpg");
            assert_eq!(verdict.scores[0].distance, 100_000);
            assert_eq!(verdict.scores[1].name, "alice2.jpg");
            assert_eq!(verdict.scores[1].distance, 150_000);
            assert!(verdict.scores.iter().all(|s| s.distance < 600_000));
            assert!(verdict.alerts.is_empty());
        }
        other => panic!("expected a report, got {:?}", other),
    }
    assert_eq!(engine.stage(), MatchStage::Clear);
}

#[test]
fn scenario_stranger_raises_an_alert_for_every_identity() {
    let engine = MatchEngine::new(alice_gallery());
    let (engine, _) = engine.step(MatchEvent::Frame(1));
    let (engine, _) = engine.step(MatchEvent::Reply(Reply::Regions(vec![region()])));
    let (engine, _) = engine.step(MatchEvent::Reply(Reply::Landmarks(landmarks())));
    let (engine, action) =
        engine.step(MatchEvent::Reply(Reply::Embeddings(vec![embedding(-900_000, -900_000)])));
    match action {
        MatchAction::Report(verdict) => {
            let names: Vec<&str> =
                verdict.alerts.iter().map(|a| a.reference_name().as_str()).collect();
            assert_eq!(names, vec!["alice.jpg", "alice2.jpg"]);
        }
        other => panic!("expected a report, got {:?}", other),
    }
    assert_eq!(engine.stage(), MatchStage::Alerted);
}

#[test]
fn scenario_empty_directory_aborts_before_streaming() {
    let (_, action) = GalleryBuilder::new().step(BuildEvent::EndOfDirectory);
    match action {
        BuildAction::Abort(error) => {
            assert!(matches!(error, GalleryError::NoReferenceImages));
            assert_eq!(exit_status(&Some(error)), 1);
        }
        other => panic!("expected an abort, got {:?}", other),
    }
}

#[test]
fn scenario_ten_frames_five_with_a_face_are_scored_in_order() {
    let mut engine = MatchEngine::new(alice_gallery());
    let mut scored: Vec<usize> = Vec::new();
    let mut extractions = 0;
    for seq in 1..=10usize {
        let (next, action) = engine.step(MatchEvent::Frame(seq));
        assert!(matches!(action, MatchAction::Ask(Request::LocateFaces)));
        let regions = if seq <= 5 { Vec::new() } else { vec![region()] };
        let (mut next, mut action) = next.step(MatchEvent::Reply(Reply::Regions(regions)));
        loop {
            match action {
                MatchAction::Ask(Request::ExtractLandmarks { .. }) => {
                    extractions += 1;
                    let out = next.step(MatchEvent::Reply(Reply::Landmarks(landmarks())));
                    next = out.0;
                    action = out.1;
                }
                MatchAction::Ask(Request::ExtractEmbedding { .. }) => {
                    extractions += 1;
                    let found = vec![embedding(seq as i32, 0)];
                    let out = next.step(MatchEvent::Reply(Reply::Embeddings(found)));
                    next = out.0;
                    action = out.1;
                }
                MatchAction::Report(verdict) => {
                    scored.push(verdict.frame);
                    break;
                }
                MatchAction::Skip => {
                    assert!(seq <= 5);
                    break;
                }
                other => panic!("unexpected action {:?}", other),
            }
        }
        engine = next;
    }
    assert_eq!(scored, vec![6, 7, 8, 9, 10]);
    assert_eq!(extractions, 10);
}

#[test]
fn scenario_device_error_after_frames_ends_the_stream_cleanly() {
    let frames = 7usize;
    let (source, receiver) = FrameSource::open(config());
    let (mut source, _) = source.step(CaptureEvent::Opened);
    let mut engine = MatchEngine::new(alice_gallery());
    let mut seen: Vec<usize> = Vec::new();
    for _ in 0..frames {
        let (next, action) = source.step(CaptureEvent::Captured(image()));
        let frame = match action {
            CaptureAction::Push { frame, .. } => frame,
            other => panic!("expected a frame, got {:?}", other),
        };
        let event = next.deliver(frame);
        source = next.step(event).0;
        let received = receiver.recv();
        if let Some(frame) = &received {
            seen.push(frame.seq());
        }
        let (next, action) = engine.step(arrival(&received));
        assert!(matches!(action, MatchAction::Ask(Request::LocateFaces)));
        let (next, action) = next.step(MatchEvent::Reply(Reply::Regions(Vec::new())));
        assert!(matches!(action, MatchAction::Skip));
        engine = next;
    }
    let (source, action) = source.step(CaptureEvent::CaptureFailed);
    assert!(matches!(action, CaptureAction::Stop(StopReason::DeviceFailed)));
    assert_eq!(source.captured(), frames);
    let received = receiver.recv();
    assert!(received.is_none());
    let (engine, action) = engine.step(arrival(&received));
    assert!(matches!(action, MatchAction::Shutdown));
    assert_eq!(engine.stage(), MatchStage::Closed);
    assert_eq!(seen, vec![1, 2, 3, 4, 5, 6, 7]);
    assert_eq!(exit_status(&None), 0);
}
