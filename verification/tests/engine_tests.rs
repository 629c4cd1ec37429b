use fofscreen::alert::AlertType;
use fofscreen::builder::{BuildAction, BuildEvent, GalleryBuilder};
use fofscreen::embedding::{Embedding, EMBEDDING_DIMENSION};
use fofscreen::engine::{
    arrival, decide, frame_log_due, score, MatchAction, MatchEngine, MatchEvent, MatchStage,
    Score, ALERT_THRESHOLD, FRAME_LOG_INTERVAL,
};
use fofscreen::frame::Frame;
use fofscreen::gallery::Gallery;
use fofscreen::recognition::{FaceRegion, Landmarks, Point, ProbeStage, Reply, Request};

fn embedding(first: i32) -> Embedding {
    let mut values = vec![0i32; EMBEDDING_DIMENSION];
    values[0] = first;
    Embedding::new(values, 0).unwrap()
}

fn region(left: i64) -> FaceRegion {
    FaceRegion { top: 0, left, width: 4, height: 4 }
}

fn landmarks(left: i64) -> Landmarks {
    Landmarks { region: region(left), points: vec![Point { x: 1, y: 1 }, Point { x: 2, y: 3 }] }
}

fn gallery(references: &[(&str, i32)]) -> Gallery {
    let mut builder = GalleryBuilder::new();
    for (name, first) in references {
        builder = builder.step(BuildEvent::File(String::from(*name))).0;
        builder = builder.step(BuildEvent::Reply(Reply::Regions(vec![region(0)]))).0;
        builder = builder.step(BuildEvent::Reply(Reply::Landmarks(landmarks(0)))).0;
        builder = builder.step(BuildEvent::Reply(Reply::Embeddings(vec![embedding(*first)]))).0;
    }
    match builder.step(BuildEvent::EndOfDirectory).1 {
        BuildAction::Done(gallery) => gallery,
        other => panic!("expected a gallery, got {:?}", other),
    }
}

fn probe_face(engine: MatchEngine, seq: usize, first: i32) -> (MatchEngine, MatchAction) {
    let (engine, action) = engine.step(MatchEvent::Frame(seq));
    assert!(matches!(action, MatchAction::Ask(Request::LocateFaces)));
    let (engine, action) = engine.step(MatchEvent::Reply(Reply::Regions(vec![region(3)])));
    assert!(matches!(action, MatchAction::Ask(Request::ExtractLandmarks { .. })));
    let (engine, action) = engine.step(MatchEvent::Reply(Reply::Landmarks(landmarks(3))));
    assert!(matches!(action, MatchAction::Ask(Request::ExtractEmbedding { .. })));
    engine.step(MatchEvent::Reply(Reply::Embeddings(vec![embedding(first)])))
}

#[test]
fn threshold_is_six_tenths() {
    assert_eq!(ALERT_THRESHOLD, 600_000);
}

#[test]
fn score_lists_every_identity_in_gallery_order() {
    let gallery = gallery(&[("alice.jpg", 0), ("bob.jpg", 1_000), ("carol.jpg", -500)]);
    let scores = score(&gallery, &embedding(100));
    assert_eq!(scores.len(), 3);
    assert_eq!(scores[0].name, "alice.jpg");
    assert_eq!(scores[0].distance, 100);
    assert_eq!(scores[1].name, "bob.jpg");
    assert_eq!(scores[1].distance, 900);
    assert_eq!(scores[2].name, "carol.jpg");
    assert_eq!(scores[2].distance, 600);
}

#[test]
fn decide_alerts_above_the_threshold_only() {
    let scores = vec![
        Score { name: String::from("alice.jpg"), distance: 600_000 },
        Score { name: String::from("bob.jpg"), distance: 600_001 },
        Score { name: String::from("carol.jpg"), distance: 0 },
        Score { name: String::from("dave.jpg"), distance: u64::MAX },
    ];
    let alerts = decide(42, &scores);
    assert_eq!(alerts.len(), 2);
    assert_eq!(alerts[0].reference_name(), "bob.jpg");
    assert_eq!(alerts[0].frameno(), 42);
    assert_eq!(alerts[0].alert_type(), AlertType::Stdout);
    assert_eq!(alerts[1].reference_name(), "dave.jpg");
    assert_eq!(alerts[1].frameno(), 42);
}

#[test]
fn decide_on_no_scores_raises_nothing() {
    assert!(decide(1, &Vec::new()).is_empty());
}

#[test]
fn arrival_maps_a_frame_and_the_end_of_the_stream() {
    let frame = Frame::new(17, 1, 1, vec![0, 0, 0]).unwrap();
    assert!(matches!(arrival(&Some(frame)), MatchEvent::Frame(17)));
    assert!(matches!(arrival(&None), MatchEvent::EndOfStream));
}

#[test]
fn frame_log_is_due_for_the_first_frame_and_every_tenth_after() {
    assert_eq!(FRAME_LOG_INTERVAL, 10);
    let due: Vec<usize> = (0..35usize).filter(|taken| frame_log_due(*taken)).collect();
    assert_eq!(due, vec![0, 10, 20, 30]);
    assert!(!frame_log_due(usize::MAX));
}

#[test]
fn new_engine_is_idle() {
    let engine = MatchEngine::new(gallery(&[("alice.jpg", 0)]));
    assert_eq!(engine.stage(), MatchStage::Idle);
    assert_eq!(engine.frame(), 0);
    assert_eq!(engine.gallery().len(), 1);
}

#[test]
fn frame_without_a_face_is_skipped() {
    let engine = MatchEngine::new(gallery(&[("alice.jpg", 0)]));
    let (engine, action) = engine.step(MatchEvent::Frame(1));
    assert!(matches!(action, MatchAction::Ask(Request::LocateFaces)));
    assert_eq!(engine.stage(), MatchStage::Probing(ProbeStage::Received));
    assert_eq!(engine.frame(), 1);
    let (engine, action) = engine.step(MatchEvent::Reply(Reply::Regions(Vec::new())));
    assert!(matches!(action, MatchAction::Skip));
    assert_eq!(engine.stage(), MatchStage::NoFace);
    let (engine, action) = engine.step(MatchEvent::Reply(Reply::Landmarks(landmarks(1))));
    assert!(matches!(action, MatchAction::Ignored));
    let (engine, action) =
        engine.step(MatchEvent::Reply(Reply::Embeddings(vec![embedding(900_000)])));
    assert!(matches!(action, MatchAction::Ignored));
    assert_eq!(engine.stage(), MatchStage::NoFace);
    let (engine, action) = engine.step(MatchEvent::Frame(2));
    assert!(matches!(action, MatchAction::Ask(Request::LocateFaces)));
    assert_eq!(engine.frame(), 2);
}

#[test]
fn engine_follows_the_first_region_and_chip_zero() {
    let engine = MatchEngine::new(gallery(&[("alice.jpg", 0)]));
    let (engine, _) = engine.step(MatchEvent::Frame(1));
    let (engine, action) =
        engine.step(MatchEvent::Reply(Reply::Regions(vec![region(11), region(22)])));
    assert_eq!(engine.stage(), MatchStage::Probing(ProbeStage::Located));
    match action {
        MatchAction::Ask(Request::ExtractLandmarks { region: asked }) => {
            assert_eq!(asked, region(11))
        }
        other => panic!("expected a landmark request, got {:?}", other),
    }
    let (engine, action) = engine.step(MatchEvent::Reply(Reply::Landmarks(landmarks(11))));
    assert_eq!(engine.stage(), MatchStage::Probing(ProbeStage::LandmarksExtracted));
    match action {
        MatchAction::Ask(Request::ExtractEmbedding { landmarks: asked, chip_index }) => {
            assert_eq!(chip_index, 0);
            assert_eq!(asked.region, region(11));
            assert_eq!(asked.points.len(), 2);
        }
        other => panic!("expected an embedding request, got {:?}", other),
    }
}

#[test]
fn near_face_is_clear() {
    let engine = MatchEngine::new(gallery(&[("alice.jpg", 0), ("alice2.jpg", 50_000)]));
    let (engine, action) = probe_face(engine, 9, 100_000);
    assert_eq!(engine.stage(), MatchStage::Clear);
    match action {
        MatchAction::Report(verdict) => {
            assert_eq!(verdict.frame, 9);
            assert_eq!(verdict.scores.len(), 2);
            assert_eq!(verdict.scores[0].distance, 100_000);
            assert_eq!(verdict.scores[1].distance, 50_000);
            assert!(verdict.alerts.is_empty());
        }
        other => panic!("expected a report, got {:?}", other),
    }
}

#[test]
fn far_face_raises_one_alert_per_identity() {
    let engine = MatchEngine::new(gallery(&[("alice.jpg", 0), ("bob.jpg", 1_500_000)]));
    let (engine, action) = probe_face(engine, 12, 700_000);
    assert_eq!(engine.stage(), MatchStage::Alerted);
    match action {
        MatchAction::Report(verdict) => {
            assert_eq!(verdict.frame, 12);
            assert_eq!(verdict.scores[0].name, "alice.jpg");
            assert_eq!(verdict.scores[0].distance, 700_000);
            assert_eq!(verdict.scores[1].name, "bob.jpg");
            assert_eq!(verdict.scores[1].distance, 800_000);
            assert_eq!(verdict.alerts.len(), 2);
            assert_eq!(verdict.alerts[0].reference_name(), "alice.jpg");
            assert_eq!(verdict.alerts[0].frameno(), 12);
            assert_eq!(verdict.alerts[1].reference_name(), "bob.jpg");
            assert_eq!(verdict.alerts[1].frameno(), 12);
        }
        other => panic!("expected a report, got {:?}", other),
    }
}

#[test]
fn distance_equal_to_the_threshold_raises_no_alert() {
    let engine = MatchEngine::new(gallery(&[("alice.jpg", 0), ("bob.jpg", -1)]));
    let (engine, action) = probe_face(engine, 1, 600_000);
    assert_eq!(engine.stage(), MatchStage::Alerted);
    match action {
        MatchAction::Report(verdict) => {
            assert_eq!(verdict.scores[0].distance, 600_000);
            assert_eq!(verdict.scores[1].distance, 600_001);
            assert_eq!(verdict.alerts.len(), 1);
            assert_eq!(verdict.alerts[0].reference_name(), "bob.jpg");
        }
        other => panic!("expected a report, got {:?}", other),
    }
}

#[test]
fn engine_ignores_events_out_of_turn() {
    let engine = MatchEngine::new(gallery(&[("alice.jpg", 0)]));
    let (engine, action) = engine.step(MatchEvent::Reply(Reply::Regions(vec![region(1)])));
    assert!(matches!(action, MatchAction::Ignored));
    assert_eq!(engine.stage(), MatchStage::Idle);
    let (engine, _) = engine.step(MatchEvent::Frame(4));
    let (engine, action) = engine.step(MatchEvent::Frame(5));
    assert!(matches!(action, MatchAction::Ignored));
    assert_eq!(engine.frame(), 4);
    let (engine, action) = engine.step(MatchEvent::EndOfStream);
    assert!(matches!(action, MatchAction::Ignored));
    assert_eq!(engine.stage(), MatchStage::Probing(ProbeStage::Received));
    let (engine, _) = engine.step(MatchEvent::Reply(Reply::Regions(vec![region(1)])));
    let (engine, _) = engine.step(MatchEvent::Reply(Reply::Landmarks(landmarks(1))));
    let (engine, action) = engine.step(MatchEvent::Reply(Reply::Embeddings(Vec::new())));
    assert!(matches!(action, MatchAction::Ignored));
    assert_eq!(engine.stage(), MatchStage::Probing(ProbeStage::LandmarksExtracted));
}

#[test]
fn end_of_stream_shuts_the_engine_down() {
    let engine = MatchEngine::new(gallery(&[("alice.jpg", 0)]));
    let (engine, action) = probe_face(engine, 1, 0);
    assert!(matches!(action, MatchAction::Report(_)));
    let (engine, action) = engine.step(MatchEvent::EndOfStream);
    assert!(matches!(action, MatchAction::Shutdown));
    assert_eq!(engine.stage(), MatchStage::Closed);
    let (engine, action) = engine.step(MatchEvent::Frame(2));
    assert!(matches!(action, MatchAction::Ignored));
    let (engine, action) = engine.step(MatchEvent::EndOfStream);
    assert!(matches!(action, MatchAction::Ignored));
    assert_eq!(engine.stage(), MatchStage::Closed);
}

#[test]
fn end_of_stream_before_any_frame_shuts_down() {
    let engine = MatchEngine::new(gallery(&[("alice.jpg", 0)]));
    let (engine, action) = engine.step(MatchEvent::EndOfStream);
    assert!(matches!(action, MatchAction::Shutdown));
    assert_eq!(engine.stage(), MatchStage::Closed);
}
