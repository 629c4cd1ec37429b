//! The per-frame match engine.
//!
//! For every frame the engine probes the image, scores the embedding of its
//! first face against every gallery entry, and raises one alert for each
//! identity whose distance exceeds [`ALERT_THRESHOLD`]. A frame without a face
//! is skipped: nothing is extracted, nothing is scored, no alert is raised.
//!
//! The alert policy is "stranger detected": an alert for an identity means
//! that the face in the frame is far from that identity, not close to it.

use crate::alert::{Alert, AlertType};
use crate::embedding::{
    distance_between, lemma_root_ceiling_exceeds, squared_distance, Embedding, EmbeddingView,
};
use crate::frame::Frame;
use crate::gallery::{EntryView, Gallery};
use crate::recognition::{
    lemma_extraction_needs_a_face, probe, probe_step, ProbeStage, ProbeStep, Reply, Request,
};
use vstd::prelude::*;

verus! {

/// The distance, in fixed-point units, above which an identity is alerted on:
/// 0.6 at a scale of one million units.
pub const ALERT_THRESHOLD: u64 = 600_000;

/// The distance of the probed face to one identity.
#[derive(Debug)]
pub struct Score {
    pub name: String,
    pub distance: u64,
}

/// The mathematical content of a [`Score`].
pub struct ScoreView {
    pub name: Seq<char>,
    pub distance: nat,
}

impl View for Score {
    type V = ScoreView;

    open spec fn view(&self) -> ScoreView {
        ScoreView { name: self.name@, distance: self.distance as nat }
    }
}

/// The views of a list of scores, in order.
pub open spec fn score_views(scores: Seq<Score>) -> Seq<ScoreView> {
    Seq::new(scores.len(), |i: int| scores[i]@)
}

/// The scores of `probe` against every entry of `gallery`, in gallery order.
pub open spec fn scores_of(gallery: Seq<EntryView>, probe: EmbeddingView) -> Seq<ScoreView> {
    Seq::new(
        gallery.len(),
        |i: int|
            ScoreView {
                name: gallery[i].name,
                distance: distance_between(probe, gallery[i].embedding),
            },
    )
}

/// The score calls for an alert.
pub open spec fn exceeds_threshold(score: ScoreView) -> bool {
    score.distance > ALERT_THRESHOLD
}

/// The names alerted on among the first `n` scores, in order.
pub open spec fn alert_names_upto(scores: Seq<ScoreView>, n: nat) -> Seq<Seq<char>>
    decreases n,
{
    if n == 0 {
        Seq::empty()
    } else if exceeds_threshold(scores[n - 1]) {
        alert_names_upto(scores, (n - 1) as nat).push(scores[n - 1].name)
    } else {
        alert_names_upto(scores, (n - 1) as nat)
    }
}

/// The names alerted on: those of the scores above the threshold, in order.
pub open spec fn alert_names(scores: Seq<ScoreView>) -> Seq<Seq<char>> {
    alert_names_upto(scores, scores.len())
}

/// `alerts` are the alerts of frame `frame` for `names`, one each, in order.
pub open spec fn alerts_raised(alerts: Seq<Alert>, frame: nat, names: Seq<Seq<char>>) -> bool {
    &&& alerts.len() == names.len()
    &&& forall|i: int|
        0 <= i < alerts.len() ==> {
            &&& (#[trigger] alerts[i])@.frameno == frame
            &&& alerts[i]@.reference_name == names[i]
            &&& alerts[i]@.atype == AlertType::Stdout
        }
}

/// The alert decision is the exact comparison of the Euclidean distance with
/// the threshold: an entry's score exceeds the threshold exactly when the
/// squared distance of the two descriptors exceeds the squared threshold.
pub proof fn lemma_alert_is_exact(gallery: Seq<EntryView>, probe: EmbeddingView, i: int)
    requires
        0 <= i < gallery.len(),
    ensures
        exceeds_threshold(scores_of(gallery, probe)[i]) <==> squared_distance(
            probe.values,
            gallery[i].embedding.values,
        ) > ALERT_THRESHOLD * ALERT_THRESHOLD,
{
    lemma_root_ceiling_exceeds(
        squared_distance(probe.values, gallery[i].embedding.values),
        ALERT_THRESHOLD as nat,
    );
}

/// An identity is alerted on exactly when one of the scores carries its name
/// and lies above the threshold.
pub proof fn lemma_alert_names_are_the_far_ones(scores: Seq<ScoreView>, n: nat, name: Seq<char>)
    requires
        n <= scores.len(),
    ensures
        alert_names_upto(scores, n).contains(name) <==> exists|i: int|
            0 <= i < n && (#[trigger] scores[i]).name == name && exceeds_threshold(scores[i]),
    decreases n,
{
    if n > 0 {
        let before = alert_names_upto(scores, (n - 1) as nat);
        lemma_alert_names_are_the_far_ones(scores, (n - 1) as nat, name);
        let last = scores[n - 1];
        if exceeds_threshold(last) {
            let now = before.push(last.name);
            if now.contains(name) {
                let k = choose|k: int| 0 <= k < now.len() && now[k] == name;
                if k < before.len() {
                    assert(before[k] == name);
                    assert(before.contains(name));
                } else {
                    assert(scores[n - 1].name == name);
                }
            }
            if exists|i: int|
                0 <= i < n && (#[trigger] scores[i]).name == name && exceeds_threshold(scores[i]) {
                let i = choose|i: int|
                    0 <= i < n && (#[trigger] scores[i]).name == name && exceeds_threshold(
                        scores[i],
                    );
                if i < n - 1 {
                    assert(before.contains(name));
                    let k = choose|k: int| 0 <= k < before.len() && before[k] == name;
                    assert(now[k] == name);
                } else {
                    assert(now[before.len() as int] == name);
                }
            }
        } else {
            if exists|i: int|
                0 <= i < n && (#[trigger] scores[i]).name == name && exceeds_threshold(scores[i]) {
                let i = choose|i: int|
                    0 <= i < n && (#[trigger] scores[i]).name == name && exceeds_threshold(
                        scores[i],
                    );
                assert(i < n - 1);
            }
        }
    } else {
        assert(!alert_names_upto(scores, 0).contains(name));
    }
}

/// Scores `probe` against every entry of the gallery. There is no early exit.
pub fn score(gallery: &Gallery, probe: &Embedding) -> (scores: Vec<Score>)
    ensures
        score_views(scores@) == scores_of(gallery@, probe@),
{
    let count = gallery.len();
    let mut scores: Vec<Score> = Vec::new();
    let mut i: usize = 0;
    while i < count
        invariant
            i <= count,
            count == gallery@.len(),
            score_views(scores@) == scores_of(gallery@, probe@).take(i as int),
        decreases count - i,
    {
        match gallery.entry(i) {
            Some(entry) => {
                let ghost before = score_views(scores@);
                let distance = probe.distance(&entry.embedding);
                let item = Score { name: entry.name.clone(), distance };
                assert(item@ == scores_of(gallery@, probe@)[i as int]);
                scores.push(item);
                assert(score_views(scores@) =~= before.push(item@));
                assert(before.push(item@) =~= scores_of(gallery@, probe@).take(i + 1));
            },
            None => {},
        }
        i += 1;
    }
    assert(scores_of(gallery@, probe@).take(count as int) =~= scores_of(gallery@, probe@));
    scores
}

/// Raises one alert for every score above the threshold.
pub fn decide(frame: usize, scores: &Vec<Score>) -> (alerts: Vec<Alert>)
    ensures
        alerts_raised(alerts@, frame as nat, alert_names(score_views(scores@))),
{
    let ghost views = score_views(scores@);
    let mut alerts: Vec<Alert> = Vec::new();
    let mut i: usize = 0;
    while i < scores.len()
        invariant
            i <= scores@.len(),
            views == score_views(scores@),
            alerts_raised(alerts@, frame as nat, alert_names_upto(views, i as nat)),
        decreases scores@.len() - i,
    {
        assert(views[i as int] == scores@[i as int]@);
        if scores[i].distance > ALERT_THRESHOLD {
            alerts.push(Alert::new(frame, scores[i].name.clone()));
        }
        i += 1;
    }
    alerts
}

/// What the engine found out about one frame with a face.
#[derive(Debug)]
pub struct Verdict {
    /// Sequence number of the frame.
    pub frame: usize,
    /// The distance to every identity of the gallery.
    pub scores: Vec<Score>,
    /// The alerts to emit.
    pub alerts: Vec<Alert>,
}

/// Where the engine stands.
#[derive(Debug, Clone, Copy, PartialEq, Eq, Structural)]
pub enum MatchStage {
    /// No frame has arrived yet.
    Idle,
    /// Probing the current frame.
    Probing(ProbeStage),
    /// The current frame shows no face.
    NoFace,
    /// The current frame was scored and raised at least one alert.
    Alerted,
    /// The current frame was scored and raised no alert.
    Clear,
    /// The stream has ended.
    Closed,
}

impl MatchStage {
    /// The engine is between frames and waits for the channel.
    pub open spec fn awaits_frame(self) -> bool {
        self == MatchStage::Idle || self == MatchStage::NoFace || self == MatchStage::Alerted
            || self == MatchStage::Clear
    }
}

/// What the caller reports to the engine.
#[derive(Debug)]
pub enum MatchEvent {
    /// The frame with this sequence number was taken from the channel.
    Frame(usize),
    /// A recognition capability answered the pending request.
    Reply(Reply),
    /// The channel was closed by the producer.
    EndOfStream,
}

/// What the engine asks the caller to do.
#[derive(Debug)]
pub enum MatchAction {
    /// Run a recognition capability on the current frame.
    Ask(Request),
    /// The frame shows no face; take the next frame.
    Skip,
    /// The frame was scored; emit the alerts and take the next frame.
    Report(Verdict),
    /// Leave the loop.
    Shutdown,
    /// The event was not expected at this point; nothing changed.
    Ignored,
}

/// The per-frame state machine together with the gallery it scores against.
#[derive(Debug)]
pub struct MatchEngine {
    gallery: Gallery,
    stage: MatchStage,
    frame: usize,
}

/// The mathematical content of a [`MatchEngine`].
pub struct MatchEngineView {
    /// The identities scored against.
    pub gallery: Seq<EntryView>,
    /// Where the engine stands.
    pub stage: MatchStage,
    /// Sequence number of the frame last taken.
    pub frame: nat,
}

impl View for MatchEngine {
    type V = MatchEngineView;

    closed spec fn view(&self) -> MatchEngineView {
        MatchEngineView { gallery: self.gallery@, stage: self.stage, frame: self.frame as nat }
    }
}

/// The stage a scored frame ends in.
pub open spec fn scored_stage(gallery: Seq<EntryView>, probe: EmbeddingView) -> MatchStage {
    if alert_names(scores_of(gallery, probe)).len() > 0 {
        MatchStage::Alerted
    } else {
        MatchStage::Clear
    }
}

/// The state an engine in state `pre` moves to on `event`.
pub open spec fn match_next(pre: MatchEngineView, event: MatchEvent) -> MatchEngineView {
    match (pre.stage, event) {
        (MatchStage::Probing(stage), MatchEvent::Reply(reply)) => match probe_step(stage, reply) {
            ProbeStep::Ask(next, _) => MatchEngineView { stage: MatchStage::Probing(next), ..pre },
            ProbeStep::NoFace => MatchEngineView { stage: MatchStage::NoFace, ..pre },
            ProbeStep::Embedded(embedding) => MatchEngineView {
                stage: scored_stage(pre.gallery, embedding@),
                ..pre
            },
            ProbeStep::Ignored => pre,
        },
        (_, MatchEvent::Frame(seq)) => if pre.stage.awaits_frame() {
            MatchEngineView {
                stage: MatchStage::Probing(ProbeStage::Received),
                frame: seq as nat,
                ..pre
            }
        } else {
            pre
        },
        (_, MatchEvent::EndOfStream) => if pre.stage.awaits_frame() {
            MatchEngineView { stage: MatchStage::Closed, ..pre }
        } else {
            pre
        },
        _ => pre,
    }
}

/// `verdict` reports the scores of `probe` in frame `frame` and the alerts
/// they call for.
pub open spec fn verdict_of(
    verdict: Verdict,
    gallery: Seq<EntryView>,
    frame: nat,
    probe: EmbeddingView,
) -> bool {
    &&& verdict.frame == frame
    &&& score_views(verdict.scores@) == scores_of(gallery, probe)
    &&& alerts_raised(verdict.alerts@, frame, alert_names(scores_of(gallery, probe)))
}

/// `action` is what an engine in state `pre` answers to `event`.
pub open spec fn match_action(
    pre: MatchEngineView,
    event: MatchEvent,
    action: MatchAction,
) -> bool {
    match (pre.stage, event) {
        (MatchStage::Probing(stage), MatchEvent::Reply(reply)) => match probe_step(stage, reply) {
            ProbeStep::Ask(_, request) => action == MatchAction::Ask(request),
            ProbeStep::NoFace => action is Skip,
            ProbeStep::Embedded(embedding) => action matches MatchAction::Report(verdict)
                && verdict_of(verdict, pre.gallery, pre.frame, embedding@),
            ProbeStep::Ignored => action is Ignored,
        },
        (_, MatchEvent::Frame(_)) => if pre.stage.awaits_frame() {
            action == MatchAction::Ask(Request::LocateFaces)
        } else {
            action is Ignored
        },
        (_, MatchEvent::EndOfStream) => if pre.stage.awaits_frame() {
            action is Shutdown
        } else {
            action is Ignored
        },
        _ => action is Ignored,
    }
}

/// A frame without a face raises no alert and leads to no extraction: the
/// engine skips it.
pub proof fn lemma_no_face_is_skipped(pre: MatchEngineView, event: MatchEvent, action: MatchAction)
    requires
        pre.stage == MatchStage::Probing(ProbeStage::Received),
        event matches MatchEvent::Reply(Reply::Regions(regions)) && regions@.len() == 0,
        match_action(pre, event, action),
    ensures
        action is Skip,
        match_next(pre, event).stage == MatchStage::NoFace,
{
}

/// Once a frame was found to show no face, nothing is extracted or reported
/// until the next frame arrives: the engine only asks for the faces of a new
/// frame, shuts down, or ignores the event.
pub proof fn lemma_no_face_stays_quiet(pre: MatchEngineView, event: MatchEvent, action: MatchAction)
    requires
        pre.stage == MatchStage::NoFace,
        match_action(pre, event, action),
    ensures
        !(action is Report),
        action matches MatchAction::Ask(request) ==> request is LocateFaces && event is Frame,
        match_next(pre, event).stage != MatchStage::NoFace ==> event is Frame || event
            is EndOfStream,
{
}

/// Extraction and scoring happen only while a frame with a face is probed: a
/// request for landmarks answers a non-empty list of regions, a request for
/// an embedding is made from the stage a located face leads to, and a report
/// answers the embedding asked for.
pub proof fn lemma_extraction_follows_a_face(
    pre: MatchEngineView,
    event: MatchEvent,
    action: MatchAction,
)
    requires
        match_action(pre, event, action),
    ensures
        action matches MatchAction::Ask(Request::ExtractLandmarks { region }) ==> {
            &&& pre.stage == MatchStage::Probing(ProbeStage::Received)
            &&& event matches MatchEvent::Reply(Reply::Regions(regions))
            &&& regions@.len() > 0
            &&& region == regions@[0]
        },
        action matches MatchAction::Ask(Request::ExtractEmbedding { .. }) ==> pre.stage
            == MatchStage::Probing(ProbeStage::Located),
        action is Report ==> pre.stage == MatchStage::Probing(ProbeStage::LandmarksExtracted),
{
    match (pre.stage, event) {
        (MatchStage::Probing(stage), MatchEvent::Reply(reply)) => {
            lemma_extraction_needs_a_face(stage, reply);
        },
        _ => {},
    }
}

/// Every how many frames the consumer logs the frame it took.
pub const FRAME_LOG_INTERVAL: usize = 10;

/// Whether the frame taken after `taken` earlier ones is logged: the first
/// frame is, and every [`FRAME_LOG_INTERVAL`]th after it.
pub fn frame_log_due(taken: usize) -> (due: bool)
    ensures
        due == (taken % FRAME_LOG_INTERVAL == 0),
{
    taken % FRAME_LOG_INTERVAL == 0
}

/// The event that the outcome of a receive on the frame channel stands for.
pub fn arrival(received: &Option<Frame>) -> (event: MatchEvent)
    ensures
        match received {
            Some(frame) => event == MatchEvent::Frame(frame@.seq as usize),
            None => event is EndOfStream,
        },
{
    match received {
        Some(frame) => MatchEvent::Frame(frame.seq()),
        None => MatchEvent::EndOfStream,
    }
}

impl MatchEngine {
    /// An engine that scores against `gallery` and has seen no frame yet.
    pub fn new(gallery: Gallery) -> (engine: MatchEngine)
        ensures
            engine@.gallery == gallery@,
            engine@.stage == MatchStage::Idle,
            engine@.frame == 0,
    {
        MatchEngine { gallery, stage: MatchStage::Idle, frame: 0 }
    }

    /// Where the engine stands.
    pub fn stage(&self) -> (stage: MatchStage)
        ensures
            stage == self@.stage,
    {
        self.stage
    }

    /// Sequence number of the frame last taken.
    pub fn frame(&self) -> (seq: usize)
        ensures
            seq == self@.frame,
    {
        self.frame
    }

    /// The gallery scored against.
    pub fn gallery(&self) -> (gallery: &Gallery)
        ensures
            gallery@ == self@.gallery,
    {
        &self.gallery
    }

    /// Hands one event to the engine and returns the engine in its next state
    /// together with what the caller has to do.
    pub fn step(self, event: MatchEvent) -> (out: (MatchEngine, MatchAction))
        ensures
            out.0@ == match_next(self@, event),
            match_action(self@, event, out.1),
    {
        let MatchEngine { gallery, stage, frame } = self;
        match event {
            MatchEvent::Frame(seq) => match stage {
                MatchStage::Idle | MatchStage::NoFace | MatchStage::Alerted | MatchStage::Clear => (
                    MatchEngine {
                        gallery,
                        stage: MatchStage::Probing(ProbeStage::Received),
                        frame: seq,
                    },
                    MatchAction::Ask(Request::LocateFaces),
                ),
                _ => (MatchEngine { gallery, stage, frame }, MatchAction::Ignored),
            },
            MatchEvent::EndOfStream => match stage {
                MatchStage::Idle | MatchStage::NoFace | MatchStage::Alerted | MatchStage::Clear => (
                    MatchEngine { gallery, stage: MatchStage::Closed, frame },
                    MatchAction::Shutdown,
                ),
                _ => (MatchEngine { gallery, stage, frame }, MatchAction::Ignored),
            },
            MatchEvent::Reply(reply) => match stage {
                MatchStage::Probing(at) => match probe(at, reply) {
                    ProbeStep::Ask(next, request) => (
                        MatchEngine { gallery, stage: MatchStage::Probing(next), frame },
                        MatchAction::Ask(request),
                    ),
                    ProbeStep::NoFace => (
                        MatchEngine { gallery, stage: MatchStage::NoFace, frame },
                        MatchAction::Skip,
                    ),
                    ProbeStep::Embedded(embedding) => {
                        let scores = score(&gallery, &embedding);
                        let alerts = decide(frame, &scores);
                        let next = if alerts.len() > 0 {
                            MatchStage::Alerted
                        } else {
                            MatchStage::Clear
                        };
                        (
                            MatchEngine { gallery, stage: next, frame },
                            MatchAction::Report(Verdict { frame, scores, alerts }),
                        )
                    },
                    ProbeStep::Ignored => (
                        MatchEngine { gallery, stage, frame },
                        MatchAction::Ignored,
                    ),
                },
                _ => (MatchEngine { gallery, stage, frame }, MatchAction::Ignored),
            },
        }
    }
}

} // verus!
