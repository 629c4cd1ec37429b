//! Building the gallery from reference images.
//!
//! The builder is driven by the caller, which walks the reference directory
//! and runs the recognition capabilities. For every file the builder probes
//! the image, stores the embedding of its first face under the file's name,
//! and asks for the next file. A reference image without a face, or a
//! directory without any reference image, aborts the build.

use crate::embedding::Embedding;
use crate::gallery::{
    as_map, collected, entry_views, has_name, insert_entry, lemma_collected_map_ignores_order,
    lemma_index_of_is_position, lemma_insert_keeps_names_distinct, names_distinct, EntryView,
    Gallery, GalleryEntry,
};
use crate::recognition::{
    probe, probe_step, FaceRegion, Landmarks, ProbeStage, ProbeStep, Reply, Request,
};
use vstd::prelude::*;

verus! {

/// Why a gallery could not be built.
#[derive(Debug)]
pub enum GalleryError {
    /// No face was found in the reference image `name`.
    NoFaceFound { name: String },
    /// The directory held no reference image.
    NoReferenceImages,
}

/// The exit status of the process: 1 when the gallery could not be built, 0
/// otherwise, a closed device included.
pub fn exit_status(failure: &Option<GalleryError>) -> (code: i32)
    ensures
        code == if failure is Some {
            1i32
        } else {
            0i32
        },
{
    match failure {
        Some(_) => 1,
        None => 0,
    }
}

/// Where the build stands.
#[derive(Debug, Clone, Copy, PartialEq, Eq, Structural)]
pub enum BuildStage {
    /// Waiting for the next file, or for the end of the directory.
    AwaitingFile,
    /// Probing the current file.
    Probing(ProbeStage),
    /// The build was aborted.
    Failed,
    /// The gallery was handed out.
    Complete,
}

/// What the caller reports to the builder.
#[derive(Debug)]
pub enum BuildEvent {
    /// A reference image named `.0` was decoded.
    File(String),
    /// A recognition capability answered the pending request.
    Reply(Reply),
    /// The directory holds no further file.
    EndOfDirectory,
}

/// What the builder asks the caller to do.
#[derive(Debug)]
pub enum BuildAction {
    /// Run a recognition capability on the current file.
    Ask(Request),
    /// Decode the next file, or report the end of the directory.
    NextFile,
    /// Abort startup.
    Abort(GalleryError),
    /// Start streaming with this gallery.
    Done(Gallery),
    /// The event was not expected at this point; nothing changed.
    Ignored,
}

/// Collects reference identities until the directory is exhausted.
#[derive(Debug)]
pub struct GalleryBuilder {
    entries: Vec<GalleryEntry>,
    stage: BuildStage,
    current: String,
}

/// The mathematical content of a [`GalleryBuilder`].
pub struct GalleryBuilderView {
    /// The identities collected so far.
    pub entries: Seq<EntryView>,
    /// Where the build stands.
    pub stage: BuildStage,
    /// Name of the file last announced.
    pub current: Seq<char>,
}

impl View for GalleryBuilder {
    type V = GalleryBuilderView;

    closed spec fn view(&self) -> GalleryBuilderView {
        GalleryBuilderView {
            entries: entry_views(self.entries@),
            stage: self.stage,
            current: self.current@,
        }
    }
}

/// The state a builder in state `pre` moves to on `event`.
pub open spec fn build_next(pre: GalleryBuilderView, event: BuildEvent) -> GalleryBuilderView {
    match (pre.stage, event) {
        (BuildStage::AwaitingFile, BuildEvent::File(name)) => GalleryBuilderView {
            stage: BuildStage::Probing(ProbeStage::Received),
            current: name@,
            ..pre
        },
        (BuildStage::AwaitingFile, BuildEvent::EndOfDirectory) => if pre.entries.len() == 0 {
            GalleryBuilderView { stage: BuildStage::Failed, ..pre }
        } else {
            GalleryBuilderView { stage: BuildStage::Complete, entries: Seq::empty(), ..pre }
        },
        (BuildStage::Probing(stage), BuildEvent::Reply(reply)) => match probe_step(stage, reply) {
            ProbeStep::Ask(next, _) => GalleryBuilderView {
                stage: BuildStage::Probing(next),
                ..pre
            },
            ProbeStep::NoFace => GalleryBuilderView { stage: BuildStage::Failed, ..pre },
            ProbeStep::Embedded(embedding) => GalleryBuilderView {
                stage: BuildStage::AwaitingFile,
                entries: insert_entry(
                    pre.entries,
                    EntryView { name: pre.current, embedding: embedding@ },
                ),
                ..pre
            },
            ProbeStep::Ignored => pre,
        },
        _ => pre,
    }
}

/// `action` is what a builder in state `pre` answers to `event`.
pub open spec fn build_action(
    pre: GalleryBuilderView,
    event: BuildEvent,
    action: BuildAction,
) -> bool {
    match (pre.stage, event) {
        (BuildStage::AwaitingFile, BuildEvent::File(_)) => action == BuildAction::Ask(
            Request::LocateFaces,
        ),
        (BuildStage::AwaitingFile, BuildEvent::EndOfDirectory) => if pre.entries.len() == 0 {
            action == BuildAction::Abort(GalleryError::NoReferenceImages)
        } else {
            action matches BuildAction::Done(gallery) && gallery@ == pre.entries
        },
        (BuildStage::Probing(stage), BuildEvent::Reply(reply)) => match probe_step(stage, reply) {
            ProbeStep::Ask(_, request) => action == BuildAction::Ask(request),
            ProbeStep::NoFace => action matches BuildAction::Abort(
                GalleryError::NoFaceFound { name },
            ) && name@ == pre.current,
            ProbeStep::Embedded(_) => action is NextFile,
            ProbeStep::Ignored => action is Ignored,
        },
        _ => action is Ignored,
    }
}

/// The state a builder reaches from `pre` after the events of `events`, in
/// order.
pub open spec fn build_run(pre: GalleryBuilderView, events: Seq<BuildEvent>) -> GalleryBuilderView
    decreases events.len(),
{
    if events.len() == 0 {
        pre
    } else {
        build_run(build_next(pre, events[0]), events.drop_first())
    }
}

/// Two replies carry the same results.
pub open spec fn same_reply(a: Reply, b: Reply) -> bool {
    match (a, b) {
        (Reply::Regions(x), Reply::Regions(y)) => x@ == y@,
        (Reply::Landmarks(x), Reply::Landmarks(y)) => x.region == y.region && x.points@
            == y.points@,
        (Reply::Embeddings(x), Reply::Embeddings(y)) => x@.len() == y@.len() && forall|i: int|
            0 <= i < x@.len() ==> (#[trigger] x@[i])@ == y@[i]@,
        _ => false,
    }
}

/// Two events report the same file name or the same recognition results.
pub open spec fn same_event(a: BuildEvent, b: BuildEvent) -> bool {
    match (a, b) {
        (BuildEvent::File(x), BuildEvent::File(y)) => x@ == y@,
        (BuildEvent::Reply(x), BuildEvent::Reply(y)) => same_reply(x, y),
        (BuildEvent::EndOfDirectory, BuildEvent::EndOfDirectory) => true,
        _ => false,
    }
}

/// A step of the build depends only on the name and the results reported.
pub proof fn lemma_build_next_deterministic(pre: GalleryBuilderView, a: BuildEvent, b: BuildEvent)
    requires
        same_event(a, b),
    ensures
        build_next(pre, a) == build_next(pre, b),
{
    match (a, b) {
        (BuildEvent::Reply(Reply::Embeddings(x)), BuildEvent::Reply(Reply::Embeddings(y))) => {
            if x@.len() > 0 {
                assert(x@[0]@ == y@[0]@);
            }
        },
        _ => {},
    }
}

/// Building is deterministic: two walks that report the same file names and
/// the same recognition results, in the same order, collect the same
/// identities with the same embeddings in the same order.
pub proof fn lemma_build_deterministic(
    pre: GalleryBuilderView,
    first: Seq<BuildEvent>,
    second: Seq<BuildEvent>,
)
    requires
        first.len() == second.len(),
        forall|i: int| 0 <= i < first.len() ==> same_event(#[trigger] first[i], second[i]),
    ensures
        build_run(pre, first) == build_run(pre, second),
    decreases first.len(),
{
    if first.len() > 0 {
        lemma_build_next_deterministic(pre, first[0], second[0]);
        let rest_first = first.drop_first();
        let rest_second = second.drop_first();
        assert forall|i: int| 0 <= i < rest_first.len() implies same_event(
            #[trigger] rest_first[i],
            rest_second[i],
        ) by {
            assert(same_event(first[i + 1], second[i + 1]));
        }
        lemma_build_deterministic(build_next(pre, first[0]), rest_first, rest_second);
    }
}

/// What the walk reports for one reference image: its name and the answers
/// of the three recognition capabilities.
#[derive(Debug)]
pub struct Reference {
    pub name: String,
    pub regions: Vec<FaceRegion>,
    pub landmarks: Landmarks,
    pub embeddings: Vec<Embedding>,
}

impl Reference {
    /// The image shows a face and an embedding was extracted for it.
    pub open spec fn usable(self) -> bool {
        self.regions@.len() > 0 && self.embeddings@.len() > 0
    }

    /// The entry the reference contributes to the gallery.
    pub open spec fn entry(self) -> EntryView {
        EntryView { name: self.name@, embedding: self.embeddings@[0]@ }
    }

    /// The events the builder sees for the reference, in order.
    pub open spec fn events(self) -> Seq<BuildEvent> {
        seq![
            BuildEvent::File(self.name),
            BuildEvent::Reply(Reply::Regions(self.regions)),
            BuildEvent::Reply(Reply::Landmarks(self.landmarks)),
            BuildEvent::Reply(Reply::Embeddings(self.embeddings)),
        ]
    }
}

/// The events of a walk over `walk`, one reference after the other.
pub open spec fn walk_events(walk: Seq<Reference>) -> Seq<BuildEvent>
    decreases walk.len(),
{
    if walk.len() == 0 {
        Seq::empty()
    } else {
        walk_events(walk.drop_last()) + walk.last().events()
    }
}

/// The entries the references of a walk contribute, in walk order.
pub open spec fn walk_entries(walk: Seq<Reference>) -> Seq<EntryView> {
    Seq::new(walk.len(), |i: int| walk[i].entry())
}

/// Handing over two runs of events one after the other is handing over
/// their concatenation.
pub proof fn lemma_build_run_concat(
    pre: GalleryBuilderView,
    first: Seq<BuildEvent>,
    second: Seq<BuildEvent>,
)
    ensures
        build_run(pre, first + second) == build_run(build_run(pre, first), second),
    decreases first.len(),
{
    if first.len() == 0 {
        assert(first + second =~= second);
    } else {
        assert((first + second)[0] == first[0]);
        assert((first + second).drop_first() =~= first.drop_first() + second);
        lemma_build_run_concat(build_next(pre, first[0]), first.drop_first(), second);
    }
}

/// A builder that waits for a file stores a usable reference under its name
/// and waits for the next file.
pub proof fn lemma_reference_is_stored(pre: GalleryBuilderView, reference: Reference)
    requires
        pre.stage == BuildStage::AwaitingFile,
        reference.usable(),
    ensures
        build_run(pre, reference.events()) == (GalleryBuilderView {
            entries: insert_entry(pre.entries, reference.entry()),
            stage: BuildStage::AwaitingFile,
            current: reference.name@,
        }),
{
    let events = reference.events();
    let one = build_next(pre, events[0]);
    let two = build_next(one, events[1]);
    let three = build_next(two, events[2]);
    let four = build_next(three, events[3]);
    let rest1 = events.drop_first();
    let rest2 = rest1.drop_first();
    let rest3 = rest2.drop_first();
    let rest4 = rest3.drop_first();
    assert(rest1[0] == events[1] && rest2[0] == events[2] && rest3[0] == events[3]);
    assert(rest4.len() == 0);
    assert(build_run(three, rest3) == four) by {
        assert(build_run(four, rest4) == four);
    }
    assert(build_run(two, rest2) == four);
    assert(build_run(one, rest1) == four);
    assert(build_run(pre, events) == four);
}

/// A walk over usable references stores them one after the other: the
/// builder ends up waiting for a file with the entries that storing the
/// references in walk order gives.
pub proof fn lemma_walk_collects(current: Seq<char>, walk: Seq<Reference>)
    requires
        forall|i: int| 0 <= i < walk.len() ==> (#[trigger] walk[i]).usable(),
    ensures
        build_run(
            GalleryBuilderView {
                entries: Seq::empty(),
                stage: BuildStage::AwaitingFile,
                current,
            },
            walk_events(walk),
        ).entries == collected(walk_entries(walk)),
        build_run(
            GalleryBuilderView {
                entries: Seq::empty(),
                stage: BuildStage::AwaitingFile,
                current,
            },
            walk_events(walk),
        ).stage == BuildStage::AwaitingFile,
    decreases walk.len(),
{
    let start = GalleryBuilderView {
        entries: Seq::empty(),
        stage: BuildStage::AwaitingFile,
        current,
    };
    if walk.len() == 0 {
        assert(walk_entries(walk) =~= Seq::empty());
    } else {
        let init = walk.drop_last();
        let last = walk.last();
        assert forall|i: int| 0 <= i < init.len() implies (#[trigger] init[i]).usable() by {
            assert(walk[i].usable());
        }
        lemma_walk_collects(current, init);
        let middle = build_run(start, walk_events(init));
        lemma_build_run_concat(start, walk_events(init), last.events());
        lemma_reference_is_stored(middle, last);
        assert(walk_entries(walk).drop_last() =~= walk_entries(init));
        assert(walk_entries(walk).last() == last.entry());
    }
}

/// The gallery does not depend on the order of the walk: two walks over the
/// same usable references, no name twice, give the same mapping from name to
/// embedding.
pub proof fn lemma_walk_order_is_irrelevant(
    current: Seq<char>,
    first: Seq<Reference>,
    second: Seq<Reference>,
)
    requires
        forall|i: int| 0 <= i < first.len() ==> (#[trigger] first[i]).usable(),
        forall|i: int| 0 <= i < second.len() ==> (#[trigger] second[i]).usable(),
        names_distinct(walk_entries(first)),
        names_distinct(walk_entries(second)),
        forall|entry: EntryView|
            walk_entries(first).contains(entry) <==> walk_entries(second).contains(entry),
    ensures
        as_map(
            build_run(
                GalleryBuilderView {
                    entries: Seq::empty(),
                    stage: BuildStage::AwaitingFile,
                    current,
                },
                walk_events(first),
            ).entries,
        ) == as_map(
            build_run(
                GalleryBuilderView {
                    entries: Seq::empty(),
                    stage: BuildStage::AwaitingFile,
                    current,
                },
                walk_events(second),
            ).entries,
        ),
{
    lemma_walk_collects(current, first);
    lemma_walk_collects(current, second);
    lemma_collected_map_ignores_order(walk_entries(first), walk_entries(second));
}

/// Stores `entry`, replacing the embedding of an entry with the same name.
fn store(entries: &mut Vec<GalleryEntry>, entry: GalleryEntry)
    requires
        names_distinct(entry_views(old(entries)@)),
    ensures
        entry_views(final(entries)@) == insert_entry(entry_views(old(entries)@), entry@),
        names_distinct(entry_views(final(entries)@)),
{
    let ghost before = entry_views(entries@);
    proof {
        lemma_insert_keeps_names_distinct(before, entry@);
    }
    let mut i: usize = 0;
    while i < entries.len()
        invariant
            i <= entries@.len(),
            entry_views(entries@) == before,
            before == entry_views(old(entries)@),
            names_distinct(before),
            names_distinct(insert_entry(before, entry@)),
            forall|j: int| 0 <= j < i ==> (#[trigger] before[j]).name != entry.name@,
        decreases entries@.len() - i,
    {
        if entries[i].name == entry.name {
            proof {
                assert(before[i as int].name == entry.name@);
                lemma_index_of_is_position(before, i as int);
            }
            entries.set(i, entry);
            assert(entry_views(entries@) =~= before.update(i as int, entry@));
            return ;
        }
        i += 1;
    }
    assert(!has_name(before, entry.name@));
    entries.push(entry);
    assert(entry_views(entries@) =~= before.push(entry@));
}

impl GalleryBuilder {
    #[verifier::type_invariant]
    spec fn well_formed(self) -> bool {
        names_distinct(entry_views(self.entries@))
    }

    /// A builder that has seen no file yet.
    pub fn new() -> (builder: GalleryBuilder)
        ensures
            builder@.entries.len() == 0,
            builder@.stage == BuildStage::AwaitingFile,
            builder@.current.len() == 0,
    {
        GalleryBuilder {
            entries: Vec::new(),
            stage: BuildStage::AwaitingFile,
            current: String::new(),
        }
    }

    /// Where the build stands.
    pub fn stage(&self) -> (stage: BuildStage)
        ensures
            stage == self@.stage,
    {
        self.stage
    }

    /// Number of identities collected so far.
    pub fn len(&self) -> (n: usize)
        ensures
            n == self@.entries.len(),
    {
        self.entries.len()
    }

    /// Hands one event to the builder and returns the builder in its next
    /// state together with what the caller has to do.
    pub fn step(self, event: BuildEvent) -> (out: (GalleryBuilder, BuildAction))
        ensures
            out.0@ == build_next(self@, event),
            build_action(self@, event, out.1),
    {
        proof {
            use_type_invariant(&self);
        }
        let GalleryBuilder { entries, stage, current } = self;
        match stage {
            BuildStage::AwaitingFile => match event {
                BuildEvent::File(name) => (
                    GalleryBuilder {
                        entries,
                        stage: BuildStage::Probing(ProbeStage::Received),
                        current: name,
                    },
                    BuildAction::Ask(Request::LocateFaces),
                ),
                BuildEvent::EndOfDirectory => {
                    if entries.len() == 0 {
                        (
                            GalleryBuilder { entries, stage: BuildStage::Failed, current },
                            BuildAction::Abort(GalleryError::NoReferenceImages),
                        )
                    } else {
                        let gallery = Gallery::from_entries(entries);
                        let emptied: Vec<GalleryEntry> = Vec::new();
                        assert(entry_views(emptied@) =~= Seq::empty());
                        (
                            GalleryBuilder {
                                entries: emptied,
                                stage: BuildStage::Complete,
                                current,
                            },
                            BuildAction::Done(gallery),
                        )
                    }
                },
                BuildEvent::Reply(_) => (
                    GalleryBuilder { entries, stage, current },
                    BuildAction::Ignored,
                ),
            },
            BuildStage::Probing(at) => match event {
                BuildEvent::Reply(reply) => match probe(at, reply) {
                    ProbeStep::Ask(next, request) => (
                        GalleryBuilder { entries, stage: BuildStage::Probing(next), current },
                        BuildAction::Ask(request),
                    ),
                    ProbeStep::NoFace => {
                        let name = current.clone();
                        (
                            GalleryBuilder { entries, stage: BuildStage::Failed, current },
                            BuildAction::Abort(GalleryError::NoFaceFound { name }),
                        )
                    },
                    ProbeStep::Embedded(embedding) => {
                        let mut entries = entries;
                        store(&mut entries, GalleryEntry { name: current.clone(), embedding });
                        (
                            GalleryBuilder { entries, stage: BuildStage::AwaitingFile, current },
                            BuildAction::NextFile,
                        )
                    },
                    ProbeStep::Ignored => (
                        GalleryBuilder { entries, stage, current },
                        BuildAction::Ignored,
                    ),
                },
                _ => (GalleryBuilder { entries, stage, current }, BuildAction::Ignored),
            },
            _ => (GalleryBuilder { entries, stage, current }, BuildAction::Ignored),
        }
    }
}

} // verus!
