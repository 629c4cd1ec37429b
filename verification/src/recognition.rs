//! The interface to the recognition capabilities.
//!
//! Face localization, landmark extraction and embedding extraction are
//! performed by the caller. This module fixes what is asked of them and in
//! which order: a probe of one image first asks for the face regions, then
//! for the landmarks of the first region, then for one embedding.

use crate::embedding::Embedding;
use vstd::prelude::*;

verus! {

/// An axis-aligned rectangle locating a face, in pixel coordinates of the
/// image it was found in.
#[derive(Debug, Clone, Copy, PartialEq, Eq, Structural)]
pub struct FaceRegion {
    pub top: i64,
    pub left: i64,
    pub width: u64,
    pub height: u64,
}

/// A point in pixel coordinates.
#[derive(Debug, Clone, Copy, PartialEq, Eq, Structural)]
pub struct Point {
    pub x: i64,
    pub y: i64,
}

/// The key points of one face, anchored to the region they were found in.
#[derive(Debug)]
pub struct Landmarks {
    pub region: FaceRegion,
    pub points: Vec<Point>,
}

/// The chip every embedding is extracted from.
pub const CHIP_INDEX: usize = 0;

/// What the caller is asked to compute next.
#[derive(Debug)]
pub enum Request {
    /// Locate the faces in the image under probe.
    LocateFaces,
    /// Extract the landmarks of the face in `region`.
    ExtractLandmarks { region: FaceRegion },
    /// Extract one embedding for `landmarks` from chip `chip_index`.
    ExtractEmbedding { landmarks: Landmarks, chip_index: usize },
}

/// What the caller computed.
#[derive(Debug)]
pub enum Reply {
    /// The faces found, possibly none.
    Regions(Vec<FaceRegion>),
    /// The landmarks of the requested region.
    Landmarks(Landmarks),
    /// The embeddings extracted, one per landmark set handed over.
    Embeddings(Vec<Embedding>),
}

/// How far the probe of one image has come. Each stage waits for the reply
/// to the request that led to it.
#[derive(Debug, Clone, Copy, PartialEq, Eq, Structural)]
pub enum ProbeStage {
    /// The image has arrived; its face regions were asked for.
    Received,
    /// A face was located; its landmarks were asked for.
    Located,
    /// The landmarks are known; the embedding was asked for.
    LandmarksExtracted,
}

/// The result of handing one reply to a probe.
#[derive(Debug)]
pub enum ProbeStep {
    /// The probe moved to the given stage and asks for more.
    Ask(ProbeStage, Request),
    /// The image shows no face; the probe is over.
    NoFace,
    /// The embedding of the first face; the probe is over.
    Embedded(Embedding),
    /// The reply does not answer the pending request; nothing changed.
    Ignored,
}

/// The step a probe in `stage` takes on `reply`.
///
/// Only the first region is followed up. An empty list of embeddings is no
/// answer to a request for one.
pub open spec fn probe_step(stage: ProbeStage, reply: Reply) -> ProbeStep {
    match (stage, reply) {
        (ProbeStage::Received, Reply::Regions(regions)) => if regions@.len() == 0 {
            ProbeStep::NoFace
        } else {
            ProbeStep::Ask(ProbeStage::Located, Request::ExtractLandmarks { region: regions@[0] })
        },
        (ProbeStage::Located, Reply::Landmarks(landmarks)) => ProbeStep::Ask(
            ProbeStage::LandmarksExtracted,
            Request::ExtractEmbedding { landmarks, chip_index: CHIP_INDEX },
        ),
        (ProbeStage::LandmarksExtracted, Reply::Embeddings(embeddings)) => if embeddings@.len()
            == 0 {
            ProbeStep::Ignored
        } else {
            ProbeStep::Embedded(embeddings@[0])
        },
        _ => ProbeStep::Ignored,
    }
}

/// Advances the probe of one image by one reply.
pub fn probe(stage: ProbeStage, reply: Reply) -> (step: ProbeStep)
    ensures
        step == probe_step(stage, reply),
{
    match stage {
        ProbeStage::Received => match reply {
            Reply::Regions(regions) => {
                if regions.len() == 0 {
                    ProbeStep::NoFace
                } else {
                    ProbeStep::Ask(
                        ProbeStage::Located,
                        Request::ExtractLandmarks { region: regions[0] },
                    )
                }
            },
            _ => ProbeStep::Ignored,
        },
        ProbeStage::Located => match reply {
            Reply::Landmarks(landmarks) => ProbeStep::Ask(
                ProbeStage::LandmarksExtracted,
                Request::ExtractEmbedding { landmarks, chip_index: CHIP_INDEX },
            ),
            _ => ProbeStep::Ignored,
        },
        ProbeStage::LandmarksExtracted => match reply {
            Reply::Embeddings(embeddings) => {
                let mut embeddings = embeddings;
                if embeddings.len() == 0 {
                    ProbeStep::Ignored
                } else {
                    ProbeStep::Embedded(embeddings.swap_remove(0))
                }
            },
            _ => ProbeStep::Ignored,
        },
    }
}

/// Landmark and embedding extraction are asked for only after a face was
/// found: an empty list of regions ends or leaves the probe without a
/// request, landmarks are asked for the first of a non-empty list of regions,
/// and an embedding is asked for only from the stage that a located face
/// leads to.
pub proof fn lemma_extraction_needs_a_face(stage: ProbeStage, reply: Reply)
    ensures
        reply matches Reply::Regions(regions) && regions@.len() == 0 ==> {
            ||| probe_step(stage, reply) is NoFace
            ||| probe_step(stage, reply) is Ignored
        },
        probe_step(stage, reply) matches ProbeStep::Ask(next, request) ==> match request {
            Request::LocateFaces => false,
            Request::ExtractLandmarks { region } => {
                &&& stage == ProbeStage::Received
                &&& next == ProbeStage::Located
                &&& reply matches Reply::Regions(regions)
                &&& regions@.len() > 0
                &&& region == regions@[0]
            },
            Request::ExtractEmbedding { .. } => {
                &&& stage == ProbeStage::Located
                &&& next == ProbeStage::LandmarksExtracted
            },
        },
        probe_step(stage, reply) is Embedded ==> stage == ProbeStage::LandmarksExtracted,
{
}

} // verus!
