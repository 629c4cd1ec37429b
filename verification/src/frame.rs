//! Captured frames: an RGB pixel buffer tagged with its sequence number.

use crate::raster::{dimensions_of, raster_dimensions, raster_samples, samples_of, Raster};
use vstd::prelude::*;

verus! {

/// Number of bytes of a tightly packed RGB buffer of the given dimensions.
pub open spec fn rgb_len(width: nat, height: nat) -> nat {
    3 * width * height
}

/// The content of the frame numbered `seq` that `image` is copied into: the
/// image's dimensions and the leading `3 * width * height` samples.
pub open spec fn frame_of(seq: nat, image: Raster) -> FrameView {
    FrameView {
        seq,
        width: raster_dimensions(image).0,
        height: raster_dimensions(image).1,
        pixels: raster_samples(image).take(
            rgb_len(raster_dimensions(image).0, raster_dimensions(image).1) as int,
        ),
    }
}

/// One captured image with the sequence number assigned at capture time.
#[derive(Debug)]
pub struct Frame {
    seq: usize,
    width: u32,
    height: u32,
    pixels: Vec<u8>,
}

/// The mathematical content of a [`Frame`].
pub struct FrameView {
    pub seq: nat,
    pub width: nat,
    pub height: nat,
    pub pixels: Seq<u8>,
}

impl View for Frame {
    type V = FrameView;

    closed spec fn view(&self) -> FrameView {
        FrameView {
            seq: self.seq as nat,
            width: self.width as nat,
            height: self.height as nat,
            pixels: self.pixels@,
        }
    }
}

/// Computes `3 * width * height` when it fits a `usize`.
pub fn packed_len(width: u32, height: u32) -> (len: Option<usize>)
    ensures
        len matches Some(n) ==> n == rgb_len(width as nat, height as nat),
        len is None ==> rgb_len(width as nat, height as nat) > usize::MAX,
{
    let wide: u128 = 3u128 * (width as u128);
    assert(wide * (height as u128) <= 3 * 0xffff_ffff * 0xffff_ffff) by (nonlinear_arith)
        requires
            wide <= 3 * 0xffff_ffff,
            height <= 0xffff_ffff,
    ;
    let total: u128 = wide * (height as u128);
    assert(total == 3 * (width as nat) * (height as nat)) by (nonlinear_arith)
        requires
            total == wide * (height as u128),
            wide == 3 * (width as u128),
    ;
    if total <= usize::MAX as u128 {
        Some(total as usize)
    } else {
        None
    }
}

impl Frame {
    /// A frame holds exactly three bytes for each of its pixels.
    #[verifier::type_invariant]
    pub open spec fn well_formed(self) -> bool {
        self@.pixels.len() == rgb_len(self@.width, self@.height)
    }

    /// Tags a packed RGB buffer with a sequence number.
    ///
    /// Succeeds exactly when `pixels` holds three bytes for each of the
    /// `width * height` pixels.
    pub fn new(seq: usize, width: u32, height: u32, pixels: Vec<u8>) -> (frame: Option<Frame>)
        ensures
            frame is Some <==> pixels@.len() == rgb_len(width as nat, height as nat),
            frame matches Some(f) ==> f@ == (FrameView {
                seq: seq as nat,
                width: width as nat,
                height: height as nat,
                pixels: pixels@,
            }),
    {
        let have = pixels.len();
        match packed_len(width, height) {
            Some(n) => {
                if have == n {
                    Some(Frame { seq, width, height, pixels })
                } else {
                    None
                }
            },
            None => None,
        }
    }

    /// Copies the pixels of a captured image into a frame numbered `seq`.
    ///
    /// The frame keeps the image's dimensions and the leading
    /// `3 * width * height` samples of its buffer.
    pub fn from_image(seq: usize, image: &Raster) -> (frame: Frame)
        ensures
            frame@ == frame_of(seq as nat, *image),
    {
        let (width, height) = dimensions_of(image);
        let samples = samples_of(image);
        let len = match packed_len(width, height) {
            Some(n) => n,
            None => samples.len(),
        };
        let mut pixels: Vec<u8> = Vec::with_capacity(len);
        let mut i: usize = 0;
        while i < len
            invariant
                i <= len <= samples@.len(),
                pixels@ == samples@.take(i as int),
            decreases len - i,
        {
            pixels.push(samples[i]);
            assert(samples@.take(i as int).push(samples@[i as int]) =~= samples@.take(i + 1));
            i += 1;
        }
        Frame { seq, width, height, pixels }
    }

    /// The sequence number assigned at capture time.
    pub fn seq(&self) -> (n: usize)
        ensures
            n == self@.seq,
    {
        self.seq
    }

    /// Width in pixels.
    pub fn width(&self) -> (w: u32)
        ensures
            w == self@.width,
    {
        self.width
    }

    /// Height in pixels.
    pub fn height(&self) -> (h: u32)
        ensures
            h == self@.height,
    {
        self.height
    }

    /// Size of the pixel buffer in bytes, always `3 * width * height`.
    pub fn len(&self) -> (n: usize)
        ensures
            n == self@.pixels.len(),
            n == rgb_len(self@.width, self@.height),
    {
        proof {
            use_type_invariant(self);
        }
        self.pixels.len()
    }

    /// The packed RGB bytes, row by row.
    pub fn pixels(&self) -> (p: &Vec<u8>)
        ensures
            p@ == self@.pixels,
            p@.len() == rgb_len(self@.width, self@.height),
    {
        proof {
            use_type_invariant(self);
        }
        &self.pixels
    }
}

} // verus!
