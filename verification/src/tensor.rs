//! The sample layout expected by the tensor-based detector.
//!
//! The detector reads an image as a flat list of channel values in the order
//! blue, green, red, shaped as three planes of `width` by `height`. The
//! conversion of the values to floating point and the tensor itself are the
//! caller's.

use crate::frame::{packed_len, rgb_len};
use crate::raster::{dimensions_of, raster_dimensions, raster_samples, samples_of, Raster};
use vstd::prelude::*;

verus! {

/// The first `count` pixels of a packed RGB buffer with the channels of every
/// pixel in reverse order.
pub open spec fn bgr_of(data: Seq<u8>, count: nat) -> Seq<u8> {
    Seq::new(3 * count, |k: int| data[3 * (k / 3) + (2 - k % 3)])
}

/// An image prepared for the detector.
#[derive(Debug)]
pub struct TensorLayout {
    /// The three dimensions of the tensor: channels, width, height.
    pub shape: (i64, i64, i64),
    /// The channel values, blue first.
    pub samples: Vec<u8>,
}

/// Lays the pixels of `image` out for the detector.
pub fn tensor_layout(image: &Raster) -> (layout: TensorLayout)
    ensures
        layout.shape == (
            3i64,
            raster_dimensions(*image).0 as i64,
            raster_dimensions(*image).1 as i64,
        ),
        layout.samples@ == bgr_of(
            raster_samples(*image),
            raster_dimensions(*image).0 * raster_dimensions(*image).1,
        ),
{
    let (width, height) = dimensions_of(image);
    let data = samples_of(image);
    let ghost count = raster_dimensions(*image).0 * raster_dimensions(*image).1;
    assert(rgb_len(width as nat, height as nat) == 3 * count) by (nonlinear_arith)
        requires
            count == (width as nat) * (height as nat),
    ;
    let available = data.len();
    let len = match packed_len(width, height) {
        Some(n) => n,
        None => available,
    };
    let mut samples: Vec<u8> = Vec::with_capacity(len);
    let mut offset: usize = 0;
    while offset < len
        invariant
            len == 3 * count,
            len <= data@.len(),
            offset <= len,
            offset % 3 == 0,
            samples@ == bgr_of(data@, (offset / 3) as nat),
        decreases len - offset,
    {
        samples.push(data[offset + 2]);
        samples.push(data[offset + 1]);
        samples.push(data[offset]);
        assert(samples@ =~= bgr_of(data@, (offset / 3 + 1) as nat));
        offset += 3;
    }
    assert((len / 3) as nat == count);
    TensorLayout { shape: (3, width as i64, height as i64), samples }
}

} // verus!
