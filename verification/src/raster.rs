//! The image buffer handed over by the camera driver.

use image::{ImageBuffer, Rgb};
use vstd::prelude::*;

verus! {

/// An 8-bit RGB image as the capture device delivers it: an
/// `image::ImageBuffer` of `Rgb<u8>` pixels over a `Vec<u8>`.
///
/// The buffer is opaque to the proofs in this crate: what it holds is named by
/// [`raster_dimensions`] and [`raster_samples`].
#[verifier::external_body]
#[derive(Debug)]
pub struct Raster {
    buffer: ImageBuffer<Rgb<u8>, Vec<u8>>,
}

/// Width and height, in pixels, that the image buffer was made with.
pub uninterp spec fn raster_dimensions(image: Raster) -> (nat, nat);

/// The samples the image buffer holds: row-major, three bytes per pixel in the
/// order red, green, blue.
pub uninterp spec fn raster_samples(image: Raster) -> Seq<u8>;

/// `ImageBuffer::dimensions` hands out the width and the height the buffer
/// was constructed with.
#[verifier::external_body]
pub(crate) fn dimensions_of(image: &Raster) -> (dims: (u32, u32))
    ensures
        dims.0 == raster_dimensions(*image).0,
        dims.1 == raster_dimensions(*image).1,
{
    image.buffer.dimensions()
}

/// `ImageBuffer::as_raw` borrows the underlying sample container. Every
/// constructor of the buffer checks that the container holds at least
/// `3 * width * height` samples, and no method can shrink it afterwards.
#[verifier::external_body]
pub(crate) fn samples_of(image: &Raster) -> (samples: &Vec<u8>)
    ensures
        samples@ == raster_samples(*image),
        3 * raster_dimensions(*image).0 * raster_dimensions(*image).1 <= samples@.len(),
{
    image.buffer.as_raw()
}

impl Raster {
    /// `ImageBuffer::from_raw` wraps a sample container in an image buffer of
    /// the given dimensions. It computes the length of a row, `3 * width`, and
    /// then of the image in `usize`, and returns `None` when either does not
    /// fit or when the container holds fewer than `3 * width * height`
    /// samples. Otherwise it keeps the dimensions and the container as they
    /// are.
    #[verifier::external_body]
    pub fn from_raw(width: u32, height: u32, samples: Vec<u8>) -> (image: Option<Raster>)
        ensures
            image is Some <==> (3 * width <= usize::MAX && 3 * width * height <= samples@.len()),
            image matches Some(raster) ==> {
                &&& raster_dimensions(raster) == (width as nat, height as nat)
                &&& raster_samples(raster) == samples@
            },
    {
        match ImageBuffer::from_raw(width, height, samples) {
            Some(buffer) => Some(Raster { buffer }),
            None => None,
        }
    }
}

} // verus!
