//! The pixel matrix handed to the recognition capabilities.

use crate::frame::Frame;
use crate::raster::{dimensions_of, raster_dimensions, raster_samples, samples_of, Raster};
use vstd::prelude::*;

verus! {

/// One pixel: red, green and blue intensity.
#[derive(Debug, Clone, Copy, PartialEq, Eq, Structural)]
pub struct RgbPixel {
    pub red: u8,
    pub green: u8,
    pub blue: u8,
}

/// The pixel that starts at byte `3 * i` of a packed RGB buffer.
pub open spec fn pixel_at(data: Seq<u8>, i: int) -> RgbPixel {
    RgbPixel { red: data[3 * i], green: data[3 * i + 1], blue: data[3 * i + 2] }
}

/// The first `count` pixels of a packed RGB buffer.
pub open spec fn pixels_of(data: Seq<u8>, count: nat) -> Seq<RgbPixel> {
    Seq::new(count, |i: int| pixel_at(data, i))
}

/// A `height` by `width` matrix of RGB pixels, stored row by row.
#[derive(Debug)]
pub struct ImageMatrix {
    width: usize,
    height: usize,
    pixels: Vec<RgbPixel>,
}

/// The mathematical content of an [`ImageMatrix`].
pub struct ImageMatrixView {
    pub width: nat,
    pub height: nat,
    pub pixels: Seq<RgbPixel>,
}

impl ImageMatrixView {
    /// The pixel in row `y` and column `x`.
    pub open spec fn at(self, y: int, x: int) -> RgbPixel {
        self.pixels[y * self.width + x]
    }
}

impl View for ImageMatrix {
    type V = ImageMatrixView;

    closed spec fn view(&self) -> ImageMatrixView {
        ImageMatrixView {
            width: self.width as nat,
            height: self.height as nat,
            pixels: self.pixels@,
        }
    }
}

/// The matrix that `width * height` packed RGB pixels of `data` describe.
pub open spec fn matrix_of(width: nat, height: nat, data: Seq<u8>) -> ImageMatrixView {
    ImageMatrixView { width, height, pixels: pixels_of(data, width * height) }
}

/// The cell `(y, x)` of a `height` by `width` matrix has a row-major index
/// below `width * height`.
pub proof fn lemma_cell_index_in_range(width: nat, height: nat, y: nat, x: nat)
    requires
        y < height,
        x < width,
    ensures
        y * width + x < width * height,
{
    assert(y * width + x < width * height) by (nonlinear_arith)
        requires
            y < height,
            x < width,
    ;
}

impl ImageMatrix {
    #[verifier::type_invariant]
    spec fn well_formed(self) -> bool {
        self.pixels@.len() == self.width * self.height
    }

    /// Builds a matrix from RGB channel values (r, g, b, r, g, b, ...).
    ///
    /// `data` must hold at least `width * height` pixels; bytes after them
    /// are ignored.
    pub fn new(width: usize, height: usize, data: &[u8]) -> (matrix: Self)
        requires
            3 * width * height <= data@.len(),
        ensures
            matrix@ == matrix_of(width as nat, height as nat, data@),
    {
        let ghost count = (width * height) as nat;
        assert(3 * count == 3 * width * height) by (nonlinear_arith)
            requires
                count == width * height,
        ;
        let mut pixels: Vec<RgbPixel> = Vec::new();
        let mut offset: usize = 0;
        let mut y: usize = 0;
        while y < height
            invariant
                y <= height,
                count == width * height,
                3 * count <= data@.len(),
                offset == 3 * (y * width),
                pixels@ == pixels_of(data@, (y * width) as nat),
            decreases height - y,
        {
            let mut x: usize = 0;
            while x < width
                invariant
                    y < height,
                    x <= width,
                    count == width * height,
                    3 * count <= data@.len(),
                    offset == 3 * (y * width + x),
                    pixels@ == pixels_of(data@, (y * width + x) as nat),
                decreases width - x,
            {
                proof {
                    lemma_cell_index_in_range(width as nat, height as nat, y as nat, x as nat);
                }
                let pixel = RgbPixel {
                    red: data[offset],
                    green: data[offset + 1],
                    blue: data[offset + 2],
                };
                pixels.push(pixel);
                assert(pixels@ =~= pixels_of(data@, (y * width + x + 1) as nat));
                offset += 3;
                x += 1;
            }
            assert((y + 1) * width == y * width + width) by (nonlinear_arith);
            y += 1;
        }
        assert(y * width == width * height) by (nonlinear_arith)
            requires
                y == height,
        ;
        ImageMatrix { width, height, pixels }
    }

    /// Copies a matrix from an RGB image.
    pub fn from_image(image: &Raster) -> (matrix: Self)
        ensures
            matrix@ == matrix_of(
                raster_dimensions(*image).0,
                raster_dimensions(*image).1,
                raster_samples(*image),
            ),
    {
        let (width, height) = dimensions_of(image);
        let samples = samples_of(image);
        assert(width * height <= samples@.len()) by (nonlinear_arith)
            requires
                3 * width * height <= samples@.len(),
        ;
        Self::new(width as usize, height as usize, samples.as_slice())
    }

    /// Copies a matrix from a captured frame.
    pub fn from_frame(frame: &Frame) -> (matrix: Self)
        ensures
            matrix@ == matrix_of(frame@.width, frame@.height, frame@.pixels),
    {
        let pixels = frame.pixels();
        assert(frame@.width * frame@.height <= pixels@.len()) by (nonlinear_arith)
            requires
                3 * frame@.width * frame@.height == pixels@.len(),
        ;
        Self::new(frame.width() as usize, frame.height() as usize, pixels.as_slice())
    }

    /// Number of columns.
    pub fn width(&self) -> (w: usize)
        ensures
            w == self@.width,
    {
        self.width
    }

    /// Number of rows.
    pub fn height(&self) -> (h: usize)
        ensures
            h == self@.height,
    {
        self.height
    }

    /// All pixels, row by row.
    pub fn pixels(&self) -> (pixels: &Vec<RgbPixel>)
        ensures
            pixels@ == self@.pixels,
            pixels@.len() == self@.width * self@.height,
    {
        proof {
            use_type_invariant(self);
        }
        &self.pixels
    }

    /// The pixel in row `y` and column `x`, or `None` outside the matrix.
    pub fn get(&self, y: usize, x: usize) -> (pixel: Option<RgbPixel>)
        ensures
            pixel is Some <==> y < self@.height && x < self@.width,
            pixel matches Some(p) ==> p == self@.at(y as int, x as int),
    {
        proof {
            use_type_invariant(self);
        }
        let count = self.pixels.len();
        if y < self.height && x < self.width {
            proof {
                lemma_cell_index_in_range(
                    self.width as nat,
                    self.height as nat,
                    y as nat,
                    x as nat,
                );
                assert(0 <= y * self.width) by (nonlinear_arith);
                assert(y * self.width + x < count);
            }
            Some(self.pixels[y * self.width + x])
        } else {
            None
        }
    }
}

} // verus!
