use fofscreen::frame::Frame;
use fofscreen::image_matrix::{ImageMatrix, RgbPixel};
use fofscreen::raster::Raster;
use image::{ImageBuffer, Rgb};

fn pixel(red: u8, green: u8, blue: u8) -> RgbPixel {
    RgbPixel { red, green, blue }
}

#[test]
fn matrix_new_reads_pixels_row_by_row() {
    let data: Vec<u8> = vec![1, 2, 3, 4, 5, 6, 7, 8, 9, 10, 11, 12, 13, 14, 15, 16, 17, 18];
    let matrix = ImageMatrix::new(3, 2, &data);
    assert_eq!(matrix.width(), 3);
    assert_eq!(matrix.height(), 2);
    assert_eq!(matrix.get(0, 0), Some(pixel(1, 2, 3)));
    assert_eq!(matrix.get(0, 1), Some(pixel(4, 5, 6)));
    assert_eq!(matrix.get(0, 2), Some(pixel(7, 8, 9)));
    assert_eq!(matrix.get(1, 0), Some(pixel(10, 11, 12)));
    assert_eq!(matrix.get(1, 1), Some(pixel(13, 14, 15)));
    assert_eq!(matrix.get(1, 2), Some(pixel(16, 17, 18)));
}

#[test]
fn matrix_get_outside_is_none() {
    let data: Vec<u8> = vec![0; 18];
    let matrix = ImageMatrix::new(3, 2, &data);
    assert_eq!(matrix.get(2, 0), None);
    assert_eq!(matrix.get(0, 3), None);
    assert_eq!(matrix.get(usize::MAX, usize::MAX), None);
}

#[test]
fn matrix_new_ignores_trailing_bytes() {
    let data: Vec<u8> = vec![9, 8, 7, 6, 5];
    let matrix = ImageMatrix::new(1, 1, &data);
    assert_eq!(matrix.get(0, 0), Some(pixel(9, 8, 7)));
    assert_eq!(matrix.get(0, 1), None);
}

#[test]
fn matrix_new_of_no_pixels_is_empty() {
    let data: Vec<u8> = Vec::new();
    let matrix = ImageMatrix::new(0, 0, &data);
    assert_eq!(matrix.width(), 0);
    assert_eq!(matrix.height(), 0);
    assert_eq!(matrix.get(0, 0), None);
}

#[test]
fn matrix_from_image_matches_the_image() {
    let samples: Vec<u8> = (0u8..18).collect();
    let reference: ImageBuffer<Rgb<u8>, Vec<u8>> =
        ImageBuffer::from_raw(2, 3, samples.clone()).unwrap();
    let image = Raster::from_raw(2, 3, samples).unwrap();
    let matrix = ImageMatrix::from_image(&image);
    assert_eq!(matrix.width(), 2);
    assert_eq!(matrix.height(), 3);
    assert_eq!(matrix.pixels().len(), 6);
    for y in 0..3u32 {
        for x in 0..2u32 {
            let p = reference.get_pixel(x, y);
            assert_eq!(matrix.get(y as usize, x as usize), Some(pixel(p[0], p[1], p[2])));
        }
    }
}

#[test]
fn matrix_from_frame_matches_the_frame() {
    let frame = Frame::new(1, 2, 2, vec![1, 2, 3, 4, 5, 6, 7, 8, 9, 10, 11, 12]).unwrap();
    let matrix = ImageMatrix::from_frame(&frame);
    assert_eq!(matrix.width(), 2);
    assert_eq!(matrix.height(), 2);
    assert_eq!(matrix.get(1, 0), Some(pixel(7, 8, 9)));
    assert_eq!(matrix.get(1, 1), Some(pixel(10, 11, 12)));
}
