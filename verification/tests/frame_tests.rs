use fofscreen::frame::{packed_len, Frame};
use fofscreen::raster::Raster;

fn raster(width: u32, height: u32, data: Vec<u8>) -> Raster {
    Raster::from_raw(width, height, data).unwrap()
}

#[test]
fn packed_len_is_three_bytes_per_pixel() {
    assert_eq!(packed_len(640, 480), Some(921_600));
    assert_eq!(packed_len(0, 480), Some(0));
    assert_eq!(packed_len(1, 1), Some(3));
}

#[test]
fn packed_len_of_the_largest_image_does_not_fit() {
    assert_eq!(packed_len(u32::MAX, u32::MAX), None);
}

#[test]
fn frame_new_accepts_exact_buffer() {
    let frame = Frame::new(3, 2, 1, vec![1, 2, 3, 4, 5, 6]).unwrap();
    assert_eq!(frame.seq(), 3);
    assert_eq!(frame.width(), 2);
    assert_eq!(frame.height(), 1);
    assert_eq!(frame.len(), 6);
    assert_eq!(frame.pixels(), &vec![1, 2, 3, 4, 5, 6]);
}

#[test]
fn frame_new_rejects_short_buffer() {
    assert!(Frame::new(1, 2, 1, vec![1, 2, 3, 4, 5]).is_none());
}

#[test]
fn frame_new_rejects_long_buffer() {
    assert!(Frame::new(1, 2, 1, vec![1, 2, 3, 4, 5, 6, 7]).is_none());
}

#[test]
fn frame_new_accepts_empty_image() {
    let frame = Frame::new(9, 0, 5, Vec::new()).unwrap();
    assert_eq!(frame.len(), 0);
    assert_eq!(frame.height(), 5);
}

#[test]
fn frame_from_image_copies_dimensions_and_pixels() {
    let image = raster(2, 2, vec![10, 11, 12, 20, 21, 22, 30, 31, 32, 40, 41, 42]);
    let frame = Frame::from_image(5, &image);
    assert_eq!(frame.seq(), 5);
    assert_eq!(frame.width(), 2);
    assert_eq!(frame.height(), 2);
    assert_eq!(frame.pixels(), &vec![10, 11, 12, 20, 21, 22, 30, 31, 32, 40, 41, 42]);
}

#[test]
fn frame_from_image_drops_bytes_after_the_last_pixel() {
    let image = raster(1, 2, vec![1, 2, 3, 4, 5, 6, 7, 8]);
    let frame = Frame::from_image(1, &image);
    assert_eq!(frame.len(), 6);
    assert_eq!(frame.pixels(), &vec![1, 2, 3, 4, 5, 6]);
}

#[test]
fn frame_from_image_tells_width_from_height() {
    let image = raster(3, 1, vec![0; 9]);
    let frame = Frame::from_image(1, &image);
    assert_eq!(frame.width(), 3);
    assert_eq!(frame.height(), 1);
}

#[test]
fn raster_from_raw_rejects_a_short_buffer() {
    assert!(Raster::from_raw(2, 2, vec![0; 11]).is_none());
    assert!(Raster::from_raw(2, 2, vec![0; 12]).is_some());
    assert!(Raster::from_raw(2, 2, vec![0; 13]).is_some());
    assert!(Raster::from_raw(u32::MAX, u32::MAX, vec![0; 16]).is_none());
    assert!(Raster::from_raw(0, 0, Vec::new()).is_some());
    assert!(Raster::from_raw(5, 0, Vec::new()).is_some());
}
