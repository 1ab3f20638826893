use pixel_pipeline::buffer::Buffer;
use pixel_pipeline::pixel::OutOfBounds;
use pixel_pipeline::pixel::Rgba8;
use pixel_pipeline::pixel::opaque_white;

fn red() -> Rgba8 {
    Rgba8 { r: 255, g: 0, b: 0, a: 255 }
}

fn blue() -> Rgba8 {
    Rgba8 { r: 0, g: 0, b: 255, a: 255 }
}

#[test]
fn new_buffer_is_opaque_white() {
    let b = Buffer::new(4, 3);
    assert_eq!(b.pixel(0, 0), Some(opaque_white()));
    assert_eq!(b.pixel(3, 2), Some(opaque_white()));
    assert_eq!(b.pixel(4, 0), None);
    assert_eq!(b.pixel(0, 3), None);
}

#[test]
fn put_pixel_writes_exactly_one_pixel() {
    let mut b = Buffer::new(8, 8);
    b.put_pixel(2, 5, red());
    assert_eq!(b.pixel(2, 5), Some(red()));
    assert_eq!(b.pixel(5, 2), Some(opaque_white()));
    assert_eq!(b.pixel(2, 4), Some(opaque_white()));
}

#[test]
fn write_rejects_out_of_bounds() {
    let mut b = Buffer::new(10, 10);
    assert_eq!(b.write(10, 5, red()), Err(OutOfBounds { x: 10, y: 5 }));
    assert_eq!(b.write(5, 10, red()), Err(OutOfBounds { x: 5, y: 10 }));
    assert_eq!(b.write(9, 9, red()), Ok(()));
    assert_eq!(b.pixel(9, 9), Some(red()));
    // a rejected write leaves the buffer untouched
    assert_eq!(b.pixel(5, 5), Some(opaque_white()));
}

#[test]
fn scale_preserves_overlap_and_whitens_the_rest() {
    let mut b = Buffer::new(4, 4);
    b.put_pixel(1, 1, red());
    b.put_pixel(3, 3, blue());
    b.scale(2, 6);
    // overlap: (1,1) is inside both the old and the new bounds
    assert_eq!(b.pixel(1, 1), Some(red()));
    // (3,3) fell outside the new width
    assert_eq!(b.pixel(3, 3), None);
    // newly exposed rows are opaque white
    assert_eq!(b.pixel(0, 4), Some(opaque_white()));
    assert_eq!(b.pixel(1, 5), Some(opaque_white()));
}

#[test]
fn scale_up_keeps_whole_picture() {
    let mut b = Buffer::new(2, 2);
    b.put_pixel(0, 0, red());
    b.put_pixel(1, 1, blue());
    b.scale(5, 5);
    assert_eq!(b.pixel(0, 0), Some(red()));
    assert_eq!(b.pixel(1, 1), Some(blue()));
    assert_eq!(b.pixel(4, 4), Some(opaque_white()));
    assert_eq!(b.pixel(2, 0), Some(opaque_white()));
}

#[test]
fn scale_to_zero_area_is_legal() {
    let mut b = Buffer::new(3, 3);
    b.scale(0, 0);
    assert_eq!(b.pixel(0, 0), None);
}

#[test]
fn snapshot_is_a_copy_not_an_alias() {
    let mut b = Buffer::new(4, 4);
    b.put_pixel(2, 2, red());
    let snap = b.snapshot();
    b.put_pixel(2, 2, blue());
    assert_eq!(snap.pixel(2, 2), Some(red()));
    assert_eq!(b.pixel(2, 2), Some(blue()));
}

#[test]
fn clone_copies_dimensions_and_pixels() {
    let mut b = Buffer::new(3, 2);
    b.put_pixel(0, 1, blue());
    let c = b.clone();
    assert_eq!(c.width, 3);
    assert_eq!(c.height, 2);
    assert_eq!(c.pixel(0, 1), Some(blue()));
    assert_eq!(c.pixel(1, 0), Some(opaque_white()));
}

#[test]
fn replace_hands_back_the_other_buffer() {
    let mut old = Buffer::new(2, 2);
    old.put_pixel(0, 0, red());
    let mut fresh = Buffer::new(5, 5);
    fresh.put_pixel(4, 4, blue());
    let kept = old.replace(fresh);
    assert_eq!(kept.width, 5);
    assert_eq!(kept.pixel(4, 4), Some(blue()));
}

#[test]
fn buf_ref_sees_the_raster() {
    let b = Buffer::new(2, 2);
    let _raster = b.buf_ref();
}
