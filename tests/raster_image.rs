use raytracer::raster::{pixel_at, quantize, Raster};

#[test]
fn new_raster_is_black() {
    let img = Raster::new(2, 3).unwrap();
    assert_eq!((img.width(), img.height()), (2, 3));
    assert_eq!(img.into_bytes(), vec![0u8; 18]);
}

#[test]
fn oversized_raster_is_refused() {
    assert!(Raster::new(u32::MAX, u32::MAX).is_none());
}

#[test]
fn empty_raster() {
    assert_eq!(Raster::new(0, 5).unwrap().into_bytes(), Vec::<u8>::new());
}

#[test]
fn put_pixel_writes_three_bytes_row_major() {
    let mut img = Raster::new(3, 2).unwrap();
    img.put_pixel(1, 1, [10, 20, 30]);
    img.put_pixel(0, 0, [1, 2, 3]);
    assert_eq!(img.pixel(1, 1), [10, 20, 30]);
    assert_eq!(img.pixel(2, 1), [0, 0, 0]);
    let bytes = img.into_bytes();
    assert_eq!(&bytes[0..3], &[1, 2, 3]);
    assert_eq!(&bytes[12..15], &[10, 20, 30]);
}

#[test]
fn pixels_are_visited_row_by_row() {
    assert_eq!(pixel_at(0, 4), (0, 0));
    assert_eq!(pixel_at(3, 4), (3, 0));
    assert_eq!(pixel_at(5, 4), (1, 1));
    assert_eq!(pixel_at(11, 4), (3, 2));
}

#[test]
fn quantize_clamps() {
    assert_eq!(quantize(-3), 0);
    assert_eq!(quantize(0), 0);
    assert_eq!(quantize(128), 128);
    assert_eq!(quantize(255), 255);
    assert_eq!(quantize(300), 255);
}
