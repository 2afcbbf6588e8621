use batch_rotate::buffer::Raster;
use batch_rotate::grid::Pixel;

#[test]
fn from_samples_takes_exactly_the_pixels() {
    let samples: Vec<u8> = (0u8..24).collect();
    let raster = Raster::from_samples(3, 2, samples.clone()).unwrap();
    assert_eq!(raster.width(), 3);
    assert_eq!(raster.height(), 2);
    assert_eq!(raster.into_samples(), samples);
}

#[test]
fn from_samples_refuses_too_few_samples() {
    let samples: Vec<u8> = (0u8..23).collect();
    assert!(Raster::from_samples(3, 2, samples).is_none());
}

#[test]
fn from_samples_refuses_too_many_samples() {
    let samples: Vec<u8> = (0u8..25).collect();
    assert!(Raster::from_samples(3, 2, samples).is_none());
}

#[test]
fn from_samples_refuses_samples_without_pixels() {
    assert!(Raster::from_samples(0, 5, vec![1, 2, 3, 4]).is_none());
}

#[test]
fn from_samples_refuses_a_size_beyond_memory() {
    assert!(Raster::from_samples(u32::MAX, u32::MAX, vec![0; 16]).is_none());
}

#[test]
fn empty_raster_has_no_pixel() {
    let raster = Raster::from_samples(0, 0, Vec::new()).unwrap();
    assert_eq!(raster.width(), 0);
    assert_eq!(raster.height(), 0);
    assert_eq!(raster.pixel(0, 0), None);
}

#[test]
fn pixel_reads_row_major() {
    let samples: Vec<u8> = (0u8..24).collect();
    let raster = Raster::from_samples(3, 2, samples).unwrap();
    assert_eq!(raster.pixel(0, 0), Some(Pixel { red: 0, green: 1, blue: 2, alpha: 3 }));
    assert_eq!(raster.pixel(2, 0), Some(Pixel { red: 8, green: 9, blue: 10, alpha: 11 }));
    assert_eq!(raster.pixel(0, 1), Some(Pixel { red: 12, green: 13, blue: 14, alpha: 15 }));
    assert_eq!(raster.pixel(2, 1), Some(Pixel { red: 20, green: 21, blue: 22, alpha: 23 }));
}

#[test]
fn pixel_outside_the_raster_is_none() {
    let samples: Vec<u8> = (0u8..24).collect();
    let raster = Raster::from_samples(3, 2, samples).unwrap();
    assert_eq!(raster.pixel(3, 0), None);
    assert_eq!(raster.pixel(0, 2), None);
    assert_eq!(raster.pixel(u32::MAX, u32::MAX), None);
}

#[test]
fn pixel_agrees_with_the_image_crate() {
    let samples: Vec<u8> = (0u8..60).collect();
    let theirs = image::RgbaImage::from_raw(5, 3, samples.clone()).unwrap();
    let raster = Raster::from_samples(5, 3, samples).unwrap();
    for y in 0..3 {
        for x in 0..5 {
            let image::Rgba([red, green, blue, alpha]) = *theirs.get_pixel(x, y);
            assert_eq!(raster.pixel(x, y), Some(Pixel { red, green, blue, alpha }));
        }
    }
}
