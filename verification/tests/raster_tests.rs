use fullpage_capture::codec::{decode, encode};
use fullpage_capture::compose::{combine, combine_screenshots};
use fullpage_capture::crop::{
    crop_fragment, crop_raster, cut_scroll_overlap, trim_bottom, trim_extra_space, trim_overlap,
};
use fullpage_capture::density::DensityScale;
use fullpage_capture::error::{CaptureError, CaptureFailure};
use fullpage_capture::metrics::CropDirective;
use fullpage_capture::raster::Raster;

/// A raster whose every pixel of row `y` is `(base + y, x, 7, 255 - y)`.
fn striped(width: u32, height: u32, base: u8) -> Raster {
    let mut pixels = Vec::new();
    for y in 0..height {
        for x in 0..width {
            pixels.push(base.wrapping_add(y as u8));
            pixels.push(x as u8);
            pixels.push(7);
            pixels.push(255 - (y as u8));
        }
    }
    Raster::new(width, height, pixels).unwrap()
}

fn rows_of(raster: &Raster, from: u32, to: u32) -> Vec<u8> {
    let stride = raster.width() as usize * 4;
    raster.pixels()[from as usize * stride..to as usize * stride].to_vec()
}

#[test]
fn raster_new_checks_the_length() {
    assert!(Raster::new(2, 3, vec![0; 24]).is_some());
    assert!(Raster::new(2, 3, vec![0; 23]).is_none());
    assert!(Raster::new(2, 3, vec![0; 25]).is_none());
    assert!(Raster::new(0, 5, vec![]).is_some());
    assert!(Raster::new(0, 0, vec![1]).is_none());
}

#[test]
fn copy_rows_takes_the_rows_asked_for() {
    let image = striped(3, 6, 10);
    let part = image.copy_rows(2, 5);
    assert_eq!(part.width(), 3);
    assert_eq!(part.height(), 3);
    assert_eq!(part.pixels(), &rows_of(&image, 2, 5));
    let none = image.copy_rows(4, 4);
    assert_eq!(none.height(), 0);
    assert!(none.pixels().is_empty());
}

#[test]
fn clone_keeps_size_and_bytes() {
    let image = striped(4, 3, 1);
    let copy = image.clone();
    assert_eq!(copy.width(), 4);
    assert_eq!(copy.height(), 3);
    assert_eq!(copy.pixels(), image.pixels());
}

#[test]
fn density_rounds_down() {
    let dense = DensityScale::from_dpi(420).unwrap();
    assert_eq!(dense.numer(), 420);
    assert_eq!(dense.denom(), 160);
    assert_eq!(dense.to_physical(0), 0);
    assert_eq!(dense.to_physical(1), 2);
    assert_eq!(dense.to_physical(3), 7);
    assert_eq!(dense.to_physical(800), 2100);
    assert_eq!(DensityScale::identity().to_physical(4_294_967_295), 4_294_967_295);
    let huge = DensityScale::new(4_294_967_295, 1).unwrap();
    assert_eq!(huge.to_physical(4_294_967_295), 18_446_744_065_119_617_025);
    assert!(DensityScale::new(0, 1).is_none());
    assert!(DensityScale::new(1, 0).is_none());
    assert!(DensityScale::from_dpi(0).is_none());
}

#[test]
fn trim_bottom_keeps_the_top_rows() {
    let image = striped(2, 10, 0);
    let twice = DensityScale::new(2, 1).unwrap();
    let kept = trim_bottom(&image, 3, &twice).unwrap();
    assert_eq!(kept.height(), 6);
    assert_eq!(kept.width(), 2);
    assert_eq!(kept.pixels(), &rows_of(&image, 0, 6));
}

#[test]
fn trim_bottom_fails_at_the_image_height() {
    let image = striped(2, 10, 0);
    let twice = DensityScale::new(2, 1).unwrap();
    assert_eq!(trim_bottom(&image, 5, &twice).err(), Some(CaptureError::CropBounds));
    assert_eq!(trim_bottom(&image, 6, &twice).err(), Some(CaptureError::CropBounds));
    assert_eq!(trim_bottom(&image, 4, &twice).unwrap().height(), 8);
    assert_eq!(trim_bottom(&image, 0, &twice).unwrap().height(), 0);
}

#[test]
fn trim_overlap_removes_the_top_rows() {
    let image = striped(2, 10, 0);
    let twice = DensityScale::new(2, 1).unwrap();
    let rest = trim_overlap(&image, 3, &twice).unwrap();
    assert_eq!(rest.height(), 4);
    assert_eq!(rest.pixels(), &rows_of(&image, 6, 10));
    let all = trim_overlap(&image, 0, &twice).unwrap();
    assert_eq!(all.height(), 10);
    assert_eq!(all.pixels(), image.pixels());
}

#[test]
fn trim_overlap_fails_at_the_image_height() {
    let image = striped(2, 10, 0);
    let twice = DensityScale::new(2, 1).unwrap();
    assert_eq!(trim_overlap(&image, 5, &twice).err(), Some(CaptureError::CropBounds));
    assert_eq!(trim_overlap(&image, 9, &twice).err(), Some(CaptureError::CropBounds));
    assert_eq!(trim_overlap(&image, 4, &twice).unwrap().height(), 2);
}

#[test]
fn a_larger_trim_leaves_a_lower_image() {
    let image = striped(1, 40, 0);
    let one = DensityScale::identity();
    let mut last_overlap = 41;
    let mut last_band = 41;
    for amount in 0..40u32 {
        let after_overlap = trim_overlap(&image, amount, &one).unwrap().height();
        assert!(after_overlap < last_overlap);
        assert_eq!(after_overlap, 40 - amount);
        last_overlap = after_overlap;
        // the band that trim_bottom removes is what lies below the kept rows
        let keep = 39 - amount;
        let after_band = trim_bottom(&image, keep, &one).unwrap().height();
        assert!(after_band < last_band);
        assert_eq!(40 - after_band, amount + 1);
        last_band = after_band;
    }
    assert!(trim_overlap(&image, 40, &one).is_err());
    assert!(trim_overlap(&image, 41, &one).is_err());
    assert!(trim_bottom(&image, 40, &one).is_err());
}

#[test]
fn a_sparse_display_may_round_two_heights_to_one() {
    let image = striped(1, 10, 0);
    let half = DensityScale::new(1, 2).unwrap();
    assert_eq!(trim_overlap(&image, 2, &half).unwrap().height(), 9);
    assert_eq!(trim_overlap(&image, 3, &half).unwrap().height(), 9);
}

#[test]
fn encode_then_decode_gives_the_raster_back() {
    let image = striped(5, 4, 100);
    let file = encode(&image).unwrap();
    assert_ne!(&file, image.pixels());
    assert_eq!(&file[..8], &[0x89, b'P', b'N', b'G', 0x0D, 0x0A, 0x1A, 0x0A]);
    let back = decode(&file).unwrap();
    assert_eq!(back.width(), 5);
    assert_eq!(back.height(), 4);
    assert_eq!(back.pixels(), image.pixels());
}

#[test]
fn decode_refuses_what_is_no_picture() {
    assert_eq!(decode(&[]).err().map(|f| f.error), Some(CaptureError::Decode));
    assert_eq!(decode(b"not a picture at all").err().map(|f| f.error), Some(CaptureError::Decode));
    let image = striped(5, 4, 100);
    let file = encode(&image).unwrap();
    assert_eq!(decode(&file[..file.len() / 2]).err().map(|f| f.error), Some(CaptureError::Decode));
}

#[test]
fn decode_agrees_with_the_image_crate() {
    let mut picture = image::RgbImage::new(3, 2);
    picture.put_pixel(0, 0, image::Rgb([1, 2, 3]));
    picture.put_pixel(2, 1, image::Rgb([200, 100, 50]));
    let mut out = std::io::Cursor::new(Vec::new());
    picture.write_to(&mut out, image::ImageFormat::Png).unwrap();
    let raster = decode(&out.into_inner()).unwrap();
    assert_eq!(raster.width(), 3);
    assert_eq!(raster.height(), 2);
    assert_eq!(&raster.pixels()[..4], &[1, 2, 3, 255]);
    assert_eq!(&raster.pixels()[20..], &[200, 100, 50, 255]);
}

#[test]
fn encode_refuses_an_image_without_rows() {
    let empty = Raster::new(3, 0, vec![]).unwrap();
    assert_eq!(encode(&empty).err().map(|f| f.error), Some(CaptureError::Encode));
}

#[test]
fn trim_extra_space_crops_the_file() {
    let image = striped(3, 12, 0);
    let file = encode(&image).unwrap();
    let thrice = DensityScale::from_dpi(480).unwrap();
    let cropped = decode(&trim_extra_space(&file, 3, &thrice).unwrap()).unwrap();
    assert_eq!(cropped.height(), 9);
    assert_eq!(cropped.pixels(), &rows_of(&image, 0, 9));
    assert_eq!(trim_extra_space(&file, 4, &thrice).err().map(|f| f.error), Some(CaptureError::CropBounds));
    assert_eq!(trim_extra_space(b"junk", 1, &thrice).err().map(|f| f.error), Some(CaptureError::Decode));
    assert_eq!(trim_extra_space(&file, 0, &thrice).err().map(|f| f.error), Some(CaptureError::Encode));
}

#[test]
fn cut_scroll_overlap_crops_the_file() {
    let image = striped(3, 12, 0);
    let file = encode(&image).unwrap();
    let thrice = DensityScale::from_dpi(480).unwrap();
    let cropped = decode(&cut_scroll_overlap(&file, 3, &thrice).unwrap()).unwrap();
    assert_eq!(cropped.height(), 3);
    assert_eq!(cropped.pixels(), &rows_of(&image, 9, 12));
    assert_eq!(cut_scroll_overlap(&file, 4, &thrice).err().map(|f| f.error), Some(CaptureError::CropBounds));
    assert_eq!(cut_scroll_overlap(b"junk", 1, &thrice).err().map(|f| f.error), Some(CaptureError::Decode));
}

#[test]
fn the_overlap_goes_before_the_band() {
    // 20 rows on screen: 16 of the viewport (8 logical at density 2), 4 of the band
    let image = striped(2, 20, 0);
    let twice = DensityScale::new(2, 1).unwrap();
    let last = CropDirective { overlap: Some(3), keep: 5 };
    let cropped = crop_raster(&image, last, &twice).unwrap();
    assert_eq!(cropped.height(), 10);
    assert_eq!(cropped.pixels(), &rows_of(&image, 6, 16));
    let plain = CropDirective { overlap: None, keep: 8 };
    let cropped = crop_raster(&image, plain, &twice).unwrap();
    assert_eq!(cropped.pixels(), &rows_of(&image, 0, 16));
    let too_much = CropDirective { overlap: Some(10), keep: 1 };
    assert_eq!(crop_raster(&image, too_much, &twice).err(), Some(CaptureError::CropBounds));
    let no_band = CropDirective { overlap: Some(2), keep: 8 };
    assert_eq!(crop_raster(&image, no_band, &twice).err(), Some(CaptureError::CropBounds));
}

#[test]
fn crop_fragment_crops_the_file() {
    let image = striped(2, 20, 0);
    let file = encode(&image).unwrap();
    let twice = DensityScale::new(2, 1).unwrap();
    let last = CropDirective { overlap: Some(3), keep: 5 };
    let cropped = decode(&crop_fragment(&file, last, &twice).unwrap()).unwrap();
    assert_eq!(cropped.pixels(), &rows_of(&image, 6, 16));
    assert_eq!(crop_fragment(b"", last, &twice).err().map(|f| f.error), Some(CaptureError::Decode));
}

#[test]
fn combine_of_one_fragment_is_that_fragment() {
    let image = striped(7, 5, 30);
    let composite = combine(&vec![image.clone()]).unwrap();
    assert_eq!(composite.width(), image.width());
    assert_eq!(composite.height(), image.height());
    assert_eq!(composite.pixels(), image.pixels());
}

#[test]
fn combine_screenshots_of_one_file_keeps_the_picture() {
    let image = striped(7, 5, 30);
    let file = encode(&image).unwrap();
    let composite = decode(&combine_screenshots(vec![file]).unwrap()).unwrap();
    assert_eq!(composite.width(), 7);
    assert_eq!(composite.height(), 5);
    assert_eq!(composite.pixels(), image.pixels());
}

#[test]
fn combine_stacks_top_to_bottom() {
    let top = striped(3, 2, 0);
    let middle = striped(3, 4, 50);
    let bottom = striped(3, 1, 90);
    let composite = combine(&vec![top.clone(), middle.clone(), bottom.clone()]).unwrap();
    assert_eq!(composite.width(), 3);
    assert_eq!(composite.height(), 7);
    let mut expected = top.pixels().clone();
    expected.extend_from_slice(middle.pixels());
    expected.extend_from_slice(bottom.pixels());
    assert_eq!(composite.pixels(), &expected);
}

#[test]
fn combine_keeps_alpha() {
    let clear = Raster::new(1, 1, vec![10, 20, 30, 0]).unwrap();
    let half = Raster::new(1, 1, vec![40, 50, 60, 128]).unwrap();
    let files = vec![encode(&clear).unwrap(), encode(&half).unwrap()];
    let composite = decode(&combine_screenshots(files).unwrap()).unwrap();
    assert_eq!(composite.pixels(), &vec![10, 20, 30, 0, 40, 50, 60, 128]);
}

#[test]
fn combine_refuses_an_empty_sequence() {
    assert_eq!(combine(&vec![]).err(), Some(CaptureError::EmptySequence));
    assert_eq!(combine_screenshots(vec![]).err().map(|f| f.error), Some(CaptureError::EmptySequence));
}

#[test]
fn combine_refuses_fragments_of_different_width() {
    let narrow = striped(3, 2, 0);
    let wide = striped(4, 2, 0);
    assert_eq!(
        combine(&vec![narrow.clone(), narrow.clone(), wide]).err(),
        Some(CaptureError::WidthMismatch)
    );
}

#[test]
fn combine_refuses_what_is_too_high() {
    let tall = Raster::new(0, 4_000_000_000, vec![]).unwrap();
    assert_eq!(combine(&vec![tall.clone(), tall]).err(), Some(CaptureError::TooLarge));
}

#[test]
fn combine_screenshots_refuses_a_fragment_that_does_not_decode() {
    let file = encode(&striped(3, 2, 0)).unwrap();
    assert_eq!(
        combine_screenshots(vec![file, b"junk".to_vec()]).err().map(|f| f.error),
        Some(CaptureError::Decode)
    );
}

#[test]
fn every_error_has_its_message() {
    assert_eq!(CaptureError::Measurement.message(), "Failed to retrieve page height.");
    assert_eq!(CaptureError::Capture.message(), "Failed to take screenshot");
    assert_eq!(
        CaptureError::CropBounds.message(),
        "Image height is smaller than crop height, cannot crop."
    );
    assert_eq!(CaptureError::ScrollTimeout.message(), "Timed out waiting for scroll to complete");
    assert_eq!(
        CaptureError::VisibilityTimeout.message(),
        "Timed out waiting for elements to become hidden"
    );
    assert_eq!(CaptureError::EmptySequence.message(), "No screenshots to combine");
    assert_eq!(CaptureError::Decode.message(), "Failed to load image");
    assert_eq!(CaptureError::WidthMismatch.message(), "Screenshots differ in width, cannot combine.");
    assert_eq!(CaptureError::Encode.message(), "Failed to save image");
    assert_eq!(CaptureError::TooLarge.message(), "Screenshots are too high to combine.");
    assert!(CaptureError::Capture.is_fatal());
    assert!(!CaptureError::VisibilityTimeout.is_fatal());
}

#[test]
fn a_failure_of_the_codec_carries_its_reason() {
    let refused = decode(b"not a picture at all").unwrap_err();
    assert_eq!(refused.error, CaptureError::Decode);
    assert!(!refused.reason.is_empty());
    assert_eq!(refused.message(), format!("Failed to load image: {}", refused.reason));
    let expected = image::load_from_memory_with_format(b"not a picture at all", image::ImageFormat::Png)
        .unwrap_err()
        .to_string();
    assert_eq!(refused.reason, expected);

    let empty = Raster::new(3, 0, vec![]).unwrap();
    let unwritten = encode(&empty).unwrap_err();
    assert_eq!(unwritten.error, CaptureError::Encode);
    assert!(unwritten.message().starts_with("Failed to save image: "));

    let thrice = DensityScale::from_dpi(480).unwrap();
    let junk = trim_extra_space(b"junk", 1, &thrice).unwrap_err();
    assert!(junk.message().starts_with("Failed to load image: "));
    let file = encode(&striped(3, 12, 0)).unwrap();
    let bounds = trim_extra_space(&file, 4, &thrice).unwrap_err();
    assert_eq!(bounds, CaptureFailure::plain(CaptureError::CropBounds));
    assert_eq!(bounds.message(), "Image height is smaller than crop height, cannot crop.");

    let second = combine_screenshots(vec![file, b"junk".to_vec(), b"".to_vec()]).unwrap_err();
    assert_eq!(second, trim_extra_space(b"junk", 1, &thrice).unwrap_err());
}

#[test]
fn only_png_files_are_decoded() {
    // the first bytes of a GIF and of a JPEG file
    assert!(decode(b"GIF89a\x01\x00\x01\x00\x00\x00\x00;").is_err());
    assert!(decode(&[0xFF, 0xD8, 0xFF, 0xE0, 0, 16, b'J', b'F', b'I', b'F', 0]).is_err());
}
