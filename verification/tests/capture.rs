use screen_zoom::capture::{CaptureError, ChannelMask, PixelFormat, Snapshot, VisualMasks};

const RGB888: VisualMasks = VisualMasks { red: 0xFF0000, green: 0x00FF00, blue: 0x0000FF };

#[test]
fn packs_rows_bottom_first() {
    let pixels = [0x112233u64, 0x445566, 0x778899, 0xAABBCC];
    let snapshot = Snapshot::from_pixels(2, 2, &pixels, RGB888).unwrap();
    assert_eq!(snapshot.width(), 2);
    assert_eq!(snapshot.height(), 2);
    assert_eq!(
        snapshot.bytes(),
        &vec![0x77, 0x88, 0x99, 0xAA, 0xBB, 0xCC, 0x11, 0x22, 0x33, 0x44, 0x55, 0x66]
    );
}

#[test]
fn snapshot_length_is_three_bytes_per_pixel() {
    for (width, height) in [(1i32, 1i32), (3, 2), (7, 5), (64, 48), (1, 100), (100, 1)] {
        let pixels = vec![0u64; (width * height) as usize];
        let snapshot = Snapshot::from_pixels(width, height, &pixels, RGB888).unwrap();
        assert_eq!(snapshot.bytes().len(), (3 * width * height) as usize);
        assert_eq!(snapshot.into_bytes().len(), (3 * width * height) as usize);
    }
}

#[test]
fn every_pixel_lands_at_its_flipped_place() {
    let (width, height) = (5usize, 4usize);
    let mut pixels = Vec::new();
    for y in 0..height {
        for x in 0..width {
            pixels.push(((y as u64) << 16) | ((x as u64) << 8) | (y * width + x) as u64);
        }
    }
    let snapshot = Snapshot::from_pixels(width as i32, height as i32, &pixels, RGB888).unwrap();
    let bytes = snapshot.bytes();
    for y in 0..height {
        for x in 0..width {
            let at = ((height - 1 - y) * width + x) * 3;
            assert_eq!(bytes[at], y as u8);
            assert_eq!(bytes[at + 1], x as u8);
            assert_eq!(bytes[at + 2], (y * width + x) as u8);
        }
    }
}

#[test]
fn single_row_is_left_as_it_is() {
    let pixels = [0x010203u64, 0x040506, 0x070809];
    let snapshot = Snapshot::from_pixels(3, 1, &pixels, RGB888).unwrap();
    assert_eq!(snapshot.into_bytes(), vec![1, 2, 3, 4, 5, 6, 7, 8, 9]);
}

#[test]
fn channels_follow_their_masks_not_their_position() {
    let bgr = VisualMasks { red: 0x0000FF, green: 0x00FF00, blue: 0xFF0000 };
    let snapshot = Snapshot::from_pixels(1, 1, &[0x112233], bgr).unwrap();
    assert_eq!(snapshot.into_bytes(), vec![0x33, 0x22, 0x11]);
}

#[test]
fn bits_outside_the_masks_are_dropped() {
    let snapshot = Snapshot::from_pixels(1, 1, &[0xFFFF_FFFF_FF12_3456], RGB888).unwrap();
    assert_eq!(snapshot.into_bytes(), vec![0x12, 0x34, 0x56]);
}

#[test]
fn narrow_channels_keep_their_raw_value() {
    let rgb565 = VisualMasks { red: 0xF800, green: 0x07E0, blue: 0x001F };
    let snapshot = Snapshot::from_pixels(2, 1, &[0xFFFF, 0x8410], rgb565).unwrap();
    assert_eq!(snapshot.into_bytes(), vec![31, 63, 31, 16, 32, 16]);
}

#[test]
fn channel_in_the_top_byte() {
    let mask = ChannelMask::new(0xFF00_0000_0000_0000).unwrap();
    assert_eq!(mask.bits(), 0xFF00_0000_0000_0000);
    assert_eq!(mask.extract(0xAB12_3456_789A_BCDE), 0xAB);
    assert_eq!(mask.extract(0x00FF_FFFF_FFFF_FFFF), 0);
}

#[test]
fn channel_mask_extracts_masked_bits() {
    let mask = ChannelMask::new(0x0FF0).unwrap();
    assert_eq!(mask.extract(0x1234), 0x23);
    let one_bit = ChannelMask::new(0x8000_0000_0000_0000).unwrap();
    assert_eq!(one_bit.extract(u64::MAX), 1);
    assert_eq!(one_bit.extract(u64::MAX >> 1), 0);
}

#[test]
fn channel_mask_accepts_runs_of_one_to_eight_bits() {
    for width in 1..=8u32 {
        let run = (1u64 << width) - 1;
        for shift in 0..=(64 - width) {
            assert!(ChannelMask::new(run << shift).is_some(), "width {width} shift {shift}");
        }
    }
}

#[test]
fn channel_mask_rejects_empty_wide_and_broken_masks() {
    assert!(ChannelMask::new(0).is_none());
    assert!(ChannelMask::new(0x1FF).is_none());
    assert!(ChannelMask::new(0x3FF0_0000).is_none());
    assert!(ChannelMask::new(u64::MAX).is_none());
    assert!(ChannelMask::new(0b101).is_none());
    assert!(ChannelMask::new(0xF0F0).is_none());
    assert!(ChannelMask::new(0x8000_0000_0000_0001).is_none());
}

#[test]
fn pixel_format_needs_three_usable_masks() {
    assert!(PixelFormat::new(RGB888).is_some());
    assert!(PixelFormat::new(VisualMasks { red: 0, ..RGB888 }).is_none());
    assert!(PixelFormat::new(VisualMasks { green: 0x1FF, ..RGB888 }).is_none());
    assert!(PixelFormat::new(VisualMasks { blue: 0b1001, ..RGB888 }).is_none());
    let format = PixelFormat::new(RGB888).unwrap();
    assert_eq!(format.red.bits(), 0xFF0000);
    assert_eq!(format.green.bits(), 0x00FF00);
    assert_eq!(format.blue.bits(), 0x0000FF);
}

#[test]
fn empty_screen_is_refused() {
    assert_eq!(Snapshot::from_pixels(0, 4, &[], RGB888), Err(CaptureError::EmptyScreen));
    assert_eq!(Snapshot::from_pixels(4, 0, &[], RGB888), Err(CaptureError::EmptyScreen));
    assert_eq!(Snapshot::from_pixels(-1, 1, &[0], RGB888), Err(CaptureError::EmptyScreen));
    assert_eq!(Snapshot::from_pixels(1, i32::MIN, &[0], RGB888), Err(CaptureError::EmptyScreen));
}

#[test]
fn exotic_visual_is_refused() {
    let deep = VisualMasks { red: 0x3FF0_0000, green: 0x000F_FC00, blue: 0x0000_03FF };
    assert_eq!(Snapshot::from_pixels(1, 1, &[0], deep), Err(CaptureError::UnsupportedVisual));
    let no_blue = VisualMasks { blue: 0, ..RGB888 };
    assert_eq!(Snapshot::from_pixels(1, 1, &[0], no_blue), Err(CaptureError::UnsupportedVisual));
}

#[test]
fn wrong_pixel_count_is_refused() {
    assert_eq!(Snapshot::from_pixels(2, 2, &[0, 0, 0], RGB888), Err(CaptureError::PixelCount));
    assert_eq!(Snapshot::from_pixels(2, 2, &[0; 5], RGB888), Err(CaptureError::PixelCount));
    assert_eq!(Snapshot::from_pixels(1, 1, &[], RGB888), Err(CaptureError::PixelCount));
    assert_eq!(
        Snapshot::from_pixels(i32::MAX, i32::MAX, &[0], RGB888),
        Err(CaptureError::PixelCount)
    );
}

#[test]
fn faults_are_reported_in_a_fixed_order() {
    let bad = VisualMasks { red: 0, green: 0, blue: 0 };
    assert_eq!(Snapshot::from_pixels(0, 0, &[0], bad), Err(CaptureError::EmptyScreen));
    assert_eq!(Snapshot::from_pixels(2, 2, &[0], bad), Err(CaptureError::UnsupportedVisual));
}
