use fishing_bot::ocr::{
    EnhancedOCRHandler, GrayBuffer, binarize, calculate_otsu_threshold, fingerprint,
    noise_reduction, preprocess_hunger_image, to_grayscale_enhanced,
};
use fishing_bot::parse::{HungerParseError, parse_hunger_text, parse_hunger_value};
use fishing_bot::pixels::PixelBuffer;

fn gray(width: u32, height: u32, data: Vec<u8>) -> GrayBuffer {
    GrayBuffer { width, height, data }
}

#[test]
fn parses_percent_reading() {
    assert_eq!(parse_hunger_text("87%"), Some(87));
    assert_eq!(parse_hunger_text("  42 % "), Some(42));
    assert_eq!(parse_hunger_text("0"), Some(0));
    assert_eq!(parse_hunger_text("007"), Some(7));
}

#[test]
fn empty_or_noise_gives_none() {
    assert_eq!(parse_hunger_text(""), None);
    assert_eq!(parse_hunger_text("   "), None);
    assert_eq!(parse_hunger_text("%%ab"), None);
}

#[test]
fn readings_above_ceiling_are_rejected() {
    assert_eq!(parse_hunger_text("1000"), None);
    assert_eq!(parse_hunger_text("1000 55"), Some(55));
    assert_eq!(parse_hunger_text("99999999999999999999 12%"), Some(12));
    assert_eq!(parse_hunger_text("999"), Some(999));
}

#[test]
fn noise_inside_a_token_is_discarded() {
    assert_eq!(parse_hunger_text("a8b7%"), Some(87));
    assert_eq!(parse_hunger_text("x\ty 63"), Some(63));
    assert_eq!(parse_hunger_text("5\u{3000}6"), Some(5));
}

#[test]
fn hunger_value_reads_all_digits() {
    assert_eq!(parse_hunger_value("87%"), Ok(87));
    assert_eq!(parse_hunger_value("1 2"), Ok(1));
    assert_eq!(parse_hunger_value("1000 42"), Ok(42));
    assert_eq!(parse_hunger_value("4a2%"), Ok(42));
    assert_eq!(parse_hunger_value("150"), Ok(100));
    assert_eq!(parse_hunger_value("255"), Ok(100));
    assert_eq!(parse_hunger_value("0"), Ok(0));
}

#[test]
fn hunger_value_errors() {
    assert_eq!(parse_hunger_value("abc"), Err(HungerParseError::NoDigits));
    assert_eq!(parse_hunger_value(""), Err(HungerParseError::NoDigits));
    assert_eq!(parse_hunger_value("256"), Err(HungerParseError::OutOfRange));
    assert_eq!(parse_hunger_value("1000"), Err(HungerParseError::OutOfRange));
    assert_eq!(parse_hunger_value("300 % 999"), Err(HungerParseError::OutOfRange));
}

#[test]
fn grayscale_uses_luminance_weights() {
    let img = PixelBuffer::from_raw(3, 1, vec![255, 0, 0, 255, 0, 255, 0, 255, 10, 20, 30, 255])
        .unwrap();
    let g = to_grayscale_enhanced(&img);
    assert_eq!(g.data, vec![76, 149, 18]);
}

#[test]
fn otsu_splits_two_levels() {
    let mut data = vec![20u8; 50];
    data.extend(vec![200u8; 50]);
    let g = gray(10, 10, data);
    let t = calculate_otsu_threshold(&g);
    assert_eq!(t, 20);
    let b = binarize(&g, t);
    assert_eq!(b.data.iter().filter(|&&v| v == 255).count(), 50);
    assert_eq!(b.data.iter().filter(|&&v| v == 0).count(), 50);
}

#[test]
fn otsu_compares_variances_exactly() {
    assert_eq!(calculate_otsu_threshold(&gray(5, 1, vec![0, 2, 3, 3, 5])), 2);
}

#[test]
fn otsu_of_flat_image_is_zero() {
    assert_eq!(calculate_otsu_threshold(&gray(4, 4, vec![128; 16])), 0);
    assert_eq!(calculate_otsu_threshold(&gray(0, 0, vec![])), 0);
}

#[test]
fn median_filter_removes_speck() {
    let mut data = vec![10u8; 25];
    data[12] = 250;
    let out = noise_reduction(&gray(5, 5, data));
    assert_eq!(out.data, vec![10u8; 25]);
    let edge = noise_reduction(&gray(3, 1, vec![1, 9, 5]));
    assert_eq!(edge.data, vec![1, 5, 5]);
}

#[test]
fn preprocessing_yields_black_and_white() {
    let mut data = Vec::new();
    for i in 0..64u32 {
        let v = if i % 8 < 4 { 30 } else { 220 };
        data.extend_from_slice(&[v, v, v, 255]);
    }
    let img = PixelBuffer::from_raw(8, 8, data).unwrap();
    let out = preprocess_hunger_image(&img);
    assert_eq!(out.data.len(), 64);
    assert!(out.data.iter().all(|&v| v == 0 || v == 255));
    assert_eq!(out.data[0], 0);
    assert_eq!(out.data[7], 255);
}

#[test]
fn reading_cache_expires_after_two_seconds() {
    let img = PixelBuffer::from_raw(1, 1, vec![1, 2, 3, 4]).unwrap();
    let other = PixelBuffer::from_raw(1, 1, vec![9, 9, 9, 9]).unwrap();
    let mut h = EnhancedOCRHandler::new();
    assert_eq!(h.cached_reading(&img, 0), None);
    h.record_reading(&img, Some(64), 1000);
    assert_eq!(h.cached_reading(&img, 2999), Some(Some(64)));
    assert_eq!(h.cached_reading(&other, 1500), None);
    assert_eq!(h.cached_reading(&img, 3000), None);
    h.record_reading(&img, None, 3000);
    assert_eq!(h.cached_reading(&img, 3001), Some(None));
    assert_eq!(h.cache.len(), 1);
}

#[test]
fn fingerprint_takes_first_ten_pixels() {
    let img = PixelBuffer::from_raw(20, 1, (0..80).map(|v| v as u8).collect()).unwrap();
    assert_eq!(fingerprint(&img), (0..40).map(|v| v as u8).collect::<Vec<u8>>());
}
