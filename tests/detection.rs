use fishing_bot::classifier::{
    ClusterParams, advanced_color_detection, basic_color_detection, count_matching_pixels,
};
use fishing_bot::color::Color;
use fishing_bot::config::Region;
use fishing_bot::detector::AdvancedDetector;
use fishing_bot::pixels::PixelBuffer;

fn filled(width: u32, height: u32, rgb: (u8, u8, u8)) -> PixelBuffer {
    let mut data = Vec::new();
    for _ in 0..(width * height) {
        data.extend_from_slice(&[rgb.0, rgb.1, rgb.2, 255]);
    }
    PixelBuffer::from_raw(width, height, data).unwrap()
}

fn paint(img: &mut PixelBuffer, x: u32, y: u32, rgb: (u8, u8, u8)) {
    let i = ((y * img.width + x) * 4) as usize;
    img.data[i] = rgb.0;
    img.data[i + 1] = rgb.1;
    img.data[i + 2] = rgb.2;
}

const RED: (u8, u8, u8) = (241, 27, 28);
const GRAY: (u8, u8, u8) = (90, 90, 90);

#[test]
fn distances_between_colours() {
    let c = Color::red_exclamation();
    assert_eq!(c.distance(&[241, 27, 28, 255]), 0);
    assert_eq!(c.distance(&[231, 37, 30, 0]), 10 + 10 + 2);
    assert_eq!(c.distance_squared(&[231, 37, 30, 0]), 100 + 100 + 4);
    assert_eq!(Color::yellow_caught().distance(&[0, 0, 0]), 510);
}

#[test]
fn basic_all_matching_detects_at_any_tolerance() {
    let img = filled(8, 4, RED);
    for tol in [0u8, 1, 10, 255] {
        assert!(basic_color_detection(&img, &Color::red_exclamation(), tol));
    }
}

#[test]
fn basic_no_match_never_detects() {
    let img = filled(8, 4, GRAY);
    for tol in [0u8, 5, 10, 40] {
        assert!(!basic_color_detection(&img, &Color::red_exclamation(), tol));
    }
}

#[test]
fn basic_tolerance_boundary() {
    let mut img = filled(3, 1, GRAY);
    paint(&mut img, 1, 0, (241 - 15, 27 + 10, 28 + 5));
    assert!(basic_color_detection(&img, &Color::red_exclamation(), 10));
    assert!(!basic_color_detection(&img, &Color::red_exclamation(), 9));
    assert_eq!(count_matching_pixels(&img, &Color::red_exclamation(), 10), 1);
}

#[test]
fn count_matching_counts_every_hit() {
    let mut img = filled(5, 5, GRAY);
    paint(&mut img, 0, 0, RED);
    paint(&mut img, 4, 4, RED);
    paint(&mut img, 2, 3, RED);
    assert_eq!(count_matching_pixels(&img, &Color::red_exclamation(), 0), 3);
    assert_eq!(count_matching_pixels(&filled(0, 0, RED), &Color::red_exclamation(), 10), 0);
}

#[test]
fn advanced_single_isolated_pixel_does_not_detect() {
    let mut img = filled(40, 40, GRAY);
    paint(&mut img, 20, 20, RED);
    assert!(!advanced_color_detection(&img, &Color::red_exclamation(), 10, ClusterParams::standard()));
    assert!(basic_color_detection(&img, &Color::red_exclamation(), 10));
}

#[test]
fn advanced_two_separated_dense_clusters_detect() {
    let mut img = filled(60, 30, GRAY);
    for (x, y) in [(3, 3), (4, 3), (3, 4), (50, 20), (51, 20), (50, 21)] {
        paint(&mut img, x, y, RED);
    }
    assert!(advanced_color_detection(&img, &Color::red_exclamation(), 10, ClusterParams::standard()));
}

#[test]
fn advanced_single_cluster_does_not_detect() {
    let mut row = filled(20, 5, GRAY);
    for x in 3..6 {
        paint(&mut row, x, 2, RED);
    }
    assert!(!advanced_color_detection(&row, &Color::red_exclamation(), 0, ClusterParams::standard()));
    let mut block = filled(20, 20, GRAY);
    for y in 5..8 {
        for x in 5..8 {
            paint(&mut block, x, y, RED);
        }
    }
    assert!(!advanced_color_detection(&block, &Color::red_exclamation(), 10, ClusterParams::standard()));
    let one = ClusterParams { min_clusters: 1, ..ClusterParams::standard() };
    assert!(advanced_color_detection(&block, &Color::red_exclamation(), 10, one));
}

#[test]
fn advanced_scattered_pixels_do_not_detect() {
    let mut img = filled(60, 60, GRAY);
    for (x, y) in [(0, 0), (20, 0), (40, 0), (0, 30), (20, 30), (40, 30)] {
        paint(&mut img, x, y, RED);
    }
    assert!(!advanced_color_detection(&img, &Color::red_exclamation(), 10, ClusterParams::standard()));
}

#[test]
fn advanced_uses_euclidean_distance() {
    let mut img = filled(10, 10, GRAY);
    // Manhattan distance 60, squared distance 1200 > 30 * 30.
    for (x, y) in [(1, 1), (2, 1), (1, 2)] {
        paint(&mut img, x, y, (241 - 20, 27 + 20, 28 + 20));
    }
    assert!(!advanced_color_detection(&img, &Color::red_exclamation(), 10, ClusterParams::standard()));
    assert!(basic_color_detection(&img, &Color::red_exclamation(), 20));
}

#[test]
fn cache_answers_within_duration_then_expires() {
    let mut det = AdvancedDetector::new(50, 10, false);
    let region = Region { x: 10, y: 20, width: 2, height: 1 };
    assert!(det.get_cached(region, 1000).is_none());
    let img = filled(2, 1, RED);
    det.store(region, img.clone(), 1000);
    let first = det.get_cached(region, 1020).unwrap();
    let second = det.get_cached(region, 1049).unwrap();
    assert_eq!(first.data, img.data);
    assert_eq!(second.data, img.data);
    assert!(det.get_cached(region, 1050).is_none());
    det.store(region, filled(2, 1, GRAY), 1050);
    assert_eq!(det.get_cached(region, 1060).unwrap().data, filled(2, 1, GRAY).data);
    assert_eq!(det.cache.len(), 1);
}

#[test]
fn cache_evicts_entries_past_retention() {
    let mut det = AdvancedDetector::new(50, 10, false);
    let a = Region { x: 0, y: 0, width: 1, height: 1 };
    let b = Region { x: 5, y: 5, width: 1, height: 1 };
    det.store(a, filled(1, 1, RED), 0);
    det.store(b, filled(1, 1, GRAY), 5000);
    assert_eq!(det.cache.len(), 2);
    det.store(b, filled(1, 1, RED), 10001);
    assert_eq!(det.cache.len(), 1);
    assert_eq!(det.cache[0].region, b);
    assert!(det.retention_ms >= det.cache_duration_ms);
    assert_eq!(AdvancedDetector::new(20000, 1, true).retention_ms, 20000);
}

#[test]
fn detector_selects_policy() {
    let mut img = filled(40, 40, GRAY);
    paint(&mut img, 5, 5, RED);
    assert!(AdvancedDetector::new(50, 10, false).classify(&img, &Color::red_exclamation()));
    assert!(!AdvancedDetector::new(50, 10, true).classify(&img, &Color::red_exclamation()));
}

#[test]
fn pixel_buffer_rejects_wrong_length() {
    assert!(PixelBuffer::from_raw(2, 2, vec![0; 15]).is_none());
    assert!(PixelBuffer::from_raw(2, 2, vec![0; 16]).is_some());
}
