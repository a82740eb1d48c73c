use fishing_bot::bot::Notice;
use fishing_bot::pixels::PixelBuffer;
use fishing_bot::webhook::{WebhookManager, WebhookMessage, render_notice};

fn text_of(m: &WebhookMessage) -> &str {
    match m {
        WebhookMessage::Text(t) => t,
        WebhookMessage::Screenshot { message, .. } => message,
    }
}

#[test]
fn sixty_texts_leave_newest_fifty() {
    let mut w = WebhookManager::new(0);
    for i in 0..60 {
        w.send_message(format!("m{}", i));
    }
    assert_eq!(w.queue.len(), 50);
    assert_eq!(text_of(&w.queue[0]), "m10");
    assert_eq!(text_of(&w.queue[49]), "m59");
}

#[test]
fn screenshot_cap_leaves_texts_alone() {
    let mut w = WebhookManager::new(0);
    for i in 0..20 {
        w.send_message(format!("t{}", i));
    }
    w.send_screenshot("shot".to_string(), vec![1, 2, 3]);
    assert_eq!(w.queue.len(), 21);
    assert_eq!(text_of(&w.queue[0]), "t0");
    assert!(matches!(&w.queue[20], WebhookMessage::Screenshot { image_data, .. } if image_data == &vec![1, 2, 3]));
}

#[test]
fn screenshots_capped_at_ten_oldest_first() {
    let mut w = WebhookManager::new(0);
    w.send_message("first".to_string());
    for i in 0..12 {
        w.send_screenshot(format!("s{}", i), vec![i as u8]);
    }
    w.send_message("last".to_string());
    assert_eq!(w.queue.len(), 12);
    assert_eq!(text_of(&w.queue[0]), "first");
    assert_eq!(text_of(&w.queue[1]), "s2");
    assert_eq!(text_of(&w.queue[10]), "s11");
    assert_eq!(text_of(&w.queue[11]), "last");
}

#[test]
fn texts_capped_at_fifty_keep_screenshots() {
    let mut w = WebhookManager::new(0);
    w.send_screenshot("shot".to_string(), vec![7]);
    for i in 0..60 {
        w.send_message(format!("m{}", i));
    }
    assert_eq!(w.queue.len(), 51);
    assert_eq!(text_of(&w.queue[0]), "shot");
    assert_eq!(text_of(&w.queue[1]), "m10");
}

#[test]
fn no_endpoint_means_no_delivery() {
    let mut w = WebhookManager::new(0);
    w.send_message("a".to_string());
    w.send_message("b".to_string());
    assert!(w.take_batch(false).is_empty());
    assert_eq!(w.queue.len(), 2);
}

#[test]
fn batches_of_five_in_order() {
    let mut w = WebhookManager::new(0);
    for i in 0..7 {
        w.send_message(format!("{}", i));
    }
    let first = w.take_batch(true);
    assert_eq!(first.len(), 5);
    assert_eq!(text_of(&first[0]), "0");
    assert_eq!(text_of(&first[4]), "4");
    let second = w.take_batch(true);
    assert_eq!(second.len(), 2);
    assert!(w.take_batch(true).is_empty());
}

#[test]
fn start_and_stop_worker_flag() {
    let mut w = WebhookManager::new(0);
    assert!(!w.running);
    w.start();
    assert!(w.running);
    w.stop();
    assert!(!w.running);
}

#[test]
fn periodic_screenshot_pacing() {
    let mut w = WebhookManager::new(0);
    assert!(!w.check_periodic_screenshot(true, true, 60, 3_599_999));
    assert!(w.check_periodic_screenshot(true, true, 60, 3_600_000));
    assert_eq!(w.last_screenshot_ms, 3_600_000);
    assert!(!w.check_periodic_screenshot(true, true, 60, 3_600_001));
    assert!(!w.check_periodic_screenshot(false, true, 60, 99_000_000));
    assert!(!w.check_periodic_screenshot(true, false, 60, 99_000_000));
}

#[test]
fn screenshot_frame_is_jpeg_encoded() {
    let mut w = WebhookManager::new(0);
    let mut data = Vec::new();
    for i in 0..64u32 {
        data.extend_from_slice(&[(i * 4) as u8, 100, 200, 255]);
    }
    let frame = PixelBuffer::from_raw(8, 8, data.clone()).unwrap();
    assert!(w.send_screenshot_frame("periodic".to_string(), &frame));
    match &w.queue[0] {
        WebhookMessage::Screenshot { message, image_data } => {
            assert_eq!(message, "periodic");
            assert_eq!(&image_data[..2], &[0xFF, 0xD8]);
            assert_ne!(image_data, &data);
        }
        _ => panic!("expected a screenshot"),
    }
}

#[test]
fn empty_frame_is_not_queued() {
    let mut w = WebhookManager::new(0);
    let frame = PixelBuffer::from_raw(0, 0, vec![]).unwrap();
    assert!(!w.send_screenshot_frame("empty".to_string(), &frame));
    assert!(w.queue.is_empty());
}

#[test]
fn notices_render_as_text() {
    assert_eq!(render_notice(Notice::Milestone { fish: 20 }), "Milestone reached! 20 fish caught this session!");
    assert_eq!(render_notice(Notice::Fed { hunger: 35 }), "Fed character (hunger was 35%)");
    assert_eq!(
        render_notice(Notice::CriticalError { errors: 7, consecutive: 3 }),
        "Critical error alert: error #7 (3 in a row)"
    );
    assert_eq!(
        render_notice(Notice::SessionSummary { fish: 12, runtime_seconds: 3723, best_streak: 4 }),
        "Session complete! Fish caught: 12, runtime: 1h 2m, best streak: 4"
    );
    assert_eq!(render_notice(Notice::Paused), "Bot paused");
}
