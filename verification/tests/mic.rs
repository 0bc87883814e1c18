//! Microphone consent and the capture clock.

use std::collections::VecDeque;

use vivido::identity::{PresenterInstanceId, SessionIdentity};
use vivido::mic::{
    capture_supported, record_sample, route_title, CaptureClock, ClockExhausted, Microphone,
    RouteKey, MAXIMUM_TITLE_CHARACTERS, PACKET_US,
};

fn route(owner: u64) -> RouteKey {
    let track = SessionIdentity::new(PresenterInstanceId([1; 16]), owner)
        .unwrap()
        .context(1)
        .unwrap()
        .surface(9)
        .unwrap()
        .track(11)
        .unwrap();
    RouteKey { track, generation: 1 }
}

#[test]
fn consent_is_exclusive_and_a_missing_owner_is_not_redirected() {
    let mut controller = Microphone::new();
    let mut keys = Vec::new();
    for owner in [7, 8] {
        let key = route(owner);
        keys.push(key);
        controller.register(key, format!("owner {owner}"));
    }
    assert!(controller.label().contains("OFF"));
    controller.toggle();
    assert!(controller.enabled(&keys[0]));
    controller.next();
    assert!(keys.iter().all(|key| !controller.enabled(key)));
    controller.toggle();
    assert!(controller.enabled(&keys[1]));
    controller.routes.remove(&keys[1]);
    controller.toggle();
    assert_eq!(controller.label(), "MIC OFF: recipient disconnected");
    assert!(!controller.enabled(&keys[0]));
}

#[test]
fn the_next_recipient_after_the_last_is_the_first() {
    let mut controller = Microphone::new();
    controller.next();
    assert_eq!(controller.selected, None);
    for owner in [8, 7, 9] {
        controller.register(route(owner), format!("owner {owner}"));
    }
    for owner in [7, 8, 9, 7, 8] {
        controller.next();
        assert_eq!(controller.selected, Some(route(owner)));
    }
    controller.routes.remove(&route(7));
    controller.routes.remove(&route(9));
    controller.next();
    assert_eq!(controller.selected, Some(route(8)));
}

#[test]
fn an_unregistered_route_is_no_longer_selected() {
    let mut controller = Microphone::new();
    controller.register(route(7), "seven".into());
    controller.toggle();
    assert!(controller.enabled(&route(7)));
    controller.unregister(&route(7));
    assert!(!controller.enabled(&route(7)));
    assert!(controller.label().contains("OFF"));
}

#[test]
fn a_failed_route_shows_its_error() {
    let mut controller = Microphone::new();
    controller.register(route(7), "seven".into());
    controller.toggle();
    controller.fail(&route(7), Some("device gone".into()));
    assert!(!controller.enabled(&route(7)));
    assert!(controller.label().contains("device gone"));
}

#[test]
fn a_title_is_cut_and_a_missing_one_is_named() {
    let long = "x".repeat(MAXIMUM_TITLE_CHARACTERS + 20);
    assert_eq!(route_title(Some(&long)), "x".repeat(MAXIMUM_TITLE_CHARACTERS));
    assert_eq!(route_title(Some("desk")), "desk");
    assert!(!route_title(None).is_empty());
}

#[test]
fn a_full_capture_queue_drops_its_oldest_sample() {
    let mut queue: VecDeque<(u64, u8)> = VecDeque::new();
    for position in 0..250_u64 {
        record_sample(&mut queue, 1_000, position, 0);
    }
    // A fifth of a second is kept.
    assert_eq!(queue.len(), 200);
    assert_eq!(queue.back().unwrap().0, 249);
    assert_eq!(queue.front().unwrap().0, 50);
}

#[test]
fn the_capture_clock_counts_packets() {
    let mut clock = CaptureClock::new(48_000);
    assert_eq!(clock.observe(0, 959), Ok(false));
    clock.sent().unwrap();
    assert_eq!(clock.pts_us, PACKET_US);
    // The samples that follow are continuous; ones further on are a gap.
    assert_eq!(clock.observe(960, 1_919), Ok(false));
    clock.sent().unwrap();
    assert_eq!(clock.observe(48_000, 48_959), Ok(true));
    clock.pts_us = i64::MAX;
    assert_eq!(clock.sent(), Err(ClockExhausted));
}

#[test]
fn only_a_usable_capture_format_is_supported() {
    assert!(capture_supported(48_000, 1));
    assert!(!capture_supported(0, 1));
    assert!(!capture_supported(48_000, 0));
}
