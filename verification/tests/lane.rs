//! The rules of the interactive lane.

use vivido::lane::{admit_lane, carries, confirm_lost, Admission, LaneState};
use vivido::protocol;

const A: [u8; 16] = [0xa; 16];
const B: [u8; 16] = [0xb; 16];

#[test]
fn the_first_open_is_accepted() {
    let mut slot = None;
    assert_eq!(admit_lane(&mut slot, 1, A), Admission::Accept);
    assert!(slot.unwrap().live());
}

#[test]
fn a_zero_generation_is_refused() {
    let mut slot = None;
    assert_eq!(admit_lane(&mut slot, 0, A), Admission::Refused);
    assert!(slot.is_none());
}

#[test]
fn a_duplicate_open_while_live_is_busy() {
    let mut slot = None;
    admit_lane(&mut slot, 1, A);
    assert_eq!(admit_lane(&mut slot, 1, A), Admission::Busy);
}

#[test]
fn an_exact_retry_after_loss_replays_when_no_input_was_admitted() {
    let mut slot = None;
    admit_lane(&mut slot, 1, A);
    confirm_lost(&mut slot, 1);
    assert_eq!(admit_lane(&mut slot, 1, A), Admission::Replay);
    assert!(slot.unwrap().live(), "the replacement transport is live");
}

#[test]
fn a_retry_after_input_was_admitted_is_refused() {
    // Once an input event was accepted the generation cannot be reopened, so the
    // producer must reconcile through control and bind again.
    let mut slot = None;
    admit_lane(&mut slot, 1, A);
    slot.as_mut().unwrap().note_input();
    confirm_lost(&mut slot, 1);
    assert_eq!(admit_lane(&mut slot, 1, A), Admission::Refused);
}

#[test]
fn a_different_nonce_for_the_same_generation_is_refused() {
    let mut slot = None;
    admit_lane(&mut slot, 1, A);
    confirm_lost(&mut slot, 1);
    assert_eq!(admit_lane(&mut slot, 1, B), Admission::Refused);
}

#[test]
fn a_greater_generation_replaces_and_clears_the_input_flag() {
    let mut slot = None;
    admit_lane(&mut slot, 1, A);
    slot.as_mut().unwrap().note_input();
    assert_eq!(admit_lane(&mut slot, 2, B), Admission::Accept);
    let state = slot.unwrap();
    assert_eq!(state.generation(), 2);
    assert!(state.live());
}

#[test]
fn a_lower_generation_is_refused() {
    let mut slot = None;
    admit_lane(&mut slot, 4, A);
    assert_eq!(admit_lane(&mut slot, 3, B), Admission::Refused);
    assert_eq!(slot.unwrap().generation(), 4);
}

#[test]
fn losing_an_old_generation_does_not_disturb_the_current_one() {
    let mut slot = None;
    admit_lane(&mut slot, 1, A);
    admit_lane(&mut slot, 2, B);
    confirm_lost(&mut slot, 1);
    assert!(slot.unwrap().live(), "generation two is still the live transport");
}

#[test]
fn the_lane_carries_only_input_and_liveness_records() {
    assert!(carries(protocol::SET_INPUT_BINDING));
    assert!(carries(protocol::KEY_INPUT));
    assert!(carries(protocol::POINTER_AXIS));
    assert!(carries(protocol::PING));
    assert!(!carries(protocol::CREATE_SURFACE));
    assert!(!carries(protocol::VIDEO_PACKET));
    assert!(!carries(protocol::CREATE_SESSION_LEASE));
}

#[test]
fn a_used_generation_stays_refused_for_every_nonce() {
    let mut slot = Some(LaneState { generation: 3, nonce: A, live: true, admitted_input: true });
    confirm_lost(&mut slot, 3);
    assert_eq!(admit_lane(&mut slot, 3, A), Admission::Refused);
    assert_eq!(admit_lane(&mut slot, 3, B), Admission::Refused);
    assert_eq!(slot.unwrap().generation(), 3);
}
