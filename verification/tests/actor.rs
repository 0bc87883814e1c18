//! Pending operations and the bounded queue of a connection.

use std::collections::HashSet;

use vivido::actor::{
    deliver, wait_satisfied_body, AdmissionError, DrainPoll, Egress, NextRecord, Observed, Pending,
    PendingSet, TrackWaitEvaluation, TrackWaitSatisfied, EGRESS_CAPACITY,
};
use vivido::identity::{PresenterInstanceId, SessionIdentity, TrackIdentity};
use vivido::protocol;

fn track() -> TrackIdentity {
    let session = SessionIdentity::new(PresenterInstanceId([1; 16]), 1).unwrap();
    session.context(1).unwrap().surface(1).unwrap().track(1).unwrap()
}

fn wait(request_id: u64) -> Pending {
    Pending::TrackWait {
        request_id,
        object_id: 1,
        identity: track(),
        generation: 1,
        condition: 2,
        value: Some(1),
        deadline_us: 1_000_000,
    }
}

#[test]
fn registered_waits_are_bounded_by_the_contract() {
    let mut pending = PendingSet::new(2, 16);
    assert!(pending.register(wait(1)).is_ok());
    assert!(pending.register(wait(2)).is_ok());
    assert_eq!(pending.register(wait(3)), Err(AdmissionError::Waits));
}

#[test]
fn total_pending_requests_are_bounded_independently_of_waits() {
    // The pending-request bound is the tighter of the two here, so it is what refuses.
    let mut pending = PendingSet::new(16, 2);
    assert!(pending.register(wait(1)).is_ok());
    assert!(pending.register(wait(2)).is_ok());
    assert_eq!(pending.register(wait(3)), Err(AdmissionError::Requests));
}

#[test]
fn an_empty_set_needs_no_servicing() {
    let pending = PendingSet::new(4, 4);
    assert!(pending.is_empty());
}

#[test]
fn egress_overflow_closes_the_session_rather_than_buffering() {
    // A peer that stops draining must not make the presenter grow without bound. With no worker
    // attached nothing drains, so admission is exactly the queue bound.
    let mut egress = Egress::detached();
    let mut accepted = 0;
    while egress.send(protocol::PONG, 0, Vec::new()) {
        accepted += 1;
        assert!(accepted <= EGRESS_CAPACITY, "the egress grew past its bound");
    }
    assert_eq!(accepted, EGRESS_CAPACITY);
    assert!(egress.overflowed(), "overflow must be reported, not silent");
    assert!(!egress.send(protocol::PONG, 0, Vec::new()), "an overflowed egress stays closed");
}

#[test]
fn a_closed_egress_refuses_further_records() {
    let mut egress = Egress::detached();
    assert!(egress.send(protocol::PONG, 0, Vec::new()));
    egress.close();
    assert!(!egress.send(protocol::PONG, 0, Vec::new()));
    assert!(!egress.overflowed(), "a clean close is not an overflow");
}

#[test]
fn a_satisfied_wait_is_answered_and_a_pending_one_is_kept() {
    let mut pending = PendingSet::new(4, 4);
    pending.register(wait(7)).unwrap();
    pending.register(wait(8)).unwrap();
    let mut egress = Egress::detached();
    let mut cancelled = HashSet::new();
    let satisfied =
        TrackWaitSatisfied { revision: 3, channel_generation: 1, observed_value: 9 };
    let ended = pending.service(
        &vec![
            Observed::Wait(TrackWaitEvaluation::Satisfied(satisfied)),
            Observed::Wait(TrackWaitEvaluation::Pending),
        ],
        &mut egress,
        &mut cancelled,
        10,
    );
    assert!(ended.is_empty());
    assert_eq!(pending.entries, vec![wait(8)]);
    let record = egress.next();
    let expected = wait_satisfied_body(7, track(), 2, satisfied);
    match record {
        NextRecord::Write(kind, object, body) => {
            assert_eq!((kind, object), (protocol::WAIT_SATISFIED, 1));
            assert_eq!(body, expected);
        },
        _ => panic!("no answer was queued"),
    }
    let decoded = vivid_protocol::messages::decode_control(&expected).unwrap();
    assert_eq!(decoded.request_id, 7);
    assert_eq!(decoded.payload[6].1.as_u64(), Some(9));
}

#[test]
fn a_wait_past_its_deadline_is_refused() {
    let mut pending = PendingSet::new(4, 4);
    pending.register(wait(7)).unwrap();
    let mut egress = Egress::detached();
    pending.service(
        &vec![Observed::Wait(TrackWaitEvaluation::Pending)],
        &mut egress,
        &mut HashSet::new(),
        2_000_000,
    );
    assert!(pending.is_empty());
    match egress.next() {
        NextRecord::Write(kind, _, body) => {
            assert_eq!(kind, protocol::ERROR);
            let reply = vivid_protocol::messages::parse_error_reply(&body).unwrap();
            assert_eq!(reply.code, protocol::ERROR_TIMEOUT);
            assert_eq!(reply.request_id, 7);
            assert!(!reply.fatal);
        },
        _ => panic!("no refusal was queued"),
    }
}

#[test]
fn a_cancelled_wait_is_answered_once() {
    let mut pending = PendingSet::new(4, 4);
    pending.register(wait(7)).unwrap();
    let mut egress = Egress::detached();
    let mut cancelled = HashSet::from([7, 99]);
    pending.service(
        &vec![Observed::Wait(TrackWaitEvaluation::Pending)],
        &mut egress,
        &mut cancelled,
        10,
    );
    assert!(pending.is_empty());
    assert_eq!(cancelled, HashSet::from([99]), "a cancellation that names nothing stays");
    match egress.next() {
        NextRecord::Write(kind, _, body) => {
            assert_eq!(kind, protocol::ERROR);
            let reply = vivid_protocol::messages::parse_error_reply(&body).unwrap();
            assert_eq!(reply.code, protocol::ERROR_CANCELLED);
        },
        _ => panic!("no refusal was queued"),
    }
}

#[test]
fn a_drained_output_ends_its_track() {
    let mut pending = PendingSet::new(4, 4);
    pending
        .register(Pending::AudioDrain {
            request_id: 3,
            object_id: 1,
            identity: track(),
            generation: 5,
        })
        .unwrap();
    let mut egress = Egress::detached();
    let ended = pending.service(
        &vec![Observed::Drain(DrainPoll::Drained)],
        &mut egress,
        &mut HashSet::new(),
        10,
    );
    assert_eq!(ended, vec![(track(), 5)]);
    assert!(matches!(egress.next(), NextRecord::Write(protocol::OK, 1, _)));
}

#[test]
fn a_reply_that_finds_no_room_is_reported() {
    let mut egress = Egress::detached();
    egress.close();
    assert!(deliver(&mut egress, (protocol::PONG, 0, vec![1])).is_err());
    let mut open = Egress::detached();
    assert!(deliver(&mut open, (protocol::PONG, 4, vec![1])).is_ok());
    assert!(matches!(open.next(), NextRecord::Write(protocol::PONG, 4, _)));
    assert!(matches!(open.next(), NextRecord::Wait));
    // The reader of a peer that stopped draining is stopped.
    open.set_shutdown(31);
    for _ in 0..EGRESS_CAPACITY {
        assert!(deliver(&mut open, (protocol::PONG, 4, vec![1])).is_ok());
    }
    assert!(!open.closed && !open.overflowed);
    assert!(deliver(&mut open, (protocol::PONG, 4, vec![1])).is_err());
    assert!(open.closed && open.overflowed);
    assert_eq!((open.shutdown, open.stop), (None, Some(31)));
    assert_eq!(open.records.len(), EGRESS_CAPACITY);
}
