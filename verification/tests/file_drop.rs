//! File drops: bindings, offers, transfers and local paste.

use vivid_protocol::file_drop::{
    DEFAULT_ACTIVE_FILE_TRANSFERS, DEFAULT_FILE_DROP_ACCEPTANCE_US, DEFAULT_FILE_TRANSFER_IDLE_US,
    DEFAULT_PENDING_FILE_DROPS,
};
use vivido::drop_manager::FileDropManager;
use vivido::file_drop::{
    local_paste_text, AcceptFileDrop, AdvanceFileTransfer, CancelFileDrop, DropRejection,
    FileDropBinding, FileDropDestination, FileDropOffer, FileDropRefusal, FileDropState,
    FileResult, FileResultCode, FileSource, FileTransferOpen, LocalDropDisposition, OwnedId,
    SourceRefusal, FILE_DROP_RESULT_RETENTION_US,
};
use vivido::identity::{PresenterInstanceId, SessionIdentity};

fn session(id: u64) -> SessionIdentity {
    SessionIdentity::new(PresenterInstanceId([3; 16]), id).unwrap()
}

fn binding(
    context_id: u64,
    surface_id: u64,
    destination: Option<FileDropDestination>,
) -> FileDropBinding {
    let enabled = destination.is_some();
    FileDropBinding {
        producer_epoch: if enabled { 1 } else { 2 },
        context_id,
        surface_id,
        surface_generation: if surface_id == 0 { 0 } else { 1 },
        destination,
        maximum_file_bytes: if enabled { 1024 } else { 0 },
        maximum_pending_offers: if enabled { DEFAULT_PENDING_FILE_DROPS } else { 0 },
        maximum_active_transfers: if enabled { DEFAULT_ACTIVE_FILE_TRANSFERS } else { 0 },
        maximum_record_body: if enabled { 4096 } else { 0 },
        acceptance_timeout_us: if enabled { DEFAULT_FILE_DROP_ACCEPTANCE_US } else { 0 },
        idle_timeout_us: if enabled { DEFAULT_FILE_TRANSFER_IDLE_US } else { 0 },
    }
}

fn source(length: u64) -> FileSource {
    FileSource {
        handle: 5,
        length,
        suggested_name: "report.txt".into(),
        generation: 0,
        cancelled: false,
    }
}

/// Drop a file on the given binding, past the consent question.
fn dropped(manager: &mut FileDropManager, length: u64) -> (SessionIdentity, FileDropOffer) {
    loop {
        match manager.offer_local_file(Some(source(length)), None, 0) {
            (LocalDropDisposition::ConsentRequired(_), _) => {},
            (LocalDropDisposition::Offered, Some(offered)) => return offered,
            (other, _) => panic!("the drop was not offered: {other:?}"),
        }
    }
}

fn acceptance(offer: &FileDropOffer, transfer_id: u64) -> AcceptFileDrop {
    AcceptFileDrop {
        binding: offer.binding,
        transfer_id,
        transfer_generation: 1,
        maximum_record_body: 4096,
        initial_maximum_body_bytes: 1 << 20,
        initial_maximum_records: 64,
    }
}

/// Bind context 4 of a session, drop a file on it and accept the offer.
fn accepted_drop(
    manager: &mut FileDropManager,
    owner: SessionIdentity,
    destination: FileDropDestination,
    transfer_id: u64,
) -> FileDropOffer {
    manager.set_binding(owner, binding(4, 0, Some(destination)), true).unwrap();
    let (offered_to, offer) = dropped(manager, 6);
    assert_eq!(offered_to, owner);
    manager.accept(owner, acceptance(&offer, transfer_id), 0).unwrap();
    offer
}

fn result(transfer_id: u64, path: Option<&str>, code: FileResultCode) -> FileResult {
    FileResult {
        transfer_id,
        transfer_generation: 1,
        result: code,
        committed_length: 6,
        final_name: "report.txt".into(),
        committed_path: path.map(str::to_owned),
    }
}

fn owned(session: SessionIdentity, id: u64) -> OwnedId {
    OwnedId { session, id }
}

#[test]
fn hit_testing_and_stack_are_owner_scoped() {
    let first = session(1);
    let second = session(2);
    let first_surface = first.context(4).unwrap().surface(8).unwrap();
    let second_surface = second.context(4).unwrap().surface(8).unwrap();
    let mut manager = FileDropManager::new();

    manager.set_binding(first, binding(4, 8, Some(FileDropDestination::ShellCwd)), true).unwrap();
    manager.set_binding(first, binding(4, 0, Some(FileDropDestination::ShellCwd)), true).unwrap();
    manager
        .set_binding(second, binding(4, 0, Some(FileDropDestination::DesktopFolder)), true)
        .unwrap();

    assert_eq!(manager.hover_label(Some((first_surface, 1))), Some("Copy to remote shell"));
    assert_eq!(manager.hover_label(None), Some("Copy to remote desktop"));

    manager.set_binding(second, binding(4, 0, None), true).unwrap();
    assert_eq!(manager.hover_label(None), Some("Copy to remote shell"));

    manager
        .set_binding(second, binding(4, 8, Some(FileDropDestination::DesktopFolder)), true)
        .unwrap();
    assert_eq!(manager.hover_label(Some((second_surface, 1))), Some("Copy to remote desktop"));
    manager.remove_session(first);
    assert_eq!(manager.hover_label(Some((second_surface, 1))), Some("Copy to remote desktop"));
    assert_eq!(manager.hover_label(Some((first_surface, 1))), None);
}

#[test]
fn absent_binding_preserves_the_existing_local_paste_bytes() {
    let mut manager = FileDropManager::new();
    let path = "folder/report.txt";
    assert_eq!(
        manager.offer_local_file(Some(source(6)), None, 0),
        (LocalDropDisposition::NoBinding, None)
    );
    assert_eq!(local_paste_text(path), "folder/report.txt ");
}

#[test]
fn cancelling_a_retained_source_is_seen_by_an_active_worker() {
    let mut source = source(6);
    source.ensure_active().unwrap();
    source.cancel();
    assert_eq!(source.ensure_active().unwrap_err(), SourceRefusal::Cancelled);
}

#[test]
fn advancing_transfer_rejects_old_generation_completion() {
    let owner = session(1);
    let mut manager = FileDropManager::new();
    accepted_drop(&mut manager, owner, FileDropDestination::ShellCwd, 7);
    let other = session(2);
    accepted_drop(&mut manager, other, FileDropDestination::ShellCwd, 7);
    let transfer = manager.transfers.get_mut(&owned(owner, 7)).unwrap();
    transfer.active = true;
    let drop_id = transfer.drop_id;
    manager
        .advance(
            owner,
            AdvanceFileTransfer {
                context_id: 4,
                surface_id: 0,
                drop_id,
                transfer_id: 7,
                expected_generation: 1,
                new_generation: 2,
                committed_offset: 0,
                maximum_body_bytes: 1 << 20,
                maximum_records: 64,
            },
            0,
        )
        .unwrap();
    assert!(!manager.transfers.get(&owned(owner, 7)).unwrap().active);
    assert!(manager
        .offers
        .get(&owned(owner, drop_id))
        .unwrap()
        .source
        .as_ref()
        .unwrap()
        .ensure_generation(1)
        .is_err());
    manager.transfers.get_mut(&owned(owner, 7)).unwrap().active = true;
    manager.connection_lost(owner, 7, 1, 0);
    assert!(manager.transfers.get(&owned(owner, 7)).unwrap().active);
    manager.finish_transfer(
        owner,
        result(7, Some("/tmp/report.txt"), FileResultCode::Committed),
        true,
        0,
    );
    assert_eq!(manager.transfers.get(&owned(owner, 7)).unwrap().generation, 2);
    assert!(manager.offers.get(&owned(owner, drop_id)).unwrap().terminal.is_none());
    assert!(manager.take_pending_pastes().is_empty());
    manager.finish_transfer(
        other,
        result(7, Some("/tmp/report.txt"), FileResultCode::Committed),
        true,
        0,
    );
    assert_eq!(manager.take_pending_pastes(), vec!["/tmp/report.txt ".to_owned()]);
    assert!(manager.offers.get(&owned(owner, drop_id)).unwrap().source.is_some());
}

#[test]
fn a_first_drop_asks_for_consent() {
    let mut manager = FileDropManager::new();
    manager
        .set_binding(session(1), binding(4, 0, Some(FileDropDestination::ShellCwd)), true)
        .unwrap();
    let (first, offer) = manager.offer_local_file(Some(source(6)), None, 0);
    assert_eq!(first, LocalDropDisposition::ConsentRequired("Copy to remote shell"));
    assert!(offer.is_none());
    let (second, offer) = manager.offer_local_file(Some(source(6)), None, 0);
    assert_eq!(second, LocalDropDisposition::Offered);
    let (owner, offer) = offer.unwrap();
    assert_eq!(owner, session(1));
    assert_eq!(offer.suggested_name, "report.txt");
    assert_eq!(offer.declared_length, 6);
}

#[test]
fn a_drop_is_rejected_for_its_size_and_kind() {
    let mut manager = FileDropManager::new();
    manager
        .set_binding(session(1), binding(4, 0, Some(FileDropDestination::ShellCwd)), true)
        .unwrap();
    dropped(&mut manager, 6);
    assert_eq!(
        manager.offer_local_file(Some(source(1025)), None, 0).0,
        LocalDropDisposition::Rejected(DropRejection::TooLarge)
    );
    assert_eq!(
        manager.offer_local_file(None, None, 0).0,
        LocalDropDisposition::Rejected(DropRejection::NotARegularFile)
    );
    for _ in 1..DEFAULT_PENDING_FILE_DROPS {
        dropped(&mut manager, 6);
    }
    assert_eq!(
        manager.offer_local_file(Some(source(6)), None, 0).0,
        LocalDropDisposition::Rejected(DropRejection::TooManyPending)
    );
}

#[test]
fn a_binding_epoch_never_moves_backward() {
    let mut manager = FileDropManager::new();
    let owner = session(1);
    let first = binding(4, 0, Some(FileDropDestination::ShellCwd));
    let grant = manager.set_binding(owner, first, true).unwrap();
    // The same request again gives the same grant; another request of that epoch does not.
    assert_eq!(manager.set_binding(owner, first, true).unwrap(), grant);
    let changed = FileDropBinding { maximum_file_bytes: 2048, ..first };
    assert_eq!(manager.set_binding(owner, changed, true), Err(FileDropRefusal::ReusedEpoch));
    manager.set_binding(owner, binding(4, 0, None), true).unwrap();
    assert_eq!(manager.set_binding(owner, first, true), Err(FileDropRefusal::StaleEpoch));
}

#[test]
fn every_grant_of_a_session_is_of_a_later_generation() {
    let mut manager = FileDropManager::new();
    let (owner, other) = (session(1), session(2));
    let shell = Some(FileDropDestination::ShellCwd);
    let mut last = 0;
    for epoch in 1..4 {
        for surface in [8, 9, 0] {
            let wanted = FileDropBinding { producer_epoch: epoch, ..binding(4, surface, shell) };
            let grant = manager.set_binding(owner, wanted, epoch != 2).unwrap();
            assert!(grant.grant_generation > last);
            last = grant.grant_generation;
            // A repetition gets the same grant, whatever would be allowed by now.
            assert_eq!(manager.set_binding(owner, wanted, epoch == 2).unwrap(), grant);
            assert_eq!(manager.set_binding(other, wanted, true).unwrap().producer_epoch, epoch);
        }
        manager.remove_surface(owner, 4, 8);
        manager.remove_session(other);
    }
    assert_eq!(last, 9);
}

#[test]
fn an_acceptance_must_name_the_offer_exactly() {
    let mut manager = FileDropManager::new();
    let owner = session(1);
    manager
        .set_binding(owner, binding(4, 0, Some(FileDropDestination::ShellCwd)), true)
        .unwrap();
    let (_, offer) = dropped(&mut manager, 6);
    let wanted = acceptance(&offer, 7);
    // The offer belongs to one session.
    assert_eq!(manager.accept(session(2), wanted, 0), Err(FileDropRefusal::OfferAbsent));
    let mut stale = wanted;
    stale.binding.grant_generation += 1;
    assert_eq!(manager.accept(owner, stale, 0), Err(FileDropRefusal::StaleAcceptance));
    let accepted = manager.accept(owner, wanted, 0).unwrap();
    assert_eq!((accepted.drop_id, accepted.transfer_id), (offer.binding.drop_id, 7));
    assert_eq!(
        manager.accept(owner, acceptance(&offer, 8), 0),
        Err(FileDropRefusal::AlreadyAccepted)
    );
}

#[test]
fn a_transfer_runs_to_its_result() {
    let mut manager = FileDropManager::new();
    let owner = session(1);
    let offer = accepted_drop(&mut manager, owner, FileDropDestination::ShellCwd, 7);
    let open = FileTransferOpen {
        session_id: 1,
        context_id: 4,
        surface_id: 0,
        producer_epoch: 1,
        grant_generation: offer.binding.grant_generation,
        surface_generation: 0,
        drop_id: offer.binding.drop_id,
        transfer_id: 7,
        transfer_generation: 1,
        resume_offset: 0,
        maximum_record_body: 4096,
        maximum_body_bytes: 1 << 20,
        maximum_records: 64,
    };
    assert_eq!(manager.begin_transfer(owner, &open, 0), Ok((5, 6)));
    assert_eq!(
        manager.status(owner, offer.binding.drop_id, 0).unwrap().state,
        FileDropState::Transferring
    );
    assert_eq!(
        manager.binding_idle_timeout(owner, 7),
        Some(DEFAULT_FILE_TRANSFER_IDLE_US)
    );
    manager.finish_transfer(owner, result(7, Some("/w/report.txt"), FileResultCode::Committed), true, 0);
    let status = manager.status(owner, offer.binding.drop_id, 0).unwrap();
    assert_eq!(status.state, FileDropState::Committed);
    assert_eq!(status.result, Some(FileResultCode::Committed));
    assert_eq!(manager.take_pending_pastes(), vec!["/w/report.txt ".to_owned()]);
    assert_eq!(manager.take_pending_pastes(), Vec::<String>::new());
    // The result is kept for a while, and then forgotten.
    assert!(manager.status(owner, offer.binding.drop_id, FILE_DROP_RESULT_RETENTION_US - 1).is_ok());
    assert_eq!(
        manager.status(owner, offer.binding.drop_id, FILE_DROP_RESULT_RETENTION_US),
        Err(FileDropRefusal::OfferAbsent)
    );
}

#[test]
fn a_cancelled_offer_is_terminal_for_its_owner_alone() {
    let mut manager = FileDropManager::new();
    let owner = session(1);
    let offer = accepted_drop(&mut manager, owner, FileDropDestination::ShellCwd, 7);
    let cancellation = CancelFileDrop { binding: offer.binding, reason: 3 };
    assert_eq!(
        manager.cancel(session(2), cancellation, 0),
        Err(FileDropRefusal::OfferAbsent)
    );
    manager.cancel(owner, cancellation, 0).unwrap();
    assert_eq!(
        manager.status(owner, offer.binding.drop_id, 0).unwrap().state,
        FileDropState::Cancelled
    );
}

#[test]
fn an_unaccepted_offer_times_out_with_a_cancellation() {
    let mut manager = FileDropManager::new();
    let owner = session(1);
    manager
        .set_binding(owner, binding(4, 0, Some(FileDropDestination::ShellCwd)), true)
        .unwrap();
    let (_, offer) = dropped(&mut manager, 6);
    assert_eq!(manager.next_deadline(owner), Some(DEFAULT_FILE_DROP_ACCEPTANCE_US));
    assert!(manager.service_timeouts(owner, DEFAULT_FILE_DROP_ACCEPTANCE_US - 1).is_empty());
    let told = manager.service_timeouts(owner, DEFAULT_FILE_DROP_ACCEPTANCE_US);
    assert_eq!(told.len(), 1);
    assert_eq!(told[0].binding, offer.binding);
}

#[test]
fn what_expires_is_told_and_released_once() {
    let mut manager = FileDropManager::new();
    let owner = session(1);
    manager
        .set_binding(owner, binding(4, 0, Some(FileDropDestination::ShellCwd)), true)
        .unwrap();
    let (_, offer) = dropped(&mut manager, 6);
    let late = DEFAULT_FILE_DROP_ACCEPTANCE_US;
    assert!(manager.status(owner, offer.binding.drop_id, late - 1).is_ok());
    assert!(manager.cancellations.is_empty());
    assert!(manager.released.is_empty());
    // Too late to accept: the expiry on the way in notes it, and asking again notes nothing more.
    assert!(manager.accept(owner, acceptance(&offer, 9), late).is_err());
    assert!(manager.status(owner, offer.binding.drop_id, late).is_ok());
    assert_eq!(manager.cancellations.len(), 1);
    assert_eq!(manager.cancellations[0].0, owner);
    assert_eq!(manager.cancellations[0].1.binding, offer.binding);
    assert_eq!(manager.cancellations[0].1.reason, 1);
    assert_eq!(manager.released, vec![5]);
    assert_eq!(manager.service_timeouts(owner, late).len(), 1);
    assert!(manager.cancellations.is_empty());
    assert_eq!(manager.released, vec![5]);
    // A live source is released when its session goes, one whose source is gone is not.
    dropped(&mut manager, 6);
    manager.remove_session(session(2));
    assert_eq!(manager.released, vec![5]);
    manager.remove_session(owner);
    assert_eq!(manager.released, vec![5, 5]);
}

#[test]
fn removing_a_surface_or_a_context_forgets_its_binding() {
    let owner = session(1);
    let surface = owner.context(4).unwrap().surface(8).unwrap();
    let mut manager = FileDropManager::new();
    let shell = Some(FileDropDestination::ShellCwd);
    manager.set_binding(owner, binding(4, 8, shell), true).unwrap();
    manager.set_binding(owner, binding(4, 0, shell), true).unwrap();
    manager.remove_surface(owner, 4, 8);
    // The binding of the whole context remains, for that surface too.
    assert_eq!(manager.bindings.len(), 1);
    assert_eq!(manager.hover_label(Some((surface, 1))), Some("Copy to remote shell"));
    manager.remove_contexts(owner, &vec![4]);
    assert_eq!(manager.hover_label(None), None);
}

#[test]
fn a_local_path_is_pasted_as_typed() {
    assert_eq!(local_paste_text("a b"), "a b ");
    assert_eq!(local_paste_text(""), " ");
}
