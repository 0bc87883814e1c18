//! The stream of a file transfer.

use sha2::Digest;
use vivid_protocol::revision::{
    FileDropEpoch, FileDropGrantGeneration, FileTransferGeneration, SurfaceGeneration,
};
use vivido::file_drop::{FileResult, FileResultCode, FileTransferOpen};
use vivido::protocol;
use vivido::transfer::{
    authenticate_open, check_first_record, FileStream, FirstRecordRefusal, MaximumFileData,
    OpenRejection, StreamError, StreamStep, FILE_DATA_PREFIX_SIZE, MAXIMUM_CHUNK,
};
use vivido::transfer_control::transfer_accepted;

fn open(resume_offset: u64) -> FileTransferOpen {
    FileTransferOpen {
        session_id: 1,
        context_id: 4,
        surface_id: 0,
        producer_epoch: 1,
        grant_generation: 1,
        surface_generation: 0,
        drop_id: 2,
        transfer_id: 7,
        transfer_generation: 1,
        resume_offset,
        maximum_record_body: 20,
        maximum_body_bytes: 40,
        maximum_records: 64,
    }
}

fn wire_open() -> vivid_protocol::file_drop::FileTransferOpen {
    vivid_protocol::file_drop::FileTransferOpen {
        session_id: 1,
        context_id: 4,
        surface_id: 0,
        producer_epoch: FileDropEpoch::new(1),
        grant_generation: FileDropGrantGeneration::new(1),
        surface_generation: SurfaceGeneration::new(0),
        drop_id: 2,
        transfer_id: 7,
        transfer_generation: FileTransferGeneration::new(1),
        resume_offset: 0,
        maximum_record_body: 20,
        maximum_body_bytes: 40,
        maximum_records: 64,
        client_nonce: [8; 16],
        authentication_tag: [0; 16],
    }
}

fn credit(body: u64, records: u64) -> Vec<u8> {
    vivid_protocol::file_drop::MaximumFileData {
        transfer_id: 7,
        transfer_generation: FileTransferGeneration::new(1),
        maximum_body_bytes: body,
        maximum_records: records,
    }
    .encode()
    .unwrap()
}

fn result_body(length: u64) -> Vec<u8> {
    vivid_protocol::file_drop::FileResult {
        transfer_id: 7,
        transfer_generation: FileTransferGeneration::new(1),
        result: vivid_protocol::file_drop::FileResultCode::Committed,
        committed_length: length,
        final_name: "report.txt".into(),
        committed_path: None,
    }
    .encode()
    .unwrap()
}

#[test]
fn an_open_is_authenticated_with_the_channel_key() {
    let mut wire = wire_open();
    wire.sign(&[6; 32]);
    assert_eq!(
        authenticate_open(true, &[6; 32], &open(0), &[8; 16], &wire.authentication_tag),
        Ok(())
    );
    assert_eq!(
        authenticate_open(true, &[5; 32], &open(0), &[8; 16], &wire.authentication_tag),
        Err(OpenRejection::AuthenticationFailed)
    );
    assert_eq!(
        authenticate_open(true, &[6; 32], &open(3), &[8; 16], &wire.authentication_tag),
        Err(OpenRejection::AuthenticationFailed)
    );
    assert_eq!(
        authenticate_open(false, &[6; 32], &open(0), &[8; 16], &wire.authentication_tag),
        Err(OpenRejection::ProfileNotNegotiated)
    );
    assert_ne!(OpenRejection::AuthenticationFailed.code(), OpenRejection::ProfileNotNegotiated.code());
}

#[test]
fn the_first_record_opens_the_transfer() {
    assert_eq!(check_first_record(protocol::FILE_TRANSFER_OPEN, 1, 7, 7), Ok(()));
    assert_eq!(
        check_first_record(protocol::FILE_DATA, 1, 7, 7),
        Err(FirstRecordRefusal::NotAnOpen)
    );
    assert_eq!(
        check_first_record(protocol::FILE_TRANSFER_OPEN, 2, 7, 7),
        Err(FirstRecordRefusal::NotAnOpen)
    );
    assert_eq!(
        check_first_record(protocol::FILE_TRANSFER_OPEN, 1, 8, 7),
        Err(FirstRecordRefusal::ObjectMismatch)
    );
}

#[test]
fn a_file_is_sent_in_order_and_its_digest_closes_it() {
    // Records of twenty bytes carry four bytes of the file each.
    let file = b"report";
    let mut stream = FileStream::start(open(0), 6);
    assert_eq!(stream.next(), StreamStep::Read(4));
    stream.take(&file[..4]);
    assert_eq!(stream.next(), StreamStep::WriteData(0, 4));
    stream.wrote_data();
    assert_eq!(stream.next(), StreamStep::Read(2));
    stream.take(&file[4..]);
    assert_eq!(stream.next(), StreamStep::WriteData(4, 2));
    stream.wrote_data();
    assert_eq!(stream.sent_body, 6 + 2 * FILE_DATA_PREFIX_SIZE);
    assert_eq!(stream.next(), StreamStep::WriteFinish);
    let finish = stream.finish();
    let mut hasher = sha2::Sha256::new();
    hasher.update(file);
    let digest: [u8; 32] = hasher.finalize().into();
    assert_eq!(finish.sha256, digest);
    assert_eq!(finish.final_length, 6);
    assert_eq!(stream.next(), StreamStep::AwaitResult);
    let result = stream.read_result(protocol::FILE_RESULT, 7, &result_body(6)).unwrap().unwrap();
    assert_eq!(result.result, FileResultCode::Committed);
    assert_eq!(result.final_name, "report.txt");
}

#[test]
fn the_records_of_a_stream_are_framed() {
    let mut stream = FileStream::start(open(0), 4);
    stream.take(b"repo");
    let prefix = stream.data_prefix().unwrap();
    assert_eq!(prefix, [0, 0, 0, 0, 0, 0, 0, 0, 0, 0, 0, 4, 0, 0, 0, 0]);
    stream.wrote_data();
    let (record_type, object_id, body) = stream.finish_record().unwrap();
    assert_eq!((record_type, object_id), (protocol::FILE_FINISH, 7));
    let finish = vivid_protocol::file_drop::FileFinish::decode(&body).unwrap();
    assert_eq!(finish.final_length, 4);
    let mut hasher = sha2::Sha256::new();
    hasher.update(b"repo");
    let digest: [u8; 32] = hasher.finalize().into();
    assert_eq!(finish.sha256, digest);
    // A chunk further on names where it starts.
    let resumed = FileTransferOpen { resume_offset: 258, ..open(0) };
    let mut stream = FileStream::start(resumed, 260);
    while let StreamStep::Read(length) = stream.next() {
        stream.take(&vec![1; length as usize]);
    }
    assert_eq!(stream.next(), StreamStep::WriteData(258, 2));
    assert_eq!(stream.data_prefix().unwrap(), [0, 0, 0, 0, 0, 0, 1, 2, 0, 0, 0, 2, 0, 0, 0, 0]);
}

#[test]
fn an_accepted_connection_is_told_where_it_resumes() {
    let (record_type, object_id, body) = transfer_accepted(&open(3)).unwrap();
    assert_eq!((record_type, object_id), (protocol::FILE_TRANSFER_ACCEPTED, 7));
    let accepted = vivid_protocol::file_drop::FileTransferAccepted::decode(&body).unwrap();
    assert_eq!(accepted.resume_offset, 3);
    assert_eq!(accepted.transfer_generation.get(), 1);
    assert!(transfer_accepted(&FileTransferOpen { transfer_id: 0, ..open(3) }).is_none());
}

#[test]
fn a_resumed_file_is_hashed_from_its_start() {
    let file = b"report";
    let mut stream = FileStream::start(open(4), 6);
    assert_eq!(stream.next(), StreamStep::Read(4));
    stream.take(&file[..4]);
    // What was committed already is not sent again.
    assert_eq!(stream.next(), StreamStep::Read(2));
    stream.take(&file[4..]);
    assert_eq!(stream.next(), StreamStep::WriteData(4, 2));
    stream.wrote_data();
    let mut hasher = sha2::Sha256::new();
    hasher.update(file);
    let digest: [u8; 32] = hasher.finalize().into();
    assert_eq!(stream.finish().sha256, digest);
}

#[test]
fn data_waits_for_credit() {
    let mut stream = FileStream::start(FileTransferOpen { maximum_body_bytes: 10, ..open(0) }, 6);
    stream.take(b"repo");
    assert_eq!(stream.next(), StreamStep::AwaitCredit);
    assert_eq!(
        stream.read_credit(protocol::MAX_FILE_DATA, 8, &credit(40, 64)),
        Err(StreamError::ObjectMismatch)
    );
    assert_eq!(
        stream.read_credit(protocol::MAX_FILE_DATA, 7, &[0xff]),
        Err(StreamError::Undecodable)
    );
    assert_eq!(
        stream.read_credit(protocol::MAX_FILE_DATA, 7, &credit(9, 64)),
        Err(StreamError::CreditMovedBackward)
    );
    assert_eq!(
        stream.read_credit(protocol::FILE_TRANSFER_ABORT, 7, &[]),
        Err(StreamError::Aborted)
    );
    assert_eq!(
        stream.read_credit(protocol::FILE_DATA, 7, &[]),
        Err(StreamError::UnexpectedRecord)
    );
    let stale = MaximumFileData {
        transfer_id: 7,
        transfer_generation: 2,
        maximum_body_bytes: 40,
        maximum_records: 64,
    };
    assert_eq!(stream.apply_credit(stale), Err(StreamError::StaleCredit));
    stream.read_credit(protocol::MAX_FILE_DATA, 7, &credit(40, 64)).unwrap();
    assert_eq!(stream.next(), StreamStep::WriteData(0, 4));
}

#[test]
fn a_result_must_fit_the_file() {
    let stream = FileStream::start(open(0), 6);
    let result = |length: u64| FileResult {
        transfer_id: 7,
        transfer_generation: 1,
        result: FileResultCode::Committed,
        committed_length: length,
        final_name: "report.txt".into(),
        committed_path: None,
    };
    assert_eq!(stream.check_result(result(6)), Ok(result(6)));
    assert_eq!(stream.check_result(result(5)), Err(StreamError::InvalidResult));
    assert_eq!(
        stream.read_result(protocol::FILE_RESULT, 7, &result_body(5)),
        Err(StreamError::InvalidResult)
    );
    assert_eq!(stream.read_result(protocol::MAX_FILE_DATA, 7, &credit(40, 64)), Ok(None));
}

#[test]
fn a_record_too_small_for_data_has_no_room() {
    let stream = FileStream::start(FileTransferOpen { maximum_record_body: 16, ..open(0) }, 6);
    assert_eq!(stream.next(), StreamStep::NoRoom);
    let large = FileTransferOpen { maximum_record_body: u32::MAX, ..open(0) };
    assert_eq!(FileStream::start(large, 6).chunk, MAXIMUM_CHUNK);
    assert_eq!(FileStream::start(open(0), 0).next(), StreamStep::WriteFinish);
}
