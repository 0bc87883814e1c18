//! The stream of one file transfer.
//!
//! A stream reads its source in chunks, hashes every byte from the start of the file, skips what
//! the producer already has, sends the rest within the credit it was given, and closes with the
//! length and the hash. Reading, writing and waiting are the caller's; `next` says which is due.

use vstd::prelude::*;
use sha2::Sha256;
use vivid_protocol::messages::MessageError;

use crate::digest::{digest, feed, hashed_bytes, new_hasher, sha256_of};
use crate::file_drop::{FileResult, FileResultCode, FileTransferOpen};
use crate::protocol;

verus! {

/// The bytes in front of the data in a data record.
pub const FILE_DATA_PREFIX_SIZE: u64 = 16;

/// The largest chunk that is read at once.
pub const MAXIMUM_CHUNK: u64 = 1_048_576;

/// The credit a producer grants.
#[derive(Debug, Clone, Copy, PartialEq, Eq, Structural)]
pub struct MaximumFileData {
    pub transfer_id: u64,
    pub transfer_generation: u64,
    pub maximum_body_bytes: u64,
    pub maximum_records: u64,
}

/// What closes the data of a transfer.
#[derive(Debug, Clone, Copy, PartialEq, Eq)]
pub struct FileFinish {
    pub transfer_id: u64,
    pub transfer_generation: u64,
    pub final_length: u64,
    pub sha256: [u8; 32],
}

/// What a result record holds.
pub struct FileResultView {
    pub transfer_id: u64,
    pub transfer_generation: u64,
    pub result: FileResultCode,
    pub committed_length: u64,
    pub final_name: Seq<char>,
    pub committed_path: Option<Seq<char>>,
}

impl View for FileResult {
    type V = FileResultView;

    open spec fn view(&self) -> FileResultView {
        FileResultView {
            transfer_id: self.transfer_id,
            transfer_generation: self.transfer_generation,
            result: self.result,
            committed_length: self.committed_length,
            final_name: self.final_name@,
            committed_path: match self.committed_path {
                Some(path) => Some(path@),
                None => None,
            },
        }
    }
}

/// The credit a record body grants, where it is well formed.
pub uninterp spec fn credit_of(body: Seq<u8>) -> Option<MaximumFileData>;

/// The result a record body reports, where it is well formed.
pub uninterp spec fn result_of(body: Seq<u8>) -> Option<FileResultView>;

/// The tag that authenticates the opening of a transfer.
pub uninterp spec fn transfer_tag(
    channel_key: Seq<u8>,
    open: FileTransferOpen,
    client_nonce: Seq<u8>,
) -> Seq<u8>;

/// `vivid_protocol::file_drop::MaximumFileData::decode`: the credit depends on the body alone.
#[verifier::external_body]
fn decode_credit(body: &[u8]) -> (r: Result<MaximumFileData, MessageError>)
    ensures
        match r {
            Ok(credit) => credit_of(body@) == Some(credit),
            Err(_) => credit_of(body@) is None,
        },
{
    let credit = vivid_protocol::file_drop::MaximumFileData::decode(body)?;
    Ok(
        MaximumFileData {
            transfer_id: credit.transfer_id,
            transfer_generation: credit.transfer_generation.get(),
            maximum_body_bytes: credit.maximum_body_bytes,
            maximum_records: credit.maximum_records,
        },
    )
}

/// `vivid_protocol::file_drop::FileResult::decode`: the result depends on the body alone.
#[verifier::external_body]
fn decode_result(body: &[u8]) -> (r: Result<FileResult, MessageError>)
    ensures
        match r {
            Ok(result) => result_of(body@) == Some(result@),
            Err(_) => result_of(body@) is None,
        },
{
    let result = vivid_protocol::file_drop::FileResult::decode(body)?;
    let code = match result.result {
        vivid_protocol::file_drop::FileResultCode::Committed => FileResultCode::Committed,
        vivid_protocol::file_drop::FileResultCode::Rejected => FileResultCode::Rejected,
        vivid_protocol::file_drop::FileResultCode::Cancelled => FileResultCode::Cancelled,
        vivid_protocol::file_drop::FileResultCode::HashMismatch => FileResultCode::HashMismatch,
        vivid_protocol::file_drop::FileResultCode::IoError => FileResultCode::IoError,
        vivid_protocol::file_drop::FileResultCode::AlreadyCommitted => FileResultCode::AlreadyCommitted,
    };
    Ok(FileResult { transfer_id: result.transfer_id, transfer_generation: result.transfer_generation.get(), result: code,
        committed_length: result.committed_length, final_name: result.final_name, committed_path: result.committed_path })
}

/// `vivid_protocol::file_drop::FileTransferOpen::verify`: whether the tag is the one that the key
/// gives for the other fields.
#[verifier::external_body]
fn verify_open(
    channel_key: &[u8; 32],
    open: &FileTransferOpen,
    client_nonce: &[u8; 16],
    authentication_tag: &[u8; 16],
) -> (r: bool)
    ensures
        r == (transfer_tag(channel_key@, *open, client_nonce@) == authentication_tag@),
{
    vivid_protocol::file_drop::FileTransferOpen {
        session_id: open.session_id, context_id: open.context_id, surface_id: open.surface_id,
        producer_epoch: vivid_protocol::revision::FileDropEpoch::new(open.producer_epoch),
        grant_generation: vivid_protocol::revision::FileDropGrantGeneration::new(open.grant_generation),
        surface_generation: vivid_protocol::revision::SurfaceGeneration::new(open.surface_generation),
        drop_id: open.drop_id, transfer_id: open.transfer_id,
        transfer_generation: vivid_protocol::revision::FileTransferGeneration::new(open.transfer_generation),
        resume_offset: open.resume_offset, maximum_record_body: open.maximum_record_body,
        maximum_body_bytes: open.maximum_body_bytes, maximum_records: open.maximum_records,
        client_nonce: *client_nonce, authentication_tag: *authentication_tag,
    }.verify(channel_key)
}

/// Why a connection may not carry a transfer.
#[derive(Debug, Clone, Copy, PartialEq, Eq, Structural)]
pub enum OpenRejection {
    ProfileNotNegotiated,
    AuthenticationFailed,
}

impl OpenRejection {
    /// The error code the producer is told.
    pub open spec fn code_spec(self) -> u64 {
        match self {
            OpenRejection::ProfileNotNegotiated => protocol::ERROR_UNSUPPORTED_PROFILE,
            OpenRejection::AuthenticationFailed => protocol::ERROR_AUTH_FAILED,
        }
    }

    /// The error code the producer is told.
    pub fn code(self) -> (r: u64)
        ensures
            r == self.code_spec(),
    {
        match self {
            OpenRejection::ProfileNotNegotiated => protocol::ERROR_UNSUPPORTED_PROFILE,
            OpenRejection::AuthenticationFailed => protocol::ERROR_AUTH_FAILED,
        }
    }

    /// The diagnostic the producer is told.
    pub open spec fn message_spec(self) -> Seq<char> {
        match self {
            OpenRejection::ProfileNotNegotiated => "file-drop-v1 was not negotiated"@,
            OpenRejection::AuthenticationFailed => "file-transfer authentication failed"@,
        }
    }

    /// The diagnostic the producer is told.
    pub fn message(self) -> (r: &'static str)
        ensures
            r@ == self.message_spec(),
    {
        match self {
            OpenRejection::ProfileNotNegotiated => "file-drop-v1 was not negotiated",
            OpenRejection::AuthenticationFailed => "file-transfer authentication failed",
        }
    }
}

/// Why the first record of a connection does not open a transfer.
#[derive(Debug, Clone, Copy, PartialEq, Eq, Structural)]
pub enum FirstRecordRefusal {
    NotAnOpen,
    ObjectMismatch,
}

/// Check the first record of a connection: an open, in first place, sent for its own transfer.
pub fn check_first_record(record_type: u16, sequence: u64, object_id: u64, transfer_id: u64) -> (r:
    Result<(), FirstRecordRefusal>)
    ensures
        r == (if record_type != protocol::FILE_TRANSFER_OPEN || sequence != 1 {
            Err::<(), FirstRecordRefusal>(FirstRecordRefusal::NotAnOpen)
        } else if object_id != transfer_id {
            Err(FirstRecordRefusal::ObjectMismatch)
        } else {
            Ok(())
        }),
{
    if record_type != protocol::FILE_TRANSFER_OPEN || sequence != 1 {
        return Err(FirstRecordRefusal::NotAnOpen);
    }
    if object_id != transfer_id {
        return Err(FirstRecordRefusal::ObjectMismatch);
    }
    Ok(())
}

/// Authenticate a producer that opens the connection of a transfer.
pub fn authenticate_open(
    negotiated: bool,
    channel_key: &[u8; 32],
    open: &FileTransferOpen,
    client_nonce: &[u8; 16],
    authentication_tag: &[u8; 16],
) -> (r: Result<(), OpenRejection>)
    ensures
        r == (if !negotiated {
            Err::<(), OpenRejection>(OpenRejection::ProfileNotNegotiated)
        } else if transfer_tag(channel_key@, *open, client_nonce@) != authentication_tag@ {
            Err(OpenRejection::AuthenticationFailed)
        } else {
            Ok(())
        }),
{
    if !negotiated {
        return Err(OpenRejection::ProfileNotNegotiated);
    }
    if !verify_open(channel_key, open, client_nonce, authentication_tag) {
        return Err(OpenRejection::AuthenticationFailed);
    }
    Ok(())
}

/// What a stream does next.
#[derive(Debug, Clone, Copy, PartialEq, Eq, Structural)]
pub enum StreamStep {
    /// Read exactly this many bytes of the source.
    Read(u64),
    /// Wait for a record from the producer: the chunk that was read does not fit in the credit.
    AwaitCredit,
    /// Write the chunk that was read: where it starts, and how long it is.
    WriteData(u64, u64),
    /// Write the closing record.
    WriteFinish,
    /// Wait for the producer's result.
    AwaitResult,
    /// The record limit leaves no room for data.
    NoRoom,
}

/// Why a stream ends early.
#[derive(Debug, Clone, Copy, PartialEq, Eq, Structural)]
pub enum StreamError {
    ObjectMismatch,
    Undecodable,
    StaleCredit,
    CreditMovedBackward,
    Aborted,
    UnexpectedRecord,
    InvalidResult,
}

/// The stream of one transfer.
pub struct FileStream {
    pub open: FileTransferOpen,
    pub length: u64,
    pub chunk: u64,
    /// How much of the source was skipped or sent.
    pub offset: u64,
    /// How much was read behind that and waits to be sent.
    pub held: u64,
    pub sent_body: u64,
    pub sent_records: u64,
    pub maximum_body: u64,
    pub maximum_records: u64,
    pub finished: bool,
    pub hasher: Sha256,
}

/// The chunk that a record limit leaves room for.
pub open spec fn chunk_of(maximum_record_body: u32) -> u64 {
    let room = maximum_record_body - FILE_DATA_PREFIX_SIZE;
    if room <= 0 {
        0
    } else if room <= MAXIMUM_CHUNK {
        room as u64
    } else {
        MAXIMUM_CHUNK
    }
}

/// What is due in a stream.
pub open spec fn step_of(stream: FileStream) -> StreamStep {
    let goal = if stream.offset < stream.open.resume_offset {
        stream.open.resume_offset
    } else {
        stream.length
    };
    if stream.finished {
        StreamStep::AwaitResult
    } else if stream.held > 0 {
        if stream.sent_body + FILE_DATA_PREFIX_SIZE + stream.held <= stream.maximum_body
            && stream.sent_records + 1 <= stream.maximum_records {
            StreamStep::WriteData(stream.offset, stream.held)
        } else {
            StreamStep::AwaitCredit
        }
    } else if stream.offset >= goal {
        StreamStep::WriteFinish
    } else if stream.chunk == 0 {
        StreamStep::NoRoom
    } else if goal - stream.offset <= stream.chunk {
        StreamStep::Read((goal - stream.offset) as u64)
    } else {
        StreamStep::Read(stream.chunk)
    }
}

/// What a credit record does to a stream, or why it ends it.
pub open spec fn credit_refusal(stream: FileStream, credit: MaximumFileData) -> Option<StreamError> {
    if credit.transfer_id != stream.open.transfer_id || credit.transfer_generation
        != stream.open.transfer_generation {
        Some(StreamError::StaleCredit)
    } else if credit.maximum_body_bytes < stream.maximum_body || credit.maximum_records
        < stream.maximum_records || credit.maximum_body_bytes < stream.sent_body
        || credit.maximum_records < stream.sent_records {
        Some(StreamError::CreditMovedBackward)
    } else {
        None
    }
}

/// Whether a result is one that this stream can have.
pub open spec fn result_fits(stream: FileStream, result: FileResultView) -> bool {
    &&& result.transfer_id == stream.open.transfer_id
    &&& result.transfer_generation == stream.open.transfer_generation
    &&& result.committed_length <= stream.length
    &&& result.result.is_committed() ==> result.committed_length == stream.length
}

impl FileStream {
    /// What is sent stays within the credit, and every byte up to here was hashed.
    pub open spec fn wf(&self) -> bool {
        &&& self.chunk == chunk_of(self.open.maximum_record_body)
        &&& self.sent_body <= self.maximum_body
        &&& self.sent_records <= self.maximum_records
        &&& self.held <= self.chunk
        &&& self.held > 0 ==> self.open.resume_offset <= self.offset && self.offset + self.held
            <= self.length
        &&& self.offset <= self.open.resume_offset || self.offset <= self.length
        &&& hashed_bytes(self.hasher).len() == self.offset + self.held
        &&& self.finished ==> self.held == 0 && self.offset >= self.open.resume_offset
            && self.offset >= self.length
    }

    /// A stream over a source of this length, before its first byte.
    pub fn start(open: FileTransferOpen, length: u64) -> (r: Self)
        ensures
            r.wf(),
            r.open == open,
            r.length == length,
            r.offset == 0,
            r.held == 0,
            r.sent_body == 0,
            r.sent_records == 0,
            r.maximum_body == open.maximum_body_bytes,
            r.maximum_records == open.maximum_records,
            !r.finished,
            hashed_bytes(r.hasher) == Seq::<u8>::empty(),
    {
        let limit: u64 = open.maximum_record_body as u64;
        let chunk: u64 = if limit <= FILE_DATA_PREFIX_SIZE {
            0
        } else if limit - FILE_DATA_PREFIX_SIZE <= MAXIMUM_CHUNK {
            limit - FILE_DATA_PREFIX_SIZE
        } else {
            MAXIMUM_CHUNK
        };
        FileStream {
            open,
            length,
            chunk,
            offset: 0,
            held: 0,
            sent_body: 0,
            sent_records: 0,
            maximum_body: open.maximum_body_bytes,
            maximum_records: open.maximum_records,
            finished: false,
            hasher: new_hasher(),
        }
    }

    /// What is due.
    pub fn next(&self) -> (r: StreamStep)
        requires
            self.wf(),
        ensures
            r == step_of(*self),
    {
        if self.finished {
            return StreamStep::AwaitResult;
        }
        if self.held > 0 {
            let room = match self.sent_body.checked_add(FILE_DATA_PREFIX_SIZE + self.held) {
                Some(body) => body <= self.maximum_body,
                None => false,
            };
            let records = match self.sent_records.checked_add(1) {
                Some(count) => count <= self.maximum_records,
                None => false,
            };
            return if room && records {
                StreamStep::WriteData(self.offset, self.held)
            } else {
                StreamStep::AwaitCredit
            };
        }
        let goal: u64 = if self.offset < self.open.resume_offset {
            self.open.resume_offset
        } else {
            self.length
        };
        if self.offset >= goal {
            StreamStep::WriteFinish
        } else if self.chunk == 0 {
            StreamStep::NoRoom
        } else if goal - self.offset <= self.chunk {
            StreamStep::Read(goal - self.offset)
        } else {
            StreamStep::Read(self.chunk)
        }
    }

    /// Take the bytes that were read. What the producer already has is only hashed.
    pub fn take(&mut self, data: &[u8])
        requires
            old(self).wf(),
            step_of(*old(self)) == StreamStep::Read(data@.len() as u64),
            data@.len() <= u64::MAX,
        ensures
            final(self).wf(),
            hashed_bytes(final(self).hasher) == hashed_bytes(old(self).hasher) + data@,
            *final(self) == (FileStream {
                hasher: final(self).hasher,
                offset: final(self).offset,
                held: final(self).held,
                ..*old(self)
            }),
            old(self).offset < old(self).open.resume_offset ==> final(self).held == 0 && final(
                self).offset == old(self).offset + data@.len(),
            old(self).offset >= old(self).open.resume_offset ==> final(self).held == data@.len()
                && final(self).offset == old(self).offset,
    {
        let count: u64 = data.len() as u64;
        feed(&mut self.hasher, data);
        if self.offset < self.open.resume_offset {
            self.offset = self.offset + count;
        } else {
            self.held = count;
        }
    }

    /// Note that the chunk that was read has been written.
    pub fn wrote_data(&mut self)
        requires
            old(self).wf(),
            step_of(*old(self)) is WriteData,
        ensures
            final(self).wf(),
            *final(self) == (FileStream {
                sent_body: (old(self).sent_body + FILE_DATA_PREFIX_SIZE + old(self).held) as u64,
                sent_records: (old(self).sent_records + 1) as u64,
                offset: (old(self).offset + old(self).held) as u64,
                held: 0,
                ..*old(self)
            }),
    {
        self.sent_body = self.sent_body + (FILE_DATA_PREFIX_SIZE + self.held);
        self.sent_records = self.sent_records + 1;
        self.offset = self.offset + self.held;
        self.held = 0;
    }

    /// Raise the credit.
    pub fn apply_credit(&mut self, credit: MaximumFileData) -> (r: Result<(), StreamError>)
        requires
            old(self).wf(),
        ensures
            final(self).wf(),
            match credit_refusal(*old(self), credit) {
                Some(error) => r == Err::<(), StreamError>(error) && *final(self) == *old(self),
                None => r is Ok && *final(self) == (FileStream {
                    maximum_body: credit.maximum_body_bytes,
                    maximum_records: credit.maximum_records,
                    ..*old(self)
                }),
            },
    {
        if credit.transfer_id != self.open.transfer_id || credit.transfer_generation
            != self.open.transfer_generation {
            return Err(StreamError::StaleCredit);
        }
        if credit.maximum_body_bytes < self.maximum_body || credit.maximum_records
            < self.maximum_records || credit.maximum_body_bytes < self.sent_body
            || credit.maximum_records < self.sent_records {
            return Err(StreamError::CreditMovedBackward);
        }
        self.maximum_body = credit.maximum_body_bytes;
        self.maximum_records = credit.maximum_records;
        Ok(())
    }

    /// Handle a record that arrives while the stream waits for credit.
    pub fn read_credit(&mut self, record_type: u16, object_id: u64, body: &[u8]) -> (r: Result<
        (),
        StreamError,
    >)
        requires
            old(self).wf(),
        ensures
            final(self).wf(),
            match awaited_credit(*old(self), record_type, object_id, credit_of(body@)) {
                Err(error) => r == Err::<(), StreamError>(error) && *final(self) == *old(self),
                Ok(credit) => r is Ok && *final(self) == (FileStream {
                    maximum_body: credit.maximum_body_bytes,
                    maximum_records: credit.maximum_records,
                    ..*old(self)
                }),
            },
    {
        if object_id != self.open.transfer_id {
            return Err(StreamError::ObjectMismatch);
        }
        if record_type == protocol::MAX_FILE_DATA {
            return match decode_credit(body) {
                Ok(credit) => self.apply_credit(credit),
                Err(_) => Err(StreamError::Undecodable),
            };
        }
        if record_type == protocol::FILE_TRANSFER_ABORT {
            return Err(StreamError::Aborted);
        }
        Err(StreamError::UnexpectedRecord)
    }

    /// The closing record, with the hash of the whole source.
    pub fn finish(&mut self) -> (r: FileFinish)
        requires
            old(self).wf(),
            step_of(*old(self)) is WriteFinish,
        ensures
            final(self).wf(),
            *final(self) == (FileStream { finished: true, ..*old(self) }),
            r.transfer_id == old(self).open.transfer_id,
            r.transfer_generation == old(self).open.transfer_generation,
            r.final_length == old(self).length,
            r.sha256@ == sha256_of(hashed_bytes(old(self).hasher)),
    {
        let sha256 = digest(&self.hasher);
        self.finished = true;
        FileFinish {
            transfer_id: self.open.transfer_id,
            transfer_generation: self.open.transfer_generation,
            final_length: self.length,
            sha256,
        }
    }

    /// Check a result against the stream.
    pub fn check_result(&self, result: FileResult) -> (r: Result<FileResult, StreamError>)
        requires
            self.wf(),
        ensures
            r == (if result_fits(*self, result@) {
                Ok(result)
            } else {
                Err::<FileResult, StreamError>(StreamError::InvalidResult)
            }),
    {
        if result.transfer_id != self.open.transfer_id || result.transfer_generation
            != self.open.transfer_generation || result.committed_length > self.length || (
        result.result.committed() && result.committed_length != self.length) {
            return Err(StreamError::InvalidResult);
        }
        Ok(result)
    }

    /// Handle a record that arrives while the stream waits for its result. `None` means that it
    /// keeps waiting.
    pub fn read_result(&self, record_type: u16, object_id: u64, body: &[u8]) -> (r: Result<
        Option<FileResult>,
        StreamError,
    >)
        requires
            self.wf(),
        ensures
            match awaited_result(
                *self,
                record_type,
                object_id,
                credit_of(body@),
                result_of(body@),
            ) {
                Err(error) => r == Err::<Option<FileResult>, StreamError>(error),
                Ok(None) => r matches Ok(None),
                Ok(Some(result)) => r matches Ok(Some(found)) && found@ == result,
            },
    {
        if object_id != self.open.transfer_id {
            return Err(StreamError::ObjectMismatch);
        }
        if record_type == protocol::FILE_RESULT {
            return match decode_result(body) {
                Ok(result) => match self.check_result(result) {
                    Ok(checked) => Ok(Some(checked)),
                    Err(error) => Err(error),
                },
                Err(_) => Err(StreamError::Undecodable),
            };
        }
        if record_type == protocol::MAX_FILE_DATA {
            return match decode_credit(body) {
                Ok(credit) => if credit.transfer_id != self.open.transfer_id
                    || credit.transfer_generation != self.open.transfer_generation {
                    Err(StreamError::StaleCredit)
                } else {
                    Ok(None)
                },
                Err(_) => Err(StreamError::Undecodable),
            };
        }
        if record_type == protocol::FILE_TRANSFER_ABORT {
            return Err(StreamError::Aborted);
        }
        Err(StreamError::UnexpectedRecord)
    }
}

/// What a record means while the stream waits for credit.
pub open spec fn awaited_credit(
    stream: FileStream,
    record_type: u16,
    object_id: u64,
    credit: Option<MaximumFileData>,
) -> Result<MaximumFileData, StreamError> {
    if object_id != stream.open.transfer_id {
        Err(StreamError::ObjectMismatch)
    } else if record_type == protocol::MAX_FILE_DATA {
        match credit {
            None => Err(StreamError::Undecodable),
            Some(granted) => match credit_refusal(stream, granted) {
                Some(error) => Err(error),
                None => Ok(granted),
            },
        }
    } else if record_type == protocol::FILE_TRANSFER_ABORT {
        Err(StreamError::Aborted)
    } else {
        Err(StreamError::UnexpectedRecord)
    }
}

/// What a record means while the stream waits for its result.
pub open spec fn awaited_result(
    stream: FileStream,
    record_type: u16,
    object_id: u64,
    credit: Option<MaximumFileData>,
    result: Option<FileResultView>,
) -> Result<Option<FileResultView>, StreamError> {
    if object_id != stream.open.transfer_id {
        Err(StreamError::ObjectMismatch)
    } else if record_type == protocol::FILE_RESULT {
        match result {
            None => Err(StreamError::Undecodable),
            Some(reported) => if result_fits(stream, reported) {
                Ok(Some(reported))
            } else {
                Err(StreamError::InvalidResult)
            },
        }
    } else if record_type == protocol::MAX_FILE_DATA {
        match credit {
            None => Err(StreamError::Undecodable),
            Some(granted) => if granted.transfer_id != stream.open.transfer_id
                || granted.transfer_generation != stream.open.transfer_generation {
                Err(StreamError::StaleCredit)
            } else {
                Ok(None)
            },
        }
    } else if record_type == protocol::FILE_TRANSFER_ABORT {
        Err(StreamError::Aborted)
    } else {
        Err(StreamError::UnexpectedRecord)
    }
}

/// A stream never writes beyond the credit it was given: while a data record is due, sending it
/// stays within both limits.
pub proof fn data_stays_within_credit(stream: FileStream)
    requires
        stream.wf(),
        step_of(stream) is WriteData,
    ensures
        stream.sent_body + FILE_DATA_PREFIX_SIZE + stream.held <= stream.maximum_body,
        stream.sent_records + 1 <= stream.maximum_records,
        stream.open.resume_offset <= stream.offset,
        stream.offset + stream.held <= stream.length,
{
}

/// The hash that closes a stream covers as many bytes as the source has, where the producer did not
/// claim to have more than that.
pub proof fn the_closing_hash_covers_the_whole_source(stream: FileStream)
    requires
        stream.wf(),
        stream.open.resume_offset <= stream.length,
        step_of(stream) is WriteFinish,
    ensures
        hashed_bytes(stream.hasher).len() == stream.length,
{
}

/// Credit only ever rises.
pub proof fn credit_never_moves_backward(stream: FileStream, credit: MaximumFileData)
    requires
        credit_refusal(stream, credit) is None,
    ensures
        credit.maximum_body_bytes >= stream.maximum_body,
        credit.maximum_records >= stream.maximum_records,
{
}

/// A connection is let in only where the session may transfer files and the connection knows the
/// key, and is told which of the two it lacks.
pub proof fn a_connection_has_to_know_the_key(
    negotiated: bool,
    channel_key: &[u8; 32],
    open: &FileTransferOpen,
    client_nonce: &[u8; 16],
    authentication_tag: &[u8; 16],
    r: Result<(), OpenRejection>,
)
    requires
        call_ensures(
            authenticate_open,
            (negotiated, channel_key, open, client_nonce, authentication_tag),
            r,
        ),
    ensures
        r is Ok <==> negotiated && transfer_tag(channel_key@, *open, client_nonce@)
            == authentication_tag@,
        r matches Err(rejection) ==> (rejection.code_spec() == 3 <==> !negotiated) && (
        rejection.code_spec() == 1 <==> negotiated),
{
}

/// The first record of a connection opens it, is the first, and is about its own transfer.
pub proof fn the_first_record_opens_the_transfer(
    record_type: u16,
    sequence: u64,
    object_id: u64,
    transfer_id: u64,
    r: Result<(), FirstRecordRefusal>,
)
    requires
        call_ensures(check_first_record, (record_type, sequence, object_id, transfer_id), r),
    ensures
        r is Ok <==> record_type == 0x7010 && sequence == 1 && object_id == transfer_id,
        r == Err::<(), FirstRecordRefusal>(FirstRecordRefusal::ObjectMismatch) <==> record_type
            == 0x7010 && sequence == 1 && object_id != transfer_id,
{
}

/// A stream reads what is to be skipped up to where the producer resumes, and then what is to be
/// sent up to the end, never more than a record carries; it closes only when everything was read
/// and sent.
pub proof fn a_stream_reads_to_its_end(stream: &FileStream, r: StreamStep)
    requires
        stream.wf(),
        call_ensures(FileStream::next, (stream,), r),
    ensures
        r matches StreamStep::Read(count) ==> {
            &&& 1 <= count <= stream.chunk
            &&& stream.held == 0
            &&& stream.offset < stream.open.resume_offset ==> stream.offset + count
                <= stream.open.resume_offset
            &&& stream.offset >= stream.open.resume_offset ==> stream.offset + count <= stream.length
        },
        r matches StreamStep::WriteData(offset, count) ==> offset == stream.offset && count
            == stream.held && count > 0 && offset >= stream.open.resume_offset,
        r is WriteFinish ==> stream.held == 0 && stream.offset >= stream.length && stream.offset
            >= stream.open.resume_offset && !stream.finished,
        r is AwaitResult <==> stream.finished,
        r is AwaitCredit ==> stream.held > 0 && (stream.sent_records >= stream.maximum_records
            || stream.sent_body + 16 + stream.held > stream.maximum_body),
        r is NoRoom ==> stream.open.maximum_record_body <= 16,
{
}

/// A chunk leaves room for what stands in front of it in a record, and is never longer than the
/// limit.
pub proof fn a_chunk_fits_its_record(maximum_record_body: u32)
    ensures
        chunk_of(maximum_record_body) <= 1_048_576,
        maximum_record_body >= 16 ==> chunk_of(maximum_record_body) + 16 <= maximum_record_body,
        maximum_record_body <= 16 ==> chunk_of(maximum_record_body) == 0,
        16 <= maximum_record_body <= 1_048_592 ==> chunk_of(maximum_record_body) + 16
            == maximum_record_body,
{
}

/// What was sent is charged: the data and what stands in front of it, and one record; and the stream
/// goes on behind it.
pub proof fn what_was_sent_is_charged(stream: &mut FileStream)
    requires
        old(stream).wf(),
        step_of(*old(stream)) is WriteData,
        call_ensures(FileStream::wrote_data, (stream,), ()),
    ensures
        final(stream).sent_body == old(stream).sent_body + old(stream).held + 16,
        final(stream).sent_records == old(stream).sent_records + 1,
        final(stream).offset == old(stream).offset + old(stream).held,
        final(stream).held == 0,
        final(stream).maximum_body == old(stream).maximum_body,
        final(stream).maximum_records == old(stream).maximum_records,
{
}

/// Credit is taken only for this very transfer, and raises each of the two limits to what it says.
pub proof fn credit_raises_its_own_limit(
    stream: &mut FileStream,
    credit: MaximumFileData,
    r: Result<(), StreamError>,
)
    requires
        old(stream).wf(),
        call_ensures(FileStream::apply_credit, (stream, credit), r),
    ensures
        r is Ok ==> final(stream).maximum_body == credit.maximum_body_bytes && final(stream).maximum_records == credit.maximum_records && credit.transfer_id == old(stream).open.transfer_id && credit.transfer_generation == old(stream).open.transfer_generation,
        r is Err ==> *final(stream) == *old(stream),
        credit.transfer_id == old(stream).open.transfer_id && credit.transfer_generation == old(stream).open.transfer_generation && credit.maximum_body_bytes >= old(stream).maximum_body
            && credit.maximum_records >= old(stream).maximum_records ==> r is Ok,
        final(stream).sent_body == old(stream).sent_body && final(stream).offset == old(stream).offset,
{
}

/// A stream closes with the length of its source and the hash of every byte that was read, and for
/// its own transfer.
pub proof fn a_stream_closes_with_its_length_and_hash(stream: &mut FileStream, r: FileFinish)
    requires
        old(stream).wf(),
        step_of(*old(stream)) is WriteFinish,
        call_ensures(FileStream::finish, (stream,), r),
    ensures
        r.final_length == old(stream).length,
        r.sha256@ == sha256_of(hashed_bytes(old(stream).hasher)),
        r.transfer_id == old(stream).open.transfer_id,
        r.transfer_generation == old(stream).open.transfer_generation,
        final(stream).finished,
{
}

/// A result is believed only where it is of this transfer, commits no more than was sent, and
/// everything where it says that the file is at its destination.
pub proof fn a_result_is_believed_only_where_it_can_be(
    stream: &FileStream,
    result: FileResult,
    r: Result<FileResult, StreamError>,
)
    requires
        stream.wf(),
        call_ensures(FileStream::check_result, (stream, result), r),
    ensures
        r is Ok <==> result.transfer_id == stream.open.transfer_id && result.transfer_generation
            == stream.open.transfer_generation && result.committed_length <= stream.length && ((
        result.result is Committed || result.result is AlreadyCommitted) ==> result.committed_length
            == stream.length),
        r matches Ok(believed) ==> believed == result,
{
}

/// Credit is read from a record of its own kind and of this transfer, and is then what may be sent. An
/// abort ends the transfer, and anything else is out of place.
pub proof fn credit_is_read_for_this_transfer(
    stream: &mut FileStream,
    record_type: u16,
    object_id: u64,
    body: &[u8],
    r: Result<(), StreamError>,
)
    requires
        call_ensures(FileStream::read_credit, (stream, record_type, object_id, body), r),
    ensures
        r is Ok ==> record_type == 0x7013 && object_id == old(stream).open.transfer_id && (credit_of(
            body@,
        ) matches Some(credit) && final(stream).maximum_body == credit.maximum_body_bytes
            && final(stream).maximum_records == credit.maximum_records && credit.transfer_generation
            == old(stream).open.transfer_generation),
        r is Err ==> *final(stream) == *old(stream),
        object_id == old(stream).open.transfer_id && record_type == 0x7016 ==> r == Err::<
            (),
            StreamError,
        >(StreamError::Aborted),
        final(stream).sent_body == old(stream).sent_body,
        final(stream).sent_records == old(stream).sent_records,
{
}

/// A result is read from a record of its own kind and of this transfer. Credit that comes late is
/// passed over, an abort ends the transfer, and anything else is out of place.
pub proof fn a_result_is_read_for_this_transfer(
    stream: &FileStream,
    record_type: u16,
    object_id: u64,
    body: &[u8],
    r: Result<Option<FileResult>, StreamError>,
)
    requires
        call_ensures(FileStream::read_result, (stream, record_type, object_id, body), r),
    ensures
        object_id != stream.open.transfer_id ==> r is Err,
        r matches Ok(Some(found)) ==> record_type == 0x7015 && result_of(body@) == Some(found@)
            && found@.transfer_id == stream.open.transfer_id && found@.transfer_generation
            == stream.open.transfer_generation && found@.committed_length <= stream.length,
        r matches Ok(None) ==> record_type == 0x7013,
        object_id == stream.open.transfer_id && record_type == 0x7016 ==> r == Err::<
            Option<FileResult>,
            StreamError,
        >(StreamError::Aborted),
        record_type != 0x7013 && record_type != 0x7015 ==> r is Err,
{
}

} // verus!
