//! Opening the connection of a file transfer, and the records that its stream writes.

use vstd::prelude::*;

use crate::actor::{record_view, OutgoingRecord};
use crate::digest::{hashed_bytes, sha256_of};
use crate::drop_manager::{transfer_begun, transfer_binding, FileDropManager};
use crate::file_drop::{FileDropRefusal, FileTransferOpen, OwnedId};
use crate::identity::SessionIdentity;
use crate::protocol::{
    ERROR, ERROR_PRECONDITION_FAILED, FILE_DROP, FILE_DROP_PATH, FILE_FINISH,
    FILE_TRANSFER_ACCEPTED, FILE_TRANSFER_OPEN,
};
use crate::registry::Registry;
use crate::reply::{error_bytes, protocol_error};
use crate::session::has_profile;
use crate::transfer::{
    authenticate_open, check_first_record, step_of, transfer_tag, FileFinish, FileStream,
    FirstRecordRefusal, OpenRejection, MAXIMUM_CHUNK,
};

verus! {

/// A request to open the connection of a transfer, with what authenticates it.
#[derive(Debug, Clone, Copy)]
pub struct SignedOpen {
    pub open: FileTransferOpen,
    pub client_nonce: [u8; 16],
    pub authentication_tag: [u8; 16],
}

/// The request that a body is, where it is valid.
pub uninterp spec fn transfer_open_decoded(body: Seq<u8>) -> Option<SignedOpen>;

/// The body that accepts a connection, where the codec takes it.
pub uninterp spec fn accepted_bytes(
    transfer_id: u64,
    transfer_generation: u64,
    resume_offset: u64,
) -> Option<Seq<u8>>;

/// The body that closes the data of a transfer, where the codec takes it.
pub uninterp spec fn finish_bytes(
    transfer_id: u64,
    transfer_generation: u64,
    final_length: u64,
    sha256: Seq<u8>,
) -> Option<Seq<u8>>;

/// `vivid_protocol::file_drop::FileTransferOpen::decode`: the request depends on the body alone, and
/// is refused where it is not valid.
#[verifier::external_body]
fn decode_open(body: &[u8]) -> (r: Option<SignedOpen>)
    ensures
        r == transfer_open_decoded(body@),
{
    let open = vivid_protocol::file_drop::FileTransferOpen::decode(body).ok()?;
    let fields = FileTransferOpen {
        session_id: open.session_id, context_id: open.context_id, surface_id: open.surface_id,
        producer_epoch: open.producer_epoch.get(), grant_generation: open.grant_generation.get(),
        surface_generation: open.surface_generation.get(), drop_id: open.drop_id,
        transfer_id: open.transfer_id, transfer_generation: open.transfer_generation.get(),
        resume_offset: open.resume_offset, maximum_record_body: open.maximum_record_body,
        maximum_body_bytes: open.maximum_body_bytes, maximum_records: open.maximum_records,
    };
    Some(SignedOpen { open: fields, client_nonce: open.client_nonce,
        authentication_tag: open.authentication_tag })
}

/// `vivid_protocol::file_drop::FileTransferAccepted::encode`: the body depends on the three numbers
/// alone, and there is none where the transfer or its generation is zero.
#[verifier::external_body]
fn encode_accepted(transfer_id: u64, transfer_generation: u64, resume_offset: u64) -> (r: Option<
    Vec<u8>,
>)
    ensures
        match r {
            Some(body) => accepted_bytes(transfer_id, transfer_generation, resume_offset) == Some(
                body@,
            ),
            None => accepted_bytes(transfer_id, transfer_generation, resume_offset) is None,
        },
        (transfer_id == 0 || transfer_generation == 0) ==> r is None,
{
    vivid_protocol::file_drop::FileTransferAccepted {
        transfer_id,
        transfer_generation: vivid_protocol::revision::FileTransferGeneration::new(transfer_generation),
        resume_offset,
    }.encode().ok()
}

/// `vivid_protocol::file_drop::FileFinish::encode`: the body depends on the four fields alone, and
/// there is none where the transfer or its generation is zero.
#[verifier::external_body]
fn encode_finish(finish: &FileFinish) -> (r: Option<Vec<u8>>)
    ensures
        match r {
            Some(body) => finish_bytes(
                finish.transfer_id,
                finish.transfer_generation,
                finish.final_length,
                finish.sha256@,
            ) == Some(body@),
            None => finish_bytes(
                finish.transfer_id,
                finish.transfer_generation,
                finish.final_length,
                finish.sha256@,
            ) is None,
        },
        (finish.transfer_id == 0 || finish.transfer_generation == 0) ==> r is None,
{
    vivid_protocol::file_drop::FileFinish {
        transfer_id: finish.transfer_id,
        transfer_generation: vivid_protocol::revision::FileTransferGeneration::new(finish.transfer_generation),
        final_length: finish.final_length,
        sha256: finish.sha256,
    }.encode().ok()
}

/// A number in as many bytes, the most significant first.
pub open spec fn big_endian(value: nat, count: nat) -> Seq<u8>
    decreases count,
{
    if count == 0 {
        Seq::empty()
    } else {
        big_endian(value / 256, (count - 1) as nat).push((value % 256) as u8)
    }
}

/// The bytes in front of the data of a record: where the data starts in eight bytes, how long it is
/// in four, and four zeros.
pub open spec fn data_prefix_of(offset: u64, length: u32) -> Seq<u8> {
    big_endian(offset as nat, 8) + big_endian(length as nat, 4) + big_endian(0, 4)
}

/// `vivid_protocol::file_drop::file_data_prefix`: the offset and the length, both big-endian, then
/// four zeros.
#[verifier::external_body]
fn file_data_prefix(offset: u64, length: u32) -> (r: Option<[u8; 16]>)
    requires
        0 < length <= MAXIMUM_CHUNK,
    ensures
        match r {
            Some(prefix) => prefix@ == data_prefix_of(offset, length),
            None => false,
        },
{
    vivid_protocol::file_drop::file_data_prefix(offset, length as usize).ok()
}

/// Why a connection carries no transfer.
#[derive(Debug, Clone, Copy, PartialEq, Eq, Structural)]
pub enum TransferRefusal {
    FirstRecord(FirstRecordRefusal),
    Undecodable,
    SessionAbsent,
    Rejected(u64, OpenRejection),
    Refused(u64, FileDropRefusal),
    BindingAbsent,
}

impl TransferRefusal {
    /// What the producer is told: for which transfer, under which code and in which words.
    pub open spec fn told(self) -> Option<(u64, u64, Seq<char>)> {
        match self {
            TransferRefusal::Rejected(transfer_id, rejection) => Some(
                (transfer_id, rejection.code_spec(), rejection.message_spec()),
            ),
            TransferRefusal::Refused(transfer_id, refusal) => Some(
                (transfer_id, ERROR_PRECONDITION_FAILED, refusal.message_spec()),
            ),
            _ => None,
        }
    }

    /// What the producer is told, where it is told anything and the codec takes it.
    pub fn record(&self) -> (r: Option<OutgoingRecord>)
        ensures
            match self.told() {
                Some((transfer_id, code, message)) => match error_bytes(0, code, true, message) {
                    Some(body) => r matches Some(record) && record_view(record) == (
                        ERROR,
                        transfer_id,
                        body,
                    ),
                    None => r is None,
                },
                None => r is None,
            },
    {
        let (transfer_id, code, message): (u64, u64, &'static str) = match *self {
            TransferRefusal::Rejected(transfer_id, rejection) => (
                transfer_id,
                rejection.code(),
                rejection.message(),
            ),
            TransferRefusal::Refused(transfer_id, refusal) => (
                transfer_id,
                ERROR_PRECONDITION_FAILED,
                refusal.message(),
            ),
            _ => {
                return None;
            },
        };
        match protocol_error(0, code, true, message.to_string()) {
            Ok(body) => Some((ERROR, transfer_id, body)),
            Err(_) => None,
        }
    }
}

/// A transfer whose producer has proved who it is.
#[derive(Debug, Clone, Copy)]
pub struct OpenedTransfer {
    pub session: SessionIdentity,
    pub open: FileTransferOpen,
    /// Whether the producer may tell where it put the file.
    pub path_negotiated: bool,
}

/// Whose transfer a first record opens, or why it opens none.
pub open spec fn transfer_request(
    registry: Registry,
    record_type: u16,
    sequence: u64,
    object_id: u64,
    body: Seq<u8>,
) -> Result<OpenedTransfer, TransferRefusal> {
    if record_type != FILE_TRANSFER_OPEN || sequence != 1 {
        Err(TransferRefusal::FirstRecord(FirstRecordRefusal::NotAnOpen))
    } else {
        match transfer_open_decoded(body) {
            None => Err(TransferRefusal::Undecodable),
            Some(signed) => {
                let transfer_id = signed.open.transfer_id;
                let session_id = signed.open.session_id;
                if object_id != transfer_id {
                    Err(TransferRefusal::FirstRecord(FirstRecordRefusal::ObjectMismatch))
                } else if !registry.sessions@.contains_key(session_id) {
                    Err(TransferRefusal::SessionAbsent)
                } else {
                    let session = registry.sessions@[session_id];
                    if !has_profile(session.accepted_profiles@, FILE_DROP@) {
                        Err(
                            TransferRefusal::Rejected(
                                transfer_id,
                                OpenRejection::ProfileNotNegotiated,
                            ),
                        )
                    } else if transfer_tag(
                        session.channel_key@,
                        signed.open,
                        signed.client_nonce@,
                    ) != signed.authentication_tag@ {
                        Err(
                            TransferRefusal::Rejected(
                                transfer_id,
                                OpenRejection::AuthenticationFailed,
                            ),
                        )
                    } else {
                        Ok(
                            OpenedTransfer {
                                session: session.identity,
                                open: signed.open,
                                path_negotiated: has_profile(
                                    session.accepted_profiles@,
                                    FILE_DROP_PATH@,
                                ),
                            },
                        )
                    }
                }
            },
        }
    }
}

impl Registry {
    /// Authenticate the producer that opens the connection of a transfer with its first record.
    pub fn authenticate_transfer(
        &self,
        record_type: u16,
        sequence: u64,
        object_id: u64,
        body: &Vec<u8>,
    ) -> (r: Result<OpenedTransfer, TransferRefusal>)
        requires
            self.wf(),
        ensures
            r == transfer_request(*self, record_type, sequence, object_id, body@),
    {
        if let Err(refusal) = check_first_record(record_type, sequence, object_id, object_id) {
            return Err(TransferRefusal::FirstRecord(refusal));
        }
        let signed = match decode_open(body.as_slice()) {
            Some(signed) => signed,
            None => {
                return Err(TransferRefusal::Undecodable);
            },
        };
        let transfer_id = signed.open.transfer_id;
        if let Err(refusal) = check_first_record(record_type, sequence, object_id, transfer_id) {
            return Err(TransferRefusal::FirstRecord(refusal));
        }
        let session = match self.sessions.get(&signed.open.session_id) {
            Some(session) => session,
            None => {
                return Err(TransferRefusal::SessionAbsent);
            },
        };
        if let Err(rejection) = authenticate_open(
            session.supports(FILE_DROP),
            &session.channel_key,
            &signed.open,
            &signed.client_nonce,
            &signed.authentication_tag,
        ) {
            return Err(TransferRefusal::Rejected(transfer_id, rejection));
        }
        Ok(
            OpenedTransfer {
                session: session.identity,
                open: signed.open,
                path_negotiated: session.supports(FILE_DROP_PATH),
            },
        )
    }
}

/// A transfer whose connection may stream.
#[derive(Debug, Clone, Copy, PartialEq, Eq, Structural)]
pub struct StartedTransfer {
    /// The source, and how long it is.
    pub handle: u64,
    pub length: u64,
    /// How long the connection may stay idle.
    pub idle_timeout_us: u64,
}

impl FileDropManager {
    /// Start the connection of a transfer whose producer has proved who it is.
    pub fn start_transfer(&mut self, opened: &OpenedTransfer, now_us: u64) -> (r: Result<
        StartedTransfer,
        TransferRefusal,
    >)
        requires
            old(self).wf(),
        ensures
            final(self).wf(),
            exists|outcome: Result<(u64, u64), FileDropRefusal>| #[trigger]
                transfer_begun(
                    *old(self),
                    *final(self),
                    opened.session,
                    opened.open,
                    now_us,
                    outcome,
                ) && match outcome {
                    Err(refusal) => r == Err::<StartedTransfer, TransferRefusal>(
                        TransferRefusal::Refused(opened.open.transfer_id, refusal),
                    ),
                    Ok((handle, length)) => {
                        let key = OwnedId { session: opened.session, id: opened.open.transfer_id };
                        let binding = transfer_binding(opened.session, final(self).transfers@[key]);
                        r == (if final(self).bindings@.contains_key(binding) {
                            Ok::<StartedTransfer, TransferRefusal>(
                                StartedTransfer {
                                    handle,
                                    length,
                                    idle_timeout_us: final(self).bindings@[binding].grant.idle_timeout_us,
                                },
                            )
                        } else {
                            Err(TransferRefusal::BindingAbsent)
                        })
                    },
                },
    {
        match self.begin_transfer(opened.session, &opened.open, now_us) {
            Err(refusal) => Err(TransferRefusal::Refused(opened.open.transfer_id, refusal)),
            Ok((handle, length)) => match self.binding_idle_timeout(
                opened.session,
                opened.open.transfer_id,
            ) {
                Some(idle_timeout_us) => Ok(StartedTransfer { handle, length, idle_timeout_us }),
                None => Err(TransferRefusal::BindingAbsent),
            },
        }
    }
}

/// The record that accepts the connection of a transfer, where the codec takes it.
pub fn transfer_accepted(open: &FileTransferOpen) -> (r: Option<OutgoingRecord>)
    ensures
        match accepted_bytes(open.transfer_id, open.transfer_generation, open.resume_offset) {
            Some(body) => r matches Some(record) && record_view(record) == (
                FILE_TRANSFER_ACCEPTED,
                open.transfer_id,
                body,
            ),
            None => r is None,
        },
{
    match encode_accepted(open.transfer_id, open.transfer_generation, open.resume_offset) {
        Some(body) => Some((FILE_TRANSFER_ACCEPTED, open.transfer_id, body)),
        None => None,
    }
}

impl FileStream {
    /// The bytes in front of the chunk that is due.
    pub fn data_prefix(&self) -> (r: Option<[u8; 16]>)
        requires
            self.wf(),
            step_of(*self) is WriteData,
        ensures
            r matches Some(prefix) && prefix@ == data_prefix_of(self.offset, self.held as u32),
    {
        file_data_prefix(self.offset, self.held as u32)
    }

    /// The record that closes the stream, where the codec takes it.
    pub fn finish_record(&mut self) -> (r: Option<OutgoingRecord>)
        requires
            old(self).wf(),
            step_of(*old(self)) is WriteFinish,
        ensures
            final(self).wf(),
            *final(self) == (FileStream { finished: true, ..*old(self) }),
            match finish_bytes(
                old(self).open.transfer_id,
                old(self).open.transfer_generation,
                old(self).length,
                sha256_of(hashed_bytes(old(self).hasher)),
            ) {
                Some(body) => r matches Some(record) && record_view(record) == (
                    FILE_FINISH,
                    old(self).open.transfer_id,
                    body,
                ),
                None => r is None,
            },
    {
        let finish = self.finish();
        match encode_finish(&finish) {
            Some(body) => Some((FILE_FINISH, self.open.transfer_id, body)),
            None => None,
        }
    }
}

/// The number that bytes stand for, the most significant first.
pub open spec fn number_of(bytes: Seq<u8>) -> nat
    decreases bytes.len(),
{
    if bytes.len() == 0 {
        0
    } else {
        number_of(bytes.drop_last()) * 256 + bytes.last() as nat
    }
}

/// A number that fits stands in its bytes.
pub proof fn a_number_stands_in_its_bytes(value: nat, count: nat)
    ensures
        big_endian(value, count).len() == count,
        value < vstd::arithmetic::power::pow(256, count) ==> number_of(big_endian(value, count))
            == value,
    decreases count,
{
    if count > 0 {
        let rest = (count - 1) as nat;
        a_number_stands_in_its_bytes(value / 256, rest);
        assert(big_endian(value, count).drop_last() =~= big_endian(value / 256, rest));
        vstd::arithmetic::power::lemma_pow_positive(256, rest);
        if value < vstd::arithmetic::power::pow(256, count) {
            reveal(vstd::arithmetic::power::pow);
            assert(vstd::arithmetic::power::pow(256, count) == 256 * vstd::arithmetic::power::pow(
                256,
                rest,
            ));
        }
    } else {
        reveal(vstd::arithmetic::power::pow);
    }
}

/// What stands in front of data is where the data goes, how long it is, and nothing else.
pub proof fn data_is_told_where_it_goes(offset: u64, length: u32)
    ensures
        data_prefix_of(offset, length).len() == 16,
        number_of(data_prefix_of(offset, length).subrange(0, 8)) == offset,
        number_of(data_prefix_of(offset, length).subrange(8, 12)) == length,
        number_of(data_prefix_of(offset, length).subrange(12, 16)) == 0,
{
    a_number_stands_in_its_bytes(offset as nat, 8);
    a_number_stands_in_its_bytes(length as nat, 4);
    a_number_stands_in_its_bytes(0, 4);
    assert(vstd::arithmetic::power::pow(256, 8) == 0x1_0000_0000_0000_0000
        && vstd::arithmetic::power::pow(256, 4) == 0x1_0000_0000) by {
        reveal(vstd::arithmetic::power::pow);
        reveal_with_fuel(vstd::arithmetic::power::pow, 9);
    }
    let prefix = data_prefix_of(offset, length);
    assert(prefix.subrange(0, 8) =~= big_endian(offset as nat, 8));
    assert(prefix.subrange(8, 12) =~= big_endian(length as nat, 4));
    assert(prefix.subrange(12, 16) =~= big_endian(0, 4));
}

/// A transfer is opened only for a session that may transfer files, by someone who knows its key,
/// and as the first record of its connection; the path of a file is told only where that was agreed.
pub proof fn a_transfer_is_opened_by_whoever_knows_the_key(
    registry: &Registry,
    record_type: u16,
    sequence: u64,
    object_id: u64,
    body: &Vec<u8>,
    r: Result<OpenedTransfer, TransferRefusal>,
)
    requires
        registry.wf(),
        call_ensures(
            Registry::authenticate_transfer,
            (registry, record_type, sequence, object_id, body),
            r,
        ),
    ensures
        r matches Ok(opened) ==> ({
            let session = registry.sessions@[opened.open.session_id];
            &&& record_type == 0x7010 && sequence == 1 && object_id == opened.open.transfer_id
            &&& registry.sessions@.contains_key(opened.open.session_id)
            &&& opened.session == session.identity
            &&& has_profile(session.accepted_profiles@, FILE_DROP@)
            &&& opened.path_negotiated <==> has_profile(session.accepted_profiles@, FILE_DROP_PATH@)
            &&& transfer_open_decoded(body@) matches Some(signed) && signed.open == opened.open
                && transfer_tag(session.channel_key@, signed.open, signed.client_nonce@)
                == signed.authentication_tag@
        }),
{
}

/// Whoever is refused a transfer is told why where it proved who it is or what it lacks, and nothing
/// otherwise.
pub proof fn a_refused_transfer_is_told_why(refusal: TransferRefusal)
    ensures
        refusal.told() is Some <==> refusal is Rejected || refusal is Refused,
        refusal matches TransferRefusal::Refused(transfer_id, reason) ==> refusal.told() == Some(
            (transfer_id, 21u64, reason.message_spec()),
        ),
        refusal matches TransferRefusal::Rejected(transfer_id, rejection) ==> refusal.told() == Some(
            (transfer_id, rejection.code_spec(), rejection.message_spec()),
        ),
{
}

/// A connection that is accepted is told so under its own record type, about its transfer, with where
/// it goes on.
pub proof fn an_accepted_transfer_is_told_where_it_goes_on(
    open: &FileTransferOpen,
    r: Option<OutgoingRecord>,
)
    requires
        call_ensures(transfer_accepted, (open,), r),
    ensures
        r matches Some(record) ==> record_view(record).0 == 0x7011 && record_view(record).1
            == open.transfer_id && accepted_bytes(
            open.transfer_id,
            open.transfer_generation,
            open.resume_offset,
        ) == Some(record_view(record).2),
{
}

/// A stream is closed under its own record type, about its transfer.
pub proof fn a_stream_is_closed_about_its_transfer(stream: &mut FileStream, r: Option<OutgoingRecord>)
    requires
        call_ensures(FileStream::finish_record, (stream,), r),
    ensures
        final(stream).finished,
        final(stream).offset == old(stream).offset,
        r matches Some(record) ==> record_view(record).0 == 0x7014 && record_view(record).1 == old(stream).open.transfer_id,
{
}

} // verus!
