//! Why a track channel ended, said in a way that is safe to show.

use vstd::prelude::*;

use crate::mic::is_control;
use crate::protocol::{ERROR_DECODER, ERROR_DEVICE_LOST, ERROR_FLOW_CONTROL, ERROR_RATE_LIMITED};

verus! {

/// The most bytes of a diagnostic that are kept.
pub const MAXIMUM_DIAGNOSTIC_BYTES: usize = 1_024;

/// What kind of failure ended a channel.
#[derive(Debug, Clone, Copy, PartialEq, Eq, Structural)]
pub enum ChannelFailureKind {
    ProtocolFraming,
    TransportRead,
    TransportWrite,
    RateLimit,
    FlowControl,
    RecordIdentity,
    RecordType,
    MediaParse,
    MediaAdmission,
    Decode,
    AudioOutput,
    SceneState,
    InternalState,
}

/// The kind of an input or output error.
#[derive(Debug, Clone, Copy, PartialEq, Eq, Structural)]
pub enum ErrorKind {
    NotFound,
    PermissionDenied,
    ConnectionRefused,
    ConnectionReset,
    ConnectionAborted,
    NotConnected,
    AddrInUse,
    AddrNotAvailable,
    BrokenPipe,
    AlreadyExists,
    WouldBlock,
    InvalidInput,
    InvalidData,
    TimedOut,
    WriteZero,
    Interrupted,
    Unsupported,
    UnexpectedEof,
    OutOfMemory,
    Other,
}

impl ChannelFailureKind {
    /// The name of a kind.
    pub open spec fn name_spec(self) -> Seq<char> {
        match self {
            ChannelFailureKind::ProtocolFraming => "protocol_framing"@,
            ChannelFailureKind::TransportRead => "transport_read"@,
            ChannelFailureKind::TransportWrite => "transport_write"@,
            ChannelFailureKind::RateLimit => "rate_limit"@,
            ChannelFailureKind::FlowControl => "flow_control"@,
            ChannelFailureKind::RecordIdentity => "record_identity"@,
            ChannelFailureKind::RecordType => "record_type"@,
            ChannelFailureKind::MediaParse => "media_parse"@,
            ChannelFailureKind::MediaAdmission => "media_admission"@,
            ChannelFailureKind::Decode => "decode"@,
            ChannelFailureKind::AudioOutput => "audio_output"@,
            ChannelFailureKind::SceneState => "scene_state"@,
            ChannelFailureKind::InternalState => "internal_state"@,
        }
    }

    /// The name of a kind.
    pub fn name(self) -> (r: &'static str)
        ensures
            r@ == self.name_spec(),
    {
        match self {
            ChannelFailureKind::ProtocolFraming => "protocol_framing",
            ChannelFailureKind::TransportRead => "transport_read",
            ChannelFailureKind::TransportWrite => "transport_write",
            ChannelFailureKind::RateLimit => "rate_limit",
            ChannelFailureKind::FlowControl => "flow_control",
            ChannelFailureKind::RecordIdentity => "record_identity",
            ChannelFailureKind::RecordType => "record_type",
            ChannelFailureKind::MediaParse => "media_parse",
            ChannelFailureKind::MediaAdmission => "media_admission",
            ChannelFailureKind::Decode => "decode",
            ChannelFailureKind::AudioOutput => "audio_output",
            ChannelFailureKind::SceneState => "scene_state",
            ChannelFailureKind::InternalState => "internal_state",
        }
    }
}

/// The name of an error kind.
pub open spec fn error_kind_name(kind: ErrorKind) -> Seq<char> {
    match kind {
        ErrorKind::NotFound => "not_found"@,
        ErrorKind::PermissionDenied => "permission_denied"@,
        ErrorKind::ConnectionRefused => "connection_refused"@,
        ErrorKind::ConnectionReset => "connection_reset"@,
        ErrorKind::ConnectionAborted => "connection_aborted"@,
        ErrorKind::NotConnected => "not_connected"@,
        ErrorKind::AddrInUse => "address_in_use"@,
        ErrorKind::AddrNotAvailable => "address_not_available"@,
        ErrorKind::BrokenPipe => "broken_pipe"@,
        ErrorKind::AlreadyExists => "already_exists"@,
        ErrorKind::WouldBlock => "would_block"@,
        ErrorKind::InvalidInput => "invalid_input"@,
        ErrorKind::InvalidData => "invalid_data"@,
        ErrorKind::TimedOut => "timed_out"@,
        ErrorKind::WriteZero => "write_zero"@,
        ErrorKind::Interrupted => "interrupted"@,
        ErrorKind::Unsupported => "unsupported"@,
        ErrorKind::UnexpectedEof => "unexpected_eof"@,
        ErrorKind::OutOfMemory => "out_of_memory"@,
        ErrorKind::Other => "other"@,
    }
}

/// The name of an error kind.
pub fn io_error_kind_name(kind: ErrorKind) -> (r: &'static str)
    ensures
        r@ == error_kind_name(kind),
{
    match kind {
        ErrorKind::NotFound => "not_found",
        ErrorKind::PermissionDenied => "permission_denied",
        ErrorKind::ConnectionRefused => "connection_refused",
        ErrorKind::ConnectionReset => "connection_reset",
        ErrorKind::ConnectionAborted => "connection_aborted",
        ErrorKind::NotConnected => "not_connected",
        ErrorKind::AddrInUse => "address_in_use",
        ErrorKind::AddrNotAvailable => "address_not_available",
        ErrorKind::BrokenPipe => "broken_pipe",
        ErrorKind::AlreadyExists => "already_exists",
        ErrorKind::WouldBlock => "would_block",
        ErrorKind::InvalidInput => "invalid_input",
        ErrorKind::InvalidData => "invalid_data",
        ErrorKind::TimedOut => "timed_out",
        ErrorKind::WriteZero => "write_zero",
        ErrorKind::Interrupted => "interrupted",
        ErrorKind::Unsupported => "unsupported",
        ErrorKind::UnexpectedEof => "unexpected_eof",
        ErrorKind::OutOfMemory => "out_of_memory",
        ErrorKind::Other => "other",
    }
}

/// Which record a channel was at.
#[derive(Debug, Clone, Copy, PartialEq, Eq, Structural)]
pub struct ChannelRecordContext {
    pub record_type: Option<u16>,
    pub record_sequence: Option<u64>,
    pub body_bytes: Option<u64>,
    pub media_epoch: Option<u32>,
    pub media_id: Option<u64>,
    pub pts_us: Option<i64>,
}

impl ChannelRecordContext {
    /// No record.
    pub open spec fn none() -> Self {
        ChannelRecordContext {
            record_type: None,
            record_sequence: None,
            body_bytes: None,
            media_epoch: None,
            media_id: None,
            pts_us: None,
        }
    }

    /// No record was read.
    pub fn new() -> (r: Self)
        ensures
            r == Self::none(),
    {
        ChannelRecordContext {
            record_type: None,
            record_sequence: None,
            body_bytes: None,
            media_epoch: None,
            media_id: None,
            pts_us: None,
        }
    }

    /// A record was read; nothing is known of its media.
    pub fn begin_record(&mut self, record_type: u16, record_sequence: u64, body_bytes: usize)
        ensures
            *final(self) == (ChannelRecordContext {
                record_type: Some(record_type),
                record_sequence: Some(record_sequence),
                body_bytes: Some(body_bytes as u64),
                ..Self::none()
            }),
    {
        *self =
        ChannelRecordContext {
            record_type: Some(record_type),
            record_sequence: Some(record_sequence),
            body_bytes: Some(body_bytes as u64),
            media_epoch: None,
            media_id: None,
            pts_us: None,
        };
    }

    /// The record holds this media.
    pub fn media(&mut self, epoch: u32, media_id: u64, pts_us: i64)
        ensures
            *final(self) == (ChannelRecordContext {
                media_epoch: Some(epoch),
                media_id: Some(media_id),
                pts_us: Some(pts_us),
                ..*old(self)
            }),
    {
        self.media_epoch = Some(epoch);
        self.media_id = Some(media_id);
        self.pts_us = Some(pts_us);
    }
}

/// A failure that ended a channel, and the record it happened at.
#[derive(Debug)]
pub struct ChannelFailure {
    pub kind: ChannelFailureKind,
    pub error_kind: ErrorKind,
    pub error: String,
    pub context: ChannelRecordContext,
}

/// The code that tells a producer of a failure.
pub open spec fn failure_code(kind: ChannelFailureKind, error_kind: ErrorKind) -> u64 {
    match kind {
        ChannelFailureKind::RateLimit => ERROR_RATE_LIMITED,
        ChannelFailureKind::FlowControl | ChannelFailureKind::MediaAdmission => ERROR_FLOW_CONTROL,
        ChannelFailureKind::AudioOutput => ERROR_DEVICE_LOST,
        _ => match error_kind {
            ErrorKind::NotFound | ErrorKind::NotConnected | ErrorKind::BrokenPipe => {
                ERROR_DEVICE_LOST
            },
            _ => ERROR_DECODER,
        },
    }
}

impl ChannelFailure {
    /// A failure with an error of any kind.
    pub fn io(
        kind: ChannelFailureKind,
        error_kind: ErrorKind,
        error: String,
        context: ChannelRecordContext,
    ) -> (r: Self)
        ensures
            r == (ChannelFailure { kind, error_kind, error, context }),
    {
        ChannelFailure { kind, error_kind, error, context }
    }

    /// A failure that is no input or output error.
    pub fn other(kind: ChannelFailureKind, error: String, context: ChannelRecordContext) -> (r: Self)
        ensures
            r == (ChannelFailure { kind, error_kind: ErrorKind::Other, error, context }),
    {
        ChannelFailure::io(kind, ErrorKind::Other, error, context)
    }

    /// A failure said in a fixed text.
    pub fn message(
        kind: ChannelFailureKind,
        error_kind: ErrorKind,
        message: &'static str,
        context: ChannelRecordContext,
    ) -> (r: Self)
        ensures
            r.kind == kind,
            r.error_kind == error_kind,
            r.error@ == message@,
            r.context == context,
    {
        ChannelFailure::io(kind, error_kind, message.to_owned(), context)
    }

    /// A record could not be read: what came was malformed, or the transport failed.
    pub fn read(error_kind: ErrorKind, error: String, context: ChannelRecordContext) -> (r: Self)
        ensures
            r == (ChannelFailure {
                kind: if error_kind == ErrorKind::InvalidData {
                    ChannelFailureKind::ProtocolFraming
                } else {
                    ChannelFailureKind::TransportRead
                },
                error_kind,
                error,
                context,
            }),
    {
        let kind = if error_kind == ErrorKind::InvalidData {
            ChannelFailureKind::ProtocolFraming
        } else {
            ChannelFailureKind::TransportRead
        };
        ChannelFailure::io(kind, error_kind, error, context)
    }

    /// The code that tells the producer of the failure.
    pub fn protocol_error_code(&self) -> (r: u64)
        ensures
            r == failure_code(self.kind, self.error_kind),
    {
        match self.kind {
            ChannelFailureKind::RateLimit => ERROR_RATE_LIMITED,
            ChannelFailureKind::FlowControl | ChannelFailureKind::MediaAdmission => {
                ERROR_FLOW_CONTROL
            },
            ChannelFailureKind::AudioOutput => ERROR_DEVICE_LOST,
            _ => match self.error_kind {
                ErrorKind::NotFound | ErrorKind::NotConnected | ErrorKind::BrokenPipe => {
                    ERROR_DEVICE_LOST
                },
                _ => ERROR_DECODER,
            },
        }
    }

    /// What is shown of the failure.
    pub fn diagnostic(&self) -> (r: String)
        ensures
            r@ == sanitized(self.error@),
    {
        sanitize_trace_diagnostic(self.error.as_str())
    }
}

/// How many bytes a character takes in UTF-8.
pub open spec fn utf8_length(character: char) -> nat {
    let code = character as u32;
    if code < 0x80 {
        1
    } else if code < 0x800 {
        2
    } else if code < 0x10000 {
        3
    } else {
        4
    }
}

/// How many bytes a text takes in UTF-8.
pub open spec fn utf8_size(content: Seq<char>) -> nat
    decreases content.len(),
{
    if content.len() == 0 {
        0
    } else {
        utf8_size(content.drop_last()) + utf8_length(content.last())
    }
}

/// A character as it is shown: a control character is a blank.
pub open spec fn shown(character: char) -> char {
    if is_control(character) {
        ' '
    } else {
        character
    }
}

/// A text as it is shown.
pub open spec fn all_shown(content: Seq<char>) -> Seq<char> {
    content.map_values(|character: char| shown(character))
}

/// How many characters of a text are kept: as many as fit, from the start.
pub open spec fn kept_count(content: Seq<char>, count: int) -> int
    decreases content.len() - count,
{
    if count < 0 || count >= content.len() {
        content.len() as int
    } else if utf8_size(content.take(count + 1)) > MAXIMUM_DIAGNOSTIC_BYTES {
        count
    } else {
        kept_count(content, count + 1)
    }
}

/// A diagnostic without control characters, cut where it grows too long.
pub open spec fn sanitized(input: Seq<char>) -> Seq<char> {
    all_shown(input).take(kept_count(all_shown(input), 0))
}

fn character_bytes(character: char) -> (r: usize)
    ensures
        r == utf8_length(character),
{
    let code = character as u32;
    if code < 0x80 {
        1
    } else if code < 0x800 {
        2
    } else if code < 0x10000 {
        3
    } else {
        4
    }
}

/// A diagnostic that is safe to show.
pub fn sanitize_trace_diagnostic(input: &str) -> (r: String)
    ensures
        r@ == sanitized(input@),
{
    let length = input.unicode_len();
    let mut output = String::new();
    let mut bytes: usize = 0;
    let mut index: usize = 0;
    let ghost whole = all_shown(input@);
    assert(output@ =~= whole.take(0));
    while index < length
        invariant
            length == input@.len(),
            whole == all_shown(input@),
            index <= length,
            output@ == whole.take(index as int),
            bytes == utf8_size(output@),
            bytes <= MAXIMUM_DIAGNOSTIC_BYTES,
            kept_count(whole, 0) == kept_count(whole, index as int),
        decreases length - index,
    {
        let given = input.get_char(index);
        let code = given as u32;
        let character = if code <= 0x1f || (0x7f <= code && code <= 0x9f) {
            ' '
        } else {
            given
        };
        proof {
            assert(whole.take(index + 1) =~= whole.take(index as int).push(character));
            assert(whole.take(index + 1).drop_last() =~= whole.take(index as int));
        }
        let more = character_bytes(character);
        if bytes + more > MAXIMUM_DIAGNOSTIC_BYTES {
            return output;
        }
        output.push(character);
        bytes = bytes + more;
        index = index + 1;
    }
    output
}

proof fn lemma_kept(content: Seq<char>, count: int)
    requires
        0 <= count <= content.len(),
        utf8_size(content.take(count)) <= MAXIMUM_DIAGNOSTIC_BYTES,
    ensures
        count <= kept_count(content, count) <= content.len(),
        utf8_size(content.take(kept_count(content, count))) <= MAXIMUM_DIAGNOSTIC_BYTES,
    decreases content.len() - count,
{
    if count < content.len() {
        if utf8_size(content.take(count + 1)) <= MAXIMUM_DIAGNOSTIC_BYTES {
            lemma_kept(content, count + 1);
        }
    } else {
        assert(content.take(count) =~= content);
    }
}

/// A diagnostic is bounded, and nothing in it can drive a terminal.
pub proof fn a_diagnostic_is_bounded_and_printable(input: Seq<char>)
    ensures
        utf8_size(sanitized(input)) <= 1024,
        forall|i: int| 0 <= i < sanitized(input).len() ==> !is_control(#[trigger] sanitized(input)[i]),
{
    assert(all_shown(input).take(0) =~= Seq::<char>::empty());
    lemma_kept(all_shown(input), 0);
    assert forall|i: int| 0 <= i < sanitized(input).len() implies !is_control(
        #[trigger] sanitized(input)[i],
    ) by {
        assert(sanitized(input)[i] == shown(input[i]));
    }
}

/// A failure is told by the code of what went wrong: too much, out of credit, or a device that is
/// gone; everything else is told as a failure to decode.
pub proof fn a_failure_is_told_by_its_code(failure: &ChannelFailure, r: u64)
    requires
        call_ensures(ChannelFailure::protocol_error_code, (failure,), r),
    ensures
        failure.kind is RateLimit <==> r == 29,
        (failure.kind is FlowControl || failure.kind is MediaAdmission) <==> r == 11,
        failure.kind is AudioOutput ==> r == 19,
        r == 19 || r == 29 || r == 11 || r == 18,
        !(failure.kind is RateLimit || failure.kind is FlowControl || failure.kind is MediaAdmission
            || failure.kind is AudioOutput) ==> (r == 19 <==> (failure.error_kind is NotFound
            || failure.error_kind is NotConnected || failure.error_kind is BrokenPipe)),
{
}

/// A failure to read is one of framing where the bytes were not valid, and one of the transport
/// otherwise; what was read last stays with it.
pub proof fn a_failed_read_is_framing_or_transport(
    error_kind: ErrorKind,
    error: String,
    context: ChannelRecordContext,
    r: ChannelFailure,
)
    requires
        call_ensures(ChannelFailure::read, (error_kind, error, context), r),
    ensures
        r.kind is ProtocolFraming <==> error_kind is InvalidData,
        r.kind is TransportRead <==> !(error_kind is InvalidData),
        r.error_kind == error_kind && r.error == error && r.context == context,
{
}

/// A record that begins forgets the media of the one before it, and media that is read is noted
/// beside the record it came in.
pub proof fn a_record_forgets_the_media_before_it(
    context: &mut ChannelRecordContext,
    record_type: u16,
    record_sequence: u64,
    body_bytes: usize,
    next: &mut ChannelRecordContext,
    epoch: u32,
    media_id: u64,
    pts_us: i64,
)
    requires
        call_ensures(
            ChannelRecordContext::begin_record,
            (context, record_type, record_sequence, body_bytes),
            (),
        ),
        *final(context) == *old(next),
        call_ensures(ChannelRecordContext::media, (next, epoch, media_id, pts_us), ()),
    ensures
        old(next).media_epoch is None && old(next).media_id is None && old(next).pts_us is None,
        final(next).record_type == Some(record_type),
        final(next).record_sequence == Some(record_sequence),
        final(next).body_bytes == Some(body_bytes as u64),
        final(next).media_epoch == Some(epoch),
        final(next).media_id == Some(media_id),
        final(next).pts_us == Some(pts_us),
{
}

/// Every kind of failure has its own name.
pub proof fn kinds_of_failure_have_their_names()
    ensures
        ChannelFailureKind::ProtocolFraming.name_spec() == "protocol_framing"@,
        ChannelFailureKind::TransportRead.name_spec() == "transport_read"@,
        ChannelFailureKind::TransportWrite.name_spec() == "transport_write"@,
        ChannelFailureKind::RateLimit.name_spec() == "rate_limit"@,
        ChannelFailureKind::FlowControl.name_spec() == "flow_control"@,
        ChannelFailureKind::RecordIdentity.name_spec() == "record_identity"@,
        ChannelFailureKind::RecordType.name_spec() == "record_type"@,
        ChannelFailureKind::MediaParse.name_spec() == "media_parse"@,
        ChannelFailureKind::MediaAdmission.name_spec() == "media_admission"@,
        ChannelFailureKind::Decode.name_spec() == "decode"@,
        ChannelFailureKind::AudioOutput.name_spec() == "audio_output"@,
        ChannelFailureKind::SceneState.name_spec() == "scene_state"@,
        ChannelFailureKind::InternalState.name_spec() == "internal_state"@,
{
}

/// An error is told by the name of its kind.
pub proof fn kinds_of_errors_have_their_names(kind: ErrorKind, r: &'static str)
    requires
        call_ensures(io_error_kind_name, (kind,), r),
    ensures
        kind is NotFound ==> r@ == "not_found"@,
        kind is PermissionDenied ==> r@ == "permission_denied"@,
        kind is ConnectionRefused ==> r@ == "connection_refused"@,
        kind is ConnectionReset ==> r@ == "connection_reset"@,
        kind is ConnectionAborted ==> r@ == "connection_aborted"@,
        kind is NotConnected ==> r@ == "not_connected"@,
        kind is AddrInUse ==> r@ == "address_in_use"@,
        kind is AddrNotAvailable ==> r@ == "address_not_available"@,
        kind is BrokenPipe ==> r@ == "broken_pipe"@,
        kind is AlreadyExists ==> r@ == "already_exists"@,
        kind is WouldBlock ==> r@ == "would_block"@,
        kind is InvalidInput ==> r@ == "invalid_input"@,
        kind is InvalidData ==> r@ == "invalid_data"@,
        kind is TimedOut ==> r@ == "timed_out"@,
        kind is WriteZero ==> r@ == "write_zero"@,
        kind is Interrupted ==> r@ == "interrupted"@,
        kind is Unsupported ==> r@ == "unsupported"@,
        kind is UnexpectedEof ==> r@ == "unexpected_eof"@,
        kind is OutOfMemory ==> r@ == "out_of_memory"@,
        kind is Other ==> r@ == "other"@,
{
}

/// A short text that can be printed is told as it is, and of a longer one its beginning is.
pub proof fn a_short_printable_text_is_told_as_it_is(input: Seq<char>)
    requires
        forall|i: int| 0 <= i < input.len() ==> !is_control(#[trigger] input[i]),
    ensures
        utf8_size(input) <= 1024 ==> sanitized(input) == input,
        sanitized(input).is_prefix_of(input),
        sanitized(input).len() < input.len() ==> utf8_size(
            input.take(sanitized(input).len() as int + 1),
        ) > 1024,
{
    assert(all_shown(input) =~= input);
    assert(input.take(0) =~= Seq::<char>::empty());
    lemma_kept(input, 0);
    lemma_kept_is_longest(input, 0);
    let kept = kept_count(input, 0);
    if kept < input.len() {
        lemma_size_grows(input, kept + 1);
    } else {
        assert(input.take(kept) =~= input);
    }
}

/// What was not kept would not have fitted.
proof fn lemma_kept_is_longest(content: Seq<char>, count: int)
    requires
        0 <= count <= content.len(),
    ensures
        kept_count(content, count) <= content.len(),
        kept_count(content, count) < content.len() ==> utf8_size(
            content.take(kept_count(content, count) + 1),
        ) > 1024,
    decreases content.len() - count,
{
    if count < content.len() && utf8_size(content.take(count + 1)) <= 1024 {
        lemma_kept_is_longest(content, count + 1);
    }
}

/// A text is no shorter than its beginning.
proof fn lemma_size_grows(content: Seq<char>, count: int)
    requires
        0 <= count <= content.len(),
    ensures
        utf8_size(content.take(count)) <= utf8_size(content),
    decreases content.len() - count,
{
    if count < content.len() {
        lemma_size_grows(content, count + 1);
        assert(content.take(count + 1).drop_last() =~= content.take(count));
    } else {
        assert(content.take(count) =~= content);
    }
}

} // verus!
