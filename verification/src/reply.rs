//! Bodies of the records the presenter answers with.

use vstd::prelude::*;
use vivid_protocol::cbor::Value;
use vivid_protocol::messages::MessageError;

use crate::value::{payload_view, ValueView};

verus! {

/// Why the codec refused to encode a record.
#[verifier::external_type_specification]
#[verifier::external_body]
pub struct ExMessageError(vivid_protocol::messages::MessageError);

/// The bytes of an envelope with this request ID and payload, where the codec accepts them.
pub uninterp spec fn envelope_bytes(request_id: u64, payload: Seq<(u64, ValueView)>) -> Option<
    Seq<u8>,
>;

/// The bytes of an empty acknowledgement.
pub uninterp spec fn ok_bytes(request_id: u64) -> Seq<u8>;

/// The bytes of an error reply, where the codec accepts it.
pub uninterp spec fn error_bytes(
    request_id: u64,
    code: u64,
    fatal: bool,
    diagnostic: Seq<char>,
) -> Option<Seq<u8>>;

/// `vivid_protocol::messages::Envelope::new` and `encode`: the encoding depends on the request ID
/// and the payload alone, and is refused where the payload's keys are not strictly ascending.
#[verifier::external_body]
fn encode_envelope(request_id: u64, payload: Vec<(u64, Value)>) -> (r: Result<Vec<u8>, MessageError>)
    ensures
        match r {
            Ok(body) => envelope_bytes(request_id, payload_view(payload@)) == Some(body@),
            Err(_) => envelope_bytes(request_id, payload_view(payload@)) is None,
        },
{
    vivid_protocol::messages::Envelope::new(request_id, payload).encode()
}

/// `vivid_protocol::messages::ok`: the acknowledgement depends on the request ID alone.
#[verifier::external_body]
fn encode_ok(request_id: u64) -> (r: Vec<u8>)
    ensures
        r@ == ok_bytes(request_id),
{
    vivid_protocol::messages::ok(request_id)
}

/// `vivid_protocol::messages::ErrorReply::encode` with an empty detail: the encoding depends on the
/// four fields alone, and is refused for an unregistered code or an overlong diagnostic.
#[verifier::external_body]
fn encode_error(request_id: u64, code: u64, fatal: bool, diagnostic: String) -> (r: Result<
    Vec<u8>,
    MessageError,
>)
    ensures
        match r {
            Ok(body) => error_bytes(request_id, code, fatal, diagnostic@) == Some(body@),
            Err(_) => error_bytes(request_id, code, fatal, diagnostic@) is None,
        },
{
    let detail = vivid_protocol::messages::ErrorDetail::new(Vec::new())?;
    vivid_protocol::messages::ErrorReply { code, request_id, detail, fatal, diagnostic }.encode()
}

/// A record body the codec would not encode.
#[derive(Clone, Copy, Debug, PartialEq, Eq, Structural)]
pub struct Unencodable;

/// The body of an acknowledgement.
pub fn ok(request_id: u64) -> (r: Vec<u8>)
    ensures
        r@ == ok_bytes(request_id),
{
    encode_ok(request_id)
}

/// The body of an error reply.
pub fn protocol_error(request_id: u64, code: u64, fatal: bool, diagnostic: String) -> (r: Result<
    Vec<u8>,
    Unencodable,
>)
    ensures
        match r {
            Ok(body) => error_bytes(request_id, code, fatal, diagnostic@) == Some(body@),
            Err(_) => error_bytes(request_id, code, fatal, diagnostic@) is None,
        },
{
    match encode_error(request_id, code, fatal, diagnostic) {
        Ok(body) => Ok(body),
        Err(_) => Err(Unencodable),
    }
}

/// The body of a correlated record.
pub fn envelope(request_id: u64, payload: Vec<(u64, Value)>) -> (r: Result<Vec<u8>, Unencodable>)
    ensures
        match r {
            Ok(body) => envelope_bytes(request_id, payload_view(payload@)) == Some(body@),
            Err(_) => envelope_bytes(request_id, payload_view(payload@)) is None,
        },
{
    match encode_envelope(request_id, payload) {
        Ok(body) => Ok(body),
        Err(_) => Err(Unencodable),
    }
}

/// An encoded body, or an acknowledgement where there is none.
pub open spec fn or_ok(request_id: u64, body: Option<Seq<u8>>) -> Seq<u8> {
    match body {
        Some(bytes) => bytes,
        None => ok_bytes(request_id),
    }
}

/// What an error body holds: the error, or an acknowledgement where it cannot be encoded.
pub open spec fn error_body_bytes(request_id: u64, code: u64, diagnostic: Seq<char>) -> Seq<u8> {
    or_ok(request_id, error_bytes(request_id, code, false, diagnostic))
}

/// The body of an error that does not end the session.
pub fn error_body(request_id: u64, code: u64, diagnostic: &str) -> (r: Vec<u8>)
    ensures
        r@ == error_body_bytes(request_id, code, diagnostic@),
{
    error_body_owned(request_id, code, diagnostic.to_owned())
}

/// As `error_body`, from an owned diagnostic.
pub fn error_body_owned(request_id: u64, code: u64, diagnostic: String) -> (r: Vec<u8>)
    ensures
        r@ == error_body_bytes(request_id, code, diagnostic@),
{
    match protocol_error(request_id, code, false, diagnostic) {
        Ok(body) => body,
        Err(_) => ok(request_id),
    }
}

/// The body of a correlated record, or an acknowledgement where it cannot be encoded.
pub fn envelope_or_ok(request_id: u64, payload: Vec<(u64, Value)>) -> (r: Vec<u8>)
    ensures
        r@ == or_ok(request_id, envelope_bytes(request_id, payload_view(payload@))),
{
    match envelope(request_id, payload) {
        Ok(body) => body,
        Err(_) => ok(request_id),
    }
}

/// A copy of bytes.
pub fn copy_bytes(bytes: &Vec<u8>) -> (r: Vec<u8>)
    ensures
        r@ == bytes@,
{
    let mut copy: Vec<u8> = Vec::new();
    let mut index: usize = 0;
    while index < bytes.len()
        invariant
            index <= bytes@.len(),
            copy@ == bytes@.take(index as int),
        decreases bytes@.len() - index,
    {
        copy.push(bytes[index]);
        assert(copy@ =~= bytes@.take(index + 1));
        index = index + 1;
    }
    assert(bytes@.take(index as int) =~= bytes@);
    copy
}

} // verus!
