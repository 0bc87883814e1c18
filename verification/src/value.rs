//! CBOR values, as the protocol's codec holds them.

use vstd::prelude::*;
use vivid_protocol::cbor::Value;

verus! {

/// A value of the protocol's CBOR subset, held by the codec's own type.
#[verifier::external_type_specification]
#[verifier::external_body]
pub struct ExValue(vivid_protocol::cbor::Value);

/// What a CBOR value is.
pub enum ValueView {
    Unsigned(u64),
    Negative(i64),
    Bytes(Seq<u8>),
    Text(Seq<char>),
    Array(Seq<ValueView>),
    Entries(Seq<(u64, ValueView)>),
    Bool(bool),
    Null,
}

/// What the codec's value holds.
pub uninterp spec fn value_view(value: Value) -> ValueView;

/// A record payload: entries with their keys, in order.
pub type PayloadMap = Vec<(u64, Value)>;

/// What a payload holds.
pub open spec fn payload_view(payload: Seq<(u64, Value)>) -> Seq<(u64, ValueView)> {
    payload.map_values(|entry: (u64, Value)| (entry.0, value_view(entry.1)))
}

/// What a list of values holds.
pub open spec fn array_view(values: Seq<Value>) -> Seq<ValueView> {
    values.map_values(|value: Value| value_view(value))
}

/// `vivid_protocol::cbor::Value::Unsigned`: the variant holds the number.
#[verifier::external_body]
pub(crate) fn unsigned(number: u64) -> (r: Value)
    ensures
        value_view(r) == ValueView::Unsigned(number),
{
    Value::Unsigned(number)
}

/// `vivid_protocol::cbor::Value::Bool`: the variant holds the flag.
#[verifier::external_body]
pub(crate) fn boolean(flag: bool) -> (r: Value)
    ensures
        value_view(r) == ValueView::Bool(flag),
{
    Value::Bool(flag)
}

/// `vivid_protocol::cbor::Value::Text`: the variant holds the text.
#[verifier::external_body]
pub(crate) fn text(content: &str) -> (r: Value)
    ensures
        value_view(r) == ValueView::Text(content@),
{
    Value::Text(content.to_owned())
}

/// `vivid_protocol::cbor::Value::Array`: the variant holds the values in order.
#[verifier::external_body]
pub(crate) fn array(values: Vec<Value>) -> (r: Value)
    ensures
        value_view(r) == ValueView::Array(array_view(values@)),
{
    Value::Array(values)
}

/// `vivid_protocol::cbor::Value::Map`: the variant holds the entries in order.
#[verifier::external_body]
pub(crate) fn entries_value(entries: Vec<(u64, Value)>) -> (r: Value)
    ensures
        value_view(r) == ValueView::Entries(payload_view(entries@)),
{
    Value::Map(entries)
}

/// `vivid_protocol::cbor::Value::from` of a signed number: a number that is not negative is held
/// unsigned.
#[verifier::external_body]
pub(crate) fn signed(number: i64) -> (r: Value)
    ensures
        value_view(r) == signed_view(number),
{
    Value::from(number)
}

/// How a signed number is held.
pub open spec fn signed_view(number: i64) -> ValueView {
    if number >= 0 {
        ValueView::Unsigned(number as u64)
    } else {
        ValueView::Negative(number)
    }
}

/// `vivid_protocol::cbor::Value::clone`: a copy holds what the value holds.
#[verifier::external_body]
pub(crate) fn clone_value(value: &Value) -> (r: Value)
    ensures
        value_view(r) == value_view(*value),
{
    value.clone()
}

/// `vivid_protocol::cbor::Value::Map`: the entries that the variant holds.
#[verifier::external_body]
pub(crate) fn value_entries(value: &Value) -> (r: Option<Vec<(u64, Value)>>)
    ensures
        match r {
            Some(entries) => value_view(*value) == ValueView::Entries(payload_view(entries@)),
            None => !(value_view(*value) is Entries),
        },
{
    match value {
        Value::Map(entries) => Some(entries.clone()),
        _ => None,
    }
}

/// `vivid_protocol::cbor::Value::as_array`: the values that the variant holds, in order.
#[verifier::external_body]
pub(crate) fn value_items(value: &Value) -> (r: Option<Vec<Value>>)
    ensures
        match r {
            Some(items) => value_view(*value) == ValueView::Array(array_view(items@)),
            None => !(value_view(*value) is Array),
        },
{
    Some(value.as_array()?.to_vec())
}

/// A copy of a payload.
pub fn clone_payload(payload: &Vec<(u64, Value)>) -> (r: Vec<(u64, Value)>)
    ensures
        payload_view(r@) == payload_view(payload@),
{
    let mut copy: Vec<(u64, Value)> = Vec::new();
    let mut index: usize = 0;
    while index < payload.len()
        invariant
            index <= payload@.len(),
            copy@.len() == index,
            forall|i: int|
                0 <= i < index ==> (#[trigger] copy@[i]).0 == payload@[i].0 && value_view(copy@[i].1)
                    == value_view(payload@[i].1),
        decreases payload@.len() - index,
    {
        copy.push((payload[index].0, clone_value(&payload[index].1)));
        index = index + 1;
    }
    assert(payload_view(copy@) =~= payload_view(payload@));
    copy
}

/// Whether a value is a map that holds no key but these.
pub open spec fn only_keys(value: ValueView, allowed: Seq<u64>) -> bool {
    match value {
        ValueView::Entries(entries) => forall|i: int|
            0 <= i < entries.len() ==> allowed.contains((#[trigger] entries[i]).0),
        _ => false,
    }
}

/// The first value that entries hold under a key.
pub open spec fn lookup(entries: Seq<(u64, ValueView)>, key: u64) -> Option<ValueView>
    decreases entries.len(),
{
    if entries.len() == 0 {
        None
    } else if entries[0].0 == key {
        Some(entries[0].1)
    } else {
        lookup(entries.drop_first(), key)
    }
}

/// The unsigned number that entries hold under a key.
pub open spec fn number_at(entries: Seq<(u64, ValueView)>, key: u64) -> Option<u64> {
    match lookup(entries, key) {
        Some(ValueView::Unsigned(number)) => Some(number),
        _ => None,
    }
}

/// The signed number that entries hold under a key.
pub open spec fn signed_at(entries: Seq<(u64, ValueView)>, key: u64) -> Option<i64> {
    match lookup(entries, key) {
        Some(value) => signed_value(value),
        None => None,
    }
}

/// The signed number that a value is, where it fits.
pub open spec fn signed_value(value: ValueView) -> Option<i64> {
    match value {
        ValueView::Unsigned(number) => if number <= i64::MAX {
            Some(number as i64)
        } else {
            None
        },
        ValueView::Negative(number) => Some(number),
        _ => None,
    }
}

/// A number that is written can be read back, whatever its sign.
pub proof fn a_signed_number_reads_back(number: i64)
    ensures
        signed_value(signed_view(number)) == Some(number),
        number >= 0 ==> signed_view(number) == ValueView::Unsigned(number as u64),
        number < 0 ==> signed_view(number) == ValueView::Negative(number),
{
}

/// What stands under a key is found, and the first of it where there is more than one; nothing is
/// found under a key that does not occur.
pub proof fn what_stands_under_a_key_is_found(entries: Seq<(u64, ValueView)>, key: u64, i: int)
    ensures
        0 <= i < entries.len() && entries[i].0 == key && (forall|j: int|
            0 <= j < i ==> (#[trigger] entries[j]).0 != key) ==> lookup(entries, key) == Some(
            entries[i].1,
        ),
        lookup(entries, key) is None ==> (forall|j: int|
            0 <= j < entries.len() ==> (#[trigger] entries[j]).0 != key),
        (forall|j: int| 0 <= j < entries.len() ==> (#[trigger] entries[j]).0 != key) ==> lookup(
            entries,
            key,
        ) is None,
    decreases entries.len(),
{
    if entries.len() > 0 {
        let rest = entries.drop_first();
        what_stands_under_a_key_is_found(rest, key, i - 1);
        if entries[0].0 != key {
            assert forall|j: int| 0 <= j < rest.len() implies #[trigger] rest[j] == entries[j + 1] by {}
            if lookup(entries, key) is None {
                assert forall|j: int| 0 <= j < entries.len() implies (#[trigger] entries[j]).0
                    != key by {
                    if j > 0 {
                        assert(rest[j - 1] == entries[j]);
                    }
                }
            }
        }
    }
}

/// A number, or a signed number, is found under a key only where one stands there.
pub proof fn a_number_is_found_as_it_stands(entries: Seq<(u64, ValueView)>, key: u64)
    ensures
        number_at(entries, key) matches Some(number) ==> lookup(entries, key) == Some(
            ValueView::Unsigned(number),
        ),
        number_at(entries, key) is None ==> !(lookup(entries, key) matches Some(value)
            && value is Unsigned),
        signed_at(entries, key) matches Some(number) ==> lookup(entries, key) == Some(
            signed_view(number),
        ) || lookup(entries, key) == Some(ValueView::Negative(number)),
{
}

} // verus!
