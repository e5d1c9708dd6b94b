//! Parameter serialization.
//!
//! The driver is generic over a capability, not a concrete type: any
//! parameter value that can produce a canonical byte encoding can be handed
//! to the target function. The encoding is the external library's
//! deterministic, language-neutral binary form — fixed-width little-endian
//! integers and length-prefixed variable-size fields, with no padding
//! ambiguity — so serializing the same value twice gives byte-identical
//! buffers.

use vstd::prelude::*;
use crate::layout::{Region, MM_INPUT_START};

verus! {

/// The eight bytes of a 64-bit value, least significant byte first.
pub open spec fn u64_le_bytes(v: u64) -> Seq<u8> {
    seq![
        (v & 0xFF) as u8,
        ((v >> 8) & 0xFF) as u8,
        ((v >> 16) & 0xFF) as u8,
        ((v >> 24) & 0xFF) as u8,
        ((v >> 32) & 0xFF) as u8,
        ((v >> 40) & 0xFF) as u8,
        ((v >> 48) & 0xFF) as u8,
        ((v >> 56) & 0xFF) as u8,
    ]
}

/// The canonical encoding of a byte string: a 64-bit little-endian length
/// prefix followed by the bytes themselves.
pub open spec fn length_prefixed_bytes(data: Seq<u8>) -> Seq<u8> {
    u64_le_bytes(data.len() as u64) + data
}

/// A parameter value with a canonical byte encoding.
///
/// `encoding` is the one byte string the value serializes to; `serialize`
/// must return exactly it, so any two serializations of the same value are
/// byte-identical.
pub trait InvokeSerialize {
    /// The value's canonical byte encoding.
    spec fn encoding(&self) -> Seq<u8>;

    /// Produces the canonical byte encoding.
    fn serialize(&self) -> (bytes: Vec<u8>)
        ensures
            bytes@ == self.encoding(),
    ;
}

/// Relies on `bincode::serialize` for `()`: the default options write a
/// unit as no bytes at all, and writing into a fresh byte vector cannot
/// fail.
#[verifier::external_body]
fn bincode_serialize_unit() -> (bytes: Vec<u8>)
    ensures
        bytes@ == Seq::<u8>::empty(),
{
    bincode::serialize(&()).expect("serializing a unit value cannot fail")
}

/// Relies on `bincode::serialize` for `u64`: the default options write the
/// eight bytes of the value, least significant first, and writing into a
/// fresh byte vector cannot fail.
#[verifier::external_body]
fn bincode_serialize_u64(value: u64) -> (bytes: Vec<u8>)
    ensures
        bytes@ == u64_le_bytes(value),
{
    bincode::serialize(&value).expect("serializing an integer cannot fail")
}

/// Relies on `bincode::serialize` for byte slices: the default options
/// write a 64-bit little-endian length prefix followed by the bytes
/// themselves, and writing into a fresh byte vector cannot fail.
#[verifier::external_body]
fn bincode_serialize_byte_slice(data: &[u8]) -> (bytes: Vec<u8>)
    ensures
        bytes@ == length_prefixed_bytes(data@),
{
    bincode::serialize(data).expect("serializing a byte slice cannot fail")
}

/// The empty parameter value: a target function that takes no input.
impl InvokeSerialize for () {
    open spec fn encoding(&self) -> Seq<u8> {
        Seq::<u8>::empty()
    }

    fn serialize(&self) -> (bytes: Vec<u8>) {
        bincode_serialize_unit()
    }
}

/// A single fixed-width integer parameter.
impl InvokeSerialize for u64 {
    open spec fn encoding(&self) -> Seq<u8> {
        u64_le_bytes(*self)
    }

    fn serialize(&self) -> (bytes: Vec<u8>) {
        bincode_serialize_u64(*self)
    }
}

/// A variable-size byte-string parameter, length-prefixed.
impl InvokeSerialize for Vec<u8> {
    open spec fn encoding(&self) -> Seq<u8> {
        length_prefixed_bytes(self@)
    }

    fn serialize(&self) -> (bytes: Vec<u8>) {
        bincode_serialize_byte_slice(self.as_slice())
    }
}

/// Serialization is deterministic: `serialize` returns the value's one
/// canonical encoding, so any two serializations of the same value — here,
/// any two byte strings its contract admits — are byte-identical.
pub proof fn lemma_serialization_deterministic<T: InvokeSerialize>(
    value: &T,
    first: Seq<u8>,
    second: Seq<u8>,
)
    requires
        first == value.encoding(),
        second == value.encoding(),
    ensures
        first == second,
{
}

/// The encoding of a byte-string parameter is its length prefix and then
/// its bytes: eight bytes more than the value itself.
pub proof fn lemma_byte_string_encoding_len(data: Vec<u8>)
    ensures
        data.encoding().len() == 8 + data@.len(),
        data.encoding().skip(8) == data@,
{
    assert(data.encoding().skip(8) =~= data@);
}

/// The encoding of a fixed-width integer parameter is exactly its eight
/// bytes, least significant first; the empty parameter encodes to nothing.
pub proof fn lemma_fixed_width_encoding_len(value: u64, empty: ())
    ensures
        value.encoding() == u64_le_bytes(value),
        value.encoding().len() == 8,
        empty.encoding().len() == 0,
{
}

/// Serializes a parameter value into one self-contained input region:
/// the buffer holds the value's canonical encoding and the region anchors
/// it, writable, at the well-known input base address.
pub fn serialize_params<T: InvokeSerialize>(params: &T) -> (result: Option<(Vec<u8>, Region)>)
    ensures
        (result is Some) == (params.encoding().len() <= u64::MAX - MM_INPUT_START),
        result matches Some(r) ==> serialized_input(r.0@, r.1, params.encoding()),
{
    let bytes = params.serialize();
    if bytes.len() as u64 > u64::MAX - MM_INPUT_START {
        return None;
    }
    let region = Region { base: MM_INPUT_START, vm_span: bytes.len() as u64, writable: true };
    Some((bytes, region))
}

/// The serialized buffer is the parameter's canonical encoding, and the
/// region wraps exactly it at the input base address, writable.
pub open spec fn serialized_input(bytes: Seq<u8>, region: Region, encoding: Seq<u8>) -> bool {
    &&& bytes == encoding
    &&& region.base == MM_INPUT_START
    &&& region.vm_span == bytes.len()
    &&& region.writable
}

} // verus!
