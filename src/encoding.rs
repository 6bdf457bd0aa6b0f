//! The amino framing of header fields: integers as varints, byte strings
//! behind a varint length.
use vstd::prelude::*;

verus! {

/// The unsigned LEB128 encoding of `value`: seven bits per byte, least
/// significant group first, the high bit set on every byte but the last.
pub open spec fn varint_bytes(value: nat) -> Seq<u8>
    decreases value,
{
    if value < 128 {
        seq![value as u8]
    } else {
        seq![((value % 128) + 128) as u8] + varint_bytes(value / 128)
    }
}

/// Relies on prost_amino::encoding::encode_varint, which writes the LEB128
/// encoding of `value` at the end of the buffer.
#[verifier::external_body]
fn encode_varint_into_new(value: u64) -> (r: Vec<u8>)
    ensures
        r@ == varint_bytes(value as nat),
{
    let mut buf: Vec<u8> = Vec::new();
    prost_amino::encoding::encode_varint(value, &mut buf);
    buf
}

/// Relies on prost_amino::encode_length_delimiter, which writes `length` as
/// a varint; it fails only when the buffer has no room left, and a `Vec`
/// reports room for `usize::MAX` bytes less its length.
#[verifier::external_body]
fn encode_length_delimiter_into_new(length: usize) -> (r: Option<Vec<u8>>)
    ensures
        r is Some,
        r is Some ==> r.unwrap()@ == varint_bytes(length as nat),
{
    let mut buf: Vec<u8> = Vec::new();
    match prost_amino::encode_length_delimiter(length, &mut buf) {
        Ok(()) => Some(buf),
        Err(_) => None,
    }
}

/// `value` as a varint.
pub fn encode_varint(val: u64) -> (r: Vec<u8>)
    ensures
        r@ == varint_bytes(val as nat),
{
    encode_varint_into_new(val)
}

/// `bytes` behind its length as a varint.
pub fn bytes_enc(bytes: &[u8]) -> (r: Vec<u8>)
    ensures
        r@ == varint_bytes(bytes@.len()) + bytes@,
{
    let mut enc = match encode_length_delimiter_into_new(bytes.len()) {
        Some(v) => v,
        None => Vec::new(),
    };
    let ghost prefix = enc@;
    let mut i: usize = 0;
    while i < bytes.len()
        invariant
            prefix == varint_bytes(bytes@.len()),
            i <= bytes@.len(),
            enc@ == prefix + bytes@.subrange(0, i as int),
        decreases bytes@.len() - i,
    {
        enc.push(bytes[i]);
        i = i + 1;
        proof {
            assert(bytes@.subrange(0, i as int) =~= bytes@.subrange(0, i - 1).push(bytes@[i - 1]));
        }
    }
    proof {
        assert(bytes@.subrange(0, i as int) =~= bytes@);
    }
    enc
}

} // verus!
