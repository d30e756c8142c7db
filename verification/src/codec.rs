//! Byte-level encoding shared by the records and their address seeds.
use vstd::prelude::*;
use vstd::bytes::*;
use vstd::slice::*;
use crate::pubkey::Pubkey;

verus! {

/// The encoding of an optional byte: a zero byte for `None`, a one byte followed
/// by the value for `Some`.
pub open spec fn spec_option_byte(value: Option<u8>) -> Seq<u8> {
    match value {
        None => seq![0u8],
        Some(b) => seq![1u8, b],
    }
}

/// Calls `borsh::to_vec` on an `Option<u8>`.
///
/// Borsh writes an option as one tag byte, 0 for `None` and 1 for `Some`, and a
/// `u8` as itself. Writing into a vector cannot fail.
#[verifier::external_body]
pub(crate) fn option_byte_to_vec(value: Option<u8>) -> (r: Vec<u8>)
    ensures
        r@ == spec_option_byte(value),
{
    borsh::to_vec(&value).unwrap()
}

/// The address whose bytes are `bytes`, a sequence of 32 bytes.
pub open spec fn spec_pubkey_from(bytes: Seq<u8>) -> Pubkey {
    choose|key: Pubkey| key@ == bytes
}

/// An address is the address made of its own bytes.
pub proof fn lemma_pubkey_from_view(key: Pubkey)
    ensures
        spec_pubkey_from(key@) == key,
{
    crate::pubkey::lemma_pubkey_ext(spec_pubkey_from(key@), key);
}

/// The address made of 32 bytes has those bytes.
pub proof fn lemma_pubkey_from_bytes(bytes: Seq<u8>)
    requires
        bytes.len() == 32,
    ensures
        spec_pubkey_from(bytes)@ == bytes,
{
    let witness = Pubkey {
        bytes: [
            bytes[0], bytes[1], bytes[2], bytes[3], bytes[4], bytes[5], bytes[6], bytes[7],
            bytes[8], bytes[9], bytes[10], bytes[11], bytes[12], bytes[13], bytes[14], bytes[15],
            bytes[16], bytes[17], bytes[18], bytes[19], bytes[20], bytes[21], bytes[22],
            bytes[23], bytes[24], bytes[25], bytes[26], bytes[27], bytes[28], bytes[29],
            bytes[30], bytes[31],
        ],
    };
    assert(witness@ =~= bytes);
}

/// Where an optional field that starts at `pos` ends, and whether it holds a
/// value of `width` bytes; `None` where the bytes hold no such field.
pub open spec fn spec_option_at(data: Seq<u8>, pos: int, width: int) -> Option<(bool, int)> {
    if pos < 0 || pos >= data.len() {
        None
    } else if data[pos] == 0 {
        Some((false, pos + 1))
    } else if data[pos] == 1 && pos + 1 + width <= data.len() {
        Some((true, pos + 1 + width))
    } else {
        None
    }
}

/// Reads the tag of an optional field of `width` bytes at `pos`.
pub fn option_at(data: &Vec<u8>, pos: usize, width: usize) -> (r: Option<(bool, usize)>)
    ensures
        match spec_option_at(data@, pos as int, width as int) {
            Some((present, next)) => r == Some((present, next as usize)) && next <= data@.len(),
            None => r is None,
        },
{
    let len = data.len();
    if pos >= len {
        None
    } else if data[pos] == 0 {
        Some((false, pos + 1))
    } else if data[pos] == 1 && width <= len - pos - 1 {
        Some((true, pos + 1 + width))
    } else {
        None
    }
}

/// The encoding of an optional `u64`: a tag byte, then the value in little
/// endian where there is one.
pub open spec fn spec_option_u64(value: Option<u64>) -> Seq<u8> {
    match value {
        None => seq![0u8],
        Some(v) => seq![1u8] + spec_u64_to_le_bytes(v),
    }
}

/// The encoding of an optional address: a tag byte, then the address where
/// there is one.
pub open spec fn spec_option_pubkey(value: Option<Pubkey>) -> Seq<u8> {
    match value {
        None => seq![0u8],
        Some(key) => seq![1u8] + key@,
    }
}

/// Appends the encoding of an optional `u64` to `out`.
pub fn write_option_u64(out: &mut Vec<u8>, value: Option<u64>)
    ensures
        final(out)@ == old(out)@ + spec_option_u64(value),
{
    match value {
        None => {
            out.push(0);
            assert(out@ =~= old(out)@ + spec_option_u64(value));
        },
        Some(v) => {
            out.push(1);
            let bytes = u64_to_le_bytes(v);
            append_bytes(out, &bytes);
            assert(out@ =~= old(out)@ + spec_option_u64(value));
        },
    }
}

/// Appends the encoding of an optional address to `out`.
pub fn write_option_pubkey(out: &mut Vec<u8>, value: Option<Pubkey>)
    ensures
        final(out)@ == old(out)@ + spec_option_pubkey(value),
{
    match value {
        None => {
            out.push(0);
            assert(out@ =~= old(out)@ + spec_option_pubkey(value));
        },
        Some(key) => {
            out.push(1);
            let bytes = key.to_vec();
            append_bytes(out, &bytes);
            assert(out@ =~= old(out)@ + spec_option_pubkey(value));
        },
    }
}

/// The 32 bytes of `data` from `pos` on, as an address.
pub fn read_pubkey(data: &Vec<u8>, pos: usize) -> (r: Pubkey)
    requires
        pos + 32 <= data@.len(),
    ensures
        r@ == data@.subrange(pos as int, pos + 32),
        r == spec_pubkey_from(data@.subrange(pos as int, pos + 32)),
{
    let len = data.len();
    let mut bytes: [u8; 32] = [0u8;32];
    let mut i: usize = 0;
    while i < 32
        invariant
            i <= 32,
            pos + 32 <= data@.len() == len,
            forall|j: int| 0 <= j < i ==> bytes[j] == data@[pos + j],
        decreases 32 - i,
    {
        bytes[i] = data[pos + i];
        i += 1;
    }
    let r = Pubkey { bytes };
    assert(r@ =~= data@.subrange(pos as int, pos + 32));
    proof {
        lemma_pubkey_from_view(r);
    }
    r
}

/// The 8 reserved bytes whose values are `bytes`.
pub open spec fn spec_reserved_from(bytes: Seq<u8>) -> [u8; 8] {
    choose|reserved: [u8; 8]| reserved@ == bytes
}

/// The reserved bytes made of 8 values have those values.
pub proof fn lemma_reserved_from_bytes(bytes: Seq<u8>)
    requires
        bytes.len() == 8,
    ensures
        spec_reserved_from(bytes)@ == bytes,
{
    let witness: [u8; 8] = [
        bytes[0], bytes[1], bytes[2], bytes[3], bytes[4], bytes[5], bytes[6], bytes[7],
    ];
    assert(witness@ =~= bytes);
}

/// Reserved bytes are the reserved bytes made of their own values.
pub proof fn lemma_reserved_from_view(reserved: [u8; 8])
    ensures
        spec_reserved_from(reserved@) == reserved,
{
    assert(spec_reserved_from(reserved@) =~= reserved);
}

/// The 8 bytes of `data` from `pos` on.
pub fn read_reserved(data: &Vec<u8>, pos: usize) -> (r: [u8; 8])
    requires
        pos + 8 <= data@.len(),
    ensures
        r@ == data@.subrange(pos as int, pos + 8),
        r == spec_reserved_from(data@.subrange(pos as int, pos + 8)),
{
    let len = data.len();
    let mut bytes: [u8; 8] = [0u8;8];
    let mut i: usize = 0;
    while i < 8
        invariant
            i <= 8,
            pos + 8 <= data@.len() == len,
            forall|j: int| 0 <= j < i ==> bytes[j] == data@[pos + j],
        decreases 8 - i,
    {
        bytes[i] = data[pos + i];
        i += 1;
    }
    assert(bytes@ =~= data@.subrange(pos as int, pos + 8));
    proof {
        lemma_reserved_from_view(bytes);
    }
    bytes
}

/// Whether `data` begins with the bytes of `prefix`.
pub fn starts_with(data: &Vec<u8>, prefix: &Vec<u8>) -> (r: bool)
    ensures
        r == (prefix@.len() <= data@.len() && data@.subrange(0, prefix@.len() as int)
            == prefix@),
{
    if data.len() < prefix.len() {
        return false;
    }
    let mut i: usize = 0;
    while i < prefix.len()
        invariant
            i <= prefix@.len() <= data@.len(),
            forall|j: int| 0 <= j < i ==> data@[j] == prefix@[j],
        decreases prefix@.len() - i,
    {
        if data[i] != prefix[i] {
            assert(data@.subrange(0, prefix@.len() as int)[i as int] != prefix@[i as int]);
            return false;
        }
        i += 1;
    }
    assert(data@.subrange(0, prefix@.len() as int) =~= prefix@);
    true
}

/// The little-endian `u64` that the 8 bytes of `data` from `pos` on encode.
pub fn read_u64(data: &Vec<u8>, pos: usize) -> (r: u64)
    requires
        pos + 8 <= data@.len(),
    ensures
        r == spec_u64_from_le_bytes(data@.subrange(pos as int, pos + 8)),
{
    let len = data.len();
    assert(pos + 8 <= len);
    u64_from_le_bytes(slice_subrange(data.as_slice(), pos, pos + 8))
}

/// Appends the bytes of `source` to `out`.
pub fn append_bytes(out: &mut Vec<u8>, source: &Vec<u8>)
    ensures
        final(out)@ == old(out)@ + source@,
{
    let mut i: usize = 0;
    while i < source.len()
        invariant
            i <= source@.len(),
            out@ == old(out)@ + source@.subrange(0, i as int),
        decreases source@.len() - i,
    {
        out.push(source[i]);
        assert(out@ =~= old(out)@ + source@.subrange(0, i + 1));
        i += 1;
    }
    assert(out@ =~= old(out)@ + source@);
}

} // verus!
