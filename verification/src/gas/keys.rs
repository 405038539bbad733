//! How a 64-bit operand names a storage slot or an account: its eight
//! big-endian bytes, padded with zero bytes on the left.

use vstd::prelude::*;

verus! {

/// The eight bytes of `w`, most significant first.
pub open spec fn word_bytes(w: u64) -> Seq<u8> {
    seq![
        ((w >> 56) & 0xff) as u8,
        ((w >> 48) & 0xff) as u8,
        ((w >> 40) & 0xff) as u8,
        ((w >> 32) & 0xff) as u8,
        ((w >> 24) & 0xff) as u8,
        ((w >> 16) & 0xff) as u8,
        ((w >> 8) & 0xff) as u8,
        (w & 0xff) as u8,
    ]
}

/// `bytes` brought to `len` bytes: zero bytes are put in front of a
/// shorter string, and of a longer one the last `len` bytes are kept.
pub open spec fn pad_left(bytes: Seq<u8>, len: nat) -> Seq<u8> {
    Seq::new(
        len,
        |i: int|
            if i + bytes.len() >= len {
                bytes[i + bytes.len() - len]
            } else {
                0u8
            },
    )
}

/// The 32-byte key of the storage slot that the operand `w` names.
pub open spec fn storage_key(w: u64) -> Seq<u8> {
    pad_left(word_bytes(w), 32)
}

/// The 20-byte address of the account that the operand `w` names.
pub open spec fn address_of(w: u64) -> Seq<u8> {
    pad_left(word_bytes(w), 20)
}

/// The eight bytes of `w`, most significant first.
pub fn word_to_bytes(w: u64) -> (v: Vec<u8>)
    ensures
        v@ == word_bytes(w),
{
    assert((w >> 56) & 0xff <= 0xff) by (bit_vector);
    assert((w >> 48) & 0xff <= 0xff) by (bit_vector);
    assert((w >> 40) & 0xff <= 0xff) by (bit_vector);
    assert((w >> 32) & 0xff <= 0xff) by (bit_vector);
    assert((w >> 24) & 0xff <= 0xff) by (bit_vector);
    assert((w >> 16) & 0xff <= 0xff) by (bit_vector);
    assert((w >> 8) & 0xff <= 0xff) by (bit_vector);
    assert(w & 0xff <= 0xff) by (bit_vector);
    let mut v: Vec<u8> = Vec::new();
    v.push(((w >> 56) & 0xff) as u8);
    v.push(((w >> 48) & 0xff) as u8);
    v.push(((w >> 40) & 0xff) as u8);
    v.push(((w >> 32) & 0xff) as u8);
    v.push(((w >> 24) & 0xff) as u8);
    v.push(((w >> 16) & 0xff) as u8);
    v.push(((w >> 8) & 0xff) as u8);
    v.push((w & 0xff) as u8);
    proof {
        assert(v@ =~= word_bytes(w));
    }
    v
}

/// `bytes` brought to `len` bytes, with zero bytes in front.
pub fn pad_bytes_left(bytes: &[u8], len: usize) -> (v: Vec<u8>)
    ensures
        v@ == pad_left(bytes@, len as nat),
{
    let mut v: Vec<u8> = Vec::new();
    let mut i: usize = 0;
    while i < len
        invariant
            i <= len,
            v@.len() == i,
            forall|j: int| 0 <= j < i ==> v@[j] == pad_left(bytes@, len as nat)[j],
        decreases len - i,
    {
        if bytes.len() >= len - i {
            v.push(bytes[bytes.len() - (len - i)]);
        } else {
            v.push(0u8);
        }
        i += 1;
    }
    proof {
        assert(v@ =~= pad_left(bytes@, len as nat));
    }
    v
}

/// The 32-byte key of the storage slot that the operand `w` names.
pub fn storage_key_bytes(w: u64) -> (v: Vec<u8>)
    ensures
        v@ == storage_key(w),
{
    let word = word_to_bytes(w);
    pad_bytes_left(word.as_slice(), 32)
}

/// The 20-byte address of the account that the operand `w` names.
pub fn address_bytes(w: u64) -> (v: Vec<u8>)
    ensures
        v@ == address_of(w),
{
    let word = word_to_bytes(w);
    pad_bytes_left(word.as_slice(), 20)
}

} // verus!
