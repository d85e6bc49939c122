//! The randomness beacon and IV derivation: byte strings hashed with
//! Blake2 over big-endian encodings.

use crate::gk::MasterKey;
use crate::hashing::{blake2_256, blake2_256_of};
use crate::messages::RandomNumber;
use vstd::prelude::*;

verus! {

/// Big-endian bytes of a 32-bit number.
pub open spec fn be_bytes_u32(n: u32) -> Seq<u8> {
    seq![
        (n / 0x100_0000) as u8,
        ((n / 0x1_0000) % 0x100) as u8,
        ((n / 0x100) % 0x100) as u8,
        (n % 0x100) as u8,
    ]
}

/// Big-endian bytes of a 64-bit number.
pub open spec fn be_bytes_u64(n: u64) -> Seq<u8> {
    be_bytes_u32((n / 0x1_0000_0000) as u32) + be_bytes_u32((n % 0x1_0000_0000) as u32)
}

pub(crate) fn extend_bytes(buf: &mut Vec<u8>, bytes: &[u8])
    ensures
        final(buf)@ == old(buf)@ + bytes@,
{
    let mut i: usize = 0;
    while i < bytes.len()
        invariant
            0 <= i <= bytes@.len(),
            buf@ == old(buf)@ + bytes@.subrange(0, i as int),
        decreases bytes@.len() - i,
    {
        buf.push(bytes[i]);
        i = i + 1;
        assert(bytes@.subrange(0, i as int) =~= bytes@.subrange(0, i - 1 as int).push(bytes@[i - 1]));
    }
    assert(bytes@.subrange(0, bytes@.len() as int) =~= bytes@);
}

pub(crate) fn extend_be_u32(buf: &mut Vec<u8>, n: u32)
    ensures
        final(buf)@ == old(buf)@ + be_bytes_u32(n),
{
    buf.push((n / 0x100_0000) as u8);
    buf.push(((n / 0x1_0000) % 0x100) as u8);
    buf.push(((n / 0x100) % 0x100) as u8);
    buf.push((n % 0x100) as u8);
    assert(buf@ =~= old(buf)@ + be_bytes_u32(n));
}

pub(crate) fn extend_be_u64(buf: &mut Vec<u8>, n: u64)
    ensures
        final(buf)@ == old(buf)@ + be_bytes_u64(n),
{
    extend_be_u32(buf, (n / 0x1_0000_0000) as u32);
    extend_be_u32(buf, (n % 0x1_0000_0000) as u32);
    assert(buf@ =~= old(buf)@ + be_bytes_u64(n));
}

/// The beacon value after `last_random_number` at `block_number`:
/// blake2_256(last || be_bytes(block_number) || derived secret).
pub open spec fn spec_next_random_number(random_secret: Seq<u8>, block_number: u32, last_random_number: Seq<u8>) -> Seq<u8> {
    blake2_256_of(last_random_number + be_bytes_u32(block_number) + random_secret)
}

/// Derives the next beacon value. A signature is not used since sr25519
/// signatures are malleable.
pub fn next_random_number(
    master_key: &MasterKey,
    block_number: u32,
    last_random_number: RandomNumber,
) -> (r: RandomNumber)
    ensures
        r@ == spec_next_random_number(master_key.random_secret@, block_number, last_random_number@),
{
    let mut buf: Vec<u8> = Vec::new();
    extend_bytes(&mut buf, &last_random_number);
    extend_be_u32(&mut buf, block_number);
    extend_bytes(&mut buf, master_key.random_secret.as_slice());
    assert(buf@ =~= last_random_number@ + be_bytes_u32(block_number) + master_key.random_secret@);
    blake2_256(buf.as_slice())
}

/// The IV for the `iv_seq`-th dispatch, at `block_number`: the first twelve
/// bytes of blake2_256(derived secret || be_bytes(block) || be_bytes(iv_seq)).
pub open spec fn spec_iv(iv_secret: Seq<u8>, block_number: u32, iv_seq: u64) -> Seq<u8> {
    blake2_256_of(iv_secret + be_bytes_u32(block_number) + be_bytes_u64(iv_seq)).subrange(0, 12)
}

} // verus!
