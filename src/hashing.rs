//! Blake2 hashing, and the byte-string comparisons the library needs.

use vstd::prelude::*;

verus! {

/// The 256-bit Blake2b digest of a byte string.
pub uninterp spec fn blake2_256_of(data: Seq<u8>) -> Seq<u8>;

/// Relies on `sp_crypto_hashing::blake2_256`: a 32-byte digest that
/// depends on the input bytes alone.
#[verifier::external_body]
fn sp_blake2_256(data: &[u8]) -> (r: [u8; 32])
    ensures
        r@ == blake2_256_of(data@),
{
    sp_crypto_hashing::blake2_256(data)
}

/// Blake2b digest, 256 bits.
pub fn blake2_256(data: &[u8]) -> (r: [u8; 32])
    ensures
        r@ == blake2_256_of(data@),
{
    sp_blake2_256(data)
}

/// Lexicographic order of two byte strings of one length, which is the
/// numeric order of the big-endian numbers they spell.
pub open spec fn bytes_lt(a: Seq<u8>, b: Seq<u8>) -> bool {
    exists|i: int|
        0 <= i < a.len() && i < b.len() && a[i] < b[i] && forall|j: int| 0 <= j < i ==> a[j] == b[j]
}

pub open spec fn bytes_le(a: Seq<u8>, b: Seq<u8>) -> bool {
    a == b || bytes_lt(a, b)
}

/// The order of byte strings is transitive.
pub proof fn lemma_bytes_lt_transitive(a: Seq<u8>, b: Seq<u8>, c: Seq<u8>)
    requires
        bytes_lt(a, b),
        bytes_lt(b, c),
    ensures
        bytes_lt(a, c),
{
    let i = choose|i: int|
        0 <= i < a.len() && i < b.len() && a[i] < b[i] && forall|j: int| 0 <= j < i ==> a[j] == b[j];
    let k = choose|k: int|
        0 <= k < b.len() && k < c.len() && b[k] < c[k] && forall|j: int| 0 <= j < k ==> b[j] == c[j];
    if i <= k {
        assert(0 <= i < a.len() && i < c.len() && a[i] < c[i] && forall|j: int| 0 <= j < i ==> a[j] == c[j]);
    } else {
        assert(0 <= k < a.len() && k < c.len() && a[k] < c[k] && forall|j: int| 0 <= j < k ==> a[j] == c[j]);
    }
}

/// The order of byte strings is strict.
pub proof fn lemma_bytes_lt_asymmetric(a: Seq<u8>, b: Seq<u8>)
    requires
        bytes_lt(a, b),
    ensures
        !bytes_lt(b, a),
        a != b,
{
    let i = choose|i: int|
        0 <= i < a.len() && i < b.len() && a[i] < b[i] && forall|j: int| 0 <= j < i ==> a[j] == b[j];
    if bytes_lt(b, a) {
        let k = choose|k: int|
            0 <= k < b.len() && k < a.len() && b[k] < a[k] && forall|j: int| 0 <= j < k ==> b[j] == a[j];
        if i < k {
            assert(a[i] == b[i]);
        } else if k < i {
            assert(a[k] == b[k]);
        }
    }
    assert(a[i] != b[i]);
}

/// Byte-wise exclusive or.
pub open spec fn bytes_xor(a: Seq<u8>, b: Seq<u8>) -> Seq<u8>
    recommends
        a.len() == b.len(),
{
    Seq::new(a.len(), |i: int| a[i] ^ b[i])
}

/// Whether two 32-byte strings are equal.
pub fn key_eq(a: &[u8; 32], b: &[u8; 32]) -> (r: bool)
    ensures
        r == (a@ == b@),
{
    let mut i: usize = 0;
    while i < 32
        invariant
            0 <= i <= 32,
            a@.len() == 32,
            b@.len() == 32,
            forall|j: int| 0 <= j < i ==> a@[j] == b@[j],
        decreases 32 - i,
    {
        if a[i] != b[i] {
            return false;
        }
        i = i + 1;
    }
    assert(a@ =~= b@);
    true
}

/// Compares two 32-byte strings; returns -1, 0 or 1.
pub fn key_cmp(a: &[u8; 32], b: &[u8; 32]) -> (r: i8)
    ensures
        r == 0 <==> a@ == b@,
        r < 0 <==> bytes_lt(a@, b@),
        r > 0 <==> bytes_lt(b@, a@),
{
    let mut i: usize = 0;
    while i < 32
        invariant
            0 <= i <= 32,
            a@.len() == 32,
            b@.len() == 32,
            forall|j: int| 0 <= j < i ==> a@[j] == b@[j],
        decreases 32 - i,
    {
        if a[i] != b[i] {
            proof {
                assert(a@ != b@) by {
                    assert(a@[i as int] != b@[i as int]);
                }
                if a@[i as int] < b@[i as int] {
                    assert(bytes_lt(a@, b@));
                    assert(!bytes_lt(b@, a@)) by {
                        if bytes_lt(b@, a@) {
                            let k = choose|k: int|
                                0 <= k < b@.len() && k < a@.len() && b@[k] < a@[k] && forall|j: int|
                                    0 <= j < k ==> b@[j] == a@[j];
                            if k > i {
                                assert(b@[i as int] == a@[i as int]);
                            }
                        }
                    }
                } else {
                    assert(bytes_lt(b@, a@));
                    assert(!bytes_lt(a@, b@)) by {
                        if bytes_lt(a@, b@) {
                            let k = choose|k: int|
                                0 <= k < a@.len() && k < b@.len() && a@[k] < b@[k] && forall|j: int|
                                    0 <= j < k ==> a@[j] == b@[j];
                            if k > i {
                                assert(b@[i as int] == a@[i as int]);
                            }
                        }
                    }
                }
            }
            if a[i] < b[i] {
                return -1;
            } else {
                return 1;
            }
        }
        i = i + 1;
    }
    assert(a@ =~= b@);
    proof {
        assert(!bytes_lt(a@, b@));
        assert(!bytes_lt(b@, a@));
    }
    0
}

/// Byte-wise exclusive or of two 32-byte strings.
pub fn xor_32(a: &[u8; 32], b: &[u8; 32]) -> (r: [u8; 32])
    ensures
        r@ == bytes_xor(a@, b@),
{
    let mut r: [u8; 32] = [0u8; 32];
    let mut i: usize = 0;
    while i < 32
        invariant
            0 <= i <= 32,
            a@.len() == 32,
            b@.len() == 32,
            r@.len() == 32,
            forall|j: int| 0 <= j < i ==> r@[j] == a@[j] ^ b@[j],
        decreases 32 - i,
    {
        r[i] = a[i] ^ b[i];
        i = i + 1;
    }
    assert(r@ =~= bytes_xor(a@, b@));
    r
}

} // verus!
