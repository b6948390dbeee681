//! HMAC-SHA-1 (RFC 2104) and the first block of PBKDF2 (RFC 8018) over it.

use crate::sha1::{sha1, BLOCK_LEN, DIGEST_LEN};
use vstd::prelude::*;

verus! {

/// The HMAC key as one block: hashed first where it is longer than a block, then zero-filled.
pub open spec fn key_block(key: Seq<u8>) -> Seq<u8> {
    let k = if key.len() > 64 {
        crate::sha1::sha1_digest(key)
    } else {
        key
    };
    Seq::new(64, |i: int| if i < k.len() { k[i] } else { 0u8 })
}

/// `block` with every byte combined with `mask`.
pub open spec fn masked(block: Seq<u8>, mask: u8) -> Seq<u8> {
    Seq::new(block.len(), |i: int| mask ^ block[i])
}

/// The HMAC-SHA-1 of `message` under `key`.
pub open spec fn hmac(key: Seq<u8>, message: Seq<u8>) -> Seq<u8> {
    crate::sha1::sha1_digest(
        masked(key_block(key), 0x5c) + crate::sha1::sha1_digest(
            masked(key_block(key), 0x36) + message,
        ),
    )
}

/// The salt followed by the number of the first block.
pub open spec fn first_block_salt(salt: Seq<u8>) -> Seq<u8> {
    salt + seq![0u8, 0u8, 0u8, 1u8]
}

/// The `n`th iterate of the pseudorandom function, counted from 1.
pub open spec fn iterate(password: Seq<u8>, salt: Seq<u8>, n: nat) -> Seq<u8>
    decreases n,
{
    if n <= 1 {
        hmac(password, first_block_salt(salt))
    } else {
        hmac(password, iterate(password, salt, (n - 1) as nat))
    }
}

/// Byte-wise exclusive or.
pub open spec fn xored(x: Seq<u8>, y: Seq<u8>) -> Seq<u8> {
    Seq::new(x.len(), |i: int| x[i] ^ y[i])
}

/// The exclusive or of the first `n` iterates (of the first alone where `n` is 0).
pub open spec fn derived_block(password: Seq<u8>, salt: Seq<u8>, n: nat) -> Seq<u8>
    decreases n,
{
    if n <= 1 {
        iterate(password, salt, 1)
    } else {
        xored(derived_block(password, salt, (n - 1) as nat), iterate(password, salt, n))
    }
}

/// `out` with its leading bytes, up to one digest, replaced by those of the derived block.
pub open spec fn derived_into(
    password: Seq<u8>,
    salt: Seq<u8>,
    iterations: nat,
    out: Seq<u8>,
) -> Seq<u8> {
    Seq::new(
        out.len(),
        |i: int|
            if i < DIGEST_LEN {
                derived_block(password, salt, iterations)[i]
            } else {
                out[i]
            },
    )
}

/// A MAC is as long as a digest.
pub proof fn law_hmac_length(key: Seq<u8>, message: Seq<u8>)
    ensures
        hmac(key, message).len() == DIGEST_LEN,
{
}

/// A key longer than a block is worth exactly its digest.
pub proof fn law_long_key_is_hashed(key: Seq<u8>, message: Seq<u8>)
    requires
        key.len() > BLOCK_LEN,
    ensures
        hmac(key, message) == hmac(crate::sha1::sha1_digest(key), message),
{
    crate::sha1::law_digest_length(key);
    assert(key_block(key) =~= key_block(crate::sha1::sha1_digest(key)));
}

/// Zero bytes at the end of a key that still fits in a block make no difference.
pub proof fn law_key_zero_fill(key: Seq<u8>, zeros: nat, message: Seq<u8>)
    requires
        key.len() + zeros <= BLOCK_LEN,
    ensures
        hmac(key, message) == hmac(key + Seq::new(zeros, |i: int| 0u8), message),
{
    assert(key_block(key) =~= key_block(key + Seq::new(zeros, |i: int| 0u8)));
}

/// Every byte of a key that fits in a block counts: the block begins with the whole key, and the
/// rest of it is zeros. Two keys of one length that differ have different blocks.
pub proof fn law_whole_key_counts(key: Seq<u8>, other: Seq<u8>)
    requires
        key.len() <= 64,
    ensures
        key_block(key).len() == 64,
        key_block(key).take(key.len() as int) == key,
        forall|i: int| key.len() <= i < 64 ==> #[trigger] key_block(key)[i] == 0,
        other.len() == key.len() && other != key ==> key_block(other) != key_block(key),
{
    assert(key_block(key).take(key.len() as int) =~= key);
    if other.len() == key.len() {
        assert(key_block(other).take(key.len() as int) =~= other);
    }
}

/// A key longer than a block counts by its digest: the block begins with it, and the rest is
/// zeros.
pub proof fn law_long_key_block(key: Seq<u8>)
    requires
        key.len() > 64,
    ensures
        key_block(key).len() == 64,
        key_block(key).take(20) == crate::sha1::sha1_digest(key),
        forall|i: int| 20 <= i < 64 ==> #[trigger] key_block(key)[i] == 0,
{
    crate::sha1::law_digest_length(key);
    assert(key_block(key).take(20) =~= crate::sha1::sha1_digest(key));
}

/// A MAC is the digest of a block and an inner digest, and that the digest of another block and
/// the message. Under a mask each, the two blocks are the key's.
pub proof fn law_mac_is_two_digests(
    key: Seq<u8>,
    message: Seq<u8>,
    inner: Seq<u8>,
    outer: Seq<u8>,
)
    requires
        inner.len() == 64,
        outer.len() == 64,
        forall|i: int| 0 <= i < 64 ==> #[trigger] inner[i] ^ 0x36u8 == key_block(key)[i],
        forall|i: int| 0 <= i < 64 ==> #[trigger] outer[i] ^ 0x5cu8 == key_block(key)[i],
    ensures
        hmac(key, message) == crate::sha1::sha1_digest(
            outer + crate::sha1::sha1_digest(inner + message),
        ),
{
    let block = key_block(key);
    assert forall|i: int| 0 <= i < 64 implies #[trigger] masked(block, 0x36)[i] == inner[i] by {
        let x = inner[i];
        assert(inner[i] ^ 0x36u8 == block[i]);
        assert(0x36u8 ^ (x ^ 0x36u8) == x) by (bit_vector);
    }
    assert forall|i: int| 0 <= i < 64 implies #[trigger] masked(block, 0x5c)[i] == outer[i] by {
        let x = outer[i];
        assert(outer[i] ^ 0x5cu8 == block[i]);
        assert(0x5cu8 ^ (x ^ 0x5cu8) == x) by (bit_vector);
    }
    assert(masked(block, 0x36) =~= inner);
    assert(masked(block, 0x5c) =~= outer);
}

/// One more iteration combines the derived block, byte by byte, with the MAC of the previous
/// iterate. The first iterate is the MAC of the salt and the block number 1, and the derived block
/// of one iteration.
pub proof fn law_iteration(password: Seq<u8>, salt: Seq<u8>, n: nat, i: int)
    requires
        n >= 1,
        0 <= i < 20,
    ensures
        iterate(password, salt, 1) == hmac(password, salt + seq![0u8, 0u8, 0u8, 1u8]),
        iterate(password, salt, n + 1) == hmac(password, iterate(password, salt, n)),
        derived_block(password, salt, 1) == iterate(password, salt, 1),
        derived_block(password, salt, 0) == derived_block(password, salt, 1),
        derived_block(password, salt, n + 1)[i] ^ derived_block(password, salt, n)[i] == iterate(
            password,
            salt,
            n + 1,
        )[i],
{
    law_derived_block_length(password, salt, n);
    let x = derived_block(password, salt, n)[i];
    let y = iterate(password, salt, n + 1)[i];
    assert(derived_block(password, salt, n + 1)[i] == x ^ y);
    assert((x ^ y) ^ x == y) by (bit_vector);
}

/// The derived bytes replace the beginning of the buffer, up to one digest; its length and the
/// rest of it stay.
pub proof fn law_derived_into(password: Seq<u8>, salt: Seq<u8>, iterations: nat, out: Seq<u8>)
    ensures
        ({
            let r = derived_into(password, salt, iterations, out);
            let block = derived_block(password, salt, iterations);
            &&& r.len() == out.len()
            &&& out.len() <= 20 ==> r == block.take(out.len() as int)
            &&& out.len() > 20 ==> r.take(20) == block && r.skip(20) == out.skip(20)
        }),
{
    law_derived_block_length(password, salt, iterations);
    let r = derived_into(password, salt, iterations, out);
    let block = derived_block(password, salt, iterations);
    if out.len() <= 20 {
        assert(r =~= block.take(out.len() as int));
    } else {
        assert(r.take(20) =~= block);
        assert(r.skip(20) =~= out.skip(20));
    }
}

/// The derived block is one digest long.
pub proof fn law_derived_block_length(password: Seq<u8>, salt: Seq<u8>, n: nat)
    ensures
        derived_block(password, salt, n).len() == DIGEST_LEN,
    decreases n,
{
    if n > 1 {
        law_derived_block_length(password, salt, (n - 1) as nat);
    } else {
        let message = first_block_salt(salt);
        law_hmac_length(password, message);
        assert(derived_block(password, salt, n) == hmac(password, message));
    }
}

/// A shorter key is a prefix of a longer one derived from the same inputs.
pub proof fn law_shorter_key_is_prefix(
    password: Seq<u8>,
    salt: Seq<u8>,
    iterations: nat,
    short: Seq<u8>,
    long: Seq<u8>,
)
    requires
        short.len() <= long.len(),
        short.len() <= DIGEST_LEN,
    ensures
        derived_into(password, salt, iterations, short) == derived_into(
            password,
            salt,
            iterations,
            long,
        ).take(short.len() as int),
{
}

/// The HMAC-SHA-1 of `msg` under `key`.
pub fn hmac_sha1(key: &[u8], msg: &[u8]) -> (mac: Vec<u8>)
    ensures
        mac@ == hmac(key@, msg@),
        mac@.len() == DIGEST_LEN,
{
    let mut k: Vec<u8> = Vec::new();
    if key.len() > BLOCK_LEN {
        k = sha1(key);
    } else {
        k.extend_from_slice(key);
        assert(k@ == key@);
    }
    let ghost short = k@;
    while k.len() < BLOCK_LEN
        invariant
            short.len() <= k@.len() <= BLOCK_LEN,
            k@ == short + Seq::new((k@.len() - short.len()) as nat, |i: int| 0u8),
        decreases BLOCK_LEN - k@.len(),
    {
        k.push(0);
    }
    assert(k@ == key_block(key@));
    let mut inner: Vec<u8> = Vec::new();
    let mut outer: Vec<u8> = Vec::new();
    for i in 0..BLOCK_LEN
        invariant
            k@.len() == BLOCK_LEN,
            inner@ == masked(k@, 0x36).take(i as int),
            outer@ == masked(k@, 0x5c).take(i as int),
    {
        inner.push(0x36u8 ^ k[i]);
        outer.push(0x5cu8 ^ k[i]);
    }
    assert(inner@ == masked(k@, 0x36));
    assert(outer@ == masked(k@, 0x5c));
    inner.extend_from_slice(msg);
    assert(inner@ == masked(k@, 0x36) + msg@);
    let inner_hash: Vec<u8> = sha1(inner.as_slice());
    outer.extend_from_slice(inner_hash.as_slice());
    assert(outer@ == masked(k@, 0x5c) + inner_hash@);
    sha1(outer.as_slice())
}

/// Derives up to one digest of key material with PBKDF2-HMAC-SHA-1.
///
/// Writes the leading bytes of the first derived block over `out`; what is beyond one digest
/// stays as it was. An iteration count of 0 counts as 1.
pub fn pbkdf2_sha1(password: &[u8], salt: &[u8], iterations: u32, out: &mut [u8])
    ensures
        final(out)@ == derived_into(password@, salt@, iterations as nat, old(out)@),
{
    let mut salt_block: Vec<u8> = Vec::new();
    salt_block.extend_from_slice(salt);
    salt_block.push(0);
    salt_block.push(0);
    salt_block.push(0);
    salt_block.push(1);
    assert(salt_block@ == first_block_salt(salt@));
    let mut u: Vec<u8> = hmac_sha1(password, salt_block.as_slice());
    let mut result: Vec<u8> = Vec::new();
    result.extend_from_slice(u.as_slice());
    assert(result@ == u@);
    let mut n: u32 = 1;
    while n < iterations
        invariant
            n >= 1,
            n <= iterations || n == 1,
            u@ == iterate(password@, salt@, n as nat),
            result@ == derived_block(password@, salt@, n as nat),
            u@.len() == DIGEST_LEN,
            result@.len() == DIGEST_LEN,
        decreases iterations - n,
    {
        u = hmac_sha1(password, u.as_slice());
        let ghost before = result@;
        for j in 0..DIGEST_LEN
            invariant
                u@.len() == DIGEST_LEN,
                result@.len() == DIGEST_LEN,
                before.len() == DIGEST_LEN,
                forall|i: int| 0 <= i < j ==> #[trigger] result@[i] == before[i] ^ u@[i],
                forall|i: int| j <= i < DIGEST_LEN ==> #[trigger] result@[i] == before[i],
        {
            let b: u8 = result[j] ^ u[j];
            result[j] = b;
        }
        n = n + 1;
        assert(result@ == xored(before, u@));
    }
    let len: usize = out.len();
    let copy_len: usize = if len < DIGEST_LEN {
        len
    } else {
        DIGEST_LEN
    };
    let ghost start = out@;
    for i in 0..copy_len
        invariant
            copy_len <= len,
            copy_len <= DIGEST_LEN,
            out@.len() == len,
            start.len() == len,
            result@.len() == DIGEST_LEN,
            forall|j: int| 0 <= j < i ==> #[trigger] out@[j] == result@[j],
            forall|j: int| i <= j < len ==> #[trigger] out@[j] == start[j],
    {
        out[i] = result[i];
    }
    proof {
        assert(derived_block(password@, salt@, iterations as nat) == result@);
    }
}

} // verus!
