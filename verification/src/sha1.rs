//! SHA-1, as FIPS 180-4 defines it.

use vstd::prelude::*;

verus! {

/// Number of bytes in a message block.
pub const BLOCK_LEN: usize = 64;

/// Number of bytes in a digest.
pub const DIGEST_LEN: usize = 20;

/// The five chaining words of the hash.
#[derive(Clone, Copy)]
pub struct HashState {
    pub a: u32,
    pub b: u32,
    pub c: u32,
    pub d: u32,
    pub e: u32,
}

/// Addition modulo 2^32.
pub open spec fn sum32(x: u32, y: u32) -> u32 {
    ((x + y) % 0x1_0000_0000) as u32
}

/// Rotation of a word to the left by `n` bits.
pub open spec fn rotl(x: u32, n: u32) -> u32 {
    (x << n) | (x >> ((32 - n) as u32))
}

/// The `i`th big-endian word of a block.
pub open spec fn block_word(block: Seq<u8>, i: int) -> u32 {
    ((block[4 * i] as u32) << 24u32) | ((block[4 * i + 1] as u32) << 16u32)
        | ((block[4 * i + 2] as u32) << 8u32) | (block[4 * i + 3] as u32)
}

/// The message schedule: word `t` that round `t` mixes in.
pub open spec fn schedule(block: Seq<u8>, t: nat) -> u32
    decreases t,
{
    if t < 16 {
        block_word(block, t as int)
    } else {
        rotl(
            schedule(block, (t - 3) as nat) ^ schedule(block, (t - 8) as nat) ^ schedule(
                block,
                (t - 14) as nat,
            ) ^ schedule(block, (t - 16) as nat),
            1,
        )
    }
}

/// The logical function of round `t`.
pub open spec fn round_function(t: nat, b: u32, c: u32, d: u32) -> u32 {
    if t < 20 {
        (b & c) | (!b & d)
    } else if t < 40 {
        b ^ c ^ d
    } else if t < 60 {
        (b & c) | (b & d) | (c & d)
    } else {
        b ^ c ^ d
    }
}

/// The additive constant of round `t`.
pub open spec fn round_constant(t: nat) -> u32 {
    if t < 20 {
        0x5A827999
    } else if t < 40 {
        0x6ED9EBA1
    } else if t < 60 {
        0x8F1BBCDC
    } else {
        0xCA62C1D6
    }
}

/// One round of the compression function.
pub open spec fn round(s: HashState, t: nat, word: u32) -> HashState {
    HashState {
        a: sum32(
            sum32(
                sum32(sum32(rotl(s.a, 5), round_function(t, s.b, s.c, s.d)), s.e),
                round_constant(t),
            ),
            word,
        ),
        b: s.a,
        c: rotl(s.b, 30),
        d: s.c,
        e: s.d,
    }
}

/// The state after the first `t` rounds on `block`.
pub open spec fn rounds(s: HashState, block: Seq<u8>, t: nat) -> HashState
    decreases t,
{
    if t == 0 {
        s
    } else {
        round(rounds(s, block, (t - 1) as nat), (t - 1) as nat, schedule(block, (t - 1) as nat))
    }
}

/// The chaining state after one block: all 80 rounds, then the feed-forward.
pub open spec fn compressed(s: HashState, block: Seq<u8>) -> HashState {
    let r = rounds(s, block, 80);
    HashState {
        a: sum32(s.a, r.a),
        b: sum32(s.b, r.b),
        c: sum32(s.c, r.c),
        d: sum32(s.d, r.d),
        e: sum32(s.e, r.e),
    }
}

/// The initial hash value.
pub open spec fn initial_state() -> HashState {
    HashState { a: 0x67452301, b: 0xEFCDAB89, c: 0x98BADCFE, d: 0x10325476, e: 0xC3D2E1F0 }
}

/// The chaining state after the first `n` blocks of `message`.
pub open spec fn absorbed(message: Seq<u8>, n: nat) -> HashState
    decreases n,
{
    if n == 0 {
        initial_state()
    } else {
        compressed(
            absorbed(message, (n - 1) as nat),
            message.subrange(64 * (n - 1), 64 * n as int),
        )
    }
}

/// The four bytes of a word, most significant first.
pub open spec fn word_bytes(x: u32) -> Seq<u8> {
    seq![(x >> 24u32) as u8, (x >> 16u32) as u8, (x >> 8u32) as u8, x as u8]
}

/// The eight bytes of a 64-bit length, most significant first.
pub open spec fn length_bytes(x: u64) -> Seq<u8> {
    seq![
        (x >> 56u64) as u8,
        (x >> 48u64) as u8,
        (x >> 40u64) as u8,
        (x >> 32u64) as u8,
        (x >> 24u64) as u8,
        (x >> 16u64) as u8,
        (x >> 8u64) as u8,
        x as u8,
    ]
}

/// How many zero bytes stand between the marker byte and the length field.
pub open spec fn zero_pad_len(len: nat) -> nat {
    ((119 - len % 64) % 64) as nat
}

/// The message padded to whole blocks: a marker byte, zeros, and the length in bits.
///
/// The length field is the bit length modulo 2^64, which is the bit length itself for every
/// message that the standard admits.
pub open spec fn padded(data: Seq<u8>) -> Seq<u8> {
    data + seq![0x80u8] + Seq::new(zero_pad_len(data.len()), |i: int| 0u8) + length_bytes(
        ((data.len() * 8) % 0x1_0000_0000_0000_0000) as u64,
    )
}

/// The bytes of the five chaining words.
pub open spec fn state_bytes(s: HashState) -> Seq<u8> {
    word_bytes(s.a) + word_bytes(s.b) + word_bytes(s.c) + word_bytes(s.d) + word_bytes(s.e)
}

/// The SHA-1 digest of `data`.
pub open spec fn sha1_digest(data: Seq<u8>) -> Seq<u8> {
    state_bytes(absorbed(padded(data), padded(data).len() / 64))
}

/// A padded message is a whole number of blocks, at least one, and begins with the message.
pub proof fn law_padding_fills_blocks(data: Seq<u8>)
    ensures
        padded(data).len() % 64 == 0,
        padded(data).len() >= 64,
        padded(data).len() < data.len() + 73,
        padded(data).take(data.len() as int) == data,
{
}

/// What padding adds: a byte 0x80, then only zeros, then eight bytes that hold the length of the
/// message in bits (modulo 2^64), most significant first; and no more blocks than that needs.
pub proof fn law_padding_content(data: Seq<u8>)
    ensures
        ({
            let p = padded(data);
            let n = p.len();
            let bits = (8 * data.len()) % 0x1_0000_0000_0000_0000;
            &&& n % 64 == 0
            &&& data.len() + 9 <= n < data.len() + 73
            &&& p[data.len() as int] == 0x80
            &&& forall|i: int| data.len() < i < n - 8 ==> #[trigger] p[i] == 0
            &&& bits == 0x100_0000_0000_0000 * p[n - 8] + 0x1_0000_0000_0000 * p[n - 7]
                + 0x100_0000_0000 * p[n - 6] + 0x1_0000_0000 * p[n - 5] + 0x100_0000 * p[n - 4]
                + 0x1_0000 * p[n - 3] + 0x100 * p[n - 2] + p[n - 1]
        }),
{
    let p = padded(data);
    let n = p.len();
    let x = ((data.len() * 8) % 0x1_0000_0000_0000_0000) as u64;
    lemma_length_bytes(x);
    let l = length_bytes(x);
    assert forall|i: int| 0 <= i < 8 implies #[trigger] l[i] == p[n - 8 + i] by {}
    assert(l[0] == p[n - 8] && l[1] == p[n - 7] && l[2] == p[n - 6] && l[3] == p[n - 5]);
    assert(l[4] == p[n - 4] && l[5] == p[n - 3] && l[6] == p[n - 2] && l[7] == p[n - 1]);
}

/// The eight bytes of a length hold it, most significant first.
proof fn lemma_length_bytes(x: u64)
    ensures
        ({
            let l = length_bytes(x);
            x == 0x100_0000_0000_0000 * l[0] + 0x1_0000_0000_0000 * l[1] + 0x100_0000_0000 * l[2]
                + 0x1_0000_0000 * l[3] + 0x100_0000 * l[4] + 0x1_0000 * l[5] + 0x100 * l[6] + l[7]
        }),
{
    assert(x == 0x100_0000_0000_0000u64 * ((x >> 56u64) as u8) + 0x1_0000_0000_0000u64 * ((x
        >> 48u64) as u8) + 0x100_0000_0000u64 * ((x >> 40u64) as u8) + 0x1_0000_0000u64 * ((x
        >> 32u64) as u8) + 0x100_0000u64 * ((x >> 24u64) as u8) + 0x1_0000u64 * ((x
        >> 16u64) as u8) + 0x100u64 * ((x >> 8u64) as u8) + (x as u8)) by (bit_vector);
}

/// Words and their bytes: the bytes of a word hold it, most significant first, and a word of a
/// block is read from its bytes in the same order.
pub proof fn law_words_are_big_endian(x: u32, block: Seq<u8>, i: int)
    ensures
        word_bytes(x).len() == 4,
        x == 0x100_0000 * word_bytes(x)[0] + 0x1_0000 * word_bytes(x)[1] + 0x100 * word_bytes(x)[2]
            + word_bytes(x)[3],
        block_word(block, i) == 0x100_0000 * block[4 * i] + 0x1_0000 * block[4 * i + 1] + 0x100
            * block[4 * i + 2] + block[4 * i + 3],
{
    assert(x == 0x100_0000u32 * ((x >> 24u32) as u8) + 0x1_0000u32 * ((x >> 16u32) as u8)
        + 0x100u32 * ((x >> 8u32) as u8) + (x as u8)) by (bit_vector);
    let b0 = block[4 * i];
    let b1 = block[4 * i + 1];
    let b2 = block[4 * i + 2];
    let b3 = block[4 * i + 3];
    assert((((b0 as u32) << 24u32) | ((b1 as u32) << 16u32) | ((b2 as u32) << 8u32) | (b3 as u32))
        == 0x100_0000u32 * b0 + 0x1_0000u32 * b1 + 0x100u32 * b2 + b3) by (bit_vector);
}

/// Rotations move the high bits of a word to its low end: as numbers, by 1, 5 and 30 bits.
pub proof fn law_rotations(x: u32)
    ensures
        rotl(x, 1) == (2 * x) % 0x1_0000_0000 + x / 0x8000_0000,
        rotl(x, 5) == (32 * x) % 0x1_0000_0000 + x / 0x800_0000,
        rotl(x, 30) == (0x4000_0000 * x) % 0x1_0000_0000 + x / 4,
{
    assert(((x << 1u32) | (x >> 31u32)) == (2u32 * x) % 0x1_0000_0000 + x / 0x8000_0000u32)
        by (bit_vector);
    assert(((x << 5u32) | (x >> 27u32)) == (32u32 * x) % 0x1_0000_0000 + x / 0x800_0000u32)
        by (bit_vector);
    assert(((x << 30u32) | (x >> 2u32)) == (0x4000_0000u32 * x) % 0x1_0000_0000 + x / 4u32)
        by (bit_vector);
}

/// The logical functions, bit by bit: a choice of the second or the third word by the first, then
/// the parity of the three, then their majority, and the parity again.
pub proof fn law_round_functions(t: nat, b: u32, c: u32, d: u32)
    ensures
        t < 20 ==> {
            &&& round_function(t, b, c, d) & b == c & b
            &&& round_function(t, b, c, d) & !b == d & !b
        },
        20 <= t < 40 || 60 <= t ==> round_function(t, b, c, d) ^ d == b ^ c,
        40 <= t < 60 ==> {
            &&& round_function(t, b, c, d) & !(b ^ c) == b & !(b ^ c)
            &&& round_function(t, b, c, d) & (b ^ c) == d & (b ^ c)
        },
{
    assert(((b & c) | (!b & d)) & b == c & b) by (bit_vector);
    assert(((b & c) | (!b & d)) & !b == d & !b) by (bit_vector);
    assert((b ^ c ^ d) ^ d == b ^ c) by (bit_vector);
    assert(((b & c) | (b & d) | (c & d)) & !(b ^ c) == b & !(b ^ c)) by (bit_vector);
    assert(((b & c) | (b & d) | (c & d)) & (b ^ c) == d & (b ^ c)) by (bit_vector);
}

/// A round shifts the words on, and its new word is a sum modulo 2^32 of the rotated first word,
/// the logical function, the last word, the constant and the message word.
pub proof fn law_round(s: HashState, t: nat, word: u32)
    requires
        t < 80,
    ensures
        ({
            let r = round(s, t, word);
            let k: u32 = if t < 20 {
                0x5A827999
            } else if t < 40 {
                0x6ED9EBA1
            } else if t < 60 {
                0x8F1BBCDC
            } else {
                0xCA62C1D6
            };
            &&& r.b == s.a && r.c == rotl(s.b, 30) && r.d == s.c && r.e == s.d
            &&& (rotl(s.a, 5) + round_function(t, s.b, s.c, s.d) + s.e + k + word - r.a)
                % 0x1_0000_0000 == 0
        }),
{
}

/// The message schedule begins with the words of the block. Each later word, rotated, is the
/// exclusive or of four before it.
pub proof fn law_schedule(block: Seq<u8>, t: nat)
    ensures
        t < 16 ==> schedule(block, t) == block_word(block, t as int),
        t >= 16 ==> schedule(block, t) == rotl(
            schedule(block, (t - 16) as nat) ^ schedule(block, (t - 14) as nat) ^ schedule(
                block,
                (t - 8) as nat,
            ) ^ schedule(block, (t - 3) as nat),
            1,
        ),
{
    if t >= 16 {
        let w = schedule(block, (t - 3) as nat);
        let x = schedule(block, (t - 8) as nat);
        let y = schedule(block, (t - 14) as nat);
        let z = schedule(block, (t - 16) as nat);
        assert(w ^ x ^ y ^ z == z ^ y ^ x ^ w) by (bit_vector);
    }
}

/// Rounds follow one another, each with its word of the schedule.
pub proof fn law_rounds_in_order(s: HashState, block: Seq<u8>, t: nat)
    ensures
        rounds(s, block, 0) == s,
        rounds(s, block, t + 1) == round(rounds(s, block, t), t, schedule(block, t)),
{
}

/// A block adds the outcome of eighty rounds to the state, word by word modulo 2^32.
pub proof fn law_block_is_added(s: HashState, block: Seq<u8>)
    ensures
        ({
            let r = rounds(s, block, 80);
            let next = compressed(s, block);
            &&& (s.a + r.a - next.a) % 0x1_0000_0000 == 0
            &&& (s.b + r.b - next.b) % 0x1_0000_0000 == 0
            &&& (s.c + r.c - next.c) % 0x1_0000_0000 == 0
            &&& (s.d + r.d - next.d) % 0x1_0000_0000 == 0
            &&& (s.e + r.e - next.e) % 0x1_0000_0000 == 0
        }),
{
    let r = rounds(s, block, 80);
    lemma_sum_is_modular(s.a, r.a);
    lemma_sum_is_modular(s.b, r.b);
    lemma_sum_is_modular(s.c, r.c);
    lemma_sum_is_modular(s.d, r.d);
    lemma_sum_is_modular(s.e, r.e);
}

/// A sum differs from that of the numbers by a multiple of 2^32.
proof fn lemma_sum_is_modular(x: u32, y: u32)
    ensures
        (x + y - sum32(x, y)) % 0x1_0000_0000 == 0,
{
}

/// Blocks are absorbed one after the other, from the initial value that the standard fixes.
pub proof fn law_blocks_in_order(message: Seq<u8>, n: nat)
    ensures
        absorbed(message, n + 1) == compressed(
            absorbed(message, n),
            message.subrange(64 * n as int, 64 * n as int + 64),
        ),
        absorbed(message, 0) == (HashState {
            a: 0x67452301,
            b: 0xEFCDAB89,
            c: 0x98BADCFE,
            d: 0x10325476,
            e: 0xC3D2E1F0,
        }),
{
}

/// A digest is the bytes of the five words that all the blocks of the padded message leave.
pub proof fn law_digest_words(data: Seq<u8>)
    ensures
        ({
            let last = absorbed(padded(data), padded(data).len() / 64);
            &&& sha1_digest(data).subrange(0, 4) == word_bytes(last.a)
            &&& sha1_digest(data).subrange(4, 8) == word_bytes(last.b)
            &&& sha1_digest(data).subrange(8, 12) == word_bytes(last.c)
            &&& sha1_digest(data).subrange(12, 16) == word_bytes(last.d)
            &&& sha1_digest(data).subrange(16, 20) == word_bytes(last.e)
        }),
{
    lemma_state_words(absorbed(padded(data), padded(data).len() / 64));
}

/// The bytes of a state are those of its words, in order.
proof fn lemma_state_words(s: HashState)
    ensures
        state_bytes(s).subrange(0, 4) == word_bytes(s.a),
        state_bytes(s).subrange(4, 8) == word_bytes(s.b),
        state_bytes(s).subrange(8, 12) == word_bytes(s.c),
        state_bytes(s).subrange(12, 16) == word_bytes(s.d),
        state_bytes(s).subrange(16, 20) == word_bytes(s.e),
{
    assert(state_bytes(s).subrange(0, 4) =~= word_bytes(s.a));
    assert(state_bytes(s).subrange(4, 8) =~= word_bytes(s.b));
    assert(state_bytes(s).subrange(8, 12) =~= word_bytes(s.c));
    assert(state_bytes(s).subrange(12, 16) =~= word_bytes(s.d));
    assert(state_bytes(s).subrange(16, 20) =~= word_bytes(s.e));
}

/// A digest is twenty bytes, whatever the message.
pub proof fn law_digest_length(data: Seq<u8>)
    ensures
        sha1_digest(data).len() == DIGEST_LEN,
{
}

/// Rotates a word to the left.
fn rotate(x: u32, n: u32) -> (r: u32)
    requires
        0 < n < 32,
    ensures
        r == rotl(x, n),
{
    (x << n) | (x >> (32 - n))
}

/// Adds modulo 2^32.
fn sum(x: u32, y: u32) -> (r: u32)
    ensures
        r == sum32(x, y),
{
    x.wrapping_add(y)
}

/// Expands a block to the eighty words of the message schedule.
fn expand(message: &[u8], start: usize) -> (w: [u32; 80])
    requires
        start + 64 <= message@.len(),
    ensures
        forall|t: int|
            0 <= t < 80 ==> #[trigger] w@[t] == schedule(
                message@.subrange(start as int, start + 64),
                t as nat,
            ),
{
    let ghost block = message@.subrange(start as int, start + 64);
    let len: usize = message.len();
    let mut w: [u32; 80] = [0u32;80];
    for i in 0..16usize
        invariant
            start + 64 <= len == message@.len(),
            block == message@.subrange(start as int, start + 64),
            forall|t: int| 0 <= t < i ==> #[trigger] w@[t] == schedule(block, t as nat),
    {
        let p: usize = start + 4 * i;
        w[i] = ((message[p] as u32) << 24u32) | ((message[p + 1] as u32) << 16u32) | ((message[p
            + 2] as u32) << 8u32) | (message[p + 3] as u32);
        assert(w@[i as int] == block_word(block, i as int));
    }
    for i in 16..80usize
        invariant
            forall|t: int| 0 <= t < i ==> #[trigger] w@[t] == schedule(block, t as nat),
    {
        w[i] = rotate(w[i - 3] ^ w[i - 8] ^ w[i - 14] ^ w[i - 16], 1);
    }
    w
}

/// The logical function of one round.
fn mix(t: usize, b: u32, c: u32, d: u32) -> (r: u32)
    ensures
        r == round_function(t as nat, b, c, d),
{
    if t < 20 {
        (b & c) | (!b & d)
    } else if t < 40 {
        b ^ c ^ d
    } else if t < 60 {
        (b & c) | (b & d) | (c & d)
    } else {
        b ^ c ^ d
    }
}

/// The additive constant of one round.
fn constant(t: usize) -> (r: u32)
    ensures
        r == round_constant(t as nat),
{
    if t < 20 {
        0x5A827999
    } else if t < 40 {
        0x6ED9EBA1
    } else if t < 60 {
        0x8F1BBCDC
    } else {
        0xCA62C1D6
    }
}

/// Absorbs the block of `message` that begins at `start`.
fn compress(h: HashState, message: &[u8], start: usize) -> (r: HashState)
    requires
        start + 64 <= message@.len(),
    ensures
        r == compressed(h, message@.subrange(start as int, start + 64)),
{
    let ghost block = message@.subrange(start as int, start + 64);
    let w: [u32; 80] = expand(message, start);
    let mut s: HashState = h;
    for t in 0..80usize
        invariant
            s == rounds(h, block, t as nat),
            forall|i: int| 0 <= i < 80 ==> #[trigger] w@[i] == schedule(block, i as nat),
    {
        let f: u32 = mix(t, s.b, s.c, s.d);
        let temp: u32 = sum(sum(sum(sum(rotate(s.a, 5), f), s.e), constant(t)), w[t]);
        s = HashState { a: temp, b: s.a, c: rotate(s.b, 30), d: s.c, e: s.d };
    }
    HashState {
        a: sum(h.a, s.a),
        b: sum(h.b, s.b),
        c: sum(h.c, s.c),
        d: sum(h.d, s.d),
        e: sum(h.e, s.e),
    }
}

/// Appends the bytes of a word, most significant first.
fn push_word(out: &mut Vec<u8>, x: u32)
    ensures
        final(out)@ == old(out)@ + word_bytes(x),
{
    out.push(#[verifier::truncate] ((x >> 24u32) as u8));
    out.push(#[verifier::truncate] ((x >> 16u32) as u8));
    out.push(#[verifier::truncate] ((x >> 8u32) as u8));
    out.push(#[verifier::truncate] (x as u8));
}

/// Appends the bytes of a bit length, most significant first.
fn push_length(out: &mut Vec<u8>, x: u64)
    ensures
        final(out)@ == old(out)@ + length_bytes(x),
{
    out.push(#[verifier::truncate] ((x >> 56u64) as u8));
    out.push(#[verifier::truncate] ((x >> 48u64) as u8));
    out.push(#[verifier::truncate] ((x >> 40u64) as u8));
    out.push(#[verifier::truncate] ((x >> 32u64) as u8));
    out.push(#[verifier::truncate] ((x >> 24u64) as u8));
    out.push(#[verifier::truncate] ((x >> 16u64) as u8));
    out.push(#[verifier::truncate] ((x >> 8u64) as u8));
    out.push(#[verifier::truncate] (x as u8));
}

/// Pads a message to whole blocks.
fn pad(data: &[u8]) -> (message: Vec<u8>)
    ensures
        message@ == padded(data@),
{
    let bit_len: u64 = (data.len() as u64).wrapping_mul(8);
    let mut message: Vec<u8> = Vec::new();
    message.extend_from_slice(data);
    message.push(0x80);
    let ghost head = data@ + seq![0x80u8];
    assert(message@ == head);
    while message.len() % 64 != 56
        invariant
            head.len() == data@.len() + 1,
            head.len() <= message@.len() <= head.len() + zero_pad_len(data@.len()),
            message@ == head + Seq::new((message@.len() - head.len()) as nat, |i: int| 0u8),
        decreases head.len() + zero_pad_len(data@.len()) - message@.len(),
    {
        message.push(0);
    }
    push_length(&mut message, bit_len);
    message
}

/// The SHA-1 digest of `data`.
pub fn sha1(data: &[u8]) -> (digest: Vec<u8>)
    ensures
        digest@ == sha1_digest(data@),
        digest@.len() == DIGEST_LEN,
{
    let message: Vec<u8> = pad(data);
    proof {
        law_padding_fills_blocks(data@);
    }
    let mut h: HashState = HashState {
        a: 0x67452301,
        b: 0xEFCDAB89,
        c: 0x98BADCFE,
        d: 0x10325476,
        e: 0xC3D2E1F0,
    };
    let len: usize = message.len();
    let blocks: usize = len / 64;
    for n in 0..blocks
        invariant
            len == message@.len(),
            blocks == len / 64,
            h == absorbed(message@, n as nat),
    {
        h = compress(h, message.as_slice(), 64 * n);
    }
    let mut digest: Vec<u8> = Vec::new();
    push_word(&mut digest, h.a);
    push_word(&mut digest, h.b);
    push_word(&mut digest, h.c);
    push_word(&mut digest, h.d);
    push_word(&mut digest, h.e);
    digest
}

} // verus!
