//! Mathematical model of the SeaHash algorithm.
//!
//! The hash folds 8-byte little-endian blocks into four 64-bit lanes with a
//! multiply-shift-xor diffusion step; leftover tail bytes (fewer than one
//! block) and the total input length are mixed in by the finalization step.
//! Everything here is specification-level: the executable code in the other
//! modules is proved to compute exactly these functions.
use vstd::prelude::*;

verus! {

/// Multiplier of the diffusion function (derived from the PCG generator's round).
pub const DIFFUSE_MULTIPLIER: u64 = 0x6eed0e9da4d94a4f;

/// First word of the default seed.
pub const SEED_A: u64 = 0x16f11fe89b0d677c;

/// Second word of the default seed.
pub const SEED_B: u64 = 0xb480a793d8e6c86c;

/// Third word of the default seed.
pub const SEED_C: u64 = 0x6fe2e5aaf078ebc9;

/// Fourth word of the default seed.
pub const SEED_D: u64 = 0x14f994a4c5259381;

/// Number of bytes in one input block.
pub const BLOCK_SIZE: u8 = 8;

/// Number of bytes in a binary digest.
pub const DIGEST_SIZE: u8 = 8;

/// Product of two lanes, wrapped modulo 2^64.
pub open spec fn wrapping_mul64(x: u64, y: u64) -> u64 {
    ((x as nat * y as nat) % 0x1_0000_0000_0000_0000nat) as u64
}

/// The diffusion function: a bijective mixing step that spreads the influence
/// of every input bit across the word.
pub open spec fn diffuse(x: u64) -> u64 {
    let y = wrapping_mul64(x, DIFFUSE_MULTIPLIER);
    let z = y ^ ((y >> 32) >> (y >> 60));
    wrapping_mul64(z, DIFFUSE_MULTIPLIER)
}

/// One mixing round: fold the block `x` into lane `a`, then rotate the lanes.
pub open spec fn mix_lanes(st: (u64, u64, u64, u64), x: u64) -> (u64, u64, u64, u64) {
    (st.1, st.2, st.3, diffuse(st.0 ^ x))
}

/// The little-endian value of a byte string, as an unbounded integer.
pub open spec fn le_int(s: Seq<u8>) -> int
    decreases s.len(),
{
    if s.len() == 0 {
        0
    } else {
        s[0] + 256 * le_int(s.skip(1))
    }
}

/// The little-endian value of a byte string of at most 8 bytes, as a word.
pub open spec fn read_le(s: Seq<u8>) -> u64 {
    (le_int(s) % 0x1_0000_0000_0000_0000int) as u64
}

/// How many whole blocks `s` contains.
pub open spec fn num_blocks(s: Seq<u8>) -> int {
    s.len() as int / 8
}

/// The `i`-th whole block of `s`, as a word.
pub open spec fn block_at(s: Seq<u8>, i: int) -> u64 {
    read_le(s.subrange(8 * i, 8 * i + 8))
}

/// The lane state after folding the first `k` blocks of `s` into `seed`.
pub open spec fn lanes_after(seed: (u64, u64, u64, u64), s: Seq<u8>, k: int) -> (
    u64,
    u64,
    u64,
    u64,
)
    decreases k,
{
    if k <= 0 {
        seed
    } else {
        mix_lanes(lanes_after(seed, s, k - 1), block_at(s, k - 1))
    }
}

/// The lane state after folding every whole block of `s` into `seed`.
pub open spec fn lanes_of(seed: (u64, u64, u64, u64), s: Seq<u8>) -> (u64, u64, u64, u64) {
    lanes_after(seed, s, num_blocks(s))
}

/// The tail of `s`: the trailing bytes (fewer than 8) of no whole block.
pub open spec fn tail_of(s: Seq<u8>) -> Seq<u8> {
    s.skip(8 * num_blocks(s))
}

/// The total input length as a word, wrapped modulo 2^64.
pub open spec fn wrapped_len(s: Seq<u8>) -> u64 {
    ((s.len() as int) % 0x1_0000_0000_0000_0000int) as u64
}

/// Finalization: fold the tail (if any) into the first lane, then xor all four
/// lanes with the total length and diffuse once more. Mixing the length in
/// keeps inputs that differ only in trailing zero bytes from colliding.
pub open spec fn finish_lanes(st: (u64, u64, u64, u64), tail: Seq<u8>, total: u64) -> u64 {
    let front = if tail.len() > 0 {
        diffuse(st.0 ^ read_le(tail))
    } else {
        st.0
    };
    diffuse(front ^ st.1 ^ st.2 ^ st.3 ^ total)
}

/// The hash of `s` under the seed `(a, b, c, d)`.
pub open spec fn hash_bytes_seeded(s: Seq<u8>, a: u64, b: u64, c: u64, d: u64) -> u64 {
    finish_lanes(lanes_of((a, b, c, d), s), tail_of(s), wrapped_len(s))
}

/// The hash of `s` under the default seed.
pub open spec fn hash_bytes(s: Seq<u8>) -> u64 {
    hash_bytes_seeded(s, SEED_A, SEED_B, SEED_C, SEED_D)
}

/// `le_int` is non-negative and bounded by 256 to the length of the string.
pub proof fn lemma_le_int_bound(s: Seq<u8>)
    ensures
        0 <= le_int(s),
        s.len() == 0 ==> le_int(s) == 0,
        s.len() <= 1 ==> le_int(s) < 0x100,
        s.len() <= 2 ==> le_int(s) < 0x1_0000,
        s.len() <= 3 ==> le_int(s) < 0x100_0000,
        s.len() <= 4 ==> le_int(s) < 0x1_0000_0000,
        s.len() <= 5 ==> le_int(s) < 0x100_0000_0000,
        s.len() <= 6 ==> le_int(s) < 0x1_0000_0000_0000,
        s.len() <= 7 ==> le_int(s) < 0x100_0000_0000_0000,
        s.len() <= 8 ==> le_int(s) < 0x1_0000_0000_0000_0000,
    decreases s.len(),
{
    if s.len() > 0 {
        lemma_le_int_bound(s.skip(1));
    }
}

/// For a byte string of at most 8 bytes, the word value is the integer value.
pub proof fn lemma_read_le_small(s: Seq<u8>)
    requires
        s.len() <= 8,
    ensures
        read_le(s) as int == le_int(s),
{
    lemma_le_int_bound(s);
    vstd::arithmetic::div_mod::lemma_small_mod(le_int(s) as nat, 0x1_0000_0000_0000_0000nat);
}

/// Folding `k` blocks reads only the first `8 * k` bytes, so any two strings
/// that agree there fold to the same lanes.
pub proof fn lemma_lanes_prefix(seed: (u64, u64, u64, u64), s1: Seq<u8>, s2: Seq<u8>, k: int)
    requires
        0 <= k,
        8 * k <= s1.len(),
        8 * k <= s2.len(),
        forall|i: int| 0 <= i < 8 * k ==> s1[i] == s2[i],
    ensures
        lanes_after(seed, s1, k) == lanes_after(seed, s2, k),
    decreases k,
{
    if k > 0 {
        lemma_lanes_prefix(seed, s1, s2, k - 1);
        assert(s1.subrange(8 * (k - 1), 8 * (k - 1) + 8) =~= s2.subrange(
            8 * (k - 1),
            8 * (k - 1) + 8,
        ));
    }
}

/// Appending one byte either grows the tail (when the tail was shorter than
/// 7 bytes) or completes a block that is folded into the lanes (when the
/// appended byte is the eighth).
pub proof fn lemma_append_byte(seed: (u64, u64, u64, u64), s: Seq<u8>, b: u8)
    ensures
        s.len() % 8 == 7 ==> num_blocks(s.push(b)) == num_blocks(s) + 1,
        s.len() % 8 == 7 ==> lanes_of(seed, s.push(b)) == mix_lanes(
            lanes_of(seed, s),
            read_le(tail_of(s).push(b)),
        ),
        s.len() % 8 == 7 ==> tail_of(s.push(b)) == Seq::<u8>::empty(),
        s.len() % 8 != 7 ==> num_blocks(s.push(b)) == num_blocks(s),
        s.len() % 8 != 7 ==> lanes_of(seed, s.push(b)) == lanes_of(seed, s),
        s.len() % 8 != 7 ==> tail_of(s.push(b)) == tail_of(s).push(b),
{
    let n = s.len() as int;
    let k = num_blocks(s);
    vstd::arithmetic::div_mod::lemma_fundamental_div_mod(n, 8);
    if n % 8 == 7 {
        vstd::arithmetic::div_mod::lemma_fundamental_div_mod_converse(n + 1, 8, k + 1, 0);
        assert(num_blocks(s.push(b)) == k + 1);
        lemma_lanes_prefix(seed, s, s.push(b), k);
        assert(s.push(b).subrange(8 * k, 8 * k + 8) =~= tail_of(s).push(b));
        assert(tail_of(s.push(b)) =~= Seq::<u8>::empty());
    } else {
        vstd::arithmetic::div_mod::lemma_fundamental_div_mod_converse(n + 1, 8, k, n % 8 + 1);
        assert(num_blocks(s.push(b)) == k);
        lemma_lanes_prefix(seed, s, s.push(b), k);
        assert(tail_of(s.push(b)) =~= tail_of(s).push(b));
    }
}

/// Appending one byte steps the wrapped length counter by one, wrapping
/// around past the largest word.
pub proof fn lemma_wrapped_len_push(s: Seq<u8>, b: u8)
    ensures
        wrapped_len(s.push(b)) == if wrapped_len(s) == u64::MAX {
            0u64
        } else {
            (wrapped_len(s) + 1) as u64
        },
{
    let n = s.len() as int;
    let m = 0x1_0000_0000_0000_0000int;
    vstd::arithmetic::div_mod::lemma_add_mod_noop_right(1, n, m);
    assert((1 + n % m) % m == (1 + n) % m);
    vstd::arithmetic::div_mod::lemma_mod_division_less_than_divisor(n, m);
    if n % m == m - 1 {
        vstd::arithmetic::div_mod::lemma_mod_self_0(m);
    } else {
        vstd::arithmetic::div_mod::lemma_small_mod((1 + n % m) as nat, m as nat);
    }
}

/// The tail of a byte string is its length modulo 8 trailing bytes.
pub proof fn lemma_tail_len(s: Seq<u8>)
    ensures
        tail_of(s).len() == s.len() % 8,
        tail_of(s).len() < 8,
{
    vstd::arithmetic::div_mod::lemma_fundamental_div_mod(s.len() as int, 8);
}

} // verus!
