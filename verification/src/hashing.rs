//! Executable hash core: the diffusion step, the little-endian block reader,
//! and the one-shot hash functions, each proved to compute the model of
//! `crate::model`.
use vstd::prelude::*;

use crate::model::block_at;
use crate::model::diffuse;
use crate::model::hash_bytes;
use crate::model::hash_bytes_seeded;
use crate::model::lanes_after;
use crate::model::le_int;
use crate::model::lemma_le_int_bound;
use crate::model::lemma_read_le_small;
use crate::model::num_blocks;
use crate::model::read_le;
use crate::model::tail_of;
use crate::model::wrapped_len;
use crate::model::wrapping_mul64;
use crate::model::DIFFUSE_MULTIPLIER;
use crate::model::SEED_A;
use crate::model::SEED_B;
use crate::model::SEED_C;
use crate::model::SEED_D;

verus! {

/// The diffusion step on one word.
pub(crate) fn diffuse_word(x: u64) -> (r: u64)
    ensures
        r == diffuse(x),
{
    let y = x.wrapping_mul(DIFFUSE_MULTIPLIER);
    assert(y == wrapping_mul64(x, DIFFUSE_MULTIPLIER));
    let shift = y >> 60;
    assert(y >> 60u64 < 64) by (bit_vector);
    let z = y ^ ((y >> 32) >> shift);
    let r = z.wrapping_mul(DIFFUSE_MULTIPLIER);
    assert(r == wrapping_mul64(z, DIFFUSE_MULTIPLIER));
    r
}

/// Read up to 8 bytes as a little-endian word.
pub(crate) fn read_block(bytes: &[u8]) -> (r: u64)
    requires
        bytes@.len() <= 8,
    ensures
        r == read_le(bytes@),
        r as int == le_int(bytes@),
{
    let mut x: u64 = 0;
    let mut i: usize = bytes.len();
    assert(bytes@.skip(i as int) =~= Seq::<u8>::empty());
    while i > 0
        invariant
            i <= bytes@.len() <= 8,
            x as int == le_int(bytes@.skip(i as int)),
        decreases i,
    {
        i = i - 1;
        let b = bytes[i];
        proof {
            lemma_le_int_bound(bytes@.skip(i as int + 1));
            assert(bytes@.skip(i as int).skip(1) =~= bytes@.skip(i as int + 1));
            assert(bytes@.skip(i as int)[0] == b);
        }
        x = x * 256 + (b as u64);
    }
    proof {
        assert(bytes@.skip(0) =~= bytes@);
        lemma_read_le_small(bytes@);
    }
    x
}

/// Hash a byte buffer with the seed `(a, b, c, d)`. The lanes start at the
/// seed words, every whole 8-byte block is folded in, and the leftover tail
/// and total length are mixed in by the finalization step.
pub fn hash_seeded(buf: &[u8], a: u64, b: u64, c: u64, d: u64) -> (r: u64)
    ensures
        r == hash_bytes_seeded(buf@, a, b, c, d),
{
    let ghost seed = (a, b, c, d);
    let mut la = a;
    let mut lb = b;
    let mut lc = c;
    let mut ld = d;
    let n: usize = buf.len();
    let total_blocks: usize = n / 8;
    proof {
        vstd::arithmetic::div_mod::lemma_fundamental_div_mod(n as int, 8);
        assert(total_blocks as int == num_blocks(buf@));
    }
    let mut k: usize = 0;
    while k < total_blocks
        invariant
            k <= total_blocks,
            n == buf@.len(),
            total_blocks as int == num_blocks(buf@),
            8 * (total_blocks as int) <= n,
            (la, lb, lc, ld) == lanes_after(seed, buf@, k as int),
        decreases total_blocks - k,
    {
        proof {
            assert(8 * (k as int) + 8 <= 8 * (total_blocks as int)) by (nonlinear_arith)
                requires
                    k < total_blocks,
            ;
        }
        let block_bytes = vstd::slice::slice_subrange(buf, 8 * k, 8 * k + 8);
        let block = read_block(block_bytes);
        assert(block == block_at(buf@, k as int));
        let folded = diffuse_word(la ^ block);
        la = lb;
        lb = lc;
        lc = ld;
        ld = folded;
        k = k + 1;
    }
    let tail_start: usize = 8 * total_blocks;
    let tail_bytes = vstd::slice::slice_subrange(buf, tail_start, n);
    assert(tail_bytes@ =~= tail_of(buf@));
    let front = if tail_bytes.len() > 0 {
        diffuse_word(la ^ read_block(tail_bytes))
    } else {
        la
    };
    let total: u64 = buf.len() as u64;
    proof {
        vstd::arithmetic::div_mod::lemma_small_mod(buf@.len(), 0x1_0000_0000_0000_0000nat);
        assert(total == wrapped_len(buf@));
    }
    diffuse_word(front ^ lb ^ lc ^ ld ^ total)
}

/// Hash a byte buffer with the default seed.
pub fn hash(buf: &[u8]) -> (r: u64)
    ensures
        r == hash_bytes(buf@),
{
    hash_seeded(buf, SEED_A, SEED_B, SEED_C, SEED_D)
}

} // verus!
