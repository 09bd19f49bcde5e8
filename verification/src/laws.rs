//! The library's laws, stated and proved over the model.
//!
//! The centerpiece is chunking invariance: absorbing input byte by byte, in
//! any split into chunks, leaves the accumulator in exactly the state that
//! the one-shot fold of the whole concatenation reaches, so every digest of
//! the streaming hasher equals the one-shot hash.
use vstd::prelude::*;

use crate::encode::be_bytes;
use crate::encode::hex_chars;
use crate::model::finish_lanes;
use crate::model::hash_bytes;
use crate::model::hash_bytes_seeded;
use crate::model::lanes_of;
use crate::model::lemma_append_byte;
use crate::model::lemma_tail_len;
use crate::model::lemma_wrapped_len_push;
use crate::model::mix_lanes;
use crate::model::read_le;
use crate::model::tail_of;
use crate::model::wrapped_len;
use crate::model::SEED_A;
use crate::model::SEED_B;
use crate::model::SEED_C;
use crate::model::SEED_D;
use crate::stream::SeaHash;

verus! {

/// The abstract state of a streaming accumulator: the four lanes, the
/// pending tail, and the wrapped count of bytes consumed.
#[verifier::ext_equal]
pub ghost struct AbsorbState {
    /// The four lanes.
    pub lanes: (u64, u64, u64, u64),
    /// The pending tail: trailing bytes of no whole block.
    pub tail: Seq<u8>,
    /// Bytes consumed, wrapped modulo 2^64.
    pub total: u64,
}

/// The state of a fresh accumulator seeded with `(a, b, c, d)`.
pub open spec fn start_state(a: u64, b: u64, c: u64, d: u64) -> AbsorbState {
    AbsorbState { lanes: (a, b, c, d), tail: Seq::empty(), total: 0 }
}

/// Absorb one byte: it joins the tail, and a tail grown to a whole block is
/// folded into the lanes.
pub open spec fn absorb_byte_state(m: AbsorbState, b: u8) -> AbsorbState {
    let t = m.tail.push(b);
    let stepped = if m.total == u64::MAX {
        0u64
    } else {
        (m.total + 1) as u64
    };
    if t.len() == 8 {
        AbsorbState { lanes: mix_lanes(m.lanes, read_le(t)), tail: Seq::empty(), total: stepped }
    } else {
        AbsorbState { lanes: m.lanes, tail: t, total: stepped }
    }
}

/// Absorb a whole chunk, byte by byte, in order.
pub open spec fn absorb_bytes(m: AbsorbState, s: Seq<u8>) -> AbsorbState
    decreases s.len(),
{
    if s.len() == 0 {
        m
    } else {
        absorb_bytes(absorb_byte_state(m, s[0]), s.skip(1))
    }
}

/// The state that the one-shot fold of `s` over the seed reaches.
pub open spec fn fold_state(a: u64, b: u64, c: u64, d: u64, s: Seq<u8>) -> AbsorbState {
    AbsorbState { lanes: lanes_of((a, b, c, d), s), tail: tail_of(s), total: wrapped_len(s) }
}

/// The digest that an accumulator state reads out.
pub open spec fn read_out(m: AbsorbState) -> u64 {
    finish_lanes(m.lanes, m.tail, m.total)
}

/// Chunk composition: absorbing a concatenation is absorbing the chunks one
/// after the other. With `lemma_absorb_is_fold`, this is what makes every
/// split of an input into chunks digest alike.
pub proof fn lemma_absorb_append(m: AbsorbState, s1: Seq<u8>, s2: Seq<u8>)
    ensures
        absorb_bytes(m, s1 + s2) == absorb_bytes(absorb_bytes(m, s1), s2),
    decreases s1.len(),
{
    if s1.len() == 0 {
        assert(s1 + s2 =~= s2);
    } else {
        assert((s1 + s2)[0] == s1[0]);
        assert((s1 + s2).skip(1) =~= s1.skip(1) + s2);
        lemma_absorb_append(absorb_byte_state(m, s1[0]), s1.skip(1), s2);
    }
}

/// Absorbing one byte of the stream steps the one-shot fold by that byte.
proof fn lemma_absorb_byte_steps_fold(a: u64, b: u64, c: u64, d: u64, s: Seq<u8>, byte: u8)
    ensures
        absorb_byte_state(fold_state(a, b, c, d, s), byte) == fold_state(a, b, c, d, s.push(byte)),
{
    lemma_tail_len(s);
    lemma_tail_len(s.push(byte));
    lemma_append_byte((a, b, c, d), s, byte);
    lemma_wrapped_len_push(s, byte);
    assert(absorb_byte_state(fold_state(a, b, c, d, s), byte) =~= fold_state(
        a,
        b,
        c,
        d,
        s.push(byte),
    ));
}

/// Streaming absorption computes the one-shot fold: a fresh accumulator that
/// has absorbed `s`, in however many chunks, is in exactly the state that
/// folding `s` whole reaches.
pub proof fn lemma_absorb_is_fold(a: u64, b: u64, c: u64, d: u64, s: Seq<u8>)
    ensures
        absorb_bytes(start_state(a, b, c, d), s) == fold_state(a, b, c, d, s),
    decreases s.len(),
{
    if s.len() == 0 {
        assert(tail_of(s) =~= Seq::<u8>::empty());
        assert(absorb_bytes(start_state(a, b, c, d), s) =~= fold_state(a, b, c, d, s));
    } else {
        let s0 = s.drop_last();
        let byte = s.last();
        lemma_absorb_is_fold(a, b, c, d, s0);
        assert(s =~= s0 + seq![byte]);
        lemma_absorb_append(start_state(a, b, c, d), s0, seq![byte]);
        assert(seq![byte][0] == byte);
        assert(seq![byte].skip(1) =~= Seq::<u8>::empty());
        let stepped = absorb_byte_state(fold_state(a, b, c, d, s0), byte);
        assert(absorb_bytes(stepped, Seq::<u8>::empty()) == stepped);
        assert(absorb_bytes(fold_state(a, b, c, d, s0), seq![byte]) == absorb_bytes(
            stepped,
            seq![byte].skip(1),
        ));
        lemma_absorb_byte_steps_fold(a, b, c, d, s0, byte);
        assert(s0.push(byte) =~= s);
    }
}

/// Chunking invariance: a fresh accumulator that absorbs `s1` and then `s2`
/// reads out exactly the one-shot hash of `s1 ++ s2`. Together with
/// `lemma_absorb_append`, the same holds for any number of chunks.
pub proof fn lemma_chunking_invariance(a: u64, b: u64, c: u64, d: u64, s1: Seq<u8>, s2: Seq<u8>)
    ensures
        read_out(absorb_bytes(absorb_bytes(start_state(a, b, c, d), s1), s2)) == hash_bytes_seeded(
            s1 + s2,
            a,
            b,
            c,
            d,
        ),
{
    lemma_absorb_append(start_state(a, b, c, d), s1, s2);
    lemma_absorb_is_fold(a, b, c, d, s1 + s2);
}

/// Determinism: the hash is a function of the input bytes alone, so any two
/// results of hashing the same bytes are equal.
pub proof fn lemma_hash_deterministic(s: Seq<u8>, r1: u64, r2: u64)
    requires
        r1 == hash_bytes(s),
        r2 == hash_bytes(s),
    ensures
        r1 == r2,
{
}

/// Default-seed equivalence: hashing under the documented default seed words
/// is the unseeded hash.
pub proof fn lemma_default_seed_equivalence(s: Seq<u8>)
    ensures
        hash_bytes_seeded(s, SEED_A, SEED_B, SEED_C, SEED_D) == hash_bytes(s),
{
}

/// Idempotent reads: digest reads do not mutate the accumulator, so any
/// three reads without an intervening update return the same value.
pub proof fn lemma_idempotent_reads(h: SeaHash, r1: u64, r2: u64, r3: u64)
    requires
        h.wf(),
        r1 == h.current_hash(),
        r2 == h.current_hash(),
        r3 == h.current_hash(),
    ensures
        r1 == r2,
        r2 == r3,
{
}

/// Format consistency: the binary digest is the 8 big-endian bytes of the
/// integer digest, and the hex digest is the 16-character lowercase hex
/// rendering of exactly those bytes.
pub proof fn lemma_format_consistency(h: SeaHash)
    requires
        h.wf(),
    ensures
        be_bytes(h.current_hash()).len() == 8,
        hex_chars(be_bytes(h.current_hash())).len() == 16,
{
}

} // verus!
