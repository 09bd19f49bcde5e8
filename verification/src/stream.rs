//! The streaming hasher: accumulates input across any number of calls and
//! yields digests bit-identical to the one-shot hash of the concatenation.
//!
//! The struct carries, besides the four lanes, the pending tail (the trailing
//! bytes of no whole block) and a wrapped byte counter, together with the
//! ghost history of every byte consumed and the seed it started from. The
//! well-formedness predicate ties the concrete fields to that history, which
//! is what makes chunking invariance a consequence of the contracts: `update`
//! only ever extends the history, and every digest is the hash of the history.
use vstd::prelude::*;

use crate::encode::be_bytes;
use crate::encode::hex_chars;
use crate::encode::hex_encode;
use crate::encode::u64_to_be_bytes;
use crate::hashing::diffuse_word;
use crate::hashing::read_block;
use crate::ingest::SuppliedKind;
use crate::ingest::UpdateError;
use crate::model::hash_bytes_seeded;
use crate::model::lanes_of;
use crate::model::lemma_append_byte;
use crate::model::lemma_tail_len;
use crate::model::lemma_wrapped_len_push;
use crate::model::tail_of;
use crate::model::wrapped_len;
use crate::model::SEED_A;
use crate::model::SEED_B;
use crate::model::SEED_C;
use crate::model::SEED_D;

verus! {

/// A streaming SeaHash accumulator.
pub struct SeaHash {
    /// First lane.
    pub lane_a: u64,
    /// Second lane.
    pub lane_b: u64,
    /// Third lane.
    pub lane_c: u64,
    /// Fourth lane.
    pub lane_d: u64,
    /// Pending tail: the trailing consumed bytes of no whole block.
    pub tail: Vec<u8>,
    /// Total bytes consumed, wrapped modulo 2^64.
    pub written: u64,
    /// The seed the lanes started from.
    pub seed: Ghost<(u64, u64, u64, u64)>,
    /// Every byte consumed since construction, in order.
    pub consumed: Ghost<Seq<u8>>,
}

impl SeaHash {
    /// The concrete fields hold exactly the fold of the consumed history:
    /// the lanes are the fold of its whole blocks over the seed, the tail is
    /// its trailing partial block, and the counter is its wrapped length.
    pub open spec fn wf(self) -> bool {
        &&& (self.lane_a, self.lane_b, self.lane_c, self.lane_d) == lanes_of(
            self.seed@,
            self.consumed@,
        )
        &&& self.tail@ == tail_of(self.consumed@)
        &&& self.written == wrapped_len(self.consumed@)
    }

    /// The hash that the consumed history digests to.
    pub open spec fn current_hash(self) -> u64 {
        hash_bytes_seeded(
            self.consumed@,
            self.seed@.0,
            self.seed@.1,
            self.seed@.2,
            self.seed@.3,
        )
    }

    /// A fresh accumulator seeded with `(a, b, c, d)` that has consumed
    /// `data`.
    pub fn with_seeds(data: &[u8], a: u64, b: u64, c: u64, d: u64) -> (r: Self)
        ensures
            r.wf(),
            r.seed@ == (a, b, c, d),
            r.consumed@ == data@,
    {
        let mut r = SeaHash {
            lane_a: a,
            lane_b: b,
            lane_c: c,
            lane_d: d,
            tail: Vec::new(),
            written: 0,
            seed: Ghost((a, b, c, d)),
            consumed: Ghost(Seq::empty()),
        };
        proof {
            assert(tail_of(Seq::<u8>::empty()) =~= Seq::<u8>::empty());
        }
        r.update(data);
        proof {
            assert(Seq::<u8>::empty() + data@ =~= data@);
        }
        r
    }

    /// A fresh accumulator with the default seed that has consumed `data`.
    pub fn new(data: &[u8]) -> (r: Self)
        ensures
            r.wf(),
            r.seed@ == (SEED_A, SEED_B, SEED_C, SEED_D),
            r.consumed@ == data@,
    {
        Self::with_seeds(data, SEED_A, SEED_B, SEED_C, SEED_D)
    }

    /// Consume one byte: it joins the tail, and a tail grown to a whole
    /// block is folded into the lanes.
    fn absorb_byte(&mut self, byte: u8)
        requires
            old(self).wf(),
        ensures
            final(self).wf(),
            final(self).consumed@ == old(self).consumed@.push(byte),
            final(self).seed@ == old(self).seed@,
    {
        proof {
            lemma_tail_len(self.consumed@);
            lemma_append_byte(self.seed@, self.consumed@, byte);
            lemma_wrapped_len_push(self.consumed@, byte);
        }
        self.tail.push(byte);
        self.written = self.written.wrapping_add(1);
        self.consumed = Ghost(self.consumed@.push(byte));
        if self.tail.len() == 8 {
            let block = read_block(self.tail.as_slice());
            let folded = diffuse_word(self.lane_a ^ block);
            self.lane_a = self.lane_b;
            self.lane_b = self.lane_c;
            self.lane_c = self.lane_d;
            self.lane_d = folded;
            self.tail.clear();
        }
    }

    /// Append `bytes` to the consumed input. Any number of calls, in any
    /// split, consume exactly the concatenation of their arguments, so the
    /// digests afterwards equal the one-shot hash of that concatenation.
    pub fn update(&mut self, bytes: &[u8])
        requires
            old(self).wf(),
        ensures
            final(self).wf(),
            final(self).consumed@ == old(self).consumed@ + bytes@,
            final(self).seed@ == old(self).seed@,
    {
        proof {
            assert(old(self).consumed@ + bytes@.take(0) =~= old(self).consumed@);
        }
        let mut i: usize = 0;
        while i < bytes.len()
            invariant
                i <= bytes@.len(),
                self.wf(),
                self.seed@ == old(self).seed@,
                self.consumed@ == old(self).consumed@ + bytes@.take(i as int),
            decreases bytes@.len() - i,
        {
            let b = bytes[i];
            self.absorb_byte(b);
            proof {
                assert((old(self).consumed@ + bytes@.take(i as int)).push(b) =~= old(self).consumed@
                    + bytes@.take(i as int + 1));
            }
            i = i + 1;
        }
        proof {
            assert(bytes@.take(bytes@.len() as int) =~= bytes@);
        }
    }

    /// Append `data` when the host classified the supplied value as a byte
    /// sequence or a read-only view; reject any other kind with the state
    /// unchanged.
    pub fn update_checked(&mut self, kind: SuppliedKind, data: &[u8]) -> (r: Result<
        (),
        UpdateError,
    >)
        requires
            old(self).wf(),
        ensures
            final(self).wf(),
            final(self).seed@ == old(self).seed@,
            r is Err <==> kind is Other,
            r is Err ==> final(self).consumed@ == old(self).consumed@,
            r is Ok ==> final(self).consumed@ == old(self).consumed@ + data@,
    {
        match kind {
            SuppliedKind::Other => Err(UpdateError::UnsupportedType),
            _ => {
                self.update(data);
                Ok(())
            },
        }
    }

    /// The current hash as a raw word. Non-mutating: repeated reads return
    /// the same value, and the accumulator may keep consuming input after.
    pub fn intdigest(&self) -> (r: u64)
        requires
            self.wf(),
        ensures
            r == self.current_hash(),
    {
        proof {
            lemma_tail_len(self.consumed@);
        }
        let front = if self.tail.len() > 0 {
            diffuse_word(self.lane_a ^ read_block(self.tail.as_slice()))
        } else {
            self.lane_a
        };
        diffuse_word(front ^ self.lane_b ^ self.lane_c ^ self.lane_d ^ self.written)
    }

    /// The current hash as its 8 bytes, most significant first.
    pub fn digest(&self) -> (r: Vec<u8>)
        requires
            self.wf(),
        ensures
            r@ == be_bytes(self.current_hash()),
            r@.len() == 8,
    {
        u64_to_be_bytes(self.intdigest())
    }

    /// The current hash as 16 lowercase hexadecimal digits: the hex
    /// rendering of the binary digest.
    pub fn hexdigest(&self) -> (r: String)
        requires
            self.wf(),
        ensures
            r@ == hex_chars(be_bytes(self.current_hash())),
            r@.len() == 16,
    {
        let d = self.digest();
        hex_encode(d.as_slice())
    }

    /// An independent duplicate: it digests to the same values as `self` at
    /// the moment of the copy, and updates to either afterwards never affect
    /// the other.
    pub fn copy(&self) -> (r: Self)
        requires
            self.wf(),
        ensures
            r.wf(),
            r.seed@ == self.seed@,
            r.consumed@ == self.consumed@,
            r.current_hash() == self.current_hash(),
    {
        let mut tail_copy: Vec<u8> = Vec::new();
        let mut i: usize = 0;
        while i < self.tail.len()
            invariant
                i <= self.tail@.len(),
                tail_copy@ == self.tail@.take(i as int),
            decreases self.tail@.len() - i,
        {
            tail_copy.push(self.tail[i]);
            proof {
                assert(self.tail@.take(i as int).push(self.tail@[i as int]) =~= self.tail@.take(
                    i as int + 1,
                ));
            }
            i = i + 1;
        }
        proof {
            assert(self.tail@.take(self.tail@.len() as int) =~= self.tail@);
        }
        SeaHash {
            lane_a: self.lane_a,
            lane_b: self.lane_b,
            lane_c: self.lane_c,
            lane_d: self.lane_d,
            tail: tail_copy,
            written: self.written,
            seed: Ghost(self.seed@),
            consumed: Ghost(self.consumed@),
        }
    }
}

} // verus!
