//! The message hasher: maps a byte message to a point of the signing
//! group G1.
//!
//! The construction is the demonstrated toy one and is cryptographically
//! unsound: only the first 16 bytes of the message are read (zero-padded
//! when the message is shorter), interpreted as a little-endian integer,
//! and used as a scalar multiple of the G1 generator. Messages agreeing on
//! their 16-byte prefix therefore collide, and there is no domain
//! separation. A production deployment must substitute a standard
//! hash-to-curve construction behind this same contract.

use vstd::prelude::*;
use vstd::slice::slice_index_get;
use crate::model::{hash_scalar, lemma_hash_scalar_in_range, lemma_mod_identity, padded16};
use crate::prim::{fr_from_le_bytes, g1_generator, g1_log, g1_scalar_mul, g1_wf, G1Point};

verus! {

/// Hash a message to a G1 point: the point whose logarithm is the
/// message's hash scalar. Deterministic and total over all byte strings,
/// the empty one included.
pub fn hash_to_g1(message: &[u8]) -> (r: G1Point)
    ensures
        g1_wf(r),
        g1_log(r) == hash_scalar(message@),
{
    let mut buf: Vec<u8> = Vec::new();
    let mut i: usize = 0;
    while i < 16
        invariant
            i <= 16,
            buf@ == padded16(message@).take(i as int),
        decreases 16 - i,
    {
        let b: u8 = if i < message.len() {
            *slice_index_get(message, i)
        } else {
            0u8
        };
        buf.push(b);
        i = i + 1;
        proof {
            assert(buf@ =~= padded16(message@).take(i as int));
        }
    }
    proof {
        assert(buf@ =~= padded16(message@));
    }
    let s = fr_from_le_bytes(buf.as_slice());
    let g = g1_generator();
    let r = g1_scalar_mul(&g, &s);
    proof {
        lemma_hash_scalar_in_range(message@);
        lemma_mod_identity(hash_scalar(message@));
    }
    r
}

} // verus!
