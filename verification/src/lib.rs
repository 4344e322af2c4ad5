//! A pairing-based BLS signature scheme over BLS12-381: key generation,
//! signing, verification, signature aggregation, and batched aggregate
//! verification.
//!
//! The elliptic-curve and pairing arithmetic comes from the arkworks crates
//! and is trusted with a fixed algebraic contract (see `prim`); everything
//! the scheme itself does — how keys, message digests, signatures, and
//! pairings compose — is verified against a discrete-logarithm model of the
//! groups.

pub mod hash;
pub mod laws;
pub mod model;
pub mod prim;
pub mod scheme;
