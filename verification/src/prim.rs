//! The trusted curve/pairing primitive layer.
//!
//! The scheme is verified against a discrete-logarithm model of the
//! pairing groups of BLS12-381. All the groups involved (the scalar field
//! `Fr`, the curve groups G1 and G2, and the pairing's target group) have
//! the same prime order `r`; G1, G2 and the target group are cyclic, and
//! the pairing of the two curve generators generates the target group.
//!
//! The arkworks values run through the scheme inside opaque wrapper types
//! ([`Scalar`], [`G1Point`], [`G2Point`], [`GtElem`]); the model reads
//! each as an integer:
//! - `fr_val(x)` is the canonical representative of the field element
//!   held by `x`, an integer in `[0, r)`;
//! - `g1_log(p)` is the discrete logarithm of the point held by `p` with
//!   respect to the G1 generator when that point lies in the prime-order
//!   subgroup, and a negative value otherwise (so `g1_wf` states exactly
//!   subgroup membership);
//! - `g2_log` and `gt_log` likewise, `gt_log` with respect to the pairing
//!   of the two generators.
//!
//! Each wrapper function below makes one arkworks call and states, over
//! these readings, the group law that arkworks documents for it: addition
//! of points adds logarithms modulo `r`, scalar multiplication multiplies
//! a logarithm by the scalar's value, and the bilinear pairing multiplies
//! the logarithms of its two arguments. Nothing else in the crate is
//! trusted.

use vstd::prelude::*;
use ark_bls12_381::{Bls12_381, Fr, G1Projective, G2Projective};
use ark_ec::pairing::{Pairing, PairingOutput};
use ark_ec::{CurveGroup, PrimeGroup};
use ark_ff::{PrimeField, UniformRand};
use ark_std::Zero;
use core::ops::Mul;
use rand::rngs::{OsRng, StdRng};
use rand::SeedableRng;
use crate::model::{le_bytes_val, scalar_order};

verus! {

/// An element of the BLS12-381 scalar field: a secret key, or the scalar
/// a message hashes to.
#[verifier::external_body]
pub struct Scalar {
    inner: Fr,
}

/// A point of the signing group G1: a message digest or a signature.
#[verifier::external_body]
pub struct G1Point {
    inner: G1Projective,
}

/// A point of the public-key group G2.
#[verifier::external_body]
pub struct G2Point {
    inner: G2Projective,
}

/// An element of the pairing's target group; only compared, never a key
/// or a signature.
#[verifier::external_body]
pub struct GtElem {
    inner: PairingOutput<Bls12_381>,
}

/// The canonical integer representative of a scalar, in `[0, r)`.
pub uninterp spec fn fr_val(x: Scalar) -> int;

/// The discrete logarithm of a G1 point with respect to the fixed G1
/// generator, in `[0, r)`, when the point lies in the prime-order
/// subgroup; a negative value otherwise.
pub uninterp spec fn g1_log(p: G1Point) -> int;

/// The discrete logarithm of a G2 point with respect to the fixed G2
/// generator, under the same convention as `g1_log`.
pub uninterp spec fn g2_log(p: G2Point) -> int;

/// The discrete logarithm of a target-group element with respect to the
/// pairing of the two generators, under the same convention as `g1_log`.
pub uninterp spec fn gt_log(t: GtElem) -> int;

/// A scalar always holds a reduced field element.
pub open spec fn fr_wf(x: Scalar) -> bool {
    0 <= fr_val(x) < scalar_order()
}

/// Membership in the prime-order subgroup of G1.
pub open spec fn g1_wf(p: G1Point) -> bool {
    0 <= g1_log(p) < scalar_order()
}

/// Membership in the prime-order subgroup of G2.
pub open spec fn g2_wf(p: G2Point) -> bool {
    0 <= g2_log(p) < scalar_order()
}

/// Membership in the order-`r` subgroup of the pairing's target group.
pub open spec fn gt_wf(t: GtElem) -> bool {
    0 <= gt_log(t) < scalar_order()
}

/// Relies on ark_ff's UniformRand::rand over the operating system's
/// randomness source: the result is a reduced field element; nothing is
/// claimed of which one.
#[verifier::external_body]
pub(crate) fn fr_random_os() -> (r: Scalar)
    ensures
        fr_wf(r),
{
    Scalar { inner: Fr::rand(&mut OsRng) }
}

/// Relies on ark_ff's UniformRand::rand over rand's StdRng seeded from
/// the given value: the result is a reduced field element; nothing is
/// claimed of which one, nor of any relation between seeds and results.
#[verifier::external_body]
pub(crate) fn fr_random_seeded(seed: u64) -> (r: Scalar)
    ensures
        fr_wf(r),
{
    Scalar { inner: Fr::rand(&mut StdRng::seed_from_u64(seed)) }
}

/// Relies on ark_ff's PrimeField::from_le_bytes_mod_order: the bytes are
/// read as a little-endian integer and reduced modulo the field order.
#[verifier::external_body]
pub(crate) fn fr_from_le_bytes(bytes: &[u8]) -> (r: Scalar)
    ensures
        fr_wf(r),
        fr_val(r) == le_bytes_val(bytes@) % scalar_order(),
{
    Scalar { inner: Fr::from_le_bytes_mod_order(bytes) }
}

/// Relies on ark_ec's PrimeGroup::generator for G1: the fixed generator,
/// of logarithm one.
#[verifier::external_body]
pub(crate) fn g1_generator() -> (r: G1Point)
    ensures
        g1_log(r) == 1,
{
    G1Point { inner: G1Projective::generator() }
}

/// Relies on ark_ec's PrimeGroup::generator for G2: the fixed generator,
/// of logarithm one.
#[verifier::external_body]
pub(crate) fn g2_generator() -> (r: G2Point)
    ensures
        g2_log(r) == 1,
{
    G2Point { inner: G2Projective::generator() }
}

/// Relies on Zero::zero for projective G1 points: the group identity, of
/// logarithm zero.
#[verifier::external_body]
pub fn g1_identity() -> (r: G1Point)
    ensures
        g1_log(r) == 0,
{
    G1Point { inner: G1Projective::zero() }
}

/// Relies on ark_ec's group addition on G1: adding subgroup points adds
/// their logarithms modulo the group order.
#[verifier::external_body]
pub(crate) fn g1_add(a: &G1Point, b: &G1Point) -> (r: G1Point)
    requires
        g1_wf(*a),
        g1_wf(*b),
    ensures
        g1_log(r) == (g1_log(*a) + g1_log(*b)) % scalar_order(),
{
    G1Point { inner: a.inner + b.inner }
}

/// Relies on ark_ec's scalar multiplication on G1: multiplying a subgroup
/// point by a scalar multiplies its logarithm by the scalar's value,
/// modulo the group order.
#[verifier::external_body]
pub(crate) fn g1_scalar_mul(p: &G1Point, s: &Scalar) -> (r: G1Point)
    requires
        g1_wf(*p),
    ensures
        g1_log(r) == (g1_log(*p) * fr_val(*s)) % scalar_order(),
{
    G1Point { inner: p.inner.mul(&s.inner) }
}

/// Relies on ark_ec's scalar multiplication on G2: multiplying a subgroup
/// point by a scalar multiplies its logarithm by the scalar's value,
/// modulo the group order.
#[verifier::external_body]
pub(crate) fn g2_scalar_mul(p: &G2Point, s: &Scalar) -> (r: G2Point)
    requires
        g2_wf(*p),
    ensures
        g2_log(r) == (g2_log(*p) * fr_val(*s)) % scalar_order(),
{
    G2Point { inner: p.inner.mul(&s.inner) }
}

/// Relies on ark_ec's Pairing::pairing for BLS12-381: the bilinear map.
/// On subgroup points, the logarithm of its result (with respect to the
/// pairing of the two generators) is the product of the arguments'
/// logarithms modulo the group order.
#[verifier::external_body]
pub(crate) fn pairing(p: &G1Point, q: &G2Point) -> (r: GtElem)
    requires
        g1_wf(*p),
        g2_wf(*q),
    ensures
        gt_log(r) == (g1_log(*p) * g2_log(*q)) % scalar_order(),
{
    GtElem { inner: Bls12_381::pairing(p.inner.into_affine(), q.inner.into_affine()) }
}

/// Relies on Zero::zero for pairing outputs: the target-group identity,
/// of logarithm zero.
#[verifier::external_body]
pub(crate) fn gt_identity() -> (r: GtElem)
    ensures
        gt_log(r) == 0,
{
    GtElem { inner: PairingOutput::<Bls12_381>::zero() }
}

/// Relies on ark_ec's group operation on pairing outputs: combining
/// order-`r` elements adds their logarithms modulo the group order.
#[verifier::external_body]
pub(crate) fn gt_add(a: &GtElem, b: &GtElem) -> (r: GtElem)
    requires
        gt_wf(*a),
        gt_wf(*b),
    ensures
        gt_log(r) == (gt_log(*a) + gt_log(*b)) % scalar_order(),
{
    GtElem { inner: a.inner + b.inner }
}

/// Relies on PartialEq for pairing outputs: within the cyclic order-`r`
/// subgroup, elements are equal exactly when their logarithms agree.
#[verifier::external_body]
pub(crate) fn gt_eq(a: &GtElem, b: &GtElem) -> (r: bool)
    requires
        gt_wf(*a),
        gt_wf(*b),
    ensures
        r == (gt_log(*a) == gt_log(*b)),
{
    a.inner == b.inner
}


impl Clone for Scalar {
    /// Relies on the underlying field element being Copy.
    #[verifier::external_body]
    fn clone(&self) -> (r: Self)
        ensures
            r == *self,
    {
        Scalar { inner: self.inner }
    }
}

impl Clone for G1Point {
    /// Relies on the underlying curve point being Copy.
    #[verifier::external_body]
    fn clone(&self) -> (r: Self)
        ensures
            r == *self,
    {
        G1Point { inner: self.inner }
    }
}

impl Clone for G2Point {
    /// Relies on the underlying curve point being Copy.
    #[verifier::external_body]
    fn clone(&self) -> (r: Self)
        ensures
            r == *self,
    {
        G2Point { inner: self.inner }
    }
}

/// Relies on PartialEq for projective G1 points, the primitive library's
/// group-element equality: within the cyclic prime-order subgroup, points
/// are equal exactly when their logarithms agree.
#[verifier::external_body]
pub fn g1_point_eq(a: &G1Point, b: &G1Point) -> (r: bool)
    requires
        g1_wf(*a),
        g1_wf(*b),
    ensures
        r == (g1_log(*a) == g1_log(*b)),
{
    a.inner == b.inner
}

} // verus!
