//! The signature scheme proper: key generation, signing, verification,
//! aggregation, and batched aggregate verification.
//!
//! Contracts are stated over the discrete-logarithm model of `prim`: a
//! signature for message `m` under a secret key of value `k` is the G1
//! point of logarithm `(hash_scalar(m) * k) % r`, and both verification
//! operations are proved to return exactly the pairing equality the
//! protocol prescribes.
//!
//! Positional binding: aggregate verification associates `messages[i]`
//! with `public_keys[i]` by position and nothing more. Swapping two
//! (message, key) pairs whose messages coincide (on their first 16 bytes,
//! given the toy hash) leaves the check satisfied — an inherent property
//! of this aggregation scheme, not a defect; callers needing message
//! uniqueness or signer binding must impose it themselves.

use vstd::prelude::*;
use vstd::arithmetic::div_mod::lemma_add_mod_noop;
use vstd::slice::slice_index_get;
use crate::hash::hash_to_g1;
use crate::model::{hash_scalar, lemma_mod_identity, scalar_order, sum_seq};
use crate::prim::{
    fr_random_os, fr_random_seeded, fr_val, fr_wf, g1_add, g1_identity, g1_log, g1_scalar_mul,
    g1_wf, g2_generator, g2_log, g2_scalar_mul, g2_wf, gt_add, gt_eq, gt_identity, gt_log, gt_wf,
    pairing, G1Point, G2Point, Scalar,
};

verus! {

/// The logarithm of the signature that secret-key value `k` produces over
/// message `m`.
pub open spec fn signature_log(m: Seq<u8>, k: int) -> int {
    (hash_scalar(m) * k) % scalar_order()
}

/// What single-signature verification checks, over the model: the
/// pairing of the signature with the G2 generator equals the pairing of
/// the message digest with the public key, i.e. the signature's logarithm
/// is the digest scalar times the key's logarithm.
pub open spec fn verify_accepts(sig_log: int, m: Seq<u8>, key_log: int) -> bool {
    sig_log == (hash_scalar(m) * key_log) % scalar_order()
}

/// The logarithms of a sequence of signature points.
pub open spec fn sig_logs(s: Seq<G1Point>) -> Seq<int> {
    s.map_values(|p: G1Point| g1_log(p))
}

/// The logarithms of a sequence of public keys.
pub open spec fn key_logs(s: Seq<G2Point>) -> Seq<int> {
    s.map_values(|p: G2Point| g2_log(p))
}

/// The views of a sequence of messages.
pub open spec fn msg_views(s: Seq<&[u8]>) -> Seq<Seq<u8>> {
    s.map_values(|m: &[u8]| m@)
}

/// The per-signer terms of the batched pairing check: the digest scalar
/// of each message times the logarithm of the key at the same position.
pub open spec fn pairing_terms(msgs: Seq<Seq<u8>>, keys: Seq<int>) -> Seq<int> {
    Seq::new(msgs.len(), |i: int| hash_scalar(msgs[i]) * keys[i])
}

/// What aggregate verification checks, over the model: the logarithm of
/// the aggregate signature equals the sum of the per-signer pairing terms
/// modulo the group order.
pub open spec fn aggregate_accepts(agg_log: int, msgs: Seq<Seq<u8>>, keys: Seq<int>) -> bool {
    agg_log == sum_seq(pairing_terms(msgs, keys)) % scalar_order()
}

/// Generate a key pair from the operating system's randomness source: a
/// uniformly random secret scalar, and the G2 generator multiplied by it.
pub fn generate_keys() -> (r: (Scalar, G2Point))
    ensures
        fr_wf(r.0),
        g2_wf(r.1),
        g2_log(r.1) == fr_val(r.0),
{
    let sk = fr_random_os();
    let pk = public_key_of(&sk);
    (sk, pk)
}

/// Generate a key pair deterministically from a fixed seed. For tests and
/// reproduction only: such keys are predictable and must never serve as
/// real keys.
pub fn generate_keys_with_seed(seed: u64) -> (r: (Scalar, G2Point))
    ensures
        fr_wf(r.0),
        g2_wf(r.1),
        g2_log(r.1) == fr_val(r.0),
{
    let sk = fr_random_seeded(seed);
    let pk = public_key_of(&sk);
    (sk, pk)
}

/// The public key belonging to a secret key: the G2 generator multiplied
/// by the secret scalar.
pub fn public_key_of(sk: &Scalar) -> (r: G2Point)
    requires
        fr_wf(*sk),
    ensures
        g2_wf(r),
        g2_log(r) == fr_val(*sk),
{
    let g = g2_generator();
    let pk = g2_scalar_mul(&g, sk);
    proof {
        lemma_mod_identity(fr_val(*sk));
    }
    pk
}

/// Sign a message: the message's G1 digest multiplied by the secret key.
/// Deterministic in the key and the message.
pub fn sign(message: &[u8], sk: &Scalar) -> (r: G1Point)
    ensures
        g1_wf(r),
        g1_log(r) == signature_log(message@, fr_val(*sk)),
{
    let h = hash_to_g1(message);
    g1_scalar_mul(&h, sk)
}

/// Verify one signature against one public key and message: accept
/// exactly when the pairing of the signature with the G2 generator equals
/// the pairing of the message digest with the public key. Malformed
/// points are excluded by precondition; the result is a strict boolean.
pub fn verify(message: &[u8], signature: &G1Point, pk: &G2Point) -> (r: bool)
    requires
        g1_wf(*signature),
        g2_wf(*pk),
    ensures
        r == verify_accepts(g1_log(*signature), message@, g2_log(*pk)),
{
    let h = hash_to_g1(message);
    let g2 = g2_generator();
    let lhs = pairing(signature, &g2);
    let rhs = pairing(&h, pk);
    proof {
        lemma_mod_identity(g1_log(*signature));
    }
    gt_eq(&lhs, &rhs)
}

/// Fold a list of signatures into one aggregate signature by repeated
/// group addition, starting from the group identity. The result's
/// logarithm is the sum of the inputs' logarithms modulo the group order,
/// so it depends on neither the order nor the grouping of the list; the
/// empty list yields the identity.
pub fn aggregate_signatures(signatures: &[G1Point]) -> (r: G1Point)
    requires
        forall|i: int| 0 <= i < signatures@.len() ==> g1_wf(#[trigger] signatures@[i]),
    ensures
        g1_wf(r),
        g1_log(r) == sum_seq(sig_logs(signatures@)) % scalar_order(),
{
    let logs = Ghost(sig_logs(signatures@));
    let mut acc = g1_identity();
    let mut i: usize = 0;
    let n: usize = signatures.len();
    while i < n
        invariant
            n == signatures@.len(),
            i <= n,
            logs@ == sig_logs(signatures@),
            forall|j: int| 0 <= j < signatures@.len() ==> g1_wf(#[trigger] signatures@[j]),
            g1_wf(acc),
            g1_log(acc) == sum_seq(logs@.take(i as int)) % scalar_order(),
        decreases n - i,
    {
        let s = slice_index_get(signatures, i);
        proof {
            lemma_mod_identity(g1_log(*s));
            lemma_add_mod_noop(sum_seq(logs@.take(i as int)), g1_log(*s), scalar_order());
            assert(logs@.take(i as int + 1).drop_last() =~= logs@.take(i as int));
            assert(logs@.take(i as int + 1).last() == g1_log(signatures@[i as int]));
        }
        acc = g1_add(&acc, s);
        i = i + 1;
    }
    proof {
        assert(logs@.take(n as int) =~= logs@);
    }
    acc
}

/// Verify an aggregate signature against parallel lists of messages and
/// public keys: accept exactly when the pairing of the aggregate with the
/// G2 generator equals the sum of the pairings of each message digest
/// with the key at the same position. Equal lengths are the caller's
/// obligation; the empty lists accept exactly the identity aggregate.
pub fn verify_aggregated(
    messages: &[&[u8]],
    aggregated_signature: &G1Point,
    public_keys: &[G2Point],
) -> (r: bool)
    requires
        messages@.len() == public_keys@.len(),
        g1_wf(*aggregated_signature),
        forall|i: int| 0 <= i < public_keys@.len() ==> g2_wf(#[trigger] public_keys@[i]),
    ensures
        r == aggregate_accepts(
            g1_log(*aggregated_signature),
            msg_views(messages@),
            key_logs(public_keys@),
        ),
{
    let terms = Ghost(pairing_terms(msg_views(messages@), key_logs(public_keys@)));
    let mut acc = gt_identity();
    let mut i: usize = 0;
    let n: usize = messages.len();
    while i < n
        invariant
            n == messages@.len(),
            n == public_keys@.len(),
            i <= n,
            terms@ == pairing_terms(msg_views(messages@), key_logs(public_keys@)),
            forall|j: int| 0 <= j < public_keys@.len() ==> g2_wf(#[trigger] public_keys@[j]),
            gt_wf(acc),
            gt_log(acc) == sum_seq(terms@.take(i as int)) % scalar_order(),
        decreases n - i,
    {
        let m: &[u8] = *slice_index_get(messages, i);
        let pk = slice_index_get(public_keys, i);
        let h = hash_to_g1(m);
        let p = pairing(&h, pk);
        proof {
            assert(msg_views(messages@)[i as int] == m@);
            assert(key_logs(public_keys@)[i as int] == g2_log(*pk));
            assert(terms@[i as int] == hash_scalar(m@) * g2_log(*pk));
            lemma_add_mod_noop(sum_seq(terms@.take(i as int)), terms@[i as int], scalar_order());
            assert(terms@.take(i as int + 1).drop_last() =~= terms@.take(i as int));
            assert(terms@.take(i as int + 1).last() == terms@[i as int]);
        }
        acc = gt_add(&acc, &p);
        i = i + 1;
    }
    let g2 = g2_generator();
    let lhs = pairing(aggregated_signature, &g2);
    proof {
        assert(terms@.take(n as int) =~= terms@);
        lemma_mod_identity(g1_log(*aggregated_signature));
    }
    gt_eq(&lhs, &acc)
}

} // verus!
