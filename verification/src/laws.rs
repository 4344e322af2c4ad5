//! The algebraic laws of the scheme, proved over the same spec functions
//! the operations' contracts are stated with.
//!
//! Two directions of the scheme's soundness story rest on the group order
//! `r` being prime (multiplication by a nonzero scalar is injective
//! modulo a prime) and on the pairing being non-degenerate: that a
//! signature over one message never verifies against a different digest,
//! and that swapping distinct keys under distinct messages breaks the
//! aggregate check. Primality of a fixed 255-bit number is beyond what
//! is proved here, so those two appear only as their provable parts
//! (digest distinctness, and the swap case with coinciding messages)
//! and are exercised at runtime by the test suite.

use vstd::prelude::*;
use vstd::arithmetic::div_mod::{lemma_add_mod_noop, lemma_mod_twice};
use crate::model::{
    hash_scalar, le_bytes_val, lemma_le_bytes_val_injective, lemma_sum_seq_concat,
    lemma_sum_seq_congruent, lemma_sum_seq_remove, lemma_sum_seq_update, padded16, scalar_order,
    sum_seq,
};
use crate::prim::{g1_log, G1Point};
use crate::scheme::{aggregate_accepts, pairing_terms, sig_logs, signature_log, verify_accepts};

verus! {

/// An honestly produced signature verifies: for every message and every
/// secret-key value, the signature the key produces over the message
/// passes verification against the matching public key (whose logarithm
/// is the secret-key value itself).
pub proof fn lemma_verify_accepts_own_signature(m: Seq<u8>, k: int)
    ensures
        verify_accepts(signature_log(m, k), m, k),
{
}

/// The toy digest separates messages that differ within their first 16
/// bytes: distinct zero-padded prefixes give distinct digest scalars.
/// (That a signature over one message then fails to verify against the
/// other additionally needs primality of the group order; the test suite
/// exercises it at runtime.)
pub proof fn lemma_distinct_prefixes_distinct_digests(m1: Seq<u8>, m2: Seq<u8>)
    requires
        padded16(m1) != padded16(m2),
    ensures
        hash_scalar(m1) != hash_scalar(m2),
{
    if le_bytes_val(padded16(m1)) == le_bytes_val(padded16(m2)) {
        lemma_le_bytes_val_injective(padded16(m1), padded16(m2));
    }
}

/// The sums of the signature logarithms of two sequences holding the
/// same points (as a multiset) agree.
proof fn lemma_sum_logs_permutation(s1: Seq<G1Point>, s2: Seq<G1Point>)
    requires
        s1.to_multiset() == s2.to_multiset(),
    ensures
        sum_seq(sig_logs(s1)) == sum_seq(sig_logs(s2)),
    decreases s1.len(),
{
    s1.to_multiset_ensures();
    s2.to_multiset_ensures();
    if s1.len() == 0 {
        assert(s2.len() == 0);
    } else {
        let i: int = s1.len() - 1;
        let x = s1.last();
        assert(s1[i] == x);
        assert(s1.contains(x));
        assert(s2.to_multiset().count(x) > 0);
        let j: int = choose|j: int| 0 <= j < s2.len() && s2[j] == x;
        assert(s1.remove(i).to_multiset() =~= s1.to_multiset().remove(x));
        assert(s2.remove(j).to_multiset() =~= s2.to_multiset().remove(x));
        lemma_sum_logs_permutation(s1.remove(i), s2.remove(j));
        assert(sig_logs(s1.remove(i)) =~= sig_logs(s1).remove(i));
        assert(sig_logs(s2.remove(j)) =~= sig_logs(s2).remove(j));
        lemma_sum_seq_remove(sig_logs(s1), i);
        lemma_sum_seq_remove(sig_logs(s2), j);
    }
}

/// Aggregation is order-independent: two signature lists holding the
/// same signatures (as a multiset — in particular, any permutation of a
/// list) aggregate to the same point, since the aggregate's logarithm is
/// the reduced sum of the signatures' logarithms.
pub proof fn lemma_aggregate_order_independent(s1: Seq<G1Point>, s2: Seq<G1Point>)
    requires
        s1.to_multiset() == s2.to_multiset(),
    ensures
        sum_seq(sig_logs(s1)) % scalar_order() == sum_seq(sig_logs(s2)) % scalar_order(),
{
    lemma_sum_logs_permutation(s1, s2);
}

/// Aggregation is incremental: replacing a prefix of a signature list by
/// its own aggregate leaves the aggregate of the whole list unchanged.
/// With `rest` a single signature this is the folded form
/// `aggregate([s1, s2, s3]) == aggregate([aggregate([s1, s2]), s3])`,
/// and with `pre` a single signature it says folding starts from
/// identity-plus-element.
pub proof fn lemma_aggregate_incremental(pre: Seq<G1Point>, rest: Seq<G1Point>, agg_pre: G1Point)
    requires
        g1_log(agg_pre) == sum_seq(sig_logs(pre)) % scalar_order(),
    ensures
        sum_seq(sig_logs(seq![agg_pre] + rest)) % scalar_order() == sum_seq(
            sig_logs(pre + rest),
        ) % scalar_order(),
{
    let r: int = scalar_order();
    assert(sig_logs(seq![agg_pre] + rest) =~= seq![g1_log(agg_pre)] + sig_logs(rest));
    assert(sig_logs(pre + rest) =~= sig_logs(pre) + sig_logs(rest));
    lemma_sum_seq_concat(seq![g1_log(agg_pre)], sig_logs(rest));
    lemma_sum_seq_concat(sig_logs(pre), sig_logs(rest));
    assert(sum_seq(seq![g1_log(agg_pre)]) == g1_log(agg_pre)) by {
        let single = seq![g1_log(agg_pre)];
        assert(single.len() == 1);
        assert(single.last() == g1_log(agg_pre));
        assert(single.drop_last() =~= Seq::<int>::empty());
        assert(sum_seq(Seq::<int>::empty()) == 0);
        assert(sum_seq(single) == sum_seq(single.drop_last()) + single.last());
    };
    lemma_add_mod_noop(sum_seq(sig_logs(pre)), sum_seq(sig_logs(rest)), r);
    lemma_mod_twice(sum_seq(sig_logs(pre)), r);
    lemma_add_mod_noop(g1_log(agg_pre), sum_seq(sig_logs(rest)), r);
}

/// The logarithms of the signatures that secret-key values `keys`
/// honestly produce over `msgs`, position by position.
pub open spec fn honest_sig_logs(msgs: Seq<Seq<u8>>, keys: Seq<int>) -> Seq<int> {
    Seq::new(msgs.len(), |i: int| signature_log(msgs[i], keys[i]))
}

/// Aggregate verification accepts honest data: for any messages and any
/// secret-key values, the aggregate of the signatures each key produces
/// over its message passes the batched pairing check against the
/// matching public keys.
pub proof fn lemma_aggregate_verify_honest(msgs: Seq<Seq<u8>>, keys: Seq<int>)
    requires
        msgs.len() == keys.len(),
    ensures
        aggregate_accepts(sum_seq(honest_sig_logs(msgs, keys)) % scalar_order(), msgs, keys),
{
    let r: int = scalar_order();
    let honest = honest_sig_logs(msgs, keys);
    let terms = pairing_terms(msgs, keys);
    assert forall|i: int| 0 <= i < honest.len() implies honest[i] % r == #[trigger] terms[i]
        % r by {
        lemma_mod_twice(hash_scalar(msgs[i]) * keys[i], r);
    };
    lemma_sum_seq_congruent(honest, terms);
    lemma_mod_twice(sum_seq(honest), r);
}

/// Swapping two public keys whose positions carry messages with equal
/// digests leaves the batched pairing check unchanged: the tampering
/// case that aggregate verification cannot detect. (That swapping keys
/// under messages with distinct digests breaks the check additionally
/// needs primality of the group order; the test suite exercises it at
/// runtime.)
pub proof fn lemma_swap_keys_equal_messages(
    msgs: Seq<Seq<u8>>,
    keys: Seq<int>,
    i: int,
    j: int,
)
    requires
        msgs.len() == keys.len(),
        0 <= i < keys.len(),
        0 <= j < keys.len(),
        hash_scalar(msgs[i]) == hash_scalar(msgs[j]),
    ensures
        sum_seq(pairing_terms(msgs, keys.update(i, keys[j]).update(j, keys[i]))) == sum_seq(
            pairing_terms(msgs, keys),
        ),
{
    let swapped = keys.update(i, keys[j]).update(j, keys[i]);
    if i == j {
        assert(swapped =~= keys);
        assert(pairing_terms(msgs, swapped) =~= pairing_terms(msgs, keys));
    } else {
        let hi: int = hash_scalar(msgs[i]);
        let hj: int = hash_scalar(msgs[j]);
        assert(pairing_terms(msgs, swapped) =~= pairing_terms(msgs, keys).update(
            i,
            hi * keys[j],
        ).update(j, hj * keys[i]));
        lemma_sum_seq_update(pairing_terms(msgs, keys), i, hi * keys[j]);
        lemma_sum_seq_update(pairing_terms(msgs, keys).update(i, hi * keys[j]), j, hj * keys[i]);
    }
}

} // verus!
