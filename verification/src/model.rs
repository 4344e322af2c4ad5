//! The mathematical model the contracts are stated over: the scalar field
//! order, little-endian byte values, the toy hash-to-curve scalar, and sums
//! of group-element logarithms.

use vstd::prelude::*;
use vstd::arithmetic::div_mod::{lemma_add_mod_noop, lemma_small_mod};

verus! {

/// The prime order `r` of the BLS12-381 scalar field and of the three
/// pairing groups.
pub open spec fn scalar_order() -> int {
    52435875175126190479447740508185965837690552500527637822603658699938581184513int
}

/// The value of a byte string read as a little-endian integer.
pub open spec fn le_bytes_val(s: Seq<u8>) -> int
    decreases s.len(),
{
    if s.len() == 0 {
        0
    } else {
        s.first() + 256 * le_bytes_val(s.drop_first())
    }
}

/// The first 16 bytes of a message, zero-padded if the message is shorter.
pub open spec fn padded16(m: Seq<u8>) -> Seq<u8> {
    Seq::new(16, |i: int| if i < m.len() { m[i] } else { 0u8 })
}

/// The scalar the toy message hash maps a message to: the 16-byte prefix
/// read as a little-endian integer. This construction is deliberately the
/// demonstrated one and is not a sound hash-to-curve: messages agreeing on
/// their first 16 bytes collide.
pub open spec fn hash_scalar(m: Seq<u8>) -> int {
    le_bytes_val(padded16(m))
}

/// The sum of a sequence of integers.
pub open spec fn sum_seq(s: Seq<int>) -> int
    decreases s.len(),
{
    if s.len() == 0 {
        0
    } else {
        sum_seq(s.drop_last()) + s.last()
    }
}

/// A little-endian byte value is never negative.
pub proof fn lemma_le_bytes_val_nonneg(s: Seq<u8>)
    ensures
        0 <= le_bytes_val(s),
    decreases s.len(),
{
    if s.len() > 0 {
        lemma_le_bytes_val_nonneg(s.drop_first());
    }
}

/// 256^n, the number of byte strings of length n.
pub open spec fn pow256(n: nat) -> int
    decreases n,
{
    if n == 0 {
        1
    } else {
        256 * pow256((n - 1) as nat)
    }
}

/// A byte string's little-endian value fits in as many bytes as it has.
pub proof fn lemma_le_bytes_val_bound(s: Seq<u8>)
    ensures
        0 <= le_bytes_val(s) < pow256(s.len()),
    decreases s.len(),
{
    if s.len() > 0 {
        lemma_le_bytes_val_bound(s.drop_first());
    }
}

/// The hash scalar of any message fits in 16 bytes, hence lies below the
/// group order.
pub proof fn lemma_hash_scalar_in_range(m: Seq<u8>)
    ensures
        0 <= hash_scalar(m) < scalar_order(),
{
    lemma_le_bytes_val_bound(padded16(m));
    reveal_with_fuel(pow256, 17);
    assert(pow256(16) == 0x1_0000_0000_0000_0000_0000_0000_0000_0000int);
}

/// Reading equal-length byte strings as little-endian integers is
/// injective: equal values force equal strings.
pub proof fn lemma_le_bytes_val_injective(a: Seq<u8>, b: Seq<u8>)
    requires
        a.len() == b.len(),
        le_bytes_val(a) == le_bytes_val(b),
    ensures
        a =~= b,
    decreases a.len(),
{
    if a.len() > 0 {
        lemma_le_bytes_val_nonneg(a.drop_first());
        lemma_le_bytes_val_nonneg(b.drop_first());
        assert(a.first() == b.first() && le_bytes_val(a.drop_first()) == le_bytes_val(
            b.drop_first(),
        )) by {
            assert(a.first() < 256 && b.first() < 256);
        };
        lemma_le_bytes_val_injective(a.drop_first(), b.drop_first());
        assert forall|i: int| 0 <= i < a.len() implies a[i] == b[i] by {
            if i > 0 {
                assert(a.drop_first()[i - 1] == b.drop_first()[i - 1]);
            }
        };
    }
}

/// Removing the element at index i subtracts its value from the sum.
pub proof fn lemma_sum_seq_remove(s: Seq<int>, i: int)
    requires
        0 <= i < s.len(),
    ensures
        sum_seq(s.remove(i)) == sum_seq(s) - s[i],
    decreases s.len(),
{
    if i == s.len() - 1 {
        assert(s.remove(i) =~= s.drop_last());
    } else {
        lemma_sum_seq_remove(s.drop_last(), i);
        assert(s.remove(i).drop_last() =~= s.drop_last().remove(i));
        assert(s.remove(i).last() == s.last());
    }
}

/// Updating the element at index i shifts the sum by the difference.
pub proof fn lemma_sum_seq_update(s: Seq<int>, i: int, v: int)
    requires
        0 <= i < s.len(),
    ensures
        sum_seq(s.update(i, v)) == sum_seq(s) - s[i] + v,
    decreases s.len(),
{
    if i == s.len() - 1 {
        assert(s.update(i, v).drop_last() =~= s.drop_last());
        assert(s.update(i, v).last() == v);
    } else {
        lemma_sum_seq_update(s.drop_last(), i, v);
        assert(s.update(i, v).drop_last() =~= s.drop_last().update(i, v));
        assert(s.update(i, v).last() == s.last());
    }
}

/// Sums of element-wise congruent sequences are congruent modulo the order.
pub proof fn lemma_sum_seq_congruent(s1: Seq<int>, s2: Seq<int>)
    requires
        s1.len() == s2.len(),
        forall|i: int|
            0 <= i < s1.len() ==> s1[i] % scalar_order() == s2[i] % scalar_order(),
    ensures
        sum_seq(s1) % scalar_order() == sum_seq(s2) % scalar_order(),
    decreases s1.len(),
{
    let r: int = scalar_order();
    if s1.len() > 0 {
        lemma_sum_seq_congruent(s1.drop_last(), s2.drop_last());
        lemma_add_mod_noop(sum_seq(s1.drop_last()), s1.last(), r);
        lemma_add_mod_noop(sum_seq(s2.drop_last()), s2.last(), r);
    }
}

/// Concatenation adds the sums.
pub proof fn lemma_sum_seq_concat(s1: Seq<int>, s2: Seq<int>)
    ensures
        sum_seq(s1 + s2) == sum_seq(s1) + sum_seq(s2),
    decreases s2.len(),
{
    if s2.len() == 0 {
        assert(s1 + s2 =~= s1);
    } else {
        lemma_sum_seq_concat(s1, s2.drop_last());
        assert((s1 + s2).drop_last() =~= s1 + s2.drop_last());
    }
}

/// A value already in `[0, r)` is its own remainder.
pub proof fn lemma_mod_identity(x: int)
    requires
        0 <= x < scalar_order(),
    ensures
        x % scalar_order() == x,
{
    lemma_small_mod(x as nat, scalar_order() as nat);
}

} // verus!
