//! The arithmetic of vote counts, at the specification level.
//!
//! A tally is the sum of the plaintext bits behind the stored ballots.
//! This module defines that sum and proves the facts the tally engine and
//! its callers rely on: the sum of bits never exceeds the number of
//! ballots, and the sum does not depend on the order of the ballots.

use vstd::prelude::*;
use crate::provider::EncryptedVote;

verus! {

broadcast use vstd::seq_lib::group_to_multiset_ensures, vstd::multiset::group_multiset_axioms;

/// The sum of a sequence of plaintext values.
pub open spec fn sum_of(s: Seq<u64>) -> int
    decreases s.len(),
{
    if s.len() == 0 {
        0
    } else {
        sum_of(s.drop_last()) + s.last()
    }
}

/// The recorded plaintext of each ballot in a sequence.
pub open spec fn plains_of(s: Seq<EncryptedVote>) -> Seq<u64> {
    s.map_values(|e: EncryptedVote| e.plain_value())
}

/// Every value in the sequence is a bit.
pub open spec fn all_bits(s: Seq<u64>) -> bool {
    forall|i: int| 0 <= i < s.len() ==> s[i] <= 1
}

pub proof fn lemma_sum_nonneg(s: Seq<u64>)
    ensures
        sum_of(s) >= 0,
    decreases s.len(),
{
    if s.len() > 0 {
        lemma_sum_nonneg(s.drop_last());
    }
}

/// The sum of bits is bounded by how many there are.
pub proof fn lemma_sum_of_bits_le_len(s: Seq<u64>)
    requires
        all_bits(s),
    ensures
        0 <= sum_of(s) <= s.len(),
    decreases s.len(),
{
    if s.len() > 0 {
        assert(all_bits(s.drop_last()));
        lemma_sum_of_bits_le_len(s.drop_last());
    }
}

/// Extending a prefix by one element adds that element to the sum.
pub proof fn lemma_sum_take_step(s: Seq<u64>, i: int)
    requires
        0 <= i < s.len(),
    ensures
        sum_of(s.take(i + 1)) == sum_of(s.take(i)) + s[i],
{
    assert(s.take(i + 1).drop_last() =~= s.take(i));
    assert(s.take(i + 1).last() == s[i]);
}

/// Removing one element takes exactly its value out of the sum.
proof fn lemma_sum_remove(s: Seq<u64>, i: int)
    requires
        0 <= i < s.len(),
    ensures
        sum_of(s.remove(i)) == sum_of(s) - s[i],
    decreases s.len(),
{
    if i == s.len() - 1 {
        assert(s.remove(i) =~= s.drop_last());
    } else {
        assert(s.remove(i).drop_last() =~= s.drop_last().remove(i));
        assert(s.remove(i).last() == s.last());
        lemma_sum_remove(s.drop_last(), i);
    }
}

/// Folding the same multiset of values in any order yields the same sum:
/// two sequences that hold the same values, each the same number of times,
/// have equal sums.
pub proof fn lemma_sum_of_permutation(s1: Seq<u64>, s2: Seq<u64>)
    requires
        s1.to_multiset() == s2.to_multiset(),
    ensures
        sum_of(s1) == sum_of(s2),
    decreases s1.len(),
{
    if s1.len() == 0 {
        assert(s1.to_multiset().len() == 0);
        assert(s2.len() == s2.to_multiset().len());
    } else {
        let last = s1.len() - 1;
        let x = s1[last];
        assert(s1.contains(x));
        assert(s1.to_multiset().count(x) > 0);
        assert(s2.to_multiset().count(x) > 0);
        assert(s2.contains(x));
        let j = choose|j: int| 0 <= j < s2.len() && s2[j] == x;
        assert(s1.remove(last).to_multiset() =~= s1.to_multiset().remove(x));
        assert(s2.remove(j).to_multiset() =~= s2.to_multiset().remove(x));
        assert(s1.remove(last) =~= s1.drop_last());
        assert(s1.drop_last().to_multiset() =~= s2.remove(j).to_multiset());
        lemma_sum_of_permutation(s1.drop_last(), s2.remove(j));
        lemma_sum_remove(s2, j);
        assert(sum_of(s1) == sum_of(s1.drop_last()) + x);
    }
}

/// A tally does not depend on the order in which the ballots were stored:
/// two ballot sequences holding the same multiset of plaintext values have
/// the same yes total.
pub proof fn lemma_tally_order_independent(v1: Seq<EncryptedVote>, v2: Seq<EncryptedVote>)
    requires
        plains_of(v1).to_multiset() == plains_of(v2).to_multiset(),
    ensures
        sum_of(plains_of(v1)) == sum_of(plains_of(v2)),
{
    lemma_sum_of_permutation(plains_of(v1), plains_of(v2));
}

} // verus!
