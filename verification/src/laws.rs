use vstd::prelude::*;

verus! {

broadcast use vstd::seq_lib::group_to_multiset_ensures, vstd::multiset::group_multiset_axioms;

/// The two extraction variants agree up to order. Extracting at position `i`
/// of a sequence removes the same element either way, and the two remainders
/// — `s.remove(i)` after the order-preserving removal and
/// `s.update(i, s.last()).drop_last()` after the reordering removal — hold
/// the same elements with the same multiplicities: the original multiset
/// less one occurrence of `s[i]`.
pub proof fn lemma_unstable_take_multiset_parity<T>(s: Seq<T>, i: int)
    requires
        0 <= i < s.len(),
    ensures
        s.remove(i).to_multiset() == s.to_multiset().remove(s[i]),
        s.update(i, s.last()).drop_last().to_multiset() == s.to_multiset().remove(s[i]),
{
    let t = s.update(i, s.last());
    let last = s.len() - 1;
    assert(t.drop_last() =~= t.remove(last));
    assert(t.remove(last).to_multiset() == t.to_multiset().remove(t[last]));
    if i == last {
        assert(t =~= s);
        assert(t.drop_last().to_multiset() == s.to_multiset().remove(s[i]));
    } else {
        assert(t[last] == s.last());
        assert(t.to_multiset() == s.to_multiset().insert(s.last()).remove(s[i]));
        assert(t.drop_last().to_multiset() =~= s.to_multiset().remove(s[i]));
    }
}

} // verus!
