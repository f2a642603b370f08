//! Listings in increasing order.

use vstd::prelude::*;

verus! {

/// Whether the keys of `s` grow from each item to the next.
pub open spec fn is_increasing_by<T>(s: Seq<T>, key: spec_fn(T) -> int) -> bool {
    forall|i: int, j: int| 0 <= i < j < s.len() ==> key(s[i]) < key(s[j])
}

/// Two listings of the same items, each in increasing order of the same keys,
/// are one listing.
pub proof fn lemma_increasing_listing_unique<T>(a: Seq<T>, b: Seq<T>, key: spec_fn(T) -> int)
    requires
        a.to_set() == b.to_set(),
        is_increasing_by(a, key),
        is_increasing_by(b, key),
    ensures
        a == b,
    decreases a.len(),
{
    if a.len() == 0 {
        if b.len() > 0 {
            assert(b.to_set().contains(b[0]));
            assert(a.to_set().contains(b[0]));
        }
        assert(a =~= b);
    } else {
        let top = a.last();
        assert(a.to_set().contains(top));
        assert(b.to_set().contains(top));
        let k = choose|k: int| 0 <= k < b.len() && b[k] == top;
        assert(b.to_set().contains(b.last()));
        assert(a.to_set().contains(b.last()));
        let l = choose|l: int| 0 <= l < a.len() && a[l] == b.last();
        assert(key(b.last()) == key(top));
        assert(k == b.len() - 1);
        let rest = a.to_set().remove(top);
        assert forall|x: T| a.drop_last().to_set().contains(x) <==> rest.contains(x) by {
            if a.drop_last().to_set().contains(x) {
                let i = choose|i: int| 0 <= i < a.drop_last().len() && a.drop_last()[i] == x;
                assert(a[i] == x);
                assert(a.to_set().contains(x));
            }
            if rest.contains(x) {
                assert(a.to_set().contains(x));
                let i = choose|i: int| 0 <= i < a.len() && a[i] == x;
                assert(a.drop_last()[i] == x);
            }
        }
        assert forall|x: T| b.drop_last().to_set().contains(x) <==> rest.contains(x) by {
            if b.drop_last().to_set().contains(x) {
                let i = choose|i: int| 0 <= i < b.drop_last().len() && b.drop_last()[i] == x;
                assert(b[i] == x);
                assert(b.to_set().contains(x));
            }
            if rest.contains(x) {
                assert(b.to_set().contains(x));
                let i = choose|i: int| 0 <= i < b.len() && b[i] == x;
                assert(b.drop_last()[i] == x);
            }
        }
        assert(a.drop_last().to_set() =~= rest);
        assert(b.drop_last().to_set() =~= rest);
        lemma_increasing_listing_unique(a.drop_last(), b.drop_last(), key);
        assert(a =~= a.drop_last().push(top));
        assert(b =~= b.drop_last().push(top));
    }
}

} // verus!
