//! Key order of maps with `u32` keys, and the order in which a `BTreeMap`
//! hands out its keys.
use std::collections::BTreeMap;
use vstd::prelude::*;
use vstd::std_specs::iter::IteratorSpec;

verus! {

broadcast use vstd::std_specs::btree::group_btree_axioms;

/// Each element is smaller than every later one.
pub open spec fn strictly_increasing(s: Seq<u32>) -> bool {
    forall|i: int, j: int| 0 <= i < j < s.len() ==> s[i] < s[j]
}

/// The keys of `m` in increasing order.
pub open spec fn key_order<V>(m: Map<u32, V>) -> Seq<u32> {
    choose|s: Seq<u32>| strictly_increasing(s) && s.to_set() == m.dom()
}

/// The values of `m` in increasing order of their keys.
pub open spec fn ordered_values<V>(m: Map<u32, V>) -> Seq<V> {
    key_order(m).map_values(|k: u32| m[k])
}

/// Two strictly increasing sequences with the same elements are the same sequence.
pub proof fn lemma_increasing_unique(a: Seq<u32>, b: Seq<u32>)
    requires
        strictly_increasing(a),
        strictly_increasing(b),
        a.to_set() == b.to_set(),
    ensures
        a == b,
    decreases a.len(),
{
    if a.len() == 0 {
        if b.len() > 0 {
            assert(b.to_set().contains(b[0]));
            assert(!a.contains(b[0]));
        }
        assert(a =~= b);
    } else {
        assert(a.to_set().contains(a[0]));
        assert(b.contains(a[0]));
        let j = choose|j: int| 0 <= j < b.len() && b[j] == a[0];
        assert(b.to_set().contains(b[0]));
        assert(a.contains(b[0]));
        let i = choose|i: int| 0 <= i < a.len() && a[i] == b[0];
        assert(a[0] <= a[i]);
        assert(b[0] <= b[j]);
        assert(a[0] == b[0]);
        let a1 = a.drop_first();
        let b1 = b.drop_first();
        assert forall|x: u32| a1.to_set().contains(x) implies b1.to_set().contains(x) by {
            assert(a1.contains(x));
            let k = choose|k: int| 0 <= k < a1.len() && a1[k] == x;
            assert(a[k + 1] == x);
            assert(a.to_set().contains(x));
            assert(b.contains(x));
            let m = choose|m: int| 0 <= m < b.len() && b[m] == x;
            assert(m != 0);
            assert(b1[m - 1] == x);
            assert(b1.contains(x));
        }
        assert forall|x: u32| b1.to_set().contains(x) implies a1.to_set().contains(x) by {
            assert(b1.contains(x));
            let k = choose|k: int| 0 <= k < b1.len() && b1[k] == x;
            assert(b[k + 1] == x);
            assert(b.to_set().contains(x));
            assert(a.contains(x));
            let m = choose|m: int| 0 <= m < a.len() && a[m] == x;
            assert(m != 0);
            assert(a1[m - 1] == x);
            assert(a1.contains(x));
        }
        assert(a1.to_set() =~= b1.to_set());
        lemma_increasing_unique(a1, b1);
        assert(a.len() == b.len());
        assert forall|i: int| 0 <= i < a.len() implies a[i] == b[i] by {
            if i > 0 {
                assert(a[i] == a1[i - 1]);
                assert(b[i] == b1[i - 1]);
            }
        }
        assert(a =~= b);
    }
}

/// Any strictly increasing enumeration of the keys of `m` is its key order.
pub proof fn lemma_key_order_is<V>(m: Map<u32, V>, s: Seq<u32>)
    requires
        strictly_increasing(s),
        s.to_set() == m.dom(),
    ensures
        key_order(m) == s,
{
    let k = key_order(m);
    assert(strictly_increasing(k) && k.to_set() == m.dom());
    lemma_increasing_unique(k, s);
}

/// The key order holds each key of `m` exactly once.
pub proof fn lemma_key_order_facts<V>(m: Map<u32, V>, s: Seq<u32>)
    requires
        strictly_increasing(s),
        s.to_set() == m.dom(),
    ensures
        key_order(m) == s,
        forall|i: int| 0 <= i < s.len() ==> m.dom().contains(#[trigger] s[i]),
        s.len() == m.dom().len(),
        s.no_duplicates(),
{
    lemma_key_order_is(m, s);
    assert forall|i: int| 0 <= i < s.len() implies m.dom().contains(#[trigger] s[i]) by {
        assert(s.to_set().contains(s[i]));
    }
    assert(s.no_duplicates());
    s.unique_seq_to_set();
}

/// The keys of a `BTreeMap`, in increasing order.
pub fn sorted_keys<V>(m: &BTreeMap<u32, V>) -> (r: Vec<u32>)
    ensures
        r@ == key_order(m@),
        strictly_increasing(r@),
        r@.to_set() == m@.dom(),
        r@.len() == m@.dom().len(),
{
    proof {
        crate::ordering_facts::lemma_u32_key_model();
        vstd::std_specs::btree::axiom_spec_keys_iter(m);
    }
    let ghost ks = vstd::std_specs::btree::spec_keys_iter(m).remaining();
    let mut out: Vec<u32> = Vec::new();
    for k in it: m.keys()
        invariant
            out@ == it.seq().subrange(0, it.index() as int).map_values(|x: &u32| *x),
    {
        out.push(*k);
    }
    proof {
        assert(out@ =~= ks.unref());
        crate::ordering_facts::lemma_u32_increasing(ks);
        lemma_key_order_facts(m@, out@);
    }
    out
}

} // verus!
