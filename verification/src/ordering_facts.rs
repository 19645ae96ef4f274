use vstd::prelude::*;
use vstd::std_specs::cmp::OrdSpec;

verus! {

/// The keys that a `BTreeMap` with `u32` keys hands out in order are strictly increasing.
pub proof fn lemma_u32_increasing(s: Seq<&u32>)
    requires
        vstd::std_specs::btree::increasing_seq(s),
    ensures
        forall|i: int, j: int| 0 <= i < j < s.len() ==> *s[i] < *s[j],
{
    broadcast use vstd::laws_cmp::group_laws_cmp;

    assert(vstd::laws_cmp::obeys_cmp::<u32>());
    assert(vstd::laws_cmp::obeys_cmp::<&u32>());
    vstd::std_specs::btree::axiom_increasing_seq_meaning::<&u32>(s);
    assert forall|i: int, j: int| 0 <= i < j < s.len() implies *s[i] < *s[j] by {
        assert(OrdSpec::cmp_spec(&s[i], &s[j]) is Less);
    }
}

/// `u32` keys obey the ordering model that vstd's `BTreeMap` specification relies on.
pub proof fn lemma_u32_key_model()
    ensures
        vstd::std_specs::btree::key_obeys_cmp_spec::<u32>(),
        vstd::laws_cmp::obeys_cmp::<u32>(),
{
    broadcast use vstd::laws_cmp::group_laws_cmp;
    broadcast use vstd::std_specs::btree::axiom_key_obeys_cmp_spec_meaning;

    assert(vstd::laws_cmp::obeys_cmp::<u32>());
}

} // verus!
