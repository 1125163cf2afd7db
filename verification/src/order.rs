//! The order in which a `BTreeMap` keyed by seconds hands out its keys.

use std::collections::BTreeMap;

use vstd::prelude::*;
use vstd::std_specs::btree::{increasing_seq, spec_keys_iter};
use vstd::std_specs::cmp::OrdSpec;
use vstd::std_specs::iter::IteratorSpec;

verus! {

broadcast use vstd::std_specs::btree::group_btree_axioms;

/// The first key that a map's key iterator hands out is its least key.
pub proof fn lemma_first_key_least<J>(m: &BTreeMap<u64, J>)
    ensures
        spec_keys_iter(m).remaining().len() == 0 ==> m@.dom().is_empty(),
        spec_keys_iter(m).remaining().len() > 0 ==> m@.contains_key(
            *spec_keys_iter(m).remaining()[0],
        ),
        spec_keys_iter(m).remaining().len() > 0 ==> forall|k: u64| #[trigger]
            m@.contains_key(k) ==> *spec_keys_iter(m).remaining()[0] <= k,
{
    broadcast use vstd::laws_cmp::group_laws_cmp;

    let s = spec_keys_iter(m).remaining();
    if s.len() == 0 {
        assert(s.unref().to_set() =~= Set::empty());
        assert(m@.dom() =~= Set::empty());
    } else {
        assert(increasing_seq(s));
        assert(s.unref().to_set() == m@.dom());
        let u = s.unref();
        assert(u[0] == *s[0]);
        assert(u.contains(u[0]));
        assert(u.to_set().contains(*s[0]));
        assert(vstd::laws_cmp::obeys_cmp::<u64>());
        assert(vstd::laws_cmp::obeys_cmp::<&u64>());
        assert forall|k: u64| #[trigger] m@.contains_key(k) implies *s[0] <= k by {
            assert(u.to_set().contains(k));
            assert(u.contains(k));
            let i = choose|i: int| 0 <= i < u.len() && u[i] == k;
            assert(*s[i] == k);
            if i > 0 {
                assert(OrdSpec::cmp_spec(&s[0], &s[i]) is Less);
            }
        }
    }
}

/// A map's key iterator hands out every key once, in increasing order.
pub proof fn lemma_keys_increasing<J>(m: &BTreeMap<u64, J>)
    ensures
        spec_keys_iter(m).remaining().unref().to_set() == m@.dom(),
        forall|i: int, j: int|
            0 <= i < j < spec_keys_iter(m).remaining().len() ==> #[trigger] *spec_keys_iter(
                m,
            ).remaining()[i] < #[trigger] *spec_keys_iter(m).remaining()[j],
{
    broadcast use vstd::laws_cmp::group_laws_cmp;

    let s = spec_keys_iter(m).remaining();
    assert(increasing_seq(s));
    assert forall|i: int, j: int| 0 <= i < j < s.len() implies #[trigger] *s[i] < #[trigger] *s[j] by {
        assert(OrdSpec::cmp_spec(&s[i], &s[j]) is Less);
    }
}

/// Seconds compare as the numbers they are, so a map keyed by seconds keeps
/// the order that `BTreeMap` promises.
pub proof fn lemma_seconds_ordered()
    ensures
        vstd::laws_cmp::obeys_cmp::<u64>(),
{
    broadcast use vstd::laws_cmp::group_laws_cmp;

}

} // verus!
