//! Without-replacement drawing and shuffling.
//!
//! `draw` removes `k` items from a pool at random positions. Drawing the
//! whole pool is a uniform shuffle; drawing fewer is without-replacement
//! sampling. The contracts are in terms of multisets: what comes out was in
//! the pool, each occurrence used at most once, and a full draw is exactly a
//! permutation.
#![verifier::loop_isolation(false)]

use vstd::prelude::*;

use vstd::multiset::Multiset;

use crate::rng::Rng;

verus! {

/// Draw `k` items from `pool` without replacement, in random order.
///
/// The result holds exactly `k` items and its multiset is contained in the
/// pool's; a full-length draw returns a permutation of the pool.
pub fn draw<T>(rng: &mut Rng, pool: Vec<T>, k: usize) -> (out: Vec<T>)
    requires
        k <= pool@.len(),
    ensures
        out@.len() == k,
        out@.to_multiset().subset_of(pool@.to_multiset()),
        k == pool@.len() ==> out@.to_multiset() == pool@.to_multiset(),
{
    broadcast use vstd::seq_lib::group_to_multiset_ensures;
    broadcast use vstd::multiset::group_multiset_axioms;

    let mut rest = pool;
    let mut out: Vec<T> = Vec::new();
    proof {
        assert(out@.to_multiset().add(rest@.to_multiset()) =~= rest@.to_multiset());
    }
    while out.len() < k
        invariant
            out@.len() <= k,
            rest@.len() == pool@.len() - out@.len(),
            out@.to_multiset().add(rest@.to_multiset()) == pool@.to_multiset(),
        decreases k - out@.len(),
    {
        let j = rng.next_below(rest.len());
        let ghost out0 = out@;
        let ghost rest0 = rest@;
        let x = rest.remove(j);
        out.push(x);
        proof {
            assert(rest0.contains(x));
            assert(rest0.to_multiset().count(x) > 0);
            assert(out@.to_multiset().add(rest@.to_multiset()) =~= out0.to_multiset().add(
                rest0.to_multiset(),
            ));
        }
    }
    proof {
        assert(out@.to_multiset().subset_of(pool@.to_multiset()));
        if k == pool@.len() {
            assert(rest@.len() == 0);
            assert(rest@ =~= Seq::<T>::empty());
            assert(rest@.to_multiset() =~= Multiset::<T>::empty());
            assert(out@.to_multiset() =~= pool@.to_multiset());
        }
    }
    out
}

} // verus!
