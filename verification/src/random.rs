//! Random reordering, through the `rand` crate.
use vstd::prelude::*;

use rand::rngs::ThreadRng;
use rand::seq::{IndexedRandom, SliceRandom};

verus! {

/// The random number generator of the current thread, as `rand` hands it out.
#[verifier::external_type_specification]
#[verifier::external_body]
pub struct ExThreadRng(ThreadRng);

/// `p` lists each index below `n` exactly once.
pub open spec fn is_permutation(p: Seq<int>, n: nat) -> bool {
    &&& p.len() == n
    &&& forall|i: int| 0 <= i < n ==> 0 <= #[trigger] p[i] < n
    &&& forall|i: int, j: int| 0 <= i < j < n ==> #[trigger] p[i] != #[trigger] p[j]
    &&& forall|j: int| 0 <= j < n ==> #[trigger] hits(p, n, j)
}

/// Some index below `n` is sent to `j` by `p`.
pub open spec fn hits(p: Seq<int>, n: nat, j: int) -> bool {
    exists|i: int| 0 <= i < n && #[trigger] p[i] == j
}

/// `new` holds the items of `old`, each once, in some order.
pub open spec fn permutes<T>(new: Seq<T>, old: Seq<T>) -> bool {
    exists|p: Seq<int>|
        is_permutation(p, old.len()) && new.len() == old.len() && forall|i: int|
            0 <= i < new.len() ==> #[trigger] new[i] == old[p[i]]
}

/// `rand::rng()`: the generator of the current thread. Nothing is claimed of it.
#[verifier::external_body]
pub(crate) fn thread_rng() -> ThreadRng {
    rand::rng()
}

/// `SliceRandom::shuffle` of `rand`: the vector is reordered at random. The
/// implementation swaps items in place (Fisher-Yates), so what comes out is a
/// permutation of what went in; which one is left to chance and not stated.
#[verifier::external_body]
pub(crate) fn shuffle_vec<T>(v: &mut Vec<T>, rng: &mut ThreadRng)
    ensures
        permutes(final(v)@, old(v)@),
{
    v.as_mut_slice().shuffle(rng)
}

/// `IndexedRandom::choose` of `rand`: one item of the list picked at
/// random, `None` for an empty list. Which item is left to chance.
#[verifier::external_body]
pub(crate) fn choose_string<'a>(items: &'a Vec<String>, rng: &mut ThreadRng) -> (r: Option<&'a String>)
    ensures
        items@.len() == 0 ==> r is None,
        items@.len() > 0 ==> r is Some && items@.contains(*r.unwrap()),
{
    items.as_slice().choose(rng)
}

/// Reordering items reorders their images under any map in the same way.
pub proof fn lemma_permutes_map<A, B>(new: Seq<A>, old: Seq<A>, f: spec_fn(A) -> B)
    requires
        permutes(new, old),
    ensures
        permutes(new.map_values(f), old.map_values(f)),
{
    let p = choose|p: Seq<int>|
        is_permutation(p, old.len()) && new.len() == old.len() && forall|i: int|
            0 <= i < new.len() ==> #[trigger] new[i] == old[p[i]];
    assert(is_permutation(p, old.map_values(f).len())) by {
        assert forall|j: int| 0 <= j < old.len() implies #[trigger] hits(p, old.map_values(f).len(), j) by {
            assert(hits(p, old.len(), j));
        }
    }
    assert forall|i: int| 0 <= i < new.map_values(f).len() implies #[trigger] new.map_values(f)[i] == old.map_values(f)[p[i]] by {
        assert(new[i] == old[p[i]]);
    }
}

} // verus!
