//! Drawing the leaves of the key tree that a batch of test vectors uses.

use crate::params::ConfigError;
use rand::rngs::ThreadRng;
use rand::seq::SliceRandom;
use vstd::arithmetic::power2::pow2;
use vstd::bits::lemma_u32_shl_is_mul;
use vstd::prelude::*;
use vstd::seq_lib::seq_to_set_is_finite;
use vstd::set_lib::{lemma_int_range, lemma_subset_equality, set_int_range};

verus! {

/// The generator that each thread keeps for itself, seeded by the system.
#[verifier::external_type_specification]
#[verifier::external_body]
pub struct ExThreadRng(ThreadRng);

/// `rand::thread_rng` hands out the calling thread's generator. Nothing is
/// claimed of it. On a thread's first call it seeds the generator from the
/// system and panics where the system gives no entropy.
pub assume_specification[ rand::thread_rng ]() -> (rng: ThreadRng);

/// `chosen` is made of the items of `candidates` at the places `picks`, and
/// no place is taken twice.
pub open spec fn selects(chosen: Seq<u32>, picks: Seq<int>, candidates: Seq<u32>) -> bool {
    &&& picks.len() == chosen.len()
    &&& picks.no_duplicates()
    &&& forall|i: int|
        0 <= i < picks.len() ==> 0 <= #[trigger] picks[i] < candidates.len() && chosen[i]
            == candidates[picks[i]]
}

/// `chosen` was taken from `candidates` without taking any place twice.
pub open spec fn drawn_from(chosen: Seq<u32>, candidates: Seq<u32>) -> bool {
    exists|picks: Seq<int>| selects(chosen, picks, candidates)
}

/// `SliceRandom::choose_multiple` of rand, collected into a vector: it
/// draws `amount` places of the slice at random, or all of them where the
/// slice is shorter, no place twice, and yields the items found there.
/// Which places, and in which order, is left open. Slices with more places
/// than 32 bits can count are kept out: for those rand takes a path that
/// asserts that fewer places are drawn than there are.
#[verifier::external_body]
fn choose_multiple(candidates: &Vec<u32>, rng: &mut ThreadRng, amount: usize) -> (chosen: Vec<u32>)
    requires
        candidates@.len() <= u32::MAX,
    ensures
        chosen@.len() == if amount <= candidates@.len() {
            amount as nat
        } else {
            candidates@.len()
        },
        drawn_from(chosen@, candidates@),
{
    candidates.choose_multiple(rng, amount).cloned().collect()
}

/// A sample of `count` leaves of a tree of height `tree_height`: `count`
/// indices, each below the number of leaves, none occurring twice.
pub open spec fn is_leaf_sample(leaves: Seq<u32>, count: nat, tree_height: u8) -> bool {
    &&& leaves.len() == count
    &&& leaves.no_duplicates()
    &&& forall|i: int| 0 <= i < leaves.len() ==> (#[trigger] leaves[i]) < pow2(tree_height as nat)
}

/// The number of leaves of a tree of height `tree_height`.
pub fn leaf_count(tree_height: u8) -> (count: u32)
    requires
        tree_height < 32,
    ensures
        count == pow2(tree_height as nat),
{
    let shift: u32 = tree_height as u32;
    proof {
        vstd::bits::lemma_u32_pow2_no_overflow(shift as nat);
        lemma_u32_shl_is_mul(1u32, shift);
    }
    1u32 << shift
}

/// The leaf indices `0, 1, ..` below `total`, in rising order.
fn all_leaves(total: u32) -> (candidates: Vec<u32>)
    ensures
        candidates@.len() == total,
        forall|i: int| 0 <= i < total ==> candidates@[i] == i,
{
    let mut candidates: Vec<u32> = Vec::new();
    let mut next: u32 = 0;
    while next < total
        invariant
            next <= total,
            candidates@.len() == next,
            forall|i: int| 0 <= i < next ==> candidates@[i] == i,
        decreases total - next,
    {
        candidates.push(next);
        next += 1;
    }
    candidates
}

/// Draws `count` distinct leaves, at random, from the tree of height
/// `tree_height`. It fails where `count` is zero or exceeds the number of
/// leaves, and on no other input.
pub fn sample_leaves(count: u32, tree_height: u8) -> (r: Result<Vec<u32>, ConfigError>)
    requires
        tree_height < 32,
    ensures
        r.is_ok() <==> 1 <= count <= pow2(tree_height as nat),
        r matches Ok(leaves) ==> is_leaf_sample(leaves@, count as nat, tree_height),
        r matches Err(e) ==> e == (ConfigError::TooManyTests { tests: count, tree_height }),
{
    let total = leaf_count(tree_height);
    if count == 0 || count > total {
        return Err(ConfigError::TooManyTests { tests: count, tree_height });
    }
    let candidates = all_leaves(total);
    let mut rng = rand::thread_rng();
    let leaves = choose_multiple(&candidates, &mut rng, count as usize);
    proof {
        let picks = choose|picks: Seq<int>| selects(leaves@, picks, candidates@);
        assert forall|i: int, j: int|
            0 <= i < leaves@.len() && 0 <= j < leaves@.len() && i != j implies leaves@[i]
            != leaves@[j] by {
            assert(leaves@[i] == picks[i]);
            assert(leaves@[j] == picks[j]);
        }
        assert forall|i: int| 0 <= i < leaves@.len() implies (#[trigger] leaves@[i]) < pow2(
            tree_height as nat,
        ) by {
            assert(leaves@[i] == picks[i]);
        }
    }
    Ok(leaves)
}

/// A sample of as many leaves as the tree has holds every leaf.
pub proof fn lemma_full_sample_covers(leaves: Seq<u32>, tree_height: u8)
    requires
        is_leaf_sample(leaves, pow2(tree_height as nat), tree_height),
    ensures
        forall|leaf: u32| leaf < pow2(tree_height as nat) ==> leaves.contains(leaf),
{
    let total = pow2(tree_height as nat) as int;
    let indices = Seq::new(leaves.len(), |i: int| leaves[i] as int);
    assert(indices.no_duplicates());
    indices.unique_seq_to_set();
    seq_to_set_is_finite(indices);
    lemma_int_range(0, total);
    assert(indices.to_set().subset_of(set_int_range(0, total))) by {
        assert forall|v: int| indices.to_set().contains(v) implies set_int_range(
            0,
            total,
        ).contains(v) by {
            let i = choose|i: int| 0 <= i < indices.len() && indices[i] == v;
            assert(leaves[i] < total);
        }
    }
    lemma_subset_equality(indices.to_set(), set_int_range(0, total));
    assert forall|leaf: u32| leaf < total implies leaves.contains(leaf) by {
        assert(set_int_range(0, total).contains(leaf as int));
        assert(indices.to_set().contains(leaf as int));
        let i = choose|i: int| 0 <= i < indices.len() && indices[i] == leaf as int;
        assert(leaves[i] == leaf);
    }
}

} // verus!
