//! The data of one generated fixture: the signed message, the public key and
//! the test vectors, all in the byte layout that the consumer reads in place.

use vstd::arithmetic::power2::pow2;
use vstd::prelude::*;

verus! {

/// Bytes of a serialized public key whose hashes are `words` words long:
/// two type words, a tree identifier of sixteen bytes and the root hash.
pub open spec fn public_key_len(words: nat) -> nat {
    24 + 4 * words
}

/// Bytes of a serialized signature with hashes of `words` words, `chains`
/// Winternitz chains and a tree of height `height`: the leaf index and two
/// type words, then the randomizer, one hash per chain and one hash per
/// level of the tree.
pub open spec fn signature_len(words: nat, chains: nat, height: nat) -> nat {
    12 + 4 * words * (1 + chains + height)
}

/// The parameters by which the consumer types the raw bytes: the hash
/// output size in words of four bytes, the number of Winternitz chains and
/// the tree height.
#[derive(Clone, Copy, Debug, PartialEq, Eq, Structural)]
pub struct StructuralParams {
    pub words: u8,
    pub chains: u16,
    pub height: u8,
}

impl StructuralParams {
    /// The structural parameters for a hash output size of `n` bytes.
    pub fn new(n: u8, chains: u16, height: u8) -> (params: StructuralParams)
        ensures
            params == (StructuralParams { words: n / 4, chains, height }),
    {
        StructuralParams { words: n / 4, chains, height }
    }

    /// The length that a serialized public key has under these parameters.
    pub fn public_key_len(&self) -> (len: usize)
        ensures
            len == public_key_len(self.words as nat),
    {
        24 + 4 * (self.words as usize)
    }

    /// The length that a serialized signature has under these parameters.
    pub fn signature_len(&self) -> (len: usize)
        ensures
            len == signature_len(self.words as nat, self.chains as nat, self.height as nat),
    {
        let hashes: usize = 1 + (self.chains as usize) + (self.height as usize);
        let hash_len: usize = 4 * (self.words as usize);
        assert(hash_len * hashes <= 1020 * 65791) by (nonlinear_arith)
            requires
                hash_len <= 1020,
                hashes <= 65791,
        ;
        assert(4 * self.words * (1 + self.chains + self.height) == hash_len * hashes)
            by (nonlinear_arith)
            requires
                hash_len == 4 * self.words,
                hashes == 1 + self.chains + self.height,
        ;
        12 + hash_len * hashes
    }
}

/// One signed message of the batch.
#[derive(Clone, Debug)]
pub struct TestVector {
    /// The sampled leaf, counted from the first leaf of the tree.
    pub leaf_index: u32,
    /// Whether the consumer is to accept the signature.
    pub expect_success: bool,
    /// The serialized signature.
    pub signature_bytes: Vec<u8>,
}

pub struct TestVectorView {
    pub leaf_index: u32,
    pub expect_success: bool,
    pub signature_bytes: Seq<u8>,
}

impl View for TestVector {
    type V = TestVectorView;

    open spec fn view(&self) -> TestVectorView {
        TestVectorView {
            leaf_index: self.leaf_index,
            expect_success: self.expect_success,
            signature_bytes: self.signature_bytes@,
        }
    }
}

/// The views of a run of test vectors.
pub open spec fn vector_views(vectors: Seq<TestVector>) -> Seq<TestVectorView> {
    Seq::new(vectors.len(), |i: int| vectors[i]@)
}

/// Everything that the emitted program carries.
#[derive(Clone, Debug)]
pub struct OutputFixture {
    pub message: Vec<u8>,
    pub public_key_bytes: Vec<u8>,
    pub structural_params: StructuralParams,
    pub test_vectors: Vec<TestVector>,
}

pub struct OutputFixtureView {
    pub message: Seq<u8>,
    pub public_key_bytes: Seq<u8>,
    pub structural_params: StructuralParams,
    pub test_vectors: Seq<TestVectorView>,
}

impl View for OutputFixture {
    type V = OutputFixtureView;

    open spec fn view(&self) -> OutputFixtureView {
        OutputFixtureView {
            message: self.message@,
            public_key_bytes: self.public_key_bytes@,
            structural_params: self.structural_params,
            test_vectors: vector_views(self.test_vectors@),
        }
    }
}

/// Every signature of `vectors` is `len` bytes long.
pub open spec fn signatures_have_len(vectors: Seq<TestVectorView>, len: nat) -> bool {
    forall|i: int| 0 <= i < vectors.len() ==> (#[trigger] vectors[i]).signature_bytes.len() == len
}

/// No leaf is used by two of `vectors`, and each leaf lies in a tree of
/// height `height`.
pub open spec fn leaves_are_distinct(vectors: Seq<TestVectorView>, height: nat) -> bool {
    &&& forall|i: int|
        0 <= i < vectors.len() ==> (#[trigger] vectors[i]).leaf_index < pow2(height)
    &&& forall|i: int, j: int|
        0 <= i < j < vectors.len() ==> (#[trigger] vectors[i]).leaf_index
            != (#[trigger] vectors[j]).leaf_index
}

impl OutputFixtureView {
    /// The byte strings have the lengths that the structural parameters
    /// fix, and the vectors use distinct leaves of the tree.
    pub open spec fn well_formed(self) -> bool {
        let p = self.structural_params;
        &&& self.public_key_bytes.len() == public_key_len(p.words as nat)
        &&& signatures_have_len(
            self.test_vectors,
            signature_len(p.words as nat, p.chains as nat, p.height as nat),
        )
        &&& leaves_are_distinct(self.test_vectors, p.height as nat)
    }
}

/// Tells whether every signature of `vectors` is `len` bytes long.
pub fn all_signatures_have_len(vectors: &Vec<TestVector>, len: usize) -> (ok: bool)
    ensures
        ok == signatures_have_len(vector_views(vectors@), len as nat),
{
    let mut i: usize = 0;
    while i < vectors.len()
        invariant
            i <= vectors@.len(),
            forall|j: int| 0 <= j < i ==> (#[trigger] vectors@[j]).signature_bytes@.len() == len,
        decreases vectors@.len() - i,
    {
        if vectors[i].signature_bytes.len() != len {
            assert(vector_views(vectors@)[i as int].signature_bytes.len() != len);
            return false;
        }
        i += 1;
    }
    assert forall|j: int| 0 <= j < vector_views(vectors@).len() implies (#[trigger] vector_views(
        vectors@,
    )[j]).signature_bytes.len() == len by {
        assert(vectors@[j].signature_bytes@.len() == len);
    }
    true
}

/// The public keys of two well-formed fixtures for the same hash output
/// size are equally long, whatever else the fixtures hold.
pub proof fn lemma_public_key_len_fixed(a: OutputFixtureView, b: OutputFixtureView)
    requires
        a.well_formed(),
        b.well_formed(),
        a.structural_params.words == b.structural_params.words,
    ensures
        a.public_key_bytes.len() == b.public_key_bytes.len(),
{
}

/// Any two signatures of well-formed fixtures with the same structural
/// parameters are equally long; so are any two signatures of one batch.
pub proof fn lemma_signature_len_fixed(a: OutputFixtureView, b: OutputFixtureView, i: int, j: int)
    requires
        a.well_formed(),
        b.well_formed(),
        a.structural_params == b.structural_params,
        0 <= i < a.test_vectors.len(),
        0 <= j < b.test_vectors.len(),
    ensures
        a.test_vectors[i].signature_bytes.len() == b.test_vectors[j].signature_bytes.len(),
{
}

} // verus!
