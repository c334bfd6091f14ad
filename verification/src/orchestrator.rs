//! The decisions of a signing run. The service that builds the key tree,
//! signs and verifies is driven from outside: the orchestrator says what to
//! ask of it next, and is told what came back.

use crate::config::Config;
use crate::fixture::{
    OutputFixture, OutputFixtureView, StructuralParams, TestVector, TestVectorView,
    all_signatures_have_len, public_key_len, signature_len, signatures_have_len, vector_views,
};
use crate::sampler::is_leaf_sample;
use crate::service::{Action, Event, EventView, Failure};
use vstd::prelude::*;

verus! {

/// Where a run stands.
#[derive(Clone, Copy, Debug, PartialEq, Eq, Structural)]
pub enum Phase {
    /// The key tree was asked for.
    BuildingTree,
    /// A signature under the next sampled leaf was asked for.
    Signing,
    /// The last signature is being verified before it is accepted.
    Verifying,
    /// Every leaf is signed; the number of Winternitz chains was asked for.
    QueryingParameters,
    /// The fixture is whole.
    Complete,
    /// The run was given up; it yields no fixture.
    Aborted,
}

/// The state of a run.
pub struct OrchestratorView {
    pub config: Config,
    pub message: Seq<u8>,
    /// The sampled leaves, in the order in which they are signed.
    pub leaves: Seq<u32>,
    pub phase: Phase,
    pub base_offset: u32,
    pub public_key: Seq<u8>,
    /// The signature that awaits its verification.
    pub pending: Seq<u8>,
    /// The test vectors accepted so far.
    pub vectors: Seq<TestVectorView>,
    pub chains: u16,
}

impl OrchestratorView {
    /// The state in which a run begins.
    pub open spec fn initial(config: Config, message: Seq<u8>, leaves: Seq<u32>) -> Self {
        OrchestratorView {
            config,
            message,
            leaves,
            phase: Phase::BuildingTree,
            base_offset: 0,
            public_key: Seq::empty(),
            pending: Seq::empty(),
            vectors: Seq::empty(),
            chains: 0,
        }
    }

    /// The hash output size in words of four bytes.
    pub open spec fn words(self) -> u8 {
        self.config.hash_output_size / 4
    }

    /// The structural parameters of the fixture.
    pub open spec fn structural_params(self) -> StructuralParams {
        StructuralParams {
            words: self.words(),
            chains: self.chains,
            height: self.config.tree_height,
        }
    }

    /// The vectors accepted so far are those of the first leaves, in order,
    /// each expected to verify; while a signature is awaited a leaf is left,
    /// and after the last one none is; a whole fixture has the lengths that
    /// its structural parameters fix.
    pub open spec fn wf(self) -> bool {
        &&& self.vectors.len() <= self.leaves.len()
        &&& forall|i: int|
            0 <= i < self.vectors.len() ==> (#[trigger] self.vectors[i]).leaf_index
                == self.leaves[i] && self.vectors[i].expect_success
        &&& (self.phase == Phase::Signing || self.phase == Phase::Verifying)
            ==> self.vectors.len() < self.leaves.len()
        &&& (self.phase == Phase::QueryingParameters || self.phase == Phase::Complete)
            ==> self.vectors.len() == self.leaves.len()
        &&& self.phase == Phase::Complete ==> self.layout_matches(self.chains)
    }

    /// With `chains` Winternitz chains, the public key and every signature
    /// have the length that the structural parameters fix.
    pub open spec fn layout_matches(self, chains: u16) -> bool {
        &&& self.public_key.len() == public_key_len(self.words() as nat)
        &&& signatures_have_len(
            self.vectors,
            signature_len(self.words() as nat, chains as nat, self.config.tree_height as nat),
        )
    }

    /// Giving the run up.
    pub open spec fn abort(self, failure: Failure) -> (Self, Action) {
        (OrchestratorView { phase: Phase::Aborted, ..self }, Action::Abort { failure })
    }

    /// Going on after the tree was built or a vector was accepted: the next
    /// leaf is signed under its index counted from the base offset; where
    /// no leaf is left, the parameters are asked for.
    pub open spec fn proceed(self) -> (Self, Action) {
        if self.vectors.len() < self.leaves.len() {
            let leaf = self.leaves[self.vectors.len() as int];
            if self.base_offset + leaf <= u32::MAX {
                (
                    OrchestratorView { phase: Phase::Signing, ..self },
                    Action::Sign { leaf_index: (self.base_offset + leaf) as u32 },
                )
            } else {
                self.abort(Failure::LeafOutOfRange)
            }
        } else {
            (
                OrchestratorView { phase: Phase::QueryingParameters, ..self },
                Action::QueryParameters { lmots_type: self.config.lmots_type },
            )
        }
    }

    /// Accepting `signature` as the test vector of the leaf in turn.
    pub open spec fn accept(self, signature: Seq<u8>) -> (Self, Action) {
        let vector = TestVectorView {
            leaf_index: self.leaves[self.vectors.len() as int],
            expect_success: true,
            signature_bytes: signature,
        };
        OrchestratorView {
            vectors: self.vectors.push(vector),
            pending: Seq::empty(),
            ..self
        }.proceed()
    }

    /// The state after `event`, and what to ask of the service next.
    pub open spec fn step(self, event: EventView) -> (Self, Action) {
        match self.phase {
            Phase::BuildingTree => match event {
                EventView::TreeBuilt { base_offset, public_key } => OrchestratorView {
                    base_offset,
                    public_key,
                    ..self
                }.proceed(),
                EventView::ServiceFailed => self.abort(Failure::TreeConstruction),
                _ => self.abort(Failure::UnexpectedEvent),
            },
            Phase::Signing => match event {
                EventView::Signed { signature } => if self.config.self_check() {
                    (
                        OrchestratorView { phase: Phase::Verifying, pending: signature, ..self },
                        Action::Verify,
                    )
                } else {
                    self.accept(signature)
                },
                EventView::ServiceFailed => self.abort(Failure::Signing),
                _ => self.abort(Failure::UnexpectedEvent),
            },
            Phase::Verifying => match event {
                EventView::Verified { valid } => if valid {
                    self.accept(self.pending)
                } else {
                    self.abort(Failure::SignatureRejected)
                },
                EventView::ServiceFailed => self.abort(Failure::Verification),
                _ => self.abort(Failure::UnexpectedEvent),
            },
            Phase::QueryingParameters => match event {
                EventView::Parameters { chain_count } => if self.layout_matches(chain_count) {
                    (
                        OrchestratorView { phase: Phase::Complete, chains: chain_count, ..self },
                        Action::Emit,
                    )
                } else {
                    self.abort(Failure::LayoutMismatch)
                },
                EventView::ServiceFailed => self.abort(Failure::ParameterLookup),
                _ => self.abort(Failure::UnexpectedEvent),
            },
            Phase::Complete => (self, Action::Emit),
            Phase::Aborted => (self, Action::Abort { failure: Failure::UnexpectedEvent }),
        }
    }

    /// The fixture of a whole run.
    pub open spec fn fixture(self) -> OutputFixtureView {
        OutputFixtureView {
            message: self.message,
            public_key_bytes: self.public_key,
            structural_params: self.structural_params(),
            test_vectors: self.vectors,
        }
    }
}

/// A signing run in progress.
pub struct Orchestrator {
    config: Config,
    message: Vec<u8>,
    leaves: Vec<u32>,
    phase: Phase,
    base_offset: u32,
    public_key: Vec<u8>,
    pending: Vec<u8>,
    vectors: Vec<TestVector>,
    chains: u16,
}

impl View for Orchestrator {
    type V = OrchestratorView;

    closed spec fn view(&self) -> OrchestratorView {
        OrchestratorView {
            config: self.config,
            message: self.message@,
            leaves: self.leaves@,
            phase: self.phase,
            base_offset: self.base_offset,
            public_key: self.public_key@,
            pending: self.pending@,
            vectors: vector_views(self.vectors@),
            chains: self.chains,
        }
    }
}

impl Orchestrator {
    /// A run that is to sign `message` once under each of `leaves`.
    pub fn new(config: Config, message: Vec<u8>, leaves: Vec<u32>) -> (run: Orchestrator)
        ensures
            run@ == OrchestratorView::initial(config, message@, leaves@),
            run@.wf(),
    {
        let run = Orchestrator {
            config,
            message,
            leaves,
            phase: Phase::BuildingTree,
            base_offset: 0,
            public_key: Vec::new(),
            pending: Vec::new(),
            vectors: Vec::new(),
            chains: 0,
        };
        assert(run@.vectors =~= Seq::empty());
        run
    }

    /// The first request of every run: the key tree.
    pub fn start(&self) -> (action: Action)
        ensures
            action == (Action::BuildTree {
                lms_type: self@.config.lms_type,
                lmots_type: self@.config.lmots_type,
            }),
    {
        Action::BuildTree { lms_type: self.config.lms_type, lmots_type: self.config.lmots_type }
    }

    /// Where the run stands.
    pub fn phase(&self) -> (phase: Phase)
        ensures
            phase == self@.phase,
    {
        self.phase
    }

    /// The message that the service is to sign.
    pub fn message(&self) -> (message: &Vec<u8>)
        ensures
            message@ == self@.message,
    {
        &self.message
    }

    /// The number of test vectors accepted so far.
    pub fn accepted(&self) -> (count: usize)
        ensures
            count == self@.vectors.len(),
    {
        self.vectors.len()
    }

    fn abort(&mut self, failure: Failure) -> (action: Action)
        ensures
            (final(self)@, action) == old(self)@.abort(failure),
    {
        self.phase = Phase::Aborted;
        Action::Abort { failure }
    }

    fn proceed(&mut self) -> (action: Action)
        requires
            old(self)@.vectors.len() <= old(self)@.leaves.len(),
        ensures
            (final(self)@, action) == old(self)@.proceed(),
    {
        let done = self.vectors.len();
        if done < self.leaves.len() {
            let leaf = self.leaves[done];
            if leaf <= u32::MAX - self.base_offset {
                self.phase = Phase::Signing;
                Action::Sign { leaf_index: self.base_offset + leaf }
            } else {
                self.abort(Failure::LeafOutOfRange)
            }
        } else {
            self.phase = Phase::QueryingParameters;
            Action::QueryParameters { lmots_type: self.config.lmots_type }
        }
    }

    fn accept(&mut self, signature: Vec<u8>) -> (action: Action)
        requires
            old(self)@.vectors.len() < old(self)@.leaves.len(),
        ensures
            (final(self)@, action) == old(self)@.accept(signature@),
    {
        let vector = TestVector {
            leaf_index: self.leaves[self.vectors.len()],
            expect_success: true,
            signature_bytes: signature,
        };
        self.vectors.push(vector);
        self.pending = Vec::new();
        proof {
            let before = old(self)@;
            let pushed = OrchestratorView {
                vectors: before.vectors.push(vector@),
                pending: Seq::empty(),
                ..before
            };
            assert(self@.vectors =~= pushed.vectors);
            assert(self@.pending =~= pushed.pending);
            assert(self@ == pushed);
        }
        self.proceed()
    }

    /// Takes in what the service answered and says what to ask of it next.
    pub fn step(&mut self, event: Event) -> (action: Action)
        requires
            old(self)@.wf(),
        ensures
            (final(self)@, action) == old(self)@.step(event@),
            final(self)@.wf(),
    {
        proof {
            lemma_step_preserves_wf(self@, event@);
        }
        match self.phase {
            Phase::BuildingTree => match event {
                Event::TreeBuilt { base_offset, public_key } => {
                    self.base_offset = base_offset;
                    self.public_key = public_key;
                    self.proceed()
                },
                Event::ServiceFailed => self.abort(Failure::TreeConstruction),
                _ => self.abort(Failure::UnexpectedEvent),
            },
            Phase::Signing => match event {
                Event::Signed { signature } => {
                    if self.config.self_check() {
                        self.phase = Phase::Verifying;
                        self.pending = signature;
                        Action::Verify
                    } else {
                        self.accept(signature)
                    }
                },
                Event::ServiceFailed => self.abort(Failure::Signing),
                _ => self.abort(Failure::UnexpectedEvent),
            },
            Phase::Verifying => match event {
                Event::Verified { valid } => {
                    if valid {
                        let mut signature: Vec<u8> = Vec::new();
                        core::mem::swap(&mut self.pending, &mut signature);
                        self.accept(signature)
                    } else {
                        self.abort(Failure::SignatureRejected)
                    }
                },
                Event::ServiceFailed => self.abort(Failure::Verification),
                _ => self.abort(Failure::UnexpectedEvent),
            },
            Phase::QueryingParameters => match event {
                Event::Parameters { chain_count } => {
                    let params = StructuralParams::new(
                        self.config.hash_output_size,
                        chain_count,
                        self.config.tree_height,
                    );
                    if self.public_key.len() == params.public_key_len() && all_signatures_have_len(
                        &self.vectors,
                        params.signature_len(),
                    ) {
                        self.phase = Phase::Complete;
                        self.chains = chain_count;
                        Action::Emit
                    } else {
                        self.abort(Failure::LayoutMismatch)
                    }
                },
                Event::ServiceFailed => self.abort(Failure::ParameterLookup),
                _ => self.abort(Failure::UnexpectedEvent),
            },
            Phase::Complete => Action::Emit,
            Phase::Aborted => Action::Abort { failure: Failure::UnexpectedEvent },
        }
    }

    /// The fixture of the run, once it is whole; none before that, and none
    /// of a run that was given up.
    pub fn into_fixture(self) -> (fixture: Option<OutputFixture>)
        ensures
            fixture.is_some() <==> self@.phase == Phase::Complete,
            fixture matches Some(f) ==> f@ == self@.fixture(),
    {
        match self.phase {
            Phase::Complete => Some(
                OutputFixture {
                    message: self.message,
                    public_key_bytes: self.public_key,
                    structural_params: StructuralParams::new(
                        self.config.hash_output_size,
                        self.chains,
                        self.config.tree_height,
                    ),
                    test_vectors: self.vectors,
                },
            ),
            _ => None,
        }
    }
}

/// Every step keeps the state well formed.
pub proof fn lemma_step_preserves_wf(state: OrchestratorView, event: EventView)
    requires
        state.wf(),
    ensures
        state.step(event).0.wf(),
{
}

/// A run that is whole or was given up stays as it is, whatever arrives.
pub proof fn lemma_terminal_phases_absorb(state: OrchestratorView, event: EventView)
    requires
        state.phase == Phase::Complete || state.phase == Phase::Aborted,
    ensures
        state.step(event).0 == state,
{
}

/// A step leaves the accepted vectors as they are or adds one to their end:
/// the vector of the leaf in turn, expected to verify.
pub proof fn lemma_step_extends_vectors(state: OrchestratorView, event: EventView)
    requires
        state.wf(),
    ensures
        ({
            let after = state.step(event).0.vectors;
            ||| after == state.vectors
            ||| after.len() == state.vectors.len() + 1 && after.drop_last() == state.vectors
                && after.last().leaf_index == state.leaves[state.vectors.len() as int]
                && after.last().expect_success
        }),
{
    let after = state.step(event).0.vectors;
    if after != state.vectors {
        assert(after.drop_last() =~= state.vectors);
    }
}

/// Where signatures are verified again, a vector is accepted only on word
/// that its signature verified, and it holds the signature that was
/// awaiting that word.
pub proof fn lemma_self_check_guards_acceptance(state: OrchestratorView, event: EventView)
    requires
        state.wf(),
        state.config.self_check(),
        state.step(event).0.vectors != state.vectors,
    ensures
        state.phase == Phase::Verifying,
        event == (EventView::Verified { valid: true }),
        state.step(event).0.vectors.last().signature_bytes == state.pending,
{
}

/// The fixture of a whole run over a sample of leaves is well formed, has
/// one vector for each sampled leaf, in the order of the sample, and
/// expects every vector to verify.
pub proof fn lemma_whole_fixture_well_formed(state: OrchestratorView)
    requires
        state.wf(),
        state.phase == Phase::Complete,
        is_leaf_sample(state.leaves, state.leaves.len(), state.config.tree_height),
    ensures
        state.fixture().well_formed(),
        state.fixture().test_vectors.len() == state.leaves.len(),
        forall|i: int|
            0 <= i < state.leaves.len() ==> (#[trigger] state.fixture().test_vectors[i]).leaf_index
                == state.leaves[i] && state.fixture().test_vectors[i].expect_success,
{
    let vectors = state.fixture().test_vectors;
    assert forall|i: int, j: int| 0 <= i < j < vectors.len() implies (#[trigger] vectors[i]).leaf_index
        != (#[trigger] vectors[j]).leaf_index by {
        assert(state.leaves[i] != state.leaves[j]);
    }
}

impl OrchestratorView {
    /// The state after the service signed for the leaf in turn and, where
    /// signatures are verified again, found `signature` valid.
    pub open spec fn round(self, signature: Seq<u8>) -> Self {
        let signed = self.step(EventView::Signed { signature }).0;
        if self.config.self_check() {
            signed.step(EventView::Verified { valid: true }).0
        } else {
            signed
        }
    }

    /// The state after one round for each of `signatures`, in order.
    pub open spec fn rounds(self, signatures: Seq<Seq<u8>>) -> Self
        decreases signatures.len(),
    {
        if signatures.len() == 0 {
            self
        } else {
            self.rounds(signatures.drop_last()).round(signatures.last())
        }
    }

    /// The state once the tree was built.
    pub open spec fn built(self, base_offset: u32, public_key: Seq<u8>) -> Self {
        OrchestratorView { base_offset, public_key, ..self }.proceed().0
    }
}

/// The vectors that pair the first leaves with `signatures`, each expected
/// to verify.
pub open spec fn paired_vectors(leaves: Seq<u32>, signatures: Seq<Seq<u8>>) -> Seq<TestVectorView> {
    Seq::new(
        signatures.len(),
        |i: int|
            TestVectorView {
                leaf_index: leaves[i],
                expect_success: true,
                signature_bytes: signatures[i],
            },
    )
}

/// Every leaf of the sample has an index when counted from `base_offset`.
pub open spec fn leaves_fit(leaves: Seq<u32>, base_offset: u32) -> bool {
    forall|i: int| 0 <= i < leaves.len() ==> base_offset + #[trigger] leaves[i] <= u32::MAX
}

/// After the tree was built, rounds with a service that does not fail pair
/// the leaves with the signatures, in order; the run awaits a signature
/// while a leaf is left, and the parameters after the last.
pub proof fn lemma_rounds_pair_leaves(
    config: Config,
    message: Seq<u8>,
    leaves: Seq<u32>,
    base_offset: u32,
    public_key: Seq<u8>,
    signatures: Seq<Seq<u8>>,
)
    requires
        signatures.len() <= leaves.len(),
        leaves_fit(leaves, base_offset),
    ensures
        ({
            let first = OrchestratorView::initial(config, message, leaves).built(
                base_offset,
                public_key,
            );
            let state = first.rounds(signatures);
            &&& state == OrchestratorView {
                vectors: paired_vectors(leaves, signatures),
                phase: if signatures.len() < leaves.len() {
                    Phase::Signing
                } else {
                    Phase::QueryingParameters
                },
                ..first
            }
            &&& state.wf()
        }),
    decreases signatures.len(),
{
    let first = OrchestratorView::initial(config, message, leaves).built(base_offset, public_key);
    if signatures.len() == 0 {
        assert(first.vectors =~= paired_vectors(leaves, signatures));
    } else {
        let earlier = signatures.drop_last();
        lemma_rounds_pair_leaves(config, message, leaves, base_offset, public_key, earlier);
        let before = first.rounds(earlier);
        let after = before.round(signatures.last());
        assert(before.vectors.len() == earlier.len());
        assert(before.vectors.push(
            TestVectorView {
                leaf_index: leaves[earlier.len() as int],
                expect_success: true,
                signature_bytes: signatures.last(),
            },
        ) =~= paired_vectors(leaves, signatures));
        assert(after.pending =~= first.pending);
    }
}

/// With a service that does not fail, whose signatures verify and whose
/// byte strings have the lengths that the structural parameters fix, a run
/// over leaves that all have an index comes to its end with the fixture
/// that pairs each leaf with its signature.
pub proof fn lemma_faithful_service_completes(
    config: Config,
    message: Seq<u8>,
    leaves: Seq<u32>,
    base_offset: u32,
    public_key: Seq<u8>,
    signatures: Seq<Seq<u8>>,
    chain_count: u16,
)
    requires
        signatures.len() == leaves.len(),
        leaves_fit(leaves, base_offset),
        public_key.len() == public_key_len((config.hash_output_size / 4) as nat),
        forall|i: int|
            0 <= i < signatures.len() ==> (#[trigger] signatures[i]).len() == signature_len(
                (config.hash_output_size / 4) as nat,
                chain_count as nat,
                config.tree_height as nat,
            ),
    ensures
        ({
            let start = OrchestratorView::initial(config, message, leaves);
            let signed = start.built(base_offset, public_key).rounds(signatures);
            let (end, action) = signed.step(EventView::Parameters { chain_count });
            &&& start.step(EventView::TreeBuilt { base_offset, public_key }).0 == start.built(
                base_offset,
                public_key,
            )
            &&& action == Action::Emit
            &&& end.phase == Phase::Complete
            &&& end.fixture() == (OutputFixtureView {
                message,
                public_key_bytes: public_key,
                structural_params: StructuralParams {
                    words: config.hash_output_size / 4,
                    chains: chain_count,
                    height: config.tree_height,
                },
                test_vectors: paired_vectors(leaves, signatures),
            })
        }),
{
    lemma_rounds_pair_leaves(config, message, leaves, base_offset, public_key, signatures);
}

} // verus!
