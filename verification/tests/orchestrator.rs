use lms_fixture::config::{message_bytes, validate};
use lms_fixture::emitter::render_fixture;
use lms_fixture::fixture::StructuralParams;
use lms_fixture::orchestrator::{Orchestrator, Phase};
use lms_fixture::params::{LmotsTypeId, LmsTypeId};
use lms_fixture::service::{Action, Event, Failure};

fn run(n: u8, w: u8, h: u8, leaves: Vec<u32>) -> Orchestrator {
    let config = validate(n, w, h, leaves.len() as u32).unwrap();
    Orchestrator::new(config, message_bytes(), leaves)
}

fn tree(base_offset: u32, n: u8) -> Event {
    Event::TreeBuilt { base_offset, public_key: vec![7; 24 + n as usize] }
}

fn signature(n: u8, p: u16, h: u8, fill: u8) -> Event {
    Event::Signed { signature: vec![fill; StructuralParams::new(n, p, h).signature_len()] }
}

#[test]
fn a_run_begins_by_asking_for_the_tree() {
    let orchestrator = run(32, 8, 5, vec![3]);
    assert_eq!(orchestrator.phase(), Phase::BuildingTree);
    assert_eq!(orchestrator.accepted(), 0);
    assert_eq!(orchestrator.message(), &message_bytes());
    assert_eq!(
        orchestrator.start(),
        Action::BuildTree {
            lms_type: LmsTypeId::LmsSha256N32H5,
            lmots_type: LmotsTypeId::LmotsSha256N32W8,
        }
    );
}

#[test]
fn one_vector_with_the_large_hash_is_accepted_unverified() {
    let mut orchestrator = run(32, 8, 5, vec![17]);
    assert_eq!(orchestrator.step(tree(0, 32)), Action::Sign { leaf_index: 17 });
    assert_eq!(orchestrator.phase(), Phase::Signing);
    assert_eq!(
        orchestrator.step(signature(32, 34, 5, 9)),
        Action::QueryParameters { lmots_type: LmotsTypeId::LmotsSha256N32W8 }
    );
    assert_eq!(orchestrator.accepted(), 1);
    assert_eq!(orchestrator.step(Event::Parameters { chain_count: 34 }), Action::Emit);
    assert_eq!(orchestrator.phase(), Phase::Complete);
    let fixture = orchestrator.into_fixture().unwrap();
    assert_eq!(fixture.message, message_bytes());
    assert_eq!(fixture.public_key_bytes, vec![7; 56]);
    assert_eq!(fixture.structural_params, StructuralParams { words: 8, chains: 34, height: 5 });
    assert_eq!(fixture.test_vectors.len(), 1);
    assert_eq!(fixture.test_vectors[0].leaf_index, 17);
    assert!(fixture.test_vectors[0].expect_success);
    assert_eq!(fixture.test_vectors[0].signature_bytes, vec![9; 1292]);
    let text = render_fixture(&fixture);
    assert!(text.contains("\tconst TESTS: [LmsTest; 1] = [\n"));
    assert!(text.contains("\tconst PUBLIC_KEY_BYTES: [u8; 56] = [7, 7, "));
    assert_eq!(text.matches("LmsTest{ test_passed: true, signature: &[9, 9, ").count(), 1);
}

#[test]
fn five_vectors_with_the_small_hash_are_each_verified() {
    let leaves = vec![1000, 0, 512, 3, 77];
    let mut orchestrator = run(24, 1, 10, leaves.clone());
    let mut action = orchestrator.step(tree(0, 24));
    for (i, leaf) in leaves.iter().enumerate() {
        assert_eq!(action, Action::Sign { leaf_index: *leaf });
        assert_eq!(orchestrator.step(signature(24, 200, 10, i as u8)), Action::Verify);
        assert_eq!(orchestrator.phase(), Phase::Verifying);
        assert_eq!(orchestrator.accepted(), i);
        action = orchestrator.step(Event::Verified { valid: true });
        assert_eq!(orchestrator.accepted(), i + 1);
    }
    assert_eq!(action, Action::QueryParameters { lmots_type: LmotsTypeId::LmotsSha256N24W1 });
    assert_eq!(orchestrator.step(Event::Parameters { chain_count: 200 }), Action::Emit);
    let fixture = orchestrator.into_fixture().unwrap();
    assert_eq!(fixture.public_key_bytes.len(), 48);
    assert_eq!(fixture.test_vectors.len(), 5);
    for (i, vector) in fixture.test_vectors.iter().enumerate() {
        assert_eq!(vector.leaf_index, leaves[i]);
        assert!(vector.expect_success);
        assert_eq!(vector.signature_bytes, vec![i as u8; 5076]);
    }
}

#[test]
fn leaves_are_counted_from_the_base_offset() {
    let mut orchestrator = run(32, 4, 5, vec![2, 31]);
    assert_eq!(orchestrator.step(tree(32, 32)), Action::Sign { leaf_index: 34 });
    assert_eq!(orchestrator.step(signature(32, 67, 5, 1)), Action::Sign { leaf_index: 63 });
    orchestrator.step(signature(32, 67, 5, 2));
    assert_eq!(orchestrator.step(Event::Parameters { chain_count: 67 }), Action::Emit);
    let fixture = orchestrator.into_fixture().unwrap();
    assert_eq!(fixture.test_vectors[0].leaf_index, 2);
    assert_eq!(fixture.test_vectors[1].leaf_index, 31);
}

#[test]
fn a_leaf_beyond_the_last_index_ends_the_run() {
    let mut orchestrator = run(32, 4, 5, vec![1, 2]);
    assert_eq!(
        orchestrator.step(tree(u32::MAX - 1, 32)),
        Action::Sign { leaf_index: u32::MAX }
    );
    assert_eq!(
        orchestrator.step(signature(32, 67, 5, 1)),
        Action::Abort { failure: Failure::LeafOutOfRange }
    );
    assert_eq!(orchestrator.phase(), Phase::Aborted);
    assert!(orchestrator.into_fixture().is_none());
}

#[test]
fn a_rejected_signature_ends_the_run() {
    let mut orchestrator = run(24, 8, 5, vec![4, 5]);
    orchestrator.step(tree(0, 24));
    assert_eq!(orchestrator.step(signature(24, 26, 5, 1)), Action::Verify);
    assert_eq!(
        orchestrator.step(Event::Verified { valid: false }),
        Action::Abort { failure: Failure::SignatureRejected }
    );
    assert_eq!(orchestrator.phase(), Phase::Aborted);
    assert_eq!(orchestrator.accepted(), 0);
    assert!(orchestrator.into_fixture().is_none());
}

#[test]
fn a_failing_service_ends_the_run_at_every_request() {
    let mut at_tree = run(24, 8, 5, vec![4]);
    assert_eq!(
        at_tree.step(Event::ServiceFailed),
        Action::Abort { failure: Failure::TreeConstruction }
    );
    assert!(at_tree.into_fixture().is_none());

    let mut at_signing = run(24, 8, 5, vec![4]);
    at_signing.step(tree(0, 24));
    assert_eq!(
        at_signing.step(Event::ServiceFailed),
        Action::Abort { failure: Failure::Signing }
    );

    let mut at_verifying = run(24, 8, 5, vec![4]);
    at_verifying.step(tree(0, 24));
    at_verifying.step(signature(24, 26, 5, 1));
    assert_eq!(
        at_verifying.step(Event::ServiceFailed),
        Action::Abort { failure: Failure::Verification }
    );

    let mut at_parameters = run(32, 8, 5, vec![4]);
    at_parameters.step(tree(0, 32));
    at_parameters.step(signature(32, 34, 5, 1));
    assert_eq!(
        at_parameters.step(Event::ServiceFailed),
        Action::Abort { failure: Failure::ParameterLookup }
    );
    assert!(at_parameters.into_fixture().is_none());
}

#[test]
fn bytes_of_another_length_end_the_run() {
    let mut short_key = run(32, 8, 5, vec![4]);
    short_key.step(Event::TreeBuilt { base_offset: 0, public_key: vec![0; 55] });
    short_key.step(signature(32, 34, 5, 1));
    assert_eq!(
        short_key.step(Event::Parameters { chain_count: 34 }),
        Action::Abort { failure: Failure::LayoutMismatch }
    );
    assert!(short_key.into_fixture().is_none());

    let mut long_signature = run(32, 8, 5, vec![4, 6]);
    long_signature.step(tree(0, 32));
    long_signature.step(signature(32, 34, 5, 1));
    long_signature.step(Event::Signed { signature: vec![0; 1293] });
    assert_eq!(
        long_signature.step(Event::Parameters { chain_count: 34 }),
        Action::Abort { failure: Failure::LayoutMismatch }
    );

    let mut other_chains = run(32, 8, 5, vec![4]);
    other_chains.step(tree(0, 32));
    other_chains.step(signature(32, 34, 5, 1));
    assert_eq!(
        other_chains.step(Event::Parameters { chain_count: 67 }),
        Action::Abort { failure: Failure::LayoutMismatch }
    );
}

#[test]
fn an_answer_to_no_request_ends_the_run() {
    let mut orchestrator = run(32, 8, 5, vec![4]);
    assert_eq!(
        orchestrator.step(Event::Verified { valid: true }),
        Action::Abort { failure: Failure::UnexpectedEvent }
    );
    assert_eq!(orchestrator.phase(), Phase::Aborted);

    let mut unverified = run(32, 8, 5, vec![4]);
    unverified.step(tree(0, 32));
    assert_eq!(
        unverified.step(Event::Parameters { chain_count: 34 }),
        Action::Abort { failure: Failure::UnexpectedEvent }
    );

    let mut verifying = run(24, 8, 5, vec![4]);
    verifying.step(tree(0, 24));
    verifying.step(signature(24, 26, 5, 1));
    assert_eq!(
        verifying.step(signature(24, 26, 5, 2)),
        Action::Abort { failure: Failure::UnexpectedEvent }
    );
}

#[test]
fn a_finished_run_stays_finished() {
    let mut whole = run(32, 8, 5, vec![4]);
    whole.step(tree(0, 32));
    whole.step(signature(32, 34, 5, 1));
    whole.step(Event::Parameters { chain_count: 34 });
    assert_eq!(whole.step(Event::ServiceFailed), Action::Emit);
    assert_eq!(whole.step(signature(32, 34, 5, 2)), Action::Emit);
    assert_eq!(whole.phase(), Phase::Complete);
    assert_eq!(whole.accepted(), 1);
    assert_eq!(whole.into_fixture().unwrap().test_vectors[0].signature_bytes, vec![1; 1292]);

    let mut failed = run(32, 8, 5, vec![4]);
    failed.step(Event::ServiceFailed);
    assert_eq!(
        failed.step(tree(0, 32)),
        Action::Abort { failure: Failure::UnexpectedEvent }
    );
    assert_eq!(failed.phase(), Phase::Aborted);
}

#[test]
fn a_run_without_leaves_asks_for_the_parameters_at_once() {
    let config = validate(32, 8, 5, 1).unwrap();
    let mut orchestrator = Orchestrator::new(config, message_bytes(), vec![]);
    assert_eq!(
        orchestrator.step(tree(0, 32)),
        Action::QueryParameters { lmots_type: LmotsTypeId::LmotsSha256N32W8 }
    );
    assert_eq!(orchestrator.step(Event::Parameters { chain_count: 34 }), Action::Emit);
    assert!(orchestrator.into_fixture().unwrap().test_vectors.is_empty());
}

#[test]
fn no_fixture_before_the_run_is_whole() {
    assert!(run(32, 8, 5, vec![4]).into_fixture().is_none());
    let mut signing = run(32, 8, 5, vec![4]);
    signing.step(tree(0, 32));
    assert!(signing.into_fixture().is_none());
    let mut asking = run(32, 8, 5, vec![4]);
    asking.step(tree(0, 32));
    asking.step(signature(32, 34, 5, 1));
    assert_eq!(asking.phase(), Phase::QueryingParameters);
    assert!(asking.into_fixture().is_none());
}
