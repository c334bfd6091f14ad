use lms_fixture::fixture::{all_signatures_have_len, StructuralParams, TestVector};

fn vector(len: usize) -> TestVector {
    TestVector { leaf_index: 0, expect_success: true, signature_bytes: vec![0; len] }
}

#[test]
fn structural_parameters_count_words() {
    assert_eq!(
        StructuralParams::new(32, 34, 5),
        StructuralParams { words: 8, chains: 34, height: 5 }
    );
    assert_eq!(
        StructuralParams::new(24, 200, 20),
        StructuralParams { words: 6, chains: 200, height: 20 }
    );
}

#[test]
fn public_key_length_depends_on_the_hash_alone() {
    assert_eq!(StructuralParams::new(32, 34, 5).public_key_len(), 56);
    assert_eq!(StructuralParams::new(32, 265, 20).public_key_len(), 56);
    assert_eq!(StructuralParams::new(24, 26, 5).public_key_len(), 48);
    assert_eq!(StructuralParams::new(24, 200, 15).public_key_len(), 48);
}

#[test]
fn signature_length_counts_every_hash() {
    assert_eq!(StructuralParams::new(32, 34, 5).signature_len(), 12 + 32 * 40);
    assert_eq!(StructuralParams::new(32, 34, 5).signature_len(), 1292);
    assert_eq!(StructuralParams::new(32, 265, 20).signature_len(), 9164);
    assert_eq!(StructuralParams::new(24, 200, 10).signature_len(), 5076);
    assert_eq!(StructuralParams::new(24, 26, 5).signature_len(), 780);
}

#[test]
fn lengths_at_the_limits_of_the_parameters() {
    let params = StructuralParams { words: 255, chains: 65535, height: 255 };
    assert_eq!(params.public_key_len(), 1044);
    assert_eq!(params.signature_len(), 12 + 1020 * 65791);
    let none = StructuralParams { words: 0, chains: 0, height: 0 };
    assert_eq!(none.public_key_len(), 24);
    assert_eq!(none.signature_len(), 12);
}

#[test]
fn signature_lengths_are_compared_one_by_one() {
    assert!(all_signatures_have_len(&vec![], 7));
    assert!(all_signatures_have_len(&vec![vector(7), vector(7), vector(7)], 7));
    assert!(!all_signatures_have_len(&vec![vector(7), vector(8), vector(7)], 7));
    assert!(!all_signatures_have_len(&vec![vector(7), vector(7), vector(6)], 7));
    assert!(!all_signatures_have_len(&vec![vector(0)], 1));
}
