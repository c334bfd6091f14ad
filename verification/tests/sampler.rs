use lms_fixture::params::ConfigError;
use lms_fixture::sampler::{leaf_count, sample_leaves};

fn assert_distinct_below(leaves: &[u32], bound: u32) {
    let mut sorted = leaves.to_vec();
    sorted.sort();
    sorted.dedup();
    assert_eq!(sorted.len(), leaves.len());
    assert!(leaves.iter().all(|leaf| *leaf < bound));
}

#[test]
fn leaf_count_is_two_to_the_height() {
    assert_eq!(leaf_count(0), 1);
    assert_eq!(leaf_count(5), 32);
    assert_eq!(leaf_count(10), 1024);
    assert_eq!(leaf_count(15), 32768);
    assert_eq!(leaf_count(20), 1048576);
    assert_eq!(leaf_count(31), 2147483648);
}

#[test]
fn samples_as_many_leaves_as_asked() {
    for height in [5u8, 10, 15, 20] {
        for count in [1u32, 2, 7, 16] {
            let leaves = sample_leaves(count, height).unwrap();
            assert_eq!(leaves.len(), count as usize);
            assert_distinct_below(&leaves, 1 << height);
        }
    }
}

#[test]
fn five_leaves_of_a_tree_of_height_ten() {
    let leaves = sample_leaves(5, 10).unwrap();
    assert_eq!(leaves.len(), 5);
    assert_distinct_below(&leaves, 1024);
}

#[test]
fn one_leaf_of_a_tree_of_height_five() {
    let leaves = sample_leaves(1, 5).unwrap();
    assert_eq!(leaves.len(), 1);
    assert!(leaves[0] < 32);
}

#[test]
fn a_full_sample_holds_every_leaf_once() {
    for height in [0u8, 1, 5, 10] {
        let total = 1u32 << height;
        let mut leaves = sample_leaves(total, height).unwrap();
        assert_eq!(leaves.len(), total as usize);
        leaves.sort();
        let every: Vec<u32> = (0..total).collect();
        assert_eq!(leaves, every);
    }
}

#[test]
fn one_more_than_the_leaves_is_turned_down() {
    assert_eq!(
        sample_leaves(33, 5),
        Err(ConfigError::TooManyTests { tests: 33, tree_height: 5 })
    );
    assert_eq!(
        sample_leaves(1025, 10),
        Err(ConfigError::TooManyTests { tests: 1025, tree_height: 10 })
    );
    assert_eq!(
        sample_leaves(2, 0),
        Err(ConfigError::TooManyTests { tests: 2, tree_height: 0 })
    );
}

#[test]
fn no_leaves_is_turned_down() {
    assert_eq!(
        sample_leaves(0, 5),
        Err(ConfigError::TooManyTests { tests: 0, tree_height: 5 })
    );
}

#[test]
fn samples_differ_between_draws() {
    let mut seen = Vec::new();
    for _ in 0..20 {
        let leaves = sample_leaves(8, 20).unwrap();
        if !seen.contains(&leaves) {
            seen.push(leaves);
        }
    }
    assert!(seen.len() > 1);
}
