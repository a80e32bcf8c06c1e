use ripsaw::config::{Config, DEFAULT_PARTITION_THRESHOLD};

#[test]
fn salt_prefix_distinguishes_nothing_from_salt() {
    let none = Config { salt: None, verbose: false, partition_threshold: 10 };
    let some = Config { salt: Some(b"s".to_vec()), verbose: true, partition_threshold: 10 };
    assert!(none.salt_prefix().is_empty());
    assert_eq!(some.salt_prefix(), b"s".to_vec());
}

#[test]
fn partition_threshold_is_inclusive() {
    let c = Config { salt: None, verbose: false, partition_threshold: DEFAULT_PARTITION_THRESHOLD };
    assert!(!c.partitions(1_999_999));
    assert!(c.partitions(2_000_000));
}
