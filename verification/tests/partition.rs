use std::collections::HashMap;

use num_bigint::BigInt;
use partitions::calculate_p;
use partitions::try_calculate_p;
use partitions::PartitionSequence;

#[test]
fn pentagonal_prefix() {
    let mut ps = PartitionSequence::new();
    let expect = [1i64, 2, 5, 7, 12, 15, 22, 26, 35, 40, 51, 57, 70];

    for e in expect.iter() {
        assert_eq!(ps.next(), *e);
    }
}

#[test]
fn known_partition_values() {
    let mut cache = HashMap::new();
    let known: [(i64, u64); 10] = [
        (0, 1),
        (1, 1),
        (2, 2),
        (3, 3),
        (4, 5),
        (5, 7),
        (6, 11),
        (7, 15),
        (10, 42),
        (50, 204226),
    ];

    for (n, p) in known.iter() {
        assert_eq!(calculate_p(&mut cache, *n), BigInt::from(*p));
    }
}

#[test]
fn memoized_call_is_identical() {
    let mut cache = HashMap::new();
    let first = calculate_p(&mut cache, 30);
    let second = calculate_p(&mut cache, 30);
    assert_eq!(first, second);
}

#[test]
fn monotone_up_to_fifty() {
    let mut cache = HashMap::new();
    let mut previous = calculate_p(&mut cache, 0);

    for n in 1i64..=50 {
        let current = calculate_p(&mut cache, n);
        assert!(current >= previous);
        previous = current;
    }
}

#[test]
fn negative_n_is_rejected() {
    let mut cache = HashMap::new();
    assert_eq!(try_calculate_p(&mut cache, -1), None);
    assert!(cache.is_empty());
}

#[test]
fn try_calculate_accepts_the_domain() {
    let mut cache = HashMap::new();
    assert_eq!(try_calculate_p(&mut cache, 7), Some(BigInt::from(15u64)));
    assert_eq!(try_calculate_p(&mut cache, 0), Some(BigInt::from(1u64)));
}
