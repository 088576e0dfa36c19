use neptune_core::digest::{RescuePrimeDigest, RESCUE_PRIME_OUTPUT_SIZE_IN_BFES};

#[test]
fn digest_ordering() {
    let val0 = RescuePrimeDigest::new([0; RESCUE_PRIME_OUTPUT_SIZE_IN_BFES]);
    let val1 = RescuePrimeDigest::new([14, 0, 0, 0, 0, 0]);
    assert!(val0 < val1);

    let val2 = RescuePrimeDigest::new([14; RESCUE_PRIME_OUTPUT_SIZE_IN_BFES]);
    assert!(val2 > val1);
    assert!(val2 > val0);

    let val3 = RescuePrimeDigest::new([14, 14, 14, 14, 14, 15]);
    assert!(val3 > val2);
    assert!(val3 > val1);
    assert!(val3 > val0);

    let val4 = RescuePrimeDigest::new([14, 14, 14, 14, 15, 14]);
    assert!(val4 > val3);
    assert!(val4 > val2);
    assert!(val4 > val1);
    assert!(val4 > val0);
}

#[test]
fn equal_digests_are_not_ordered() {
    let a = RescuePrimeDigest::new([3; RESCUE_PRIME_OUTPUT_SIZE_IN_BFES]);
    let b = RescuePrimeDigest::default();
    assert_eq!(a.partial_cmp(&a), None);
    assert_eq!(b.partial_cmp(&RescuePrimeDigest::default()), None);
    assert!(!(a <= a));
    assert!(!(a < a));
    assert_eq!(b.values(), [0; 6]);
    assert_eq!(b.compare(&a), Some(std::cmp::Ordering::Less));
    assert_eq!(a.compare(&b), Some(std::cmp::Ordering::Greater));
}
