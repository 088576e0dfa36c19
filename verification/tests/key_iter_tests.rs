use std::collections::HashSet;

use neptune_core::key_iter::{DerivationIndex, SpendingKey, SpendingKeyIter, SpendingKeyParallelIter, SpendingKeyRangeProducer};
use neptune_core::known_keys::KnownSpendingKeys;
use neptune_core::spending_key_range::SpendingKeyRange;

fn make_parent_key() -> SpendingKey {
    SpendingKey::from_seed(rand::random())
}

fn make_iter() -> SpendingKeyIter {
    make_parent_key().into_iter()
}

fn check_iterator(parent_key: &SpendingKey, mut iter: SpendingKeyIter) {
    for n in 0..5 {
        assert_eq!(Some(parent_key.derive_child(n)), iter.next());
    }
}

fn check_iterator_nth(parent_key: &SpendingKey, mut iter: SpendingKeyIter) {
    assert_eq!(Some(parent_key.derive_child(5)), iter.nth(5));

    // verify that nth() does not rewind iterator.
    assert_eq!(Some(parent_key.derive_child(6)), iter.nth(0));
}

fn check_iterator_to_last_elem(parent_key: &SpendingKey, mut iter: SpendingKeyIter, start: DerivationIndex, len: DerivationIndex) {
    assert_eq!(Some(parent_key.derive_child(start + len - 1)), iter.nth((len - 1) as usize));

    assert_eq!(None, iter.next());
}

fn check_double_ended_iterator(parent_key: &SpendingKey, mut iter: SpendingKeyIter, len: DerivationIndex) {
    for n in 0..5 {
        assert_eq!(Some(parent_key.derive_child(n)), iter.next());
    }
    for n in (len - 5..len).rev() {
        assert_eq!(Some(parent_key.derive_child(n)), iter.next_back());
    }
}

fn check_double_ended_iterator_meet_middle(parent_key: &SpendingKey, mut iter: SpendingKeyIter, len: DerivationIndex) {
    for n in 0..5 {
        assert_eq!(Some(parent_key.derive_child(n)), iter.next());
    }
    assert_eq!(Some(parent_key.derive_child(10)), iter.nth_back((len - 1 - 10) as usize));

    for n in (5..10).rev() {
        assert_eq!(Some(parent_key.derive_child(n)), iter.next_back());
    }

    assert_eq!(None, iter.next_back());
    assert_eq!(None, iter.next());
}

fn check_double_ended_iterator_to_first_elem(parent_key: &SpendingKey, mut iter: SpendingKeyIter, first: DerivationIndex, len: DerivationIndex) {
    assert_eq!(Some(parent_key.derive_child(first + 1)), iter.nth_back((len - 2) as usize));

    assert_eq!(Some(parent_key.derive_child(first)), iter.next_back());
    assert_eq!(None, iter.next_back());
}

// collects every key of an iterator.
fn collect_keys(mut iter: SpendingKeyIter) -> Vec<SpendingKey> {
    let mut keys = vec![];
    while let Some(k) = iter.next() {
        keys.push(k);
    }
    keys
}

// collects every key of a parallel iterator by splitting its range in halves
// down to pieces of a few keys, as a parallel consumer would.
fn collect_par_keys(producer: SpendingKeyRangeProducer, len: usize, out: &mut Vec<SpendingKey>) {
    if len <= 3 {
        out.extend(collect_keys(producer.into_iter()));
    } else {
        let mid = len / 2;
        let (left, right) = producer.split_at(mid);
        collect_par_keys(left, mid, out);
        collect_par_keys(right, len - mid, out);
    }
}

fn par_keys(par_iter: SpendingKeyParallelIter) -> Vec<SpendingKey> {
    let len = par_iter.len();
    let mut out = vec![];
    collect_par_keys(SpendingKeyRangeProducer::from(par_iter), len, &mut out);
    out
}

// tests that ::derive_nth() matches ::next()
#[test]
fn derive_nth_matches_iter() {
    let mut iter = make_iter();

    for n in 0..5 {
        assert_eq!(Some(iter.derive_nth(n)), iter.next());
    }
}

// tests basic iteration, comparing with SpendingKey::derive_child()
#[test]
fn iterator() {
    let parent_key = make_parent_key();
    check_iterator(&parent_key, parent_key.clone().into_iter());
}

// tests basic iteration over a range, comparing with SpendingKey::derive_child()
#[test]
fn range_iterator() {
    let parent_key = make_parent_key();
    check_iterator(&parent_key, parent_key.clone().into_range_iter(0, 50));
}

// tests nth(), comparing with SpendingKey::derive_child()
#[test]
fn iterator_nth() {
    let parent_key = make_parent_key();
    check_iterator_nth(&parent_key, parent_key.clone().into_iter());
}

// tests nth() for a range, comparing with SpendingKey::derive_child()
#[test]
fn range_iterator_nth() {
    let parent_key = make_parent_key();
    check_iterator_nth(&parent_key, parent_key.clone().into_range_iter(0, 50));
}

// tests that a range iterator reaches last elem and after returns None
#[test]
fn range_iterator_to_last_elem() {
    let parent_key = make_parent_key();

    let first = 0;
    let len = 50;
    check_iterator_to_last_elem(&parent_key, parent_key.clone().into_range_iter(first, first + len), first, len);
}

// tests that iterator can reach DerivationIndex::MAX and after returns None
#[test]
fn iterator_to_max_elem() {
    let parent_key = make_parent_key();

    let last = DerivationIndex::MAX;
    let len = 10;
    let first = last - len;
    check_iterator_to_last_elem(&parent_key, parent_key.clone().into_range_iter(first, last), first, len);
}

// tests that iterator operates in reverse
#[test]
fn double_ended_iterator() {
    let parent_key = make_parent_key();
    check_double_ended_iterator(&parent_key, parent_key.clone().into_iter(), usize::MAX as DerivationIndex);
}

// tests that range iterator operates in reverse
#[test]
fn double_ended_range_iterator() {
    let parent_key = make_parent_key();
    let len = 50;
    check_double_ended_iterator(&parent_key, parent_key.clone().into_range_iter(0, len), len);
}

// tests that forward and reverse iteration meet in the middle and do not
// pass each other.
#[test]
fn double_ended_iterator_meet_middle() {
    let parent_key = make_parent_key();

    let len = 50;
    check_double_ended_iterator_meet_middle(&parent_key, parent_key.clone().into_range_iter(0, len), len);
}

/// tests that reverse iteration does not go past first elem in range
#[test]
fn double_ended_iterator_to_first_elem() {
    let parent_key = make_parent_key();

    let first = 10;
    let len = 20;
    check_double_ended_iterator_to_first_elem(&parent_key, parent_key.clone().into_range_iter(first, first + len), first, len);
}

// tests that reverse iteration can reach 0 elem, and stops after
#[test]
fn double_ended_iterator_to_zero_elem() {
    let parent_key = make_parent_key();

    let first = 0;
    let len = 20;
    check_double_ended_iterator_to_first_elem(&parent_key, parent_key.clone().into_range_iter(first, len), first, len);
}

// tests iteration over entire range, comparing with SpendingKey::derive_child()
#[test]
fn range_iterator_entire_range() {
    let start: DerivationIndex = 10;
    let end: DerivationIndex = 500;
    let parent_key = make_parent_key();
    let set1: HashSet<SpendingKey> = collect_keys(parent_key.clone().into_range_iter(start, end)).into_iter().collect();
    let set2: HashSet<SpendingKey> = par_keys(parent_key.clone().into_par_range_iter(start, end)).into_iter().collect();

    assert_eq!(set1, set2);

    let par_iter = parent_key.clone().into_par_range_iter(start, end);

    assert!(par_iter.len() == set1.len());
    assert!(par_keys(par_iter).iter().all(|k| set1.contains(k)));
}

#[test]
fn derive_child_appends_index_to_path() {
    let root = SpendingKey::from_seed(7);
    let child = root.derive_child(3).derive_child(9);
    assert_eq!(child.seed(), 7);
    assert_eq!(child.path(), &vec![3, 9]);
}

#[test]
fn range_yields_each_index_once_from_both_ends() {
    let parent_key = SpendingKey::from_seed(1);
    let mut iter = parent_key.clone().into_range_iter(3, 7);
    let mut seen = vec![];
    seen.push(iter.next().unwrap());
    seen.push(iter.next_back().unwrap());
    seen.push(iter.next().unwrap());
    seen.push(iter.next_back().unwrap());
    assert_eq!(iter.next(), None);
    assert_eq!(iter.next_back(), None);
    let expected: Vec<SpendingKey> = vec![3, 6, 4, 5].into_iter().map(|i| parent_key.derive_child(i)).collect();
    assert_eq!(seen, expected);
}

#[test]
fn split_at_partitions_range() {
    let parent_key = SpendingKey::from_seed(2);
    let producer = SpendingKeyRangeProducer::from(parent_key.clone().into_par_range_iter(10, 20));
    let (left, right) = producer.split_at(4);
    let left_keys = collect_keys(left.into_iter());
    let right_keys = collect_keys(right.into_iter());
    let expected_left: Vec<SpendingKey> = (10..14).map(|i| parent_key.derive_child(i)).collect();
    let expected_right: Vec<SpendingKey> = (14..20).map(|i| parent_key.derive_child(i)).collect();
    assert_eq!(left_keys, expected_left);
    assert_eq!(right_keys, expected_right);
}

#[test]
fn size_hint_is_range_length() {
    let iter = SpendingKey::from_seed(3).into_range_iter(5, 12);
    assert_eq!(iter.size_hint(), (7, Some(7)));
    assert_eq!(iter.len(), 7);
}

#[test]
fn size_hint_counts_keys_still_to_come() {
    let mut iter = SpendingKey::from_seed(3).into_range_iter(5, 12);
    assert!(iter.next().is_some());
    assert_eq!(iter.size_hint(), (6, Some(6)));
    assert!(iter.next_back().is_some());
    assert_eq!(iter.len(), 5);
    assert_eq!(iter.range_len(), 7);
    let mut taken = 0;
    while iter.next().is_some() {
        taken += 1;
    }
    assert_eq!(taken, 5);
    assert_eq!(iter.size_hint(), (0, Some(0)));
}

#[test]
fn known_keys_cover_zero_to_last_known() {
    let parent_key = SpendingKey::from_seed(4);
    let known = KnownSpendingKeys::new(parent_key.clone(), 3);
    let keys = collect_keys(known.iter());
    let expected: Vec<SpendingKey> = (0..=3).map(|i| parent_key.derive_child(i)).collect();
    assert_eq!(keys, expected);
    assert_eq!(known.par_iter().len(), 4);
}

#[test]
fn key_range_covers_first_to_last() {
    let parent_key = SpendingKey::from_seed(5);
    let range = SpendingKeyRange::new(parent_key.clone(), 2, 5);
    let keys = collect_keys(range.iter());
    let expected: Vec<SpendingKey> = (2..=5).map(|i| parent_key.derive_child(i)).collect();
    assert_eq!(keys, expected);
    assert_eq!(range.par_iter().len(), 4);
}

#[test]
fn known_keys_into_iter_covers_zero_to_last_known() {
    let parent_key = SpendingKey::from_seed(6);
    let keys = collect_keys(KnownSpendingKeys::new(parent_key.clone(), 2).into_iter());
    let expected: Vec<SpendingKey> = (0..=2).map(|i| parent_key.derive_child(i)).collect();
    assert_eq!(keys, expected);
    assert_eq!(KnownSpendingKeys::new(parent_key.clone(), 2).into_par_iter().len(), 3);
}

#[test]
fn key_range_into_iter_starts_at_zero() {
    let parent_key = SpendingKey::from_seed(7);
    let keys = collect_keys(SpendingKeyRange::new(parent_key.clone(), 2, 4).into_iter());
    let expected: Vec<SpendingKey> = (0..=4).map(|i| parent_key.derive_child(i)).collect();
    assert_eq!(keys, expected);
    assert_eq!(SpendingKeyRange::new(parent_key.clone(), 2, 4).into_par_iter().len(), 5);
}
