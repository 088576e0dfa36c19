//! A range of child keys of a parent key, first and last index included.
use vstd::prelude::*;

use crate::key_iter::{
    fresh_range, DerivationIndex, SpendingKey, SpendingKeyIter, SpendingKeyParallelIter,
};

verus! {

/// The keys derived from `parent_key` at indices `first..=last`.
#[derive(Debug)]
pub struct SpendingKeyRange {
    pub parent_key: SpendingKey,
    pub first: DerivationIndex,
    pub last: DerivationIndex,
}

impl Clone for SpendingKeyRange {
    fn clone(&self) -> (r: Self)
        ensures
            r.parent_key@ == self.parent_key@,
            r.first == self.first,
            r.last == self.last,
    {
        SpendingKeyRange { parent_key: self.parent_key.clone(), first: self.first, last: self.last }
    }
}

impl SpendingKeyRange {
    /// instantiate a new `SpendingKeyRange`
    pub fn new(parent_key: SpendingKey, first: DerivationIndex, last: DerivationIndex) -> (r: Self)
        ensures
            r.parent_key@ == parent_key@,
            r.first == first,
            r.last == last,
    {
        Self { parent_key, first, last }
    }

    /// create a [SpendingKeyIter] over the range
    pub fn iter(&self) -> (r: SpendingKeyIter)
        requires
            self.first <= self.last < u64::MAX,
            self.last - self.first < usize::MAX,
        ensures
            r@ == fresh_range(self.parent_key@, self.first, (self.last + 1) as u64),
    {
        self.parent_key.clone().into_range_iter(self.first, self.last + 1)
    }

    /// create a [SpendingKeyParallelIter] over the range
    pub fn par_iter(&self) -> (r: SpendingKeyParallelIter)
        requires
            self.first <= self.last < u64::MAX,
            self.last - self.first < usize::MAX,
        ensures
            r@ == fresh_range(self.parent_key@, self.first, (self.last + 1) as u64),
    {
        self.parent_key.clone().into_par_range_iter(self.first, self.last + 1)
    }

    /// Turns the range into a [SpendingKeyIter]. Unlike [`Self::iter`], the
    /// consuming iterator starts at index 0, whatever `first` is: it walks
    /// the keys at `0..=last`.
    pub fn into_iter(self) -> (r: SpendingKeyIter)
        requires
            self.last < u64::MAX,
            self.last < usize::MAX,
        ensures
            r@ == fresh_range(self.parent_key@, 0, (self.last + 1) as u64),
    {
        self.parent_key.into_range_iter(0, self.last + 1)
    }

    /// Turns the range into a [SpendingKeyParallelIter]; like
    /// [`Self::into_iter`], it covers the keys at `0..=last`.
    pub fn into_par_iter(self) -> (r: SpendingKeyParallelIter)
        requires
            self.last < u64::MAX,
            self.last < usize::MAX,
        ensures
            r@ == fresh_range(self.parent_key@, 0, (self.last + 1) as u64),
    {
        self.parent_key.into_par_range_iter(0, self.last + 1)
    }
}

} // verus!
