//! The child keys of a parent key that a wallet already knows: those at
//! indices 0 up to and including the last known index.
use vstd::prelude::*;

use crate::key_iter::{
    fresh_range, DerivationIndex, SpendingKey, SpendingKeyIter, SpendingKeyParallelIter,
};

verus! {

/// The keys derived from `parent_key` at indices `0..=last_known`.
#[derive(Debug)]
pub struct KnownSpendingKeys {
    pub parent_key: SpendingKey,
    pub last_known: DerivationIndex,
}

impl Clone for KnownSpendingKeys {
    fn clone(&self) -> (r: Self)
        ensures
            r.parent_key@ == self.parent_key@,
            r.last_known == self.last_known,
    {
        KnownSpendingKeys { parent_key: self.parent_key.clone(), last_known: self.last_known }
    }
}

impl KnownSpendingKeys {
    /// instantiate a new `KnownSpendingKeys`
    pub fn new(parent_key: SpendingKey, last_known: DerivationIndex) -> (r: Self)
        ensures
            r.parent_key@ == parent_key@,
            r.last_known == last_known,
    {
        Self { parent_key, last_known }
    }

    /// create a [SpendingKeyIter] over the known keys
    pub fn iter(&self) -> (r: SpendingKeyIter)
        requires
            self.last_known < u64::MAX,
            self.last_known < usize::MAX,
        ensures
            r@ == fresh_range(self.parent_key@, 0, (self.last_known + 1) as u64),
    {
        self.parent_key.clone().into_range_iter(0, self.last_known + 1)
    }

    /// create a [SpendingKeyParallelIter] over the known keys
    pub fn par_iter(&self) -> (r: SpendingKeyParallelIter)
        requires
            self.last_known < u64::MAX,
            self.last_known < usize::MAX,
        ensures
            r@ == fresh_range(self.parent_key@, 0, (self.last_known + 1) as u64),
    {
        self.parent_key.clone().into_par_range_iter(0, self.last_known + 1)
    }

    /// Turns the known keys into a [SpendingKeyIter] over them.
    pub fn into_iter(self) -> (r: SpendingKeyIter)
        requires
            self.last_known < u64::MAX,
            self.last_known < usize::MAX,
        ensures
            r@ == fresh_range(self.parent_key@, 0, (self.last_known + 1) as u64),
    {
        self.parent_key.into_range_iter(0, self.last_known + 1)
    }

    /// Turns the known keys into a [SpendingKeyParallelIter] over them.
    pub fn into_par_iter(self) -> (r: SpendingKeyParallelIter)
        requires
            self.last_known < u64::MAX,
            self.last_known < usize::MAX,
        ensures
            r@ == fresh_range(self.parent_key@, 0, (self.last_known + 1) as u64),
    {
        self.parent_key.into_par_range_iter(0, self.last_known + 1)
    }
}

} // verus!
