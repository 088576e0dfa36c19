//! Iteration over the child keys of a spending key.
//!
//! [`SpendingKeyIter`] walks the children of a parent key whose derivation
//! indices lie in a range, from the front with `next` and from the back with
//! `next_back`; the two ends meet in the middle and never pass each other.
//! [`SpendingKeyParallelIter`] holds such a range and splits it in two for
//! parallel work.
use vstd::prelude::*;

verus! {

/// The index of a child key below its parent.
pub type DerivationIndex = u64;

/// The mathematical value of a spending key: the seed of its root key and the
/// indices along which it was derived from the root.
pub struct KeyView {
    pub seed: u64,
    pub path: Seq<u64>,
}

/// The child of `parent` at `index`.
pub open spec fn child_view(parent: KeyView, index: u64) -> KeyView {
    KeyView { seed: parent.seed, path: parent.path.push(index) }
}

/// The value of an optional key.
pub open spec fn key_opt_view(o: Option<SpendingKey>) -> Option<KeyView> {
    match o {
        Some(k) => Some(k@),
        None => None,
    }
}

/// A spending key, known by the seed of its root key and its derivation path.
#[derive(Debug, PartialEq, Eq, Hash)]
pub struct SpendingKey {
    seed: u64,
    path: Vec<u64>,
}

impl View for SpendingKey {
    type V = KeyView;

    closed spec fn view(&self) -> KeyView {
        KeyView { seed: self.seed, path: self.path@ }
    }
}

impl Clone for SpendingKey {
    fn clone(&self) -> (r: Self)
        ensures
            r@ == self@,
    {
        let mut path: Vec<u64> = Vec::new();
        let mut i: usize = 0;
        while i < self.path.len()
            invariant
                i <= self.path.len(),
                path@ == self.path@.take(i as int),
            decreases self.path.len() - i,
        {
            path.push(self.path[i]);
            proof {
                assert(self.path@.take(i + 1) =~= self.path@.take(i as int).push(self.path@[i as int]));
            }
            i = i + 1;
        }
        proof {
            assert(self.path@.take(self.path@.len() as int) =~= self.path@);
        }
        SpendingKey { seed: self.seed, path }
    }
}

impl SpendingKey {
    /// The root key of seed `seed`.
    pub fn from_seed(seed: u64) -> (r: Self)
        ensures
            r@ == (KeyView { seed, path: Seq::empty() }),
    {
        SpendingKey { seed, path: Vec::new() }
    }

    /// The seed of the root key.
    pub fn seed(&self) -> (r: u64)
        ensures
            r == self@.seed,
    {
        self.seed
    }

    /// The derivation path from the root key.
    pub fn path(&self) -> (r: &Vec<u64>)
        ensures
            r@ == self@.path,
    {
        &self.path
    }

    /// The child key at `index`.
    pub fn derive_child(&self, index: DerivationIndex) -> (r: SpendingKey)
        ensures
            r@ == child_view(self@, index),
    {
        let mut c = self.clone();
        c.path.push(index);
        c
    }

    /// An iterator over the child keys from index 0 up to, not including,
    /// `usize::MAX`.
    pub fn into_iter(self) -> (r: SpendingKeyIter)
        ensures
            r@ == fresh_range(self@, 0, usize::MAX as u64),
    {
        SpendingKeyIter::new(self)
    }

    /// An iterator over the child keys at `first` up to, not including, `last`.
    pub fn into_range_iter(self, first: DerivationIndex, last: DerivationIndex) -> (r: SpendingKeyIter)
        requires
            first <= last,
            last > 0,
            last - first <= usize::MAX,
        ensures
            r@ == fresh_range(self@, first, last),
    {
        SpendingKeyIter::new_range(self, first, last)
    }

    /// A parallel iterator over the child keys at `first` up to, not including,
    /// `last`.
    pub fn into_par_range_iter(self, first: DerivationIndex, last: DerivationIndex) -> (r: SpendingKeyParallelIter)
        requires
            first <= last,
            last > 0,
            last - first <= usize::MAX,
        ensures
            r@ == fresh_range(self@, first, last),
    {
        SpendingKeyParallelIter::from(SpendingKeyIter::new_range(self, first, last))
    }
}

/// The mathematical value of a [`SpendingKeyIter`]: the parent key, the range
/// it was made for, and the next index at the front and at the back, `None`
/// once that end is exhausted.
pub struct KeyIterView {
    pub parent: KeyView,
    pub first: u64,
    pub last: u64,
    pub curr: Option<u64>,
    pub curr_back: Option<u64>,
}

/// A new iterator over the children of `parent` at `first` up to, not
/// including, `last`.
pub open spec fn fresh_range(parent: KeyView, first: u64, last: u64) -> KeyIterView {
    KeyIterView { parent, first, last, curr: Some(first), curr_back: Some((last - 1) as u64) }
}

/// One step from the front: the child at the front index, after which the
/// front moves up by one, or is exhausted when it reached the back index.
pub open spec fn next_spec(it: KeyIterView) -> (KeyIterView, Option<KeyView>) {
    match (it.curr, it.curr_back) {
        (Some(c), Some(cb)) => (
            KeyIterView { curr: if c >= cb { None } else { Some((c + 1) as u64) }, ..it },
            Some(child_view(it.parent, c)),
        ),
        _ => (it, None),
    }
}

/// One step from the back: the child at the back index, after which the back
/// moves down by one, or is exhausted when it reached the front index.
pub open spec fn next_back_spec(it: KeyIterView) -> (KeyIterView, Option<KeyView>) {
    match (it.curr, it.curr_back) {
        (Some(c), Some(cb)) => (
            KeyIterView { curr_back: if cb <= c { None } else { Some((cb - 1) as u64) }, ..it },
            Some(child_view(it.parent, cb)),
        ),
        _ => (it, None),
    }
}

/// `n` steps from the front.
pub open spec fn skip_front(it: KeyIterView, n: nat) -> KeyIterView
    decreases n,
{
    if n == 0 {
        it
    } else {
        skip_front(next_spec(it).0, (n - 1) as nat)
    }
}

/// `n` steps from the back.
pub open spec fn skip_back(it: KeyIterView, n: nat) -> KeyIterView
    decreases n,
{
    if n == 0 {
        it
    } else {
        skip_back(next_back_spec(it).0, (n - 1) as nat)
    }
}

/// The indices still to be yielded: those from the front index to the back
/// index when both ends are live and have not crossed.
pub open spec fn remaining(it: KeyIterView) -> Set<int> {
    match (it.curr, it.curr_back) {
        (Some(c), Some(cb)) => vstd::set_lib::set_int_range(c as int, cb + 1),
        _ => Set::empty(),
    }
}

/// How many keys are still to come: from the front index to the back index
/// while the ends have not crossed; one when they have crossed while both
/// are live (either end then yields its index once); none once an end is
/// exhausted.
pub open spec fn remaining_count(it: KeyIterView) -> nat {
    match (it.curr, it.curr_back) {
        (Some(c), Some(cb)) => if c <= cb {
            (cb - c + 1) as nat
        } else {
            1
        },
        _ => 0,
    }
}

/// Both ends live and not crossed, or some end exhausted.
pub open spec fn ends_ordered(it: KeyIterView) -> bool {
    match (it.curr, it.curr_back) {
        (Some(c), Some(cb)) => c <= cb,
        _ => true,
    }
}

/// An iterator over a range of spending keys.
#[derive(Debug)]
pub struct SpendingKeyIter {
    parent_key: SpendingKey,
    first: DerivationIndex,
    last: DerivationIndex,
    curr: Option<DerivationIndex>,
    curr_back: Option<DerivationIndex>,
}

impl View for SpendingKeyIter {
    type V = KeyIterView;

    closed spec fn view(&self) -> KeyIterView {
        KeyIterView {
            parent: self.parent_key@,
            first: self.first,
            last: self.last,
            curr: self.curr,
            curr_back: self.curr_back,
        }
    }
}

impl Clone for SpendingKeyIter {
    fn clone(&self) -> (r: Self)
        ensures
            r@ == self@,
    {
        proof {
            use_type_invariant(self);
        }
        SpendingKeyIter {
            parent_key: self.parent_key.clone(),
            first: self.first,
            last: self.last,
            curr: self.curr,
            curr_back: self.curr_back,
        }
    }
}

impl SpendingKeyIter {
    /// The range's length fits in a `usize`.
    #[verifier::type_invariant]
    spec fn range_fits(self) -> bool {
        &&& self.first <= self.last
        &&& self.last - self.first <= usize::MAX
        &&& self.curr matches Some(c) ==> self.first <= c
        &&& self.curr_back matches Some(cb) ==> cb < self.last
    }

    /// An iterator over the child keys of `parent_key` from index 0 up to,
    /// not including, `usize::MAX`.
    pub fn new(parent_key: SpendingKey) -> (r: Self)
        ensures
            r@ == fresh_range(parent_key@, 0, usize::MAX as u64),
    {
        Self::new_range(parent_key, 0, usize::MAX as DerivationIndex)
    }

    /// An iterator over the child keys of `parent_key` at `first` up to, not
    /// including, `last`.
    pub fn new_range(parent_key: SpendingKey, first: DerivationIndex, last: DerivationIndex) -> (r: Self)
        requires
            last >= first,
            last > 0,
            last - first <= usize::MAX,
        ensures
            r@ == fresh_range(parent_key@, first, last),
    {
        Self { parent_key, first, last, curr: Some(first), curr_back: Some(last - 1) }
    }

    /// The child key at `index`, wherever the iterator stands.
    pub fn derive_nth(&self, index: DerivationIndex) -> (r: SpendingKey)
        ensures
            r@ == child_view(self@.parent, index),
    {
        self.parent_key.derive_child(index)
    }

    /// The next key from the front.
    pub fn next(&mut self) -> (r: Option<SpendingKey>)
        ensures
            (final(self)@, key_opt_view(r)) == next_spec(old(self)@),
    {
        proof {
            use_type_invariant(&*self);
        }
        match (self.curr, self.curr_back) {
            (Some(c), Some(cb)) => {
                let key = self.parent_key.derive_child(c);
                self.curr = if c >= cb { None } else { Some(c + 1) };
                Some(key)
            },
            _ => None,
        }
    }

    /// The next key from the back.
    pub fn next_back(&mut self) -> (r: Option<SpendingKey>)
        ensures
            (final(self)@, key_opt_view(r)) == next_back_spec(old(self)@),
    {
        proof {
            use_type_invariant(&*self);
        }
        match (self.curr, self.curr_back) {
            (Some(c), Some(cb)) => {
                let key = self.parent_key.derive_child(cb);
                self.curr_back = if cb <= c { None } else { Some(cb - 1) };
                Some(key)
            },
            _ => None,
        }
    }

    /// Skips `n` keys from the front and returns the one after them.
    pub fn nth(&mut self, n: usize) -> (r: Option<SpendingKey>)
        ensures
            (final(self)@, key_opt_view(r)) == next_spec(skip_front(old(self)@, n as nat)),
    {
        let mut i: usize = 0;
        while i < n
            invariant
                i <= n,
                self@ == skip_front(old(self)@, i as nat),
            decreases n - i,
        {
            let ghost before = self@;
            let _ = self.next();
            proof {
                lemma_skip_front_step(old(self)@, i as nat);
            }
            i = i + 1;
        }
        self.next()
    }

    /// Skips `n` keys from the back and returns the one before them.
    pub fn nth_back(&mut self, n: usize) -> (r: Option<SpendingKey>)
        ensures
            (final(self)@, key_opt_view(r)) == next_back_spec(skip_back(old(self)@, n as nat)),
    {
        let mut i: usize = 0;
        while i < n
            invariant
                i <= n,
                self@ == skip_back(old(self)@, i as nat),
            decreases n - i,
        {
            let _ = self.next_back();
            proof {
                lemma_skip_back_step(old(self)@, i as nat);
            }
            i = i + 1;
        }
        self.next_back()
    }

    /// The number of keys still to come (see [`remaining_count`]).
    pub fn len(&self) -> (r: usize)
        ensures
            r == remaining_count(self@),
    {
        proof {
            use_type_invariant(self);
        }
        match (self.curr, self.curr_back) {
            (Some(c), Some(cb)) => if c <= cb {
                (cb - c + 1) as usize
            } else {
                1
            },
            _ => 0,
        }
    }

    /// The bounds on the number of keys still to come: both are exact.
    pub fn size_hint(&self) -> (r: (usize, Option<usize>))
        ensures
            r == (remaining_count(self@) as usize, Some(remaining_count(self@) as usize)),
    {
        let len = self.len();
        (len, Some(len))
    }

    /// The length of the range the iterator was made for, however many keys
    /// were taken.
    pub fn range_len(&self) -> (r: usize)
        ensures
            r == self@.last - self@.first,
    {
        proof {
            use_type_invariant(self);
        }
        (self.last - self.first) as usize
    }
}

/// One more step from the front after `n` steps.
pub proof fn lemma_skip_front_step(it: KeyIterView, n: nat)
    ensures
        skip_front(it, n + 1) == next_spec(skip_front(it, n)).0,
    decreases n,
{
    let t = next_spec(it).0;
    if n > 0 {
        lemma_skip_front_step(t, (n - 1) as nat);
        assert(skip_front(it, n) == skip_front(t, (n - 1) as nat));
        assert(skip_front(it, n + 1) == skip_front(t, n));
    } else {
        assert(skip_front(t, 0) == t);
        assert(skip_front(it, 1) == skip_front(t, 0));
    }
}

/// One more step from the back after `n` steps.
pub proof fn lemma_skip_back_step(it: KeyIterView, n: nat)
    ensures
        skip_back(it, n + 1) == next_back_spec(skip_back(it, n)).0,
    decreases n,
{
    let t = next_back_spec(it).0;
    if n > 0 {
        lemma_skip_back_step(t, (n - 1) as nat);
        assert(skip_back(it, n) == skip_back(t, (n - 1) as nat));
        assert(skip_back(it, n + 1) == skip_back(t, n));
    } else {
        assert(skip_back(t, 0) == t);
        assert(skip_back(it, 1) == skip_back(t, 0));
    }
}

/// A range of spending keys to be walked in parallel.
#[derive(Debug)]
pub struct SpendingKeyParallelIter(pub SpendingKeyIter);

impl View for SpendingKeyParallelIter {
    type V = KeyIterView;

    open spec fn view(&self) -> KeyIterView {
        self.0@
    }
}

impl SpendingKeyParallelIter {
    /// The parallel form of `iter`.
    pub fn from(iter: SpendingKeyIter) -> (r: Self)
        ensures
            r@ == iter@,
    {
        Self(iter)
    }

    /// The number of keys still to come.
    pub fn len(&self) -> (r: usize)
        ensures
            r == remaining_count(self@),
    {
        self.0.len()
    }

    /// The number of keys still to come, as a parallel iterator reports it.
    pub fn opt_len(&self) -> (r: Option<usize>)
        ensures
            r == Some(remaining_count(self@) as usize),
    {
        Some(self.0.len())
    }
}

/// Produces the keys of a range, or splits it in two.
#[derive(Debug)]
pub struct SpendingKeyRangeProducer(pub SpendingKeyParallelIter);

impl View for SpendingKeyRangeProducer {
    type V = KeyIterView;

    open spec fn view(&self) -> KeyIterView {
        self.0@
    }
}

impl SpendingKeyRangeProducer {
    /// A producer for the range of `range_iter`.
    pub fn from(range_iter: SpendingKeyParallelIter) -> (r: Self)
        ensures
            r@ == range_iter@,
    {
        Self(range_iter)
    }

    /// The sequential iterator over the range.
    pub fn into_iter(self) -> (r: SpendingKeyIter)
        ensures
            r@ == self@,
    {
        self.0.0
    }

    /// Splits the range at `index` keys from its start: the first part holds
    /// the keys before `first + index`, the second part the rest.
    pub fn split_at(self, index: usize) -> (r: (Self, Self))
        requires
            0 < index <= self@.last - self@.first,
        ensures
            r.0@ == fresh_range(self@.parent, self@.first, (self@.first + index) as u64),
            r.1@ == fresh_range(self@.parent, (self@.first + index) as u64, self@.last),
    {
        let range_iter = self.0.0;
        proof {
            use_type_invariant(&range_iter);
        }
        let mid = range_iter.first + index as DerivationIndex;
        let parent_left = range_iter.parent_key.clone();
        let left = SpendingKeyIter::new_range(parent_left, range_iter.first, mid);
        let right = SpendingKeyIter::new_range(range_iter.parent_key, mid, range_iter.last);
        (Self(SpendingKeyParallelIter(left)), Self(SpendingKeyParallelIter(right)))
    }
}

/// Walking from the front yields the children in index order: after `k`
/// steps from a front index `c` that has not passed the back index `cb`, the
/// next key is the child at `c + k`; after `cb - c + 1` steps the front is
/// exhausted and no key comes out.
pub proof fn lemma_front_yields_in_order(it: KeyIterView, k: nat)
    requires
        it.curr is Some,
        it.curr_back is Some,
        it.curr->0 <= it.curr_back->0,
    ensures
        k <= it.curr_back->0 - it.curr->0 ==> next_spec(skip_front(it, k)).1 == Some(
            child_view(it.parent, (it.curr->0 + k) as u64),
        ),
        k > it.curr_back->0 - it.curr->0 ==> next_spec(skip_front(it, k)).1 is None,
    decreases k,
{
    lemma_front_state(it, k);
}

/// The iterator after `k` steps from the front.
proof fn lemma_front_state(it: KeyIterView, k: nat)
    requires
        it.curr is Some,
        it.curr_back is Some,
        it.curr->0 <= it.curr_back->0,
    ensures
        k <= it.curr_back->0 - it.curr->0 ==> skip_front(it, k) == (KeyIterView {
            curr: Some((it.curr->0 + k) as u64),
            ..it
        }),
        k > it.curr_back->0 - it.curr->0 ==> skip_front(it, k) == (KeyIterView { curr: None, ..it }),
    decreases k,
{
    if k > 0 {
        lemma_front_state(it, (k - 1) as nat);
        lemma_skip_front_step(it, (k - 1) as nat);
    }
}

/// In a new iterator over `first` up to `last`, the `k`-th key from the front
/// is the key that `derive_nth(first + k)` gives, for each `k` below the
/// range's length.
pub proof fn lemma_derive_nth_matches_next(parent: KeyView, first: u64, last: u64, k: nat)
    requires
        first < last,
        k < last - first,
    ensures
        next_spec(skip_front(fresh_range(parent, first, last), k)).1 == Some(
            child_view(parent, (first + k) as u64),
        ),
{
    lemma_front_yields_in_order(fresh_range(parent, first, last), k);
}

/// Taking keys from both ends yields each index of the range exactly once:
/// while the ends have not crossed, `next` and `next_back` each yield the
/// child at an index still to come and remove that index, and once nothing
/// is left both yield nothing and change nothing.
pub proof fn lemma_each_index_once(it: KeyIterView)
    requires
        ends_ordered(it),
    ensures
        ends_ordered(next_spec(it).0),
        ends_ordered(next_back_spec(it).0),
        remaining(it).is_empty() ==> next_spec(it) == (it, None::<KeyView>),
        remaining(it).is_empty() ==> next_back_spec(it) == (it, None::<KeyView>),
        !remaining(it).is_empty() ==> exists|i: u64| #![trigger remaining(it).contains(i as int)]
            remaining(it).contains(i as int)
            && next_spec(it).1 == Some(child_view(it.parent, i))
            && remaining(next_spec(it).0) == remaining(it).remove(i as int),
        !remaining(it).is_empty() ==> exists|i: u64| #![trigger remaining(it).contains(i as int)]
            remaining(it).contains(i as int)
            && next_back_spec(it).1 == Some(child_view(it.parent, i))
            && remaining(next_back_spec(it).0) == remaining(it).remove(i as int),
{
    match (it.curr, it.curr_back) {
        (Some(c), Some(cb)) => {
            assert(remaining(it).contains(c as int));
            assert(remaining(it).contains(cb as int));
            assert(remaining(next_spec(it).0) =~= remaining(it).remove(c as int));
            assert(remaining(next_back_spec(it).0) =~= remaining(it).remove(cb as int));
        },
        _ => {
            assert(remaining(it) =~= Set::empty());
        },
    }
}

/// Splitting a range at `mid` strictly inside it gives two ranges whose keys
/// together are those of the whole range, with no key in both.
pub proof fn lemma_split_partitions(parent: KeyView, first: u64, mid: u64, last: u64)
    requires
        first < mid < last,
    ensures
        remaining(fresh_range(parent, first, mid)) + remaining(fresh_range(parent, mid, last))
            == remaining(fresh_range(parent, first, last)),
        remaining(fresh_range(parent, first, mid)).disjoint(remaining(fresh_range(parent, mid, last))),
{
    assert(remaining(fresh_range(parent, first, mid)) + remaining(fresh_range(parent, mid, last))
        =~= remaining(fresh_range(parent, first, last)));
}

/// A new iterator over a non-empty range has as many keys to yield as the
/// range is long, which is what `len` and `size_hint` report before any key
/// is taken.
pub proof fn lemma_fresh_range_size(parent: KeyView, first: u64, last: u64)
    requires
        first < last,
    ensures
        remaining(fresh_range(parent, first, last)).finite(),
        remaining(fresh_range(parent, first, last)).len() == last - first,
{
    vstd::set_lib::lemma_int_range(first as int, last as int);
    assert(remaining(fresh_range(parent, first, last)) =~= vstd::set_lib::set_int_range(first as int, last as int));
}

/// The count of keys still to come is exact: a new iterator over a
/// non-empty range has as many as the range is long; each step from either
/// end that yields a key lowers it by one, and once it is zero no key comes
/// out.
pub proof fn lemma_remaining_count_exact(it: KeyIterView, parent: KeyView, first: u64, last: u64)
    ensures
        first < last ==> remaining_count(fresh_range(parent, first, last)) == last - first,
        remaining_count(it) == 0 <==> next_spec(it).1 is None,
        remaining_count(it) == 0 <==> next_back_spec(it).1 is None,
        remaining_count(it) > 0 ==> remaining_count(next_spec(it).0) == remaining_count(it) - 1,
        remaining_count(it) > 0 ==> remaining_count(next_back_spec(it).0) == remaining_count(it) - 1,
{
}

} // verus!
