//! Rescue-Prime digests as database keys, ordered for the proof-of-work
//! check that a digest lies below a threshold.
use vstd::prelude::*;

verus! {

/// The number of field elements in a digest.
pub const RESCUE_PRIME_OUTPUT_SIZE_IN_BFES: usize = 6;

/// A Rescue-Prime digest, by the canonical values of its field elements.
#[derive(Debug, Clone, Copy, PartialEq)]
pub struct RescuePrimeDigest(pub [u64; 6]);

/// Where two digests first differ: `Some(true)` when the first is below
/// the second there, `Some(false)` when above, `None` when they are equal.
pub open spec fn first_difference_spec(a: Seq<u64>, b: Seq<u64>) -> Option<bool>
    decreases a.len(),
{
    if a.len() == 0 || b.len() == 0 {
        None
    } else if a[0] < b[0] {
        Some(true)
    } else if a[0] > b[0] {
        Some(false)
    } else {
        first_difference_spec(a.drop_first(), b.drop_first())
    }
}

/// How one digest compares with another: by the first element where they
/// differ, compared as integers; digests with no such element are not
/// ordered (`None`), equal digests included.
pub open spec fn digest_order(a: Seq<u64>, b: Seq<u64>) -> Option<core::cmp::Ordering> {
    match first_difference_spec(a, b) {
        Some(true) => Some(core::cmp::Ordering::Less),
        Some(false) => Some(core::cmp::Ordering::Greater),
        None => None,
    }
}

/// Where the element values of two digests first differ (see
/// [`first_difference_spec`]).
pub fn first_difference(a: &[u64; 6], b: &[u64; 6]) -> (r: Option<bool>)
    ensures
        r == first_difference_spec(a@, b@),
{
    let mut i: usize = 0;
    assert(a@.skip(0) =~= a@);
    assert(b@.skip(0) =~= b@);
    while i < 6
        invariant
            i <= 6,
            a@.len() == 6,
            b@.len() == 6,
            first_difference_spec(a@, b@) == first_difference_spec(a@.skip(i as int), b@.skip(i as int)),
        decreases 6 - i,
    {
        let x = a[i];
        let y = b[i];
        proof {
            let sa = a@.skip(i as int);
            let sb = b@.skip(i as int);
            assert(sa[0] == x);
            assert(sb[0] == y);
            assert(sa.drop_first() =~= a@.skip(i + 1));
            assert(sb.drop_first() =~= b@.skip(i + 1));
        }
        if x < y {
            return Some(true);
        }
        if x > y {
            return Some(false);
        }
        i = i + 1;
    }
    assert(a@.skip(6) =~= Seq::<u64>::empty());
    None
}

impl RescuePrimeDigest {
    /// The digest of the given element values.
    pub fn new(digest: [u64; 6]) -> (r: Self)
        ensures
            r.0@ == digest@,
    {
        RescuePrimeDigest(digest)
    }

    /// The element values.
    pub fn values(&self) -> (r: [u64; 6])
        ensures
            r@ == self.0@,
    {
        self.0
    }

    /// The digest of all-zero elements.
    pub fn default() -> (r: Self)
        ensures
            r.0@ == seq![0u64, 0u64, 0u64, 0u64, 0u64, 0u64],
    {
        let r = RescuePrimeDigest([0u64; 6]);
        assert(r.0@ =~= seq![0u64, 0u64, 0u64, 0u64, 0u64, 0u64]);
        r
    }

    /// Compares two digests (see [`digest_order`]).
    pub fn compare(&self, other: &Self) -> (r: Option<core::cmp::Ordering>)
        ensures
            r == digest_order(self.0@, other.0@),
    {
        match first_difference(&self.0, &other.0) {
            Some(true) => Some(core::cmp::Ordering::Less),
            Some(false) => Some(core::cmp::Ordering::Greater),
            None => None,
        }
    }
}

impl PartialOrd for RescuePrimeDigest {
    fn partial_cmp(&self, other: &Self) -> (r: Option<core::cmp::Ordering>) {
        self.compare(other)
    }
}

impl vstd::std_specs::cmp::PartialOrdSpecImpl for RescuePrimeDigest {
    open spec fn obeys_partial_cmp_spec() -> bool {
        true
    }

    open spec fn partial_cmp_spec(&self, other: &Self) -> Option<core::cmp::Ordering> {
        digest_order(self.0@, other.0@)
    }
}

/// The digest order is a strict order: no digest is ordered with itself,
/// swapping two digests swaps Less and Greater, and two digests of equal
/// length are unordered only when they are the same.
pub proof fn lemma_digest_order_strict(a: Seq<u64>, b: Seq<u64>)
    ensures
        digest_order(a, a) is None,
        digest_order(a, b) == Some(core::cmp::Ordering::Less) <==> digest_order(b, a) == Some(
            core::cmp::Ordering::Greater,
        ),
        digest_order(a, b) is None <==> digest_order(b, a) is None,
        a.len() == b.len() ==> (digest_order(a, b) is None <==> a == b),
    decreases a.len(),
{
    if a.len() > 0 && b.len() > 0 {
        lemma_digest_order_strict(a.drop_first(), b.drop_first());
        if a.len() == b.len() && first_difference_spec(a, b) is None {
            assert(a.drop_first() == b.drop_first());
            assert(a =~= seq![a[0]] + a.drop_first());
            assert(b =~= seq![b[0]] + b.drop_first());
        }
    }
    if a.len() > 0 {
        lemma_digest_order_strict(a.drop_first(), a.drop_first());
    }
    if a.len() == 0 && b.len() == 0 {
        assert(a =~= b);
    }
}

} // verus!
