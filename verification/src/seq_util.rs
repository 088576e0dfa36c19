//! Sequence helpers: de-duplication that keeps first occurrences, and the
//! circular successor pairs of a sequence.
use itertools::Itertools;
use vstd::prelude::*;

verus! {

/// `s` with every element that already occurred earlier removed; the
/// remaining elements keep their order.
pub open spec fn seq_unique<A>(s: Seq<A>) -> Seq<A>
    decreases s.len(),
{
    if s.len() == 0 {
        s
    } else {
        let u = seq_unique(s.drop_last());
        if u.contains(s.last()) {
            u
        } else {
            u.push(s.last())
        }
    }
}

/// The circular successor pairs of `s`: the pair at `i` is
/// `(s[i], s[(i + 1) % len])`.
pub open spec fn circular_pairs<A>(s: Seq<A>) -> Seq<(A, A)> {
    Seq::new(s.len(), |i: int| (s[i], s[(i + 1) % (s.len() as int)]))
}

/// An element occurs in `seq_unique(s)` exactly when it occurs in `s`, and
/// `seq_unique(s)` holds no element twice.
pub proof fn lemma_seq_unique<A>(s: Seq<A>)
    ensures
        forall|x: A| seq_unique(s).contains(x) <==> s.contains(x),
        seq_unique(s).no_duplicates(),
        seq_unique(s).len() <= s.len(),
    decreases s.len(),
{
    if s.len() > 0 {
        lemma_seq_unique(s.drop_last());
        let u = seq_unique(s.drop_last());
        assert forall|x: A| seq_unique(s).contains(x) <==> s.contains(x) by {
            let d = s.drop_last();
            assert(s =~= d.push(s.last()));
            lemma_push_contains(d, s.last(), x);
            lemma_push_contains(u, s.last(), x);
        }
        if !u.contains(s.last()) {
            let v = u.push(s.last());
            assert forall|i: int, j: int| 0 <= i < v.len() && 0 <= j < v.len() && i != j implies v[i]
                != v[j] by {
                if i < u.len() && j < u.len() {
                } else if i == u.len() {
                    assert(v[j] == u[j]);
                } else {
                    assert(v[i] == u[i]);
                }
            }
        }
    }
}

/// An element occurs in `s.push(a)` exactly when it occurs in `s` or is `a`.
pub proof fn lemma_push_contains<A>(s: Seq<A>, a: A, x: A)
    ensures
        s.push(a).contains(x) <==> (s.contains(x) || x == a),
{
    if s.push(a).contains(x) {
        let k = choose|k: int| 0 <= k < s.len() + 1 && s.push(a)[k] == x;
        if k < s.len() {
            assert(s[k] == x);
        }
    }
    if s.contains(x) {
        let k = choose|k: int| 0 <= k < s.len() && s[k] == x;
        assert(s.push(a)[k] == x);
    }
    if x == a {
        assert(s.push(a)[s.len() as int] == x);
    }
}

/// Mapping every element through an injective function commutes with
/// de-duplication.
pub proof fn lemma_seq_unique_map<A, B>(s: Seq<A>, f: spec_fn(A) -> B)
    requires
        forall|x: A, y: A| #[trigger] f(x) == #[trigger] f(y) ==> x == y,
    ensures
        seq_unique(s.map_values(f)) == seq_unique(s).map_values(f),
    decreases s.len(),
{
    if s.len() > 0 {
        let m = s.map_values(f);
        assert(m.drop_last() =~= s.drop_last().map_values(f));
        lemma_seq_unique_map(s.drop_last(), f);
        let u = seq_unique(s.drop_last());
        let um = u.map_values(f);
        assert(m.last() == f(s.last()));
        assert(um.contains(f(s.last())) <==> u.contains(s.last())) by {
            if um.contains(f(s.last())) {
                let k = choose|k: int| 0 <= k < um.len() && um[k] == f(s.last());
                assert(u[k] == s.last());
            }
            if u.contains(s.last()) {
                let k = choose|k: int| 0 <= k < u.len() && u[k] == s.last();
                assert(um[k] == f(s.last()));
            }
        }
        if !u.contains(s.last()) {
            assert(u.push(s.last()).map_values(f) =~= um.push(f(s.last())));
        }
    }
}

/// De-duplicating a sequence that holds no element twice leaves it as it is.
pub proof fn lemma_seq_unique_of_unique<A>(s: Seq<A>)
    requires
        s.no_duplicates(),
    ensures
        seq_unique(s) == s,
    decreases s.len(),
{
    if s.len() > 0 {
        let d = s.drop_last();
        assert(d.no_duplicates());
        lemma_seq_unique_of_unique(d);
        if d.contains(s.last()) {
            let k = choose|k: int| 0 <= k < d.len() && d[k] == s.last();
            assert(s[k] == s[s.len() - 1]);
        }
        assert(d.push(s.last()) =~= s);
    }
}

/// Adding `a` to a sequence without repeats and de-duplicating gives the
/// sequence itself when it already holds `a`, and `a` appended otherwise.
pub proof fn lemma_seq_unique_push<A>(s: Seq<A>, a: A)
    requires
        s.no_duplicates(),
    ensures
        seq_unique(s.push(a)) == (if s.contains(a) { s } else { s.push(a) }),
{
    lemma_seq_unique_of_unique(s);
    assert(s.push(a).drop_last() =~= s);
}

/// Removes repeated elements from `v`, keeping the first occurrence of each
/// in its original order.
///
/// Trusted: calls `Itertools::unique` of the `itertools` crate, whose
/// documentation states that the adaptor yields the non-duplicate items in the
/// order in which they occur, retaining the first of a set of duplicates. The
/// contract claims exactly that for `u8` items.
#[verifier::external_body]
pub(crate) fn unique_bytes(v: Vec<u8>) -> (r: Vec<u8>)
    ensures
        r@ == seq_unique(v@),
{
    v.into_iter().unique().collect()
}

/// The circular successor pairs of `v`.
///
/// Trusted: calls `Itertools::circular_tuple_windows` of the `itertools`
/// crate with pairs. Its documentation and source show one window per element
/// of the input, starting at each element in order and wrapping back to the
/// first elements at the end; the contract claims that.
#[verifier::external_body]
pub(crate) fn circular_successor_pairs(v: &Vec<u8>) -> (r: Vec<(u8, u8)>)
    ensures
        r@ == circular_pairs(v@),
{
    v.iter().copied().circular_tuple_windows::<(u8, u8)>().collect()
}

} // verus!
