//! Building strings.
use vstd::prelude::*;

verus! {

/// Appends `tail` to `s`.
pub fn push_str(s: &mut String, tail: &str)
    ensures
        final(s)@ == old(s)@ + tail@,
{
    s.append(tail);
}

/// `parts` joined with `sep` between neighbours.
pub open spec fn seq_join(parts: Seq<Seq<char>>, sep: Seq<char>) -> Seq<char>
    decreases parts.len(),
{
    if parts.len() == 0 {
        Seq::empty()
    } else if parts.len() == 1 {
        parts[0]
    } else {
        seq_join(parts.drop_last(), sep) + sep + parts.last()
    }
}

/// Joins `parts` with `sep` between neighbours.
pub fn join_strs(parts: &Vec<&str>, sep: &str) -> (r: String)
    ensures
        r@ == seq_join(parts@.map_values(|p: &str| p@), sep@),
{
    let ghost views = parts@.map_values(|p: &str| p@);
    let mut r = String::new();
    let mut i: usize = 0;
    while i < parts.len()
        invariant
            i <= parts.len(),
            views == parts@.map_values(|p: &str| p@),
            r@ == seq_join(views.take(i as int), sep@),
        decreases parts.len() - i,
    {
        if i > 0 {
            push_str(&mut r, sep);
        }
        push_str(&mut r, parts[i]);
        proof {
            assert(views.take(i + 1).drop_last() =~= views.take(i as int));
            if i == 0 {
                assert(r@ =~= views.take(1)[0]);
            }
        }
        i = i + 1;
    }
    proof {
        assert(views.take(parts.len() as int) =~= views);
    }
    r
}


/// Appends `c` to `s`.
///
/// Trusted: calls `String::push` of std, documented as appending the given
/// char to the end of the `String`.
#[verifier::external_body]
pub fn push_char(s: &mut String, c: char)
    ensures
        final(s)@ == old(s)@.push(c),
{
    s.push(c);
}

/// The decimal digit for `d < 10`.
pub open spec fn digit_char(d: nat) -> char {
    if d == 0 { '0' }
    else if d == 1 { '1' }
    else if d == 2 { '2' }
    else if d == 3 { '3' }
    else if d == 4 { '4' }
    else if d == 5 { '5' }
    else if d == 6 { '6' }
    else if d == 7 { '7' }
    else if d == 8 { '8' }
    else { '9' }
}

/// The decimal representation of `n`, without leading zeros.
pub open spec fn decimal(n: nat) -> Seq<char>
    decreases n,
{
    if n < 10 {
        seq![digit_char(n)]
    } else {
        decimal(n / 10).push(digit_char(n % 10))
    }
}

/// The decimal representation of a signed `n`: a minus sign before the
/// digits of a negative number.
pub open spec fn signed_decimal(n: int) -> Seq<char> {
    if n < 0 {
        seq!['-'] + decimal((-n) as nat)
    } else {
        decimal(n as nat)
    }
}

fn digit(d: u128) -> (c: char)
    requires
        d < 10,
    ensures
        c == digit_char(d as nat),
{
    if d == 0 { '0' }
    else if d == 1 { '1' }
    else if d == 2 { '2' }
    else if d == 3 { '3' }
    else if d == 4 { '4' }
    else if d == 5 { '5' }
    else if d == 6 { '6' }
    else if d == 7 { '7' }
    else if d == 8 { '8' }
    else { '9' }
}

/// Appends the decimal representation of `n` to `s`.
pub fn push_decimal(s: &mut String, n: u128)
    ensures
        final(s)@ == old(s)@ + decimal(n as nat),
    decreases n,
{
    if n < 10 {
        push_char(s, digit(n));
        assert(decimal(n as nat) == seq![digit_char(n as nat)]);
        assert(old(s)@.push(digit_char(n as nat)) =~= old(s)@ + decimal(n as nat));
    } else {
        push_decimal(s, n / 10);
        push_char(s, digit(n % 10));
        assert(old(s)@ + decimal(n as nat) =~= (old(s)@ + decimal((n / 10) as nat)).push(digit_char((n % 10) as nat)));
    }
}

/// The decimal representation of `n`.
pub fn decimal_string(n: u128) -> (r: String)
    ensures
        r@ == decimal(n as nat),
{
    let mut s = String::new();
    push_decimal(&mut s, n);
    assert(s@ =~= decimal(n as nat));
    s
}

/// The decimal representation of a signed `n`.
pub fn signed_decimal_string(n: i128) -> (r: String)
    ensures
        r@ == signed_decimal(n as int),
{
    let mut s = String::new();
    if n < 0 {
        push_char(&mut s, '-');
        let magnitude: u128 = ((-(n + 1)) as u128) + 1;
        push_decimal(&mut s, magnitude);
        assert(s@ =~= seq!['-'] + decimal((-n) as nat));
    } else {
        push_decimal(&mut s, n as u128);
        assert(s@ =~= decimal(n as nat));
    }
    s
}

/// The characters of `s`, in order.
pub fn chars_of(s: &str) -> (r: Vec<char>)
    ensures
        r@ == s@,
{
    broadcast use vstd::string::axiom_spec_iter;
    let mut v: Vec<char> = Vec::new();
    for c in it: s.chars()
        invariant
            it.seq() == s@,
            v@ == s@.take(it.index() as int),
    {
        proof {
            assert(s@.take(it.index() + 1) =~= s@.take(it.index() as int).push(c));
        }
        v.push(c);
    }
    assert(v@ =~= s@);
    v
}

/// Whether `a` and `b` hold the same characters.
pub fn chars_equal(a: &Vec<char>, b: &Vec<char>) -> (r: bool)
    ensures
        r == (a@ == b@),
{
    if a.len() != b.len() {
        return false;
    }
    let mut i: usize = 0;
    while i < a.len()
        invariant
            a.len() == b.len(),
            i <= a.len(),
            a@.take(i as int) == b@.take(i as int),
        decreases a.len() - i,
    {
        if a[i] != b[i] {
            assert(a@[i as int] != b@[i as int]);
            return false;
        }
        assert(a@.take(i + 1) =~= a@.take(i as int).push(a@[i as int]));
        assert(b@.take(i + 1) =~= b@.take(i as int).push(b@[i as int]));
        i = i + 1;
    }
    assert(a@.take(a.len() as int) =~= a@);
    assert(b@.take(b.len() as int) =~= b@);
    true
}

/// Whether `a` begins with `p`.
pub fn starts_with_chars(a: &Vec<char>, p: &Vec<char>) -> (r: bool)
    ensures
        r == (p@.len() <= a@.len() && a@.take(p@.len() as int) == p@),
{
    if p.len() > a.len() {
        return false;
    }
    let mut i: usize = 0;
    while i < p.len()
        invariant
            p.len() <= a.len(),
            i <= p.len(),
            a@.take(i as int) == p@.take(i as int),
        decreases p.len() - i,
    {
        if a[i] != p[i] {
            assert(a@.take(p@.len() as int)[i as int] != p@[i as int]);
            return false;
        }
        assert(a@.take(i + 1) =~= a@.take(i as int).push(a@[i as int]));
        assert(p@.take(i + 1) =~= p@.take(i as int).push(p@[i as int]));
        i = i + 1;
    }
    assert(p@.take(p.len() as int) =~= p@);
    true
}

/// Whether `c` is an ASCII decimal digit.
pub open spec fn is_digit(c: char) -> bool {
    '0' <= c <= '9'
}

/// The value of the decimal digits `ds`, most significant first.
pub open spec fn digits_value(ds: Seq<char>) -> nat
    decreases ds.len(),
{
    if ds.len() == 0 {
        0
    } else {
        digits_value(ds.drop_last()) * 10 + ((ds.last() as int) - ('0' as int)) as nat
    }
}

/// The digits of an unsigned number in text: `s` without a leading `+`.
pub open spec fn unsigned_digits(s: Seq<char>) -> Seq<char> {
    if s.len() > 0 && s[0] == '+' {
        s.drop_first()
    } else {
        s
    }
}

/// The `u8` that `s` spells: an optional `+` followed by at least one decimal
/// digit and nothing else, of value at most 255; `None` for any other text.
pub open spec fn parse_u8_spec(s: Seq<char>) -> Option<u8> {
    let ds = unsigned_digits(s);
    if ds.len() > 0 && (forall|i: int| 0 <= i < ds.len() ==> is_digit(#[trigger] ds[i]))
        && digits_value(ds) <= 255 {
        Some(digits_value(ds) as u8)
    } else {
        None
    }
}

/// The value of digits never falls as digits are appended.
proof fn lemma_digits_value_grows(ds: Seq<char>, k: int)
    requires
        0 <= k <= ds.len(),
        forall|i: int| 0 <= i < ds.len() ==> is_digit(#[trigger] ds[i]),
    ensures
        digits_value(ds.take(k)) <= digits_value(ds),
    decreases ds.len() - k,
{
    if k < ds.len() {
        let d = ds.take(k + 1);
        assert(d.drop_last() =~= ds.take(k));
        assert(is_digit(d.last()));
        lemma_digits_value_grows(ds, k + 1);
    } else {
        assert(ds.take(k) =~= ds);
    }
}

/// Parses the characters of `v` from `start` on as a `u8` (see
/// [`parse_u8_spec`]).
pub fn parse_u8_chars(v: &Vec<char>, start: usize) -> (r: Option<u8>)
    requires
        start <= v.len(),
    ensures
        r == parse_u8_spec(v@.skip(start as int)),
{
    let ghost s = v@.skip(start as int);
    let mut i = start;
    if i < v.len() && v[i] == '+' {
        i = i + 1;
    }
    let ghost ds = unsigned_digits(s);
    assert(ds =~= v@.skip(i as int));
    if i == v.len() {
        return None;
    }
    let first_digit = i;
    let mut value: u16 = 0;
    while i < v.len()
        invariant
            first_digit <= i <= v.len(),
            first_digit < v.len(),
            ds == v@.skip(first_digit as int),
            s == v@.skip(start as int),
            ds == unsigned_digits(s),
            value <= 255,
            forall|k: int| 0 <= k < i - first_digit ==> is_digit(#[trigger] ds[k]),
            value == digits_value(ds.take(i - first_digit)),
        decreases v.len() - i,
    {
        let c = v[i];
        assert(c == ds[i - first_digit]);
        if !('0' <= c && c <= '9') {
            assert(!is_digit(ds[i - first_digit]));
            return None;
        }
        let d: u16 = (c as u32 - '0' as u32) as u16;
        let ghost t = ds.take(i - first_digit + 1);
        assert(t.drop_last() =~= ds.take(i - first_digit));
        assert(t.last() == c);
        if value > 25 || value * 10 + d > 255 {
            proof {
                assert(digits_value(t) > 255);
                if forall|k: int| 0 <= k < ds.len() ==> is_digit(#[trigger] ds[k]) {
                    lemma_digits_value_grows(ds, i - first_digit + 1);
                }
            }
            return None;
        }
        value = value * 10 + d;
        i = i + 1;
    }
    assert(ds.take(i - first_digit) =~= ds);
    Some(value as u8)
}

} // verus!
