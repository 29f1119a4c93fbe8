//! Small string-building helpers shared by the formatting code.
use vstd::prelude::*;
use vstd::std_specs::iter::IteratorSpec;
use vstd::string::StringExecFns;

verus! {

/// Appends one character to `s`; `String::push`.
#[verifier::external_body]
pub(crate) fn push_char(s: &mut String, c: char)
    ensures
        final(s)@ == old(s)@.push(c),
{
    s.push(c);
}

/// Appends a string slice to `s`.
pub(crate) fn push_str(s: &mut String, t: &str)
    ensures
        final(s)@ == old(s)@ + t@,
{
    s.append(t);
}

/// The ASCII digit for `d`.
pub open spec fn digit_char(d: nat) -> char {
    if d == 0 { '0' }
    else if d == 1 { '1' }
    else if d == 2 { '2' }
    else if d == 3 { '3' }
    else if d == 4 { '4' }
    else if d == 5 { '5' }
    else if d == 6 { '6' }
    else if d == 7 { '7' }
    else if d == 8 { '8' }
    else { '9' }
}

/// The decimal representation of `n`, without leading zeros.
pub open spec fn decimal(n: nat) -> Seq<char>
    decreases n,
{
    if n < 10 {
        seq![digit_char(n)]
    } else {
        decimal(n / 10).push(digit_char(n % 10))
    }
}

/// The decimal representation of `n`, left-padded with zeros to two digits.
pub open spec fn two_digits(n: nat) -> Seq<char> {
    if n < 10 {
        seq!['0', digit_char(n)]
    } else {
        decimal(n)
    }
}

/// Returns the ASCII digit for `d < 10`.
pub fn digit(d: u32) -> (c: char)
    requires
        d < 10,
    ensures
        c == digit_char(d as nat),
{
    match d {
        0 => '0',
        1 => '1',
        2 => '2',
        3 => '3',
        4 => '4',
        5 => '5',
        6 => '6',
        7 => '7',
        8 => '8',
        _ => '9',
    }
}

/// Appends the decimal representation of `n` to `s`.
pub fn push_decimal(s: &mut String, n: u64)
    ensures
        final(s)@ == old(s)@ + decimal(n as nat),
    decreases n,
{
    if n >= 10 {
        push_decimal(s, n / 10);
    }
    let d = (n % 10) as u32;
    push_char(s, digit(d));
    proof {
        assert(n < 10 ==> decimal(n as nat) == seq![digit_char(n as nat)]);
    }
    assert(final(s)@ =~= old(s)@ + decimal(n as nat)) by {
        if n >= 10 {
            assert(decimal(n as nat) == decimal((n / 10) as nat).push(digit_char((n % 10) as nat)));
        }
    }
}

/// Appends `n` with at least two digits (zero-padded) to `s`.
pub fn push_two_digits(s: &mut String, n: u64)
    ensures
        final(s)@ == old(s)@ + two_digits(n as nat),
{
    if n < 10 {
        push_char(s, '0');
        push_char(s, digit(n as u32));
        assert(final(s)@ =~= old(s)@ + two_digits(n as nat));
    } else {
        push_decimal(s, n);
    }
}

/// The characters of `s`, in order.
pub fn chars_of(s: &str) -> (v: Vec<char>)
    ensures
        v@ == s@,
{
    let mut v: Vec<char> = Vec::new();
    let mut it = s.chars();
    let ghost chars = s@;
    loop
        invariant
            v.len() <= chars.len(),
            it.remaining() == chars.skip(v.len() as int),
            v@ == chars.take(v.len() as int),
            chars == s@,
        ensures
            v@ == chars,
        decreases chars.len() - v.len(),
    {
        let next = it.next();
        match next {
            Some(c) => {
                assert(chars.skip(v.len() as int)[0] == c);
                let ghost n = v.len() as int;
                v.push(c);
                assert(chars.take(n + 1) =~= chars.take(n).push(c));
                assert(chars.skip(n).drop_first() =~= chars.skip(n + 1));
            },
            None => {
                assert(chars.take(v.len() as int) =~= chars);
                break;
            },
        }
    }
    v
}

/// A string holding exactly the characters `v[lo..hi]`.
pub fn string_from_chars(v: &Vec<char>, lo: usize, hi: usize) -> (s: String)
    requires
        lo <= hi <= v.len(),
    ensures
        s@ == v@.subrange(lo as int, hi as int),
{
    let mut s = String::new();
    let mut i = lo;
    while i < hi
        invariant
            lo <= i <= hi <= v.len(),
            s@ == v@.subrange(lo as int, i as int),
        decreases hi - i,
    {
        push_char(&mut s, v[i]);
        assert(v@.subrange(lo as int, i + 1) =~= v@.subrange(lo as int, i as int).push(v@[i as int]));
        i = i + 1;
    }
    s
}

/// Whether two strings hold the same characters.
pub fn str_equal(a: &str, b: &str) -> (r: bool)
    ensures
        r == (a@ == b@),
{
    let x = chars_of(a);
    let y = chars_of(b);
    if x.len() != y.len() {
        return false;
    }
    let mut i: usize = 0;
    while i < x.len()
        invariant
            i <= x.len() == y.len(),
            x@ == a@,
            y@ == b@,
            forall|k: int| 0 <= k < i ==> x@[k] == y@[k],
        decreases x.len() - i,
    {
        if x[i] != y[i] {
            return false;
        }
        i = i + 1;
    }
    assert(x@ =~= y@);
    true
}

/// The text with its last character removed (unchanged when empty), as
/// `String::pop` leaves it.
pub fn without_last_char(s: &String) -> (r: String)
    ensures
        r@ == (if s@.len() > 0 { s@.drop_last() } else { s@ }),
{
    let v = chars_of(s.as_str());
    if v.len() == 0 {
        return String::new();
    }
    let r = string_from_chars(&v, 0, v.len() - 1);
    assert(r@ =~= s@.drop_last());
    r
}

} // verus!
