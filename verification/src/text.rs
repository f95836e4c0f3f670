//! Building human-readable messages: decimal rendering of integers and
//! appending to strings.

use vstd::prelude::*;

verus! {

/// The character of a decimal digit `d` (0 to 9).
pub open spec fn digit_char(d: nat) -> char {
    (48 + d) as char
}

/// The decimal rendering of a natural number, most significant digit first.
pub open spec fn dec_nat(n: nat) -> Seq<char>
    decreases n,
{
    if n < 10 {
        seq![digit_char(n)]
    } else {
        dec_nat(n / 10).push(digit_char(n % 10))
    }
}

/// The decimal rendering of an integer, with a leading `-` when negative.
pub open spec fn dec_int(i: int) -> Seq<char> {
    if i < 0 {
        seq!['-'] + dec_nat((-i) as nat)
    } else {
        dec_nat(i as nat)
    }
}

/// Appends one character to a string (std's `String::push`).
#[verifier::external_body]
pub(crate) fn push_char(s: &mut String, c: char)
    ensures
        final(s)@ == old(s)@.push(c),
{
    s.push(c);
}

/// What std's `Debug` formatting shows for a string slice holding `t`: the
/// text quoted, with special characters escaped.
pub uninterp spec fn str_debug(t: Seq<char>) -> Seq<char>;

/// The `Debug` text of a string slice (`format!("{:?}", t)`).
#[verifier::external_body]
pub(crate) fn debug_str(t: &str) -> (r: String)
    ensures
        r@ == str_debug(t@),
{
    format!("{:?}", t)
}

/// Whether `t` holds a nul character.
pub fn contains_nul(t: &str) -> (r: bool)
    ensures
        r == t@.contains('\0'),
{
    broadcast use vstd::string::axiom_spec_iter;
    let mut found = false;
    for c in iter: t.chars()
        invariant
            iter.seq() == t@,
            found <==> exists|j: int| 0 <= j < iter.index() && iter.seq()[j] == '\0',
    {
        if c == '\0' {
            found = true;
        }
    }
    found
}

/// Appends a string slice to a string.
pub fn push_str(s: &mut String, t: &str)
    ensures
        final(s)@ == old(s)@ + t@,
{
    s.append(t);
}

/// A new string holding the characters of `t`.
pub fn string_of(t: &str) -> (r: String)
    ensures
        r@ == t@,
{
    String::from_str(t)
}

fn digit(d: u64) -> (c: char)
    requires
        d < 10,
    ensures
        c == digit_char(d as nat),
{
    let b: u8 = 48u8 + (d as u8);
    b as char
}

/// Appends the decimal rendering of `n`.
pub fn push_u64(s: &mut String, n: u64)
    ensures
        final(s)@ == old(s)@ + dec_nat(n as nat),
    decreases n,
{
    if n < 10 {
        push_char(s, digit(n));
        assert(dec_nat(n as nat) == seq![digit_char(n as nat)]);
    } else {
        push_u64(s, n / 10);
        push_char(s, digit(n % 10));
        assert(dec_nat(n as nat) == dec_nat((n / 10) as nat).push(digit_char((n % 10) as nat)));
    }
}

/// Appends the decimal rendering of a `usize`.
pub fn push_usize(s: &mut String, n: usize)
    ensures
        final(s)@ == old(s)@ + dec_nat(n as nat),
{
    push_u64(s, n as u64);
}

/// Appends the decimal rendering of a signed integer.
pub fn push_i64(s: &mut String, n: i64)
    ensures
        final(s)@ == old(s)@ + dec_int(n as int),
{
    if n < 0 {
        let m: u64 = (0i128 - (n as i128)) as u64;
        let ghost s0 = s@;
        push_char(s, '-');
        push_u64(s, m);
        assert(s@ == s0 + (seq!['-'] + dec_nat(m as nat)));
    } else {
        push_u64(s, n as u64);
    }
}

/// Appends the decimal rendering of an `isize`.
pub fn push_isize(s: &mut String, n: isize)
    ensures
        final(s)@ == old(s)@ + dec_int(n as int),
{
    push_i64(s, n as i64);
}

} // verus!
