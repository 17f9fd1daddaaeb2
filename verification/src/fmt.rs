//! Decimal rendering of integers: plain digit strings, English
//! thousands-separated groups, and three-decimal fixed-point values.
//! All text is ASCII held in byte vectors.

use vstd::prelude::*;
use vstd::slice::slice_to_vec;
use vstd::utf8::{is_ascii_chars, is_ascii_chars_encode_utf8};
use vstd::string::StringSliceAdditionalSpecFns;

verus! {

/// The bytes of an ASCII character sequence, one byte per character.
pub open spec fn ascii(cs: Seq<char>) -> Seq<u8> {
    Seq::new(cs.len(), |i: int| cs[i] as u8)
}

/// Copy an ASCII string literal into owned bytes.
pub fn lit(s: &str) -> (r: Vec<u8>)
    requires
        is_ascii_chars(s@),
    ensures
        r@ == ascii(s@),
{
    proof {
        is_ascii_chars_encode_utf8(s@);
    }
    let v = slice_to_vec(s.as_bytes());
    assert(v@ =~= ascii(s@));
    v
}

/// Append an ASCII string literal's bytes.
pub fn push_lit(out: &mut Vec<u8>, s: &str)
    requires
        is_ascii_chars(s@),
    ensures
        final(out)@ == old(out)@ + ascii(s@),
{
    let mut v = lit(s);
    out.append(&mut v);
}

/// Decimal digits of `n`, most significant first.
pub open spec fn dec_digits(n: nat) -> Seq<u8>
    decreases n,
{
    if n < 10 {
        seq![(48 + n) as u8]
    } else {
        dec_digits(n / 10) + seq![(48 + n % 10) as u8]
    }
}

/// Digits grouped in threes from the right, separated by commas,
/// as English locales print numbers.
pub open spec fn grouped(digits: Seq<u8>) -> Seq<u8>
    decreases digits.len(),
{
    if digits.len() <= 3 {
        digits
    } else {
        grouped(digits.take(digits.len() - 3)) + seq![(',' as u8)] + digits.skip(
            digits.len() - 3,
        )
    }
}

/// `n` printed with thousands separators.
pub open spec fn commas(n: nat) -> Seq<u8> {
    grouped(dec_digits(n))
}

/// Render the decimal digits of `n`.
pub fn fmt_u128(n: u128) -> (r: Vec<u8>)
    ensures
        r@ == dec_digits(n as nat),
    decreases n,
{
    if n < 10 {
        let mut v: Vec<u8> = Vec::new();
        v.push(48 + (n as u8));
        assert(v@ =~= dec_digits(n as nat));
        v
    } else {
        let mut v = fmt_u128(n / 10);
        v.push(48 + ((n % 10) as u8));
        assert(v@ =~= dec_digits(n as nat));
        v
    }
}

/// Render the decimal digits of `n`.
pub fn fmt_u64(n: u64) -> (r: Vec<u8>)
    ensures
        r@ == dec_digits(n as nat),
{
    fmt_u128(n as u128)
}

/// Copy `v[a..b]` into a fresh vector.
pub fn copy_range(v: &Vec<u8>, a: usize, b: usize) -> (r: Vec<u8>)
    requires
        a <= b <= v@.len(),
    ensures
        r@ == v@.subrange(a as int, b as int),
{
    let mut r: Vec<u8> = Vec::new();
    let mut i: usize = a;
    while i < b
        invariant
            a <= i <= b <= v@.len(),
            r@ == v@.subrange(a as int, i as int),
        decreases b - i,
    {
        r.push(v[i]);
        assert(r@ =~= v@.subrange(a as int, (i + 1) as int));
        i = i + 1;
    }
    r
}

/// Insert commas into a digit string, three digits to a group.
pub fn group_digits(digits: &Vec<u8>) -> (r: Vec<u8>)
    ensures
        r@ == grouped(digits@),
    decreases digits@.len(),
{
    if digits.len() <= 3 {
        copy_range(digits, 0, digits.len())
    } else {
        let head = copy_range(digits, 0, digits.len() - 3);
        let mut r = group_digits(&head);
        assert(head@ =~= digits@.take(digits@.len() - 3));
        r.push(',' as u8);
        let n = digits.len();
        r.push(digits[n - 3]);
        r.push(digits[n - 2]);
        r.push(digits[n - 1]);
        assert(r@ =~= grouped(digits@.take(digits@.len() - 3)) + seq![(',' as u8)]
            + digits@.skip(digits@.len() - 3));
        r
    }
}

/// Render `n` with thousands separators.
pub fn fmt_u128_commas(n: u128) -> (r: Vec<u8>)
    ensures
        r@ == commas(n as nat),
{
    let digits = fmt_u128(n);
    group_digits(&digits)
}

/// Render `n` with thousands separators.
pub fn fmt_u64_commas(n: u64) -> (r: Vec<u8>)
    ensures
        r@ == commas(n as nat),
{
    fmt_u128_commas(n as u128)
}

/// The fraction digits of a value of `f` thousandths, trailing zeros
/// trimmed down to at least one digit.
pub open spec fn frac3(f: nat) -> Seq<u8> {
    if f % 10 != 0 {
        seq![(48 + f / 100) as u8, (48 + (f / 10) % 10) as u8, (48 + f % 10) as u8]
    } else if f % 100 != 0 {
        seq![(48 + f / 100) as u8, (48 + (f / 10) % 10) as u8]
    } else {
        seq![(48 + f / 100) as u8]
    }
}

/// A value of `m` thousandths printed as `<int>.<frac>`, the fraction
/// trimmed of trailing zeros but never empty.
pub open spec fn milli_text(m: nat) -> Seq<u8> {
    dec_digits(m / 1000) + seq![('.' as u8)] + frac3(m % 1000)
}

/// Render a value held in thousandths, e.g. 915563 as "915.563" and
/// 10970 as "10.97".
pub fn fmt_milli(m: u64) -> (r: Vec<u8>)
    ensures
        r@ == milli_text(m as nat),
{
    let mut r = fmt_u64(m / 1000);
    r.push('.' as u8);
    let f = m % 1000;
    r.push(48 + (f / 100) as u8);
    if f % 100 != 0 {
        r.push(48 + ((f / 10) % 10) as u8);
    }
    if f % 10 != 0 {
        r.push(48 + (f % 10) as u8);
    }
    assert(r@ =~= milli_text(m as nat));
    r
}

/// Ceiling division, with zero divisor mapped to zero.
pub open spec fn ceil_div(a: nat, b: nat) -> nat {
    if b == 0 {
        0
    } else {
        (((a + b - 1) as int) / (b as int)) as nat
    }
}

/// Ceiling division on wide unsigned values; a zero divisor gives zero.
pub fn ceil_div_u128(a: u128, b: u128) -> (r: u128)
    requires
        a + b <= u128::MAX,
    ensures
        r == ceil_div(a as nat, b as nat),
{
    if b == 0 {
        0
    } else {
        (a + b - 1) / b
    }
}

} // verus!
