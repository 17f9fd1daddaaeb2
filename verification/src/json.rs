//! Byte-level JSON scanning and number parsing.
//!
//! The telemetry files and HTTP bodies this library reads are JSON
//! objects with a handful of retained fields among arbitrary others.
//! These primitives skip whitespace and unknown values, find the ends
//! of strings and numbers, and read unsigned and three-decimal
//! fixed-point numbers exactly. Each executable function mirrors a
//! specification function over the byte sequence.

use vstd::prelude::*;
use crate::payout::{is_digit, digit_run, pow10};
use crate::fmt::dec_digits;

verus! {

/// JSON insignificant whitespace.
pub open spec fn is_ws(b: u8) -> bool {
    b == 32 || b == 9 || b == 10 || b == 13
}

/// The first position at or after `i` that holds no whitespace.
pub open spec fn skip_ws_spec(s: Seq<u8>, i: int) -> int
    decreases s.len() - i when 0 <= i <= s.len()
{
    if i < s.len() && is_ws(s[i]) {
        skip_ws_spec(s, i + 1)
    } else {
        i
    }
}

/// Whitespace skipping never moves backwards nor past the end.
pub proof fn lemma_skip_ws_bounds(s: Seq<u8>, i: int)
    requires
        0 <= i <= s.len(),
    ensures
        i <= skip_ws_spec(s, i) <= s.len(),
    decreases s.len() - i,
{
    if i < s.len() && is_ws(s[i]) {
        lemma_skip_ws_bounds(s, i + 1);
    }
}

/// Advance past whitespace.
pub fn skip_ws(s: &Vec<u8>, i: usize) -> (r: usize)
    requires
        i <= s@.len(),
    ensures
        r == skip_ws_spec(s@, i as int),
        i <= r <= s@.len(),
{
    let len = s.len();
    let mut j = i;
    while j < len && (s[j] == 32 || s[j] == 9 || s[j] == 10 || s[j] == 13)
        invariant
            i <= j <= len,
            len == s@.len(),
            skip_ws_spec(s@, i as int) == skip_ws_spec(s@, j as int),
        decreases len - j,
    {
        j = j + 1;
    }
    j
}

/// Option of a position, abstracted to the mathematical integers.
pub open spec fn o2i(r: Option<usize>) -> Option<int> {
    match r {
        Some(u) => Some(u as int),
        None => None,
    }
}

/// The position just past the closing quote of a string whose body
/// starts at `i` (the opening quote already consumed). A backslash
/// escapes the byte after it.
pub open spec fn string_end_spec(s: Seq<u8>, i: int) -> Option<int>
    decreases s.len() - i when 0 <= i <= s.len()
{
    if i >= s.len() {
        None
    } else if s[i] == 34 {
        Some(i + 1)
    } else if s[i] == 92 {
        if i + 2 <= s.len() {
            string_end_spec(s, i + 2)
        } else {
            None
        }
    } else {
        string_end_spec(s, i + 1)
    }
}

/// A found string end lies past its start and within the text.
pub proof fn lemma_string_end_bounds(s: Seq<u8>, i: int)
    requires
        0 <= i <= s.len(),
    ensures
        match string_end_spec(s, i) {
            Some(e) => i < e <= s.len(),
            None => true,
        },
    decreases s.len() - i,
{
    if i < s.len() {
        if s[i] == 92 {
            if i + 2 <= s.len() {
                lemma_string_end_bounds(s, i + 2);
            }
        } else if s[i] != 34 {
            lemma_string_end_bounds(s, i + 1);
        }
    }
}

/// Find the end of a string body.
pub fn string_end(s: &Vec<u8>, i: usize) -> (r: Option<usize>)
    requires
        i <= s@.len(),
    ensures
        o2i(r) == string_end_spec(s@, i as int),
        r is Some ==> i < r.unwrap() <= s@.len(),
    decreases s@.len() - i,
{
    proof {
        lemma_string_end_bounds(s@, i as int);
    }
    let len = s.len();
    if i >= len {
        None
    } else if s[i] == 34 {
        Some(i + 1)
    } else if s[i] == 92 {
        if len - i >= 2 {
            string_end(s, i + 2)
        } else {
            None
        }
    } else {
        string_end(s, i + 1)
    }
}

/// Measure a digit run.
pub fn digit_run_from(s: &Vec<u8>, i: usize) -> (r: usize)
    requires
        i <= s@.len(),
    ensures
        r == digit_run(s@, i as int),
        i + r <= s@.len(),
{
    let len = s.len();
    let mut j = i;
    while j < len && 48 <= s[j] && s[j] <= 57
        invariant
            i <= j <= len,
            len == s@.len(),
            digit_run(s@, i as int) == (j - i) + digit_run(s@, j as int),
        decreases len - j,
    {
        j = j + 1;
    }
    assert(digit_run(s@, j as int) == 0);
    j - i
}

/// The position just past a JSON number starting at `i`: an optional
/// minus sign, digits, an optional fraction, an optional exponent.
pub open spec fn number_end_spec(s: Seq<u8>, i: int) -> Option<int> {
    let j = if i < s.len() && s[i] == 45 {
        i + 1
    } else {
        i
    };
    let r1 = digit_run(s, j);
    if r1 < 1 {
        None
    } else {
        let k = j + r1;
        let k2 = if k < s.len() && s[k] == 46 && digit_run(s, k + 1) >= 1 {
            k + 1 + digit_run(s, k + 1)
        } else {
            k
        };
        if k2 < s.len() && (s[k2] == 101 || s[k2] == 69) {
            let e = if k2 + 1 < s.len() && (s[k2 + 1] == 43 || s[k2 + 1] == 45) {
                k2 + 2
            } else {
                k2 + 1
            };
            if digit_run(s, e) >= 1 {
                Some(e + digit_run(s, e))
            } else {
                None
            }
        } else {
            Some(k2)
        }
    }
}

/// A digit run stays in range.
pub proof fn lemma_digit_run_range(s: Seq<u8>, p: int)
    requires
        0 <= p <= s.len(),
    ensures
        0 <= digit_run(s, p),
        p + digit_run(s, p) <= s.len(),
    decreases s.len() - p,
{
    if p < s.len() && is_digit(s[p]) {
        lemma_digit_run_range(s, p + 1);
    }
}

/// Find the end of a number.
pub fn number_end(s: &Vec<u8>, i: usize) -> (r: Option<usize>)
    requires
        i <= s@.len(),
    ensures
        o2i(r) == number_end_spec(s@, i as int),
        r is Some ==> i < r.unwrap() <= s@.len(),
{
    let len = s.len();
    let j = if i < len && s[i] == 45 {
        i + 1
    } else {
        i
    };
    let r1 = digit_run_from(s, j);
    if r1 < 1 {
        return None;
    }
    let k = j + r1;
    let k2 = if k < len && s[k] == 46 {
        let r2 = digit_run_from(s, k + 1);
        if r2 >= 1 {
            k + 1 + r2
        } else {
            k
        }
    } else {
        k
    };
    if k2 < len && (s[k2] == 101 || s[k2] == 69) {
        let e = if k2 + 1 < len && (s[k2 + 1] == 43 || s[k2 + 1] == 45) {
            k2 + 2
        } else {
            k2 + 1
        };
        let r3 = digit_run_from(s, e);
        if r3 >= 1 {
            Some(e + r3)
        } else {
            None
        }
    } else {
        Some(k2)
    }
}

/// The position just past the JSON value starting at `i` (no leading
/// whitespace), or nothing when the text is not a value.
pub open spec fn skip_value_spec(s: Seq<u8>, i: int) -> Option<int>
    decreases s.len() - i, 0int when 0 <= i <= s.len()
{
    if i >= s.len() {
        None
    } else if s[i] == 34 {
        string_end_spec(s, i + 1)
    } else if s[i] == 123 {
        skip_members_spec(s, i + 1)
    } else if s[i] == 91 {
        skip_elements_spec(s, i + 1, true)
    } else if s[i] == 116 {
        // true
        if i + 4 <= s.len() && s[i + 1] == 114 && s[i + 2] == 117 && s[i + 3] == 101 {
            Some(i + 4)
        } else {
            None
        }
    } else if s[i] == 102 {
        // false
        if i + 5 <= s.len() && s[i + 1] == 97 && s[i + 2] == 108 && s[i + 3] == 115 && s[i + 4]
            == 101 {
            Some(i + 5)
        } else {
            None
        }
    } else if s[i] == 110 {
        // null
        if i + 4 <= s.len() && s[i + 1] == 117 && s[i + 2] == 108 && s[i + 3] == 108 {
            Some(i + 4)
        } else {
            None
        }
    } else if s[i] == 45 || is_digit(s[i]) {
        number_end_spec(s, i)
    } else {
        None
    }
}

/// The position just past the remaining members of an object whose
/// brace was consumed; `i` points after `{` or after a separator comma.
pub open spec fn skip_members_spec(s: Seq<u8>, i: int) -> Option<int>
    decreases s.len() - i, 1int when 0 <= i <= s.len()
{
    let j = skip_ws_spec(s, i);
    if j >= s.len() {
        None
    } else if s[j] == 125 {
        Some(j + 1)
    } else if s[j] != 34 {
        None
    } else {
        match string_end_spec(s, j + 1) {
            None => None,
            Some(ke) => {
                let c = skip_ws_spec(s, ke);
                if c >= s.len() || s[c] != 58 {
                    None
                } else {
                    let w = skip_ws_spec(s, c + 1);
                    if !(i < w <= s.len()) {
                        None
                    } else {
                        match skip_value_spec(s, w) {
                            None => None,
                            Some(ve) => {
                                let t = skip_ws_spec(s, ve);
                                if t >= s.len() {
                                    None
                                } else if s[t] == 125 {
                                    Some(t + 1)
                                } else if s[t] == 44 && i < t + 1 <= s.len() {
                                    skip_members_spec(s, t + 1)
                                } else {
                                    None
                                }
                            },
                        }
                    }
                }
            },
        }
    }
}

/// The position just past the remaining elements of an array whose
/// bracket was consumed; `first` says no element was consumed yet, so
/// an immediate `]` closes an empty array.
pub open spec fn skip_elements_spec(s: Seq<u8>, i: int, first: bool) -> Option<int>
    decreases s.len() - i, 1int when 0 <= i <= s.len()
{
    let j = skip_ws_spec(s, i);
    if j >= s.len() {
        None
    } else if first && s[j] == 93 {
        Some(j + 1)
    } else {
        if !(i <= j < s.len()) {
            None
        } else {
            match skip_value_spec(s, j) {
                None => None,
                Some(ve) => {
                    let t = skip_ws_spec(s, ve);
                    if t >= s.len() {
                        None
                    } else if s[t] == 93 {
                        Some(t + 1)
                    } else if s[t] == 44 && i < t + 1 <= s.len() {
                        skip_elements_spec(s, t + 1, false)
                    } else {
                        None
                    }
                },
            }
        }
    }
}

/// Skip one JSON value.
pub fn skip_value(s: &Vec<u8>, i: usize) -> (r: Option<usize>)
    requires
        i <= s@.len(),
    ensures
        o2i(r) == skip_value_spec(s@, i as int),
        r is Some ==> i < r.unwrap() <= s@.len(),
    decreases s@.len() - i, 0int,
{
    let len = s.len();
    if i >= len {
        None
    } else if s[i] == 34 {
        string_end(s, i + 1)
    } else if s[i] == 123 {
        skip_members(s, i + 1)
    } else if s[i] == 91 {
        skip_elements(s, i + 1, true)
    } else if s[i] == 116 {
        if len - i >= 4 && s[i + 1] == 114 && s[i + 2] == 117 && s[i + 3] == 101 {
            Some(i + 4)
        } else {
            None
        }
    } else if s[i] == 102 {
        if len - i >= 5 && s[i + 1] == 97 && s[i + 2] == 108 && s[i + 3] == 115 && s[i + 4] == 101 {
            Some(i + 5)
        } else {
            None
        }
    } else if s[i] == 110 {
        if len - i >= 4 && s[i + 1] == 117 && s[i + 2] == 108 && s[i + 3] == 108 {
            Some(i + 4)
        } else {
            None
        }
    } else if s[i] == 45 || (48 <= s[i] && s[i] <= 57) {
        number_end(s, i)
    } else {
        None
    }
}

/// Skip an object's remaining members.
pub fn skip_members(s: &Vec<u8>, i: usize) -> (r: Option<usize>)
    requires
        i <= s@.len(),
    ensures
        o2i(r) == skip_members_spec(s@, i as int),
        r is Some ==> i < r.unwrap() <= s@.len(),
    decreases s@.len() - i, 1int,
{
    let len = s.len();
    let j = skip_ws(s, i);
    if j >= len {
        None
    } else if s[j] == 125 {
        Some(j + 1)
    } else if s[j] != 34 {
        None
    } else {
        match string_end(s, j + 1) {
            None => None,
            Some(ke) => {
                let c = skip_ws(s, ke);
                if c >= len || s[c] != 58 {
                    None
                } else {
                    let w = skip_ws(s, c + 1);
                    if !(i < w && w <= len) {
                        None
                    } else {
                        match skip_value(s, w) {
                            None => None,
                            Some(ve) => {
                                let t = skip_ws(s, ve);
                                if t >= len {
                                    None
                                } else if s[t] == 125 {
                                    Some(t + 1)
                                } else if s[t] == 44 && i < t + 1 && t + 1 <= len {
                                    skip_members(s, t + 1)
                                } else {
                                    None
                                }
                            },
                        }
                    }
                }
            },
        }
    }
}

/// Skip an array's remaining elements.
pub fn skip_elements(s: &Vec<u8>, i: usize, first: bool) -> (r: Option<usize>)
    requires
        i <= s@.len(),
    ensures
        o2i(r) == skip_elements_spec(s@, i as int, first),
        r is Some ==> i < r.unwrap() <= s@.len(),
    decreases s@.len() - i, 1int,
{
    let len = s.len();
    let j = skip_ws(s, i);
    if j >= len {
        None
    } else if first && s[j] == 93 {
        Some(j + 1)
    } else {
        if !(i <= j && j < len) {
            None
        } else {
            match skip_value(s, j) {
                None => None,
                Some(ve) => {
                    let t = skip_ws(s, ve);
                    if t >= len {
                        None
                    } else if s[t] == 93 {
                        Some(t + 1)
                    } else if s[t] == 44 && i < t + 1 && t + 1 <= len {
                        skip_elements(s, t + 1, false)
                    } else {
                        None
                    }
                },
            }
        }
    }
}

/// The number the digits at `i..i+k` spell, most significant first.
pub open spec fn digits_val(s: Seq<u8>, i: int, k: int) -> nat
    decreases k when k >= 0
{
    if k <= 0 {
        0
    } else {
        (digits_val(s, i, k - 1) * 10 + (s[i + k - 1] - 48)) as nat
    }
}

/// A digit string's value stays under its digit budget.
pub proof fn lemma_digits_val_bound(s: Seq<u8>, i: int, k: int)
    requires
        0 <= i,
        0 <= k <= digit_run(s, i),
        i <= s.len(),
    ensures
        digits_val(s, i, k) < pow10(k as nat),
    decreases k,
{
    if k > 0 {
        lemma_digits_val_bound(s, i, k - 1);
        lemma_digit_run_digit(s, i, k - 1);
        assert(pow10(k as nat) == 10 * pow10((k - 1) as nat));
    } else {
        assert(pow10(0) == 1);
    }
}

/// Every position of a digit run holds a digit.
pub proof fn lemma_digit_run_digit(s: Seq<u8>, p: int, k: int)
    requires
        0 <= p <= s.len(),
        0 <= k < digit_run(s, p),
    ensures
        is_digit(s[p + k]),
        48 <= s[p + k] <= 57,
    decreases k,
{
    if k > 0 {
        lemma_digit_run_digit(s, p + 1, k - 1);
    }
}

/// Evaluate small powers of ten.
pub proof fn lemma_pow10_21()
    ensures
        pow10(0) == 1,
        pow10(1) == 10,
        pow10(2) == 100,
        pow10(3) == 1000,
        pow10(19) == 10_000_000_000_000_000_000,
        pow10(20) == 100_000_000_000_000_000_000,
        pow10(21) == 1_000_000_000_000_000_000_000,
{
    assert(pow10(0) == 1);
    assert(pow10(1) == 10);
    assert(pow10(2) == 100);
    assert(pow10(3) == 1000);
    assert(pow10(4) == 10000);
    assert(pow10(5) == 100000);
    assert(pow10(6) == 1000000);
    assert(pow10(7) == 10000000);
    assert(pow10(8) == 100000000);
    assert(pow10(9) == 1000000000);
    assert(pow10(10) == 10000000000);
    assert(pow10(11) == 100000000000);
    assert(pow10(12) == 1000000000000);
    assert(pow10(13) == 10000000000000);
    assert(pow10(14) == 100000000000000);
    assert(pow10(15) == 1000000000000000);
    assert(pow10(16) == 10000000000000000);
    assert(pow10(17) == 100000000000000000);
    assert(pow10(18) == 1000000000000000000);
    assert(pow10(19) == 10_000_000_000_000_000_000);
    assert(pow10(20) == 100_000_000_000_000_000_000);
    assert(pow10(21) == 1_000_000_000_000_000_000_000);
}

/// An unsigned number read at `i`: its digits' value and the position
/// past them. Fails without a digit, on more than twenty digits, or
/// past the 64-bit range.
pub open spec fn parse_u64_spec(s: Seq<u8>, i: int) -> Option<(u64, int)> {
    let run = digit_run(s, i);
    if 1 <= run <= 20 && digits_val(s, i, run) <= u64::MAX {
        Some((digits_val(s, i, run) as u64, i + run))
    } else {
        None
    }
}

/// Read an unsigned 64-bit number.
pub fn parse_u64_at(s: &Vec<u8>, i: usize) -> (r: Option<(u64, usize)>)
    requires
        i <= s@.len(),
    ensures
        match r {
            Some(v) => parse_u64_spec(s@, i as int) == Some((v.0, v.1 as int)) && i < v.1
                <= s@.len(),
            None => parse_u64_spec(s@, i as int) is None,
        },
{
    let len = s.len();
    let run = digit_run_from(s, i);
    if run < 1 || run > 20 {
        return None;
    }
    proof {
        lemma_pow10_21();
        lemma_digits_val_bound(s@, i as int, run as int);
    }
    let mut value: u128 = 0;
    let mut t: usize = 0;
    while t < run
        invariant
            t <= run,
            len == s@.len(),
            i + run <= len,
            run == digit_run(s@, i as int),
            run <= 20,
            value == digits_val(s@, i as int, t as int),
            value < pow10(21),
            pow10(21) == 1_000_000_000_000_000_000_000,
        decreases run - t,
    {
        proof {
            lemma_digit_run_digit(s@, i as int, t as int);
            lemma_digits_val_bound(s@, i as int, (t + 1) as int);
            lemma_pow10_le_21((t + 1) as nat);
        }
        value = value * 10 + ((s[i + t] - 48) as u128);
        t = t + 1;
    }
    if value > (u64::MAX as u128) {
        None
    } else {
        Some((value as u64, i + run))
    }
}

/// Powers of ten up to the twenty-first stay under it.
proof fn lemma_pow10_le_21(n: nat)
    requires
        n <= 21,
    ensures
        pow10(n) <= pow10(21),
    decreases 21 - n,
{
    if n < 21 {
        lemma_pow10_le_21(n + 1);
        assert(pow10(n + 1) == 10 * pow10(n));
    }
}

/// A three-decimal fixed-point number read at `i`: the value in
/// thousandths and the position past it. The integer digits and the
/// first three fraction digits are exact; further fraction digits are
/// dropped. Fails without an integer digit or past the 64-bit range.
pub open spec fn parse_milli_spec(s: Seq<u8>, i: int) -> Option<(u64, int)> {
    let run = digit_run(s, i);
    if !(1 <= run <= 20) {
        None
    } else {
        let iv = digits_val(s, i, run);
        let k = i + run;
        let fr = digit_run(s, k + 1);
        let has_frac = k < s.len() && s[k] == 46 && fr >= 1;
        let frac = if has_frac {
            (if fr >= 1 {
                (s[k + 1] - 48) * 100
            } else {
                0
            }) + (if fr >= 2 {
                (s[k + 1 + 1] - 48) * 10
            } else {
                0
            }) + (if fr >= 3 {
                (s[k + 1 + 2] - 48) as int
            } else {
                0
            })
        } else {
            0
        };
        let end = if has_frac {
            k + 1 + fr
        } else {
            k
        };
        if iv * 1000 + frac <= u64::MAX {
            Some(((iv * 1000 + frac) as u64, end))
        } else {
            None
        }
    }
}

/// Read a three-decimal fixed-point number into thousandths.
pub fn parse_milli_at(s: &Vec<u8>, i: usize) -> (r: Option<(u64, usize)>)
    requires
        i <= s@.len(),
    ensures
        match r {
            Some(v) => parse_milli_spec(s@, i as int) == Some((v.0, v.1 as int)) && i < v.1
                <= s@.len(),
            None => parse_milli_spec(s@, i as int) is None,
        },
{
    let len = s.len();
    let run = digit_run_from(s, i);
    if run < 1 || run > 20 {
        return None;
    }
    proof {
        lemma_pow10_21();
        lemma_digits_val_bound(s@, i as int, run as int);
    }
    let mut value: u128 = 0;
    let mut t: usize = 0;
    while t < run
        invariant
            t <= run,
            len == s@.len(),
            i + run <= len,
            run == digit_run(s@, i as int),
            run <= 20,
            value == digits_val(s@, i as int, t as int),
            value < pow10(21),
            pow10(21) == 1_000_000_000_000_000_000_000,
        decreases run - t,
    {
        proof {
            lemma_digit_run_digit(s@, i as int, t as int);
            lemma_digits_val_bound(s@, i as int, (t + 1) as int);
            lemma_pow10_le_21((t + 1) as nat);
        }
        value = value * 10 + ((s[i + t] - 48) as u128);
        t = t + 1;
    }
    let iv = value;
    let k = i + run;
    let mut frac: u128 = 0;
    let mut end = k;
    if k < len && s[k] == 46 {
        let fr = digit_run_from(s, k + 1);
        if fr >= 1 {
            proof {
                lemma_digit_run_digit(s@, (k + 1) as int, 0);
            }
            frac = ((s[k + 1] - 48) as u128) * 100;
            if fr >= 2 {
                proof {
                    lemma_digit_run_digit(s@, (k + 1) as int, 1);
                }
                frac = frac + ((s[k + 2] - 48) as u128) * 10;
            }
            if fr >= 3 {
                proof {
                    lemma_digit_run_digit(s@, (k + 1) as int, 2);
                }
                frac = frac + ((s[k + 3] - 48) as u128);
            }
            end = k + 1 + fr;
        }
    }
    let total: u128 = iv * 1000 + frac;
    if total > (u64::MAX as u128) {
        None
    } else {
        Some((total as u64, end))
    }
}

/// A run of digit bytes bounded by a non-digit (or the end) is exactly
/// the digit run the scanner measures.
pub proof fn lemma_digit_run_exact(s: Seq<u8>, i: int, n: int)
    requires
        0 <= i,
        i + n <= s.len(),
        n >= 0,
        forall|k: int| 0 <= k < n ==> is_digit(#[trigger] s[i + k]),
        i + n == s.len() || !is_digit(s[i + n]),
    ensures
        digit_run(s, i) == n,
    decreases n,
{
    if n == 0 {
    } else {
        assert(is_digit(s[i + 0]));
        assert forall|k: int| 0 <= k < n - 1 implies is_digit(#[trigger] s[(i + 1) + k]) by {
            assert(is_digit(s[i + (k + 1)]));
        }
        lemma_digit_run_exact(s, i + 1, n - 1);
    }
}

/// Every byte of a decimal rendering is a digit.
pub proof fn lemma_dec_digits_are_digits(n: nat)
    ensures
        forall|k: int| 0 <= k < dec_digits(n).len() ==> is_digit(#[trigger] dec_digits(n)[k]),
        dec_digits(n).len() >= 1,
    decreases n,
{
    if n >= 10 {
        lemma_dec_digits_are_digits(n / 10);
    }
}

/// A value under the `k`-th power of ten renders in at most `k` digits.
pub proof fn lemma_dec_digits_len(n: nat, k: nat)
    requires
        k >= 1,
        n < pow10(k),
    ensures
        dec_digits(n).len() <= k,
    decreases n,
{
    if n >= 10 {
        assert(pow10(k) == 10 * pow10((k - 1) as nat));
        assert(n / 10 < pow10((k - 1) as nat)) by (nonlinear_arith)
            requires
                n < 10 * pow10((k - 1) as nat),
                n >= 10,
        ;
        assert(pow10((k - 1) as nat) > 1);
        lemma_dec_digits_len(n / 10, (k - 1) as nat);
    }
}

/// Reading back the digits of a decimal rendering gives the value.
pub proof fn lemma_digits_val_of_dec(s: Seq<u8>, i: int, n: nat)
    requires
        0 <= i,
        i + dec_digits(n).len() <= s.len(),
        s.subrange(i, i + dec_digits(n).len() as int) == dec_digits(n),
    ensures
        digits_val(s, i, dec_digits(n).len() as int) == n,
    decreases n,
{
    let d = dec_digits(n);
    let l = d.len() as int;
    if n < 10 {
        assert(s[i] == d[0]);
        assert(digits_val(s, i, 0) == 0);
        assert(digits_val(s, i, 1) == (s[i] - 48) as nat);
    } else {
        let dh = dec_digits(n / 10);
        let lh = dh.len() as int;
        assert(d == dh + seq![(48 + n % 10) as u8]);
        assert(s.subrange(i, i + lh) =~= dh) by {
            assert(forall|k: int| 0 <= k < lh ==> #[trigger] s.subrange(i, i + l)[k] == d[k]);
        }
        lemma_digits_val_of_dec(s, i, n / 10);
        assert(s[i + l - 1] == d[l - 1]);
        assert(d[l - 1] == (48 + n % 10) as u8);
        assert(digits_val(s, i, l) == (digits_val(s, i, l - 1) * 10 + (s[i + l - 1] - 48)) as nat);
        assert((n / 10) * 10 + n % 10 == n) by (nonlinear_arith);
    }
}

/// Reading an unsigned number back from its rendering gives the number
/// and stops at the first byte after it.
pub proof fn lemma_parse_u64_inverse(s: Seq<u8>, i: int, n: u64)
    requires
        0 <= i,
        i + dec_digits(n as nat).len() <= s.len(),
        s.subrange(i, i + dec_digits(n as nat).len() as int) == dec_digits(n as nat),
        i + dec_digits(n as nat).len() == s.len() || !is_digit(
            s[i + dec_digits(n as nat).len()],
        ),
    ensures
        parse_u64_spec(s, i) == Some((n, i + dec_digits(n as nat).len())),
{
    let d = dec_digits(n as nat);
    let l = d.len() as int;
    lemma_dec_digits_are_digits(n as nat);
    assert(forall|k: int| 0 <= k < l ==> is_digit(#[trigger] s[i + k])) by {
        assert(forall|k: int| 0 <= k < l ==> #[trigger] s[i + k] == s.subrange(i, i + l)[k]);
    }
    lemma_digit_run_exact(s, i, l);
    lemma_pow10_21();
    lemma_dec_digits_len(n as nat, 20);
    lemma_digits_val_of_dec(s, i, n as nat);
}

/// Reading a fixed-point number back from its trimmed rendering gives
/// the thousandths and stops at the first byte after it.
pub proof fn lemma_parse_milli_inverse(s: Seq<u8>, i: int, m: u64)
    requires
        0 <= i,
        i + crate::fmt::milli_text(m as nat).len() <= s.len(),
        s.subrange(i, i + crate::fmt::milli_text(m as nat).len() as int) == crate::fmt::milli_text(
            m as nat,
        ),
        i + crate::fmt::milli_text(m as nat).len() == s.len() || !is_digit(
            s[i + crate::fmt::milli_text(m as nat).len()],
        ),
    ensures
        parse_milli_spec(s, i) == Some((m, i + crate::fmt::milli_text(m as nat).len())),
{
    let t = crate::fmt::milli_text(m as nat);
    let d = dec_digits((m / 1000) as nat);
    let l = d.len() as int;
    let f = (m % 1000) as nat;
    let fr = crate::fmt::frac3(f);
    let frl = fr.len() as int;
    assert(t == d + seq![(46 as u8)] + fr);
    assert(t.len() == l + 1 + frl);
    // the integer digits and their boundary dot
    assert(forall|k: int| 0 <= k < l ==> #[trigger] s[i + k] == t[k]) by {
        assert(forall|k: int| 0 <= k < t.len() as int ==> #[trigger] s[i + k] == s.subrange(
            i,
            i + t.len() as int,
        )[k]);
    }
    assert(forall|k: int| 0 <= k < t.len() as int ==> #[trigger] s[i + k] == t[k]) by {
        assert(forall|k: int| 0 <= k < t.len() as int ==> #[trigger] s[i + k] == s.subrange(
            i,
            i + t.len() as int,
        )[k]);
    }
    assert(s.subrange(i, i + l) =~= d);
    assert(s[i + l] == 46);
    lemma_dec_digits_are_digits((m / 1000) as nat);
    assert(forall|k: int| 0 <= k < l ==> is_digit(#[trigger] s[i + k])) by {
        assert(forall|k: int| 0 <= k < l ==> #[trigger] s[i + k] == s.subrange(i, i + l)[k]);
    }
    lemma_digit_run_exact(s, i, l);
    lemma_pow10_21();
    lemma_dec_digits_len((m / 1000) as nat, 20);
    lemma_digits_val_of_dec(s, i, (m / 1000) as nat);
    // the fraction digits and their boundary
    assert forall|k: int| 0 <= k < frl implies #[trigger] s[i + l + 1 + k] == fr[k] by {
        assert(s[i + (l + 1 + k)] == t[l + 1 + k]);
        assert(t[l + 1 + k] == fr[k]);
    }
    assert(s[i + l + 1 + 0] == fr[0]);
    if frl >= 2 {
        assert(s[i + l + 1 + 1] == fr[1]);
    }
    if frl >= 3 {
        assert(s[i + l + 1 + 2] == fr[2]);
    }
    assert(forall|k: int| 0 <= k < frl ==> is_digit(#[trigger] s[i + l + 1 + k]));
    lemma_digit_run_exact(s, i + l + 1, frl);
    // the parsed fraction equals the thousandths remainder
    assert(f < 1000);
    if f % 10 != 0 {
        assert(frl == 3);
        assert(s[i + l + 1] == (48 + f / 100) as u8);
        assert(s[i + l + 2] == (48 + (f / 10) % 10) as u8);
        assert(s[i + l + 3] == (48 + f % 10) as u8);
        assert((f / 100) * 100 + ((f / 10) % 10) * 10 + f % 10 == f) by (nonlinear_arith)
            requires
                f < 1000,
        ;
    } else if f % 100 != 0 {
        assert(frl == 2);
        assert(s[i + l + 1] == (48 + f / 100) as u8);
        assert(s[i + l + 2] == (48 + (f / 10) % 10) as u8);
        assert((f / 100) * 100 + ((f / 10) % 10) * 10 == f) by (nonlinear_arith)
            requires
                f < 1000,
                f % 10 == 0,
        ;
    } else {
        assert(frl == 1);
        assert(s[i + l + 1] == (48 + f / 100) as u8);
        assert((f / 100) * 100 == f) by (nonlinear_arith)
            requires
                f < 1000,
                f % 100 == 0,
        ;
    }
    assert((m / 1000) * 1000 + (m % 1000) == m);
}

} // verus!
