//! The pool's stats file: a JSON object with seven retained fields.
//!
//! The file holds integers for the hashrates and share count, two
//! three-decimal efforts, and a connection count; unknown fields are
//! ignored. Parsing and serializing are exact inverses: serializing a
//! record and parsing the text gives the record back.

use vstd::prelude::*;
use crate::fmt::{ascii, dec_digits, milli_text, fmt_u64, fmt_milli};
use crate::json::{skip_ws_spec, skip_ws, string_end_spec, string_end, skip_value_spec,
    skip_value, parse_u64_spec, parse_u64_at, parse_milli_spec, parse_milli_at, is_ws,
    lemma_dec_digits_are_digits, lemma_parse_u64_inverse, lemma_parse_milli_inverse};
use crate::payout::is_digit;
use crate::human::HumanNumber;
use crate::payout::PubP2poolApi;

verus! {

/// The seven fields kept from the pool's stats file. Hashrates and the
/// share count are whole numbers; the two efforts are percentages in
/// thousandths.
#[derive(Clone, Copy, PartialEq, Eq, Structural, Debug)]
pub struct PrivP2poolApi {
    pub hashrate_15m: u64,
    pub hashrate_1h: u64,
    pub hashrate_24h: u64,
    pub shares_found: u64,
    /// Average effort, in thousandths of a percent.
    pub average_effort: u64,
    /// Current effort, in thousandths of a percent.
    pub current_effort: u64,
    pub connections: u16,
}

/// Fields seen so far while reading the stats object.
#[derive(Clone, Copy, PartialEq, Eq, Structural, Debug)]
pub struct PartialStats {
    pub hashrate_15m: Option<u64>,
    pub hashrate_1h: Option<u64>,
    pub hashrate_24h: Option<u64>,
    pub shares_found: Option<u64>,
    pub average_effort: Option<u64>,
    pub current_effort: Option<u64>,
    pub connections: Option<u64>,
}

pub open spec fn empty_partial() -> PartialStats {
    PartialStats {
        hashrate_15m: None,
        hashrate_1h: None,
        hashrate_24h: None,
        shares_found: None,
        average_effort: None,
        current_effort: None,
        connections: None,
    }
}

pub open spec fn key_h15() -> Seq<u8> {
    ascii("hashrate_15m"@)
}

pub open spec fn key_h1() -> Seq<u8> {
    ascii("hashrate_1h"@)
}

pub open spec fn key_h24() -> Seq<u8> {
    ascii("hashrate_24h"@)
}

pub open spec fn key_shares() -> Seq<u8> {
    ascii("shares_found"@)
}

pub open spec fn key_avg() -> Seq<u8> {
    ascii("average_effort"@)
}

pub open spec fn key_cur() -> Seq<u8> {
    ascii("current_effort"@)
}

pub open spec fn key_conn() -> Seq<u8> {
    ascii("connections"@)
}

/// Store a parsed value under the key it came with; an unknown key
/// changes nothing.
pub open spec fn store_field(acc: PartialStats, key: Seq<u8>, v: u64) -> PartialStats {
    if key == key_h15() {
        PartialStats { hashrate_15m: Some(v), ..acc }
    } else if key == key_h1() {
        PartialStats { hashrate_1h: Some(v), ..acc }
    } else if key == key_h24() {
        PartialStats { hashrate_24h: Some(v), ..acc }
    } else if key == key_shares() {
        PartialStats { shares_found: Some(v), ..acc }
    } else if key == key_avg() {
        PartialStats { average_effort: Some(v), ..acc }
    } else if key == key_cur() {
        PartialStats { current_effort: Some(v), ..acc }
    } else if key == key_conn() {
        PartialStats { connections: Some(v), ..acc }
    } else {
        acc
    }
}

/// Whether a key names one of the retained fields.
pub open spec fn known_key(key: Seq<u8>) -> bool {
    ||| key == key_h15()
    ||| key == key_h1()
    ||| key == key_h24()
    ||| key == key_shares()
    ||| key == key_conn()
}

/// Whether a key names one of the effort fields, read as fixed-point.
pub open spec fn effort_key(key: Seq<u8>) -> bool {
    key == key_avg() || key == key_cur()
}

/// Read the members of the stats object from `i` (just past `{` or a
/// comma): known keys parse as numbers, unknown values are skipped, and
/// the closing brace ends the object.
pub open spec fn stats_members_spec(s: Seq<u8>, i: int, acc: PartialStats) -> Option<
    (PartialStats, int),
>
    decreases s.len() - i when 0 <= i <= s.len()
{
    let j = skip_ws_spec(s, i);
    if j >= s.len() {
        None
    } else if s[j] == 125 {
        Some((acc, j + 1))
    } else if s[j] != 34 {
        None
    } else {
        match string_end_spec(s, j + 1) {
            None => None,
            Some(ke) => {
                let key = s.subrange(j + 1, ke - 1);
                let c = skip_ws_spec(s, ke);
                if c >= s.len() || s[c] != 58 {
                    None
                } else {
                    let w = skip_ws_spec(s, c + 1);
                    if !(i < w <= s.len()) {
                        None
                    } else {
                        let parsed: Option<(PartialStats, int)> = if known_key(key) {
                            match parse_u64_spec(s, w) {
                                None => None,
                                Some(v) => Some((store_field(acc, key, v.0), v.1)),
                            }
                        } else if effort_key(key) {
                            match parse_milli_spec(s, w) {
                                None => None,
                                Some(v) => Some((store_field(acc, key, v.0), v.1)),
                            }
                        } else {
                            match skip_value_spec(s, w) {
                                None => None,
                                Some(ve) => Some((acc, ve)),
                            }
                        };
                        match parsed {
                            None => None,
                            Some(av) => {
                                let acc2 = av.0;
                                let ve = av.1;
                                if !(i < ve <= s.len()) {
                                    None
                                } else {
                                    let t = skip_ws_spec(s, ve);
                                    if t >= s.len() {
                                        None
                                    } else if s[t] == 125 {
                                        Some((acc2, t + 1))
                                    } else if s[t] == 44 && i < t + 1 <= s.len() {
                                        stats_members_spec(s, t + 1, acc2)
                                    } else {
                                        None
                                    }
                                }
                            },
                        }
                    }
                }
            },
        }
    }
}

/// A complete record from the fields seen, if all seven were and the
/// connection count fits sixteen bits.
pub open spec fn complete_stats(p: PartialStats) -> Option<PrivP2poolApi> {
    if p.hashrate_15m is Some && p.hashrate_1h is Some && p.hashrate_24h is Some
        && p.shares_found is Some && p.average_effort is Some && p.current_effort is Some
        && p.connections is Some && p.connections.unwrap() <= u16::MAX {
        Some(
            PrivP2poolApi {
                hashrate_15m: p.hashrate_15m.unwrap(),
                hashrate_1h: p.hashrate_1h.unwrap(),
                hashrate_24h: p.hashrate_24h.unwrap(),
                shares_found: p.shares_found.unwrap(),
                average_effort: p.average_effort.unwrap(),
                current_effort: p.current_effort.unwrap(),
                connections: p.connections.unwrap() as u16,
            },
        )
    } else {
        None
    }
}

/// Parse the whole stats file: one object, nothing but whitespace
/// around it, all seven fields present.
pub open spec fn parse_stats_spec(s: Seq<u8>) -> Option<PrivP2poolApi> {
    let i = skip_ws_spec(s, 0);
    if i >= s.len() || s[i] != 123 {
        None
    } else {
        match stats_members_spec(s, i + 1, empty_partial()) {
            None => None,
            Some(pe) => {
                let t = skip_ws_spec(s, pe.1);
                if t == s.len() {
                    complete_stats(pe.0)
                } else {
                    None
                }
            },
        }
    }
}

/// Whether the bytes `s[a..b]` spell exactly `k`.
pub(crate) fn range_eq(s: &Vec<u8>, a: usize, b: usize, k: &Vec<u8>) -> (r: bool)
    requires
        a <= b <= s@.len(),
    ensures
        r == (s@.subrange(a as int, b as int) == k@),
{
    if b - a != k.len() {
        assert(s@.subrange(a as int, b as int).len() != k@.len());
        return false;
    }
    let n = k.len();
    let mut j: usize = 0;
    while j < n
        invariant
            j <= n,
            n == k@.len(),
            a + n == b,
            b <= s@.len(),
            forall|t: int| 0 <= t < j ==> s@[a + t] == k@[t],
        decreases n - j,
    {
        if s[a + j] != k[j] {
            assert(s@.subrange(a as int, b as int)[j as int] != k@[j as int]);
            return false;
        }
        j = j + 1;
    }
    assert(s@.subrange(a as int, b as int) =~= k@);
    true
}

/// The seven key strings as owned bytes, in field order.
fn make_keys() -> (r: (Vec<u8>, Vec<u8>, Vec<u8>, Vec<u8>, Vec<u8>, Vec<u8>, Vec<u8>))
    ensures
        r.0@ == key_h15(),
        r.1@ == key_h1(),
        r.2@ == key_h24(),
        r.3@ == key_shares(),
        r.4@ == key_avg(),
        r.5@ == key_cur(),
        r.6@ == key_conn(),
{
    proof {
        reveal_strlit("hashrate_15m");
        reveal_strlit("hashrate_1h");
        reveal_strlit("hashrate_24h");
        reveal_strlit("shares_found");
        reveal_strlit("average_effort");
        reveal_strlit("current_effort");
        reveal_strlit("connections");
    }
    (
        crate::fmt::lit("hashrate_15m"),
        crate::fmt::lit("hashrate_1h"),
        crate::fmt::lit("hashrate_24h"),
        crate::fmt::lit("shares_found"),
        crate::fmt::lit("average_effort"),
        crate::fmt::lit("current_effort"),
        crate::fmt::lit("connections"),
    )
}

/// Read the members of the stats object.
fn stats_members(s: &Vec<u8>, i: usize, acc: PartialStats) -> (r: Option<(PartialStats, usize)>)
    requires
        i <= s@.len(),
    ensures
        match r {
            Some(v) => stats_members_spec(s@, i as int, acc) == Some((v.0, v.1 as int)) && i
                < v.1 <= s@.len(),
            None => stats_members_spec(s@, i as int, acc) is None,
        },
    decreases s@.len() - i,
{
    let len = s.len();
    let j = skip_ws(s, i);
    if j >= len {
        return None;
    }
    if s[j] == 125 {
        return Some((acc, j + 1));
    }
    if s[j] != 34 {
        return None;
    }
    let ke = match string_end(s, j + 1) {
        None => {
            return None;
        },
        Some(ke) => ke,
    };
    let ghost key = s@.subrange(j + 1 as int, ke - 1 as int);
    let c = skip_ws(s, ke);
    if c >= len || s[c] != 58 {
        return None;
    }
    let w = skip_ws(s, c + 1);
    if !(i < w && w <= len) {
        return None;
    }
    let keys = make_keys();
    let is_known = range_eq(s, j + 1, ke - 1, &keys.0) || range_eq(s, j + 1, ke - 1, &keys.1)
        || range_eq(s, j + 1, ke - 1, &keys.2) || range_eq(s, j + 1, ke - 1, &keys.3) || range_eq(
        s,
        j + 1,
        ke - 1,
        &keys.6,
    );
    let is_effort = range_eq(s, j + 1, ke - 1, &keys.4) || range_eq(s, j + 1, ke - 1, &keys.5);
    let parsed: Option<(PartialStats, usize)> = if is_known {
        match parse_u64_at(s, w) {
            None => None,
            Some(v) => Some((store_field_exec(s, j + 1, ke - 1, &keys, acc, v.0), v.1)),
        }
    } else if is_effort {
        match parse_milli_at(s, w) {
            None => None,
            Some(v) => Some((store_field_exec(s, j + 1, ke - 1, &keys, acc, v.0), v.1)),
        }
    } else {
        match skip_value(s, w) {
            None => None,
            Some(ve) => Some((acc, ve)),
        }
    };
    let av = match parsed {
        None => {
            return None;
        },
        Some(av) => av,
    };
    let acc2 = av.0;
    let ve = av.1;
    if !(i < ve && ve <= len) {
        return None;
    }
    let t = skip_ws(s, ve);
    if t >= len {
        return None;
    }
    if s[t] == 125 {
        return Some((acc2, t + 1));
    }
    if s[t] == 44 && i < t + 1 && t + 1 <= len {
        return stats_members(s, t + 1, acc2);
    }
    None
}

/// Store a value under the key at `s[a..b]`.
fn store_field_exec(
    s: &Vec<u8>,
    a: usize,
    b: usize,
    keys: &(Vec<u8>, Vec<u8>, Vec<u8>, Vec<u8>, Vec<u8>, Vec<u8>, Vec<u8>),
    acc: PartialStats,
    v: u64,
) -> (r: PartialStats)
    requires
        a <= b <= s@.len(),
        keys.0@ == key_h15(),
        keys.1@ == key_h1(),
        keys.2@ == key_h24(),
        keys.3@ == key_shares(),
        keys.4@ == key_avg(),
        keys.5@ == key_cur(),
        keys.6@ == key_conn(),
    ensures
        r == store_field(acc, s@.subrange(a as int, b as int), v),
{
    if range_eq(s, a, b, &keys.0) {
        PartialStats { hashrate_15m: Some(v), ..acc }
    } else if range_eq(s, a, b, &keys.1) {
        PartialStats { hashrate_1h: Some(v), ..acc }
    } else if range_eq(s, a, b, &keys.2) {
        PartialStats { hashrate_24h: Some(v), ..acc }
    } else if range_eq(s, a, b, &keys.3) {
        PartialStats { shares_found: Some(v), ..acc }
    } else if range_eq(s, a, b, &keys.4) {
        PartialStats { average_effort: Some(v), ..acc }
    } else if range_eq(s, a, b, &keys.5) {
        PartialStats { current_effort: Some(v), ..acc }
    } else if range_eq(s, a, b, &keys.6) {
        PartialStats { connections: Some(v), ..acc }
    } else {
        acc
    }
}

impl PrivP2poolApi {
    /// All-zero statistics; the seed the watchdog writes to a fresh
    /// stats file serializes from this.
    pub fn new() -> (r: PrivP2poolApi)
        ensures
            r.hashrate_15m == 0,
            r.hashrate_1h == 0,
            r.hashrate_24h == 0,
            r.shares_found == 0,
            r.average_effort == 0,
            r.current_effort == 0,
            r.connections == 0,
    {
        PrivP2poolApi {
            hashrate_15m: 0,
            hashrate_1h: 0,
            hashrate_24h: 0,
            shares_found: 0,
            average_effort: 0,
            current_effort: 0,
            connections: 0,
        }
    }

    /// Parse the stats file's text.
    pub fn str_to_priv_p2pool_api(s: &Vec<u8>) -> (r: Option<PrivP2poolApi>)
        ensures
            r == parse_stats_spec(s@),
    {
        let len = s.len();
        let i = skip_ws(s, 0);
        if i >= len || s[i] != 123 {
            return None;
        }
        let pe = match stats_members(
            s,
            i + 1,
            PartialStats {
                hashrate_15m: None,
                hashrate_1h: None,
                hashrate_24h: None,
                shares_found: None,
                average_effort: None,
                current_effort: None,
                connections: None,
            },
        ) {
            None => {
                return None;
            },
            Some(pe) => pe,
        };
        let t = skip_ws(s, pe.1);
        if t != len {
            return None;
        }
        let p = pe.0;
        match (p.hashrate_15m, p.hashrate_1h, p.hashrate_24h, p.shares_found, p.average_effort,
            p.current_effort, p.connections) {
            (Some(h15), Some(h1), Some(h24), Some(sf), Some(ae), Some(ce), Some(conn)) => {
                if conn <= u16::MAX as u64 {
                    Some(
                        PrivP2poolApi {
                            hashrate_15m: h15,
                            hashrate_1h: h1,
                            hashrate_24h: h24,
                            shares_found: sf,
                            average_effort: ae,
                            current_effort: ce,
                            connections: conn as u16,
                        },
                    )
                } else {
                    None
                }
            },
            _ => None,
        }
    }
}

/// `"key":` with its leading `{` or `,`.
pub open spec fn member_prefix(k: Seq<u8>, first: bool) -> Seq<u8> {
    (if first {
        seq![(123 as u8)]
    } else {
        seq![(44 as u8)]
    }) + seq![(34 as u8)] + k + seq![(34 as u8), (58 as u8)]
}

/// One serialized member: the separator, the quoted key, the colon and
/// the rendered value.
pub open spec fn stats_chunk(k: Seq<u8>, val: Seq<u8>, first: bool) -> Seq<u8> {
    member_prefix(k, first) + val
}

/// The compact rendering of a stats record, fields in declaration
/// order, efforts with their trimmed three-decimal fractions.
pub open spec fn ser_stats_spec(v: PrivP2poolApi) -> Seq<u8> {
    stats_chunk(key_h15(), dec_digits(v.hashrate_15m as nat), true) + stats_chunk(
        key_h1(),
        dec_digits(v.hashrate_1h as nat),
        false,
    ) + stats_chunk(key_h24(), dec_digits(v.hashrate_24h as nat), false) + stats_chunk(
        key_shares(),
        dec_digits(v.shares_found as nat),
        false,
    ) + stats_chunk(key_avg(), milli_text(v.average_effort as nat), false) + stats_chunk(
        key_cur(),
        milli_text(v.current_effort as nat),
        false,
    ) + stats_chunk(key_conn(), dec_digits(v.connections as nat), false) + seq![(125 as u8)]
}

/// Append `{"key":` or `,"key":`.
fn push_member_prefix(out: &mut Vec<u8>, key: &Vec<u8>, first: bool)
    ensures
        final(out)@ == old(out)@ + member_prefix(key@, first),
{
    if first {
        out.push(123);
    } else {
        out.push(44);
    }
    out.push(34);
    let mut k = key.clone();
    assert(k@ == key@);
    out.append(&mut k);
    out.push(34);
    out.push(58);
    assert(out@ =~= old(out)@ + member_prefix(key@, first));
}

impl PrivP2poolApi {
    /// Render the record as compact JSON.
    pub fn to_json(&self) -> (r: Vec<u8>)
        ensures
            r@ == ser_stats_spec(*self),
    {
        let keys = make_keys();
        let mut out: Vec<u8> = Vec::new();
        push_member_prefix(&mut out, &keys.0, true);
        let mut d = fmt_u64(self.hashrate_15m);
        out.append(&mut d);
        push_member_prefix(&mut out, &keys.1, false);
        let mut d = fmt_u64(self.hashrate_1h);
        out.append(&mut d);
        push_member_prefix(&mut out, &keys.2, false);
        let mut d = fmt_u64(self.hashrate_24h);
        out.append(&mut d);
        push_member_prefix(&mut out, &keys.3, false);
        let mut d = fmt_u64(self.shares_found);
        out.append(&mut d);
        push_member_prefix(&mut out, &keys.4, false);
        let mut d = fmt_milli(self.average_effort);
        out.append(&mut d);
        push_member_prefix(&mut out, &keys.5, false);
        let mut d = fmt_milli(self.current_effort);
        out.append(&mut d);
        push_member_prefix(&mut out, &keys.6, false);
        let mut d = fmt_u64(self.connections as u64);
        out.append(&mut d);
        out.push(125);
        assert(out@ =~= ser_stats_spec(*self));
        out
    }
}

/// One line of the pretty rendering: two spaces, the quoted key, a
/// colon and a space, then the value.
pub open spec fn pretty_member(k: Seq<u8>, v: Seq<u8>, last: bool) -> Seq<u8> {
    seq![(32 as u8), (32 as u8), (34 as u8)] + k + seq![(34 as u8), (58 as u8), (32 as u8)] + v
        + (if last {
        seq![(10 as u8)]
    } else {
        seq![(44 as u8), (10 as u8)]
    })
}

/// The pretty rendering: each field on its own indented line.
pub open spec fn ser_stats_pretty_spec(v: PrivP2poolApi) -> Seq<u8> {
    seq![(123 as u8), (10 as u8)] + pretty_member(
        key_h15(),
        dec_digits(v.hashrate_15m as nat),
        false,
    ) + pretty_member(key_h1(), dec_digits(v.hashrate_1h as nat), false) + pretty_member(
        key_h24(),
        dec_digits(v.hashrate_24h as nat),
        false,
    ) + pretty_member(key_shares(), dec_digits(v.shares_found as nat), false) + pretty_member(
        key_avg(),
        milli_text(v.average_effort as nat),
        false,
    ) + pretty_member(key_cur(), milli_text(v.current_effort as nat), false) + pretty_member(
        key_conn(),
        dec_digits(v.connections as nat),
        true,
    ) + seq![(125 as u8)]
}

/// Append one pretty line.
fn push_pretty_member(out: &mut Vec<u8>, key: &Vec<u8>, value: &mut Vec<u8>, last: bool)
    ensures
        final(out)@ == old(out)@ + pretty_member(key@, old(value)@, last),
{
    out.push(32);
    out.push(32);
    out.push(34);
    let mut k = key.clone();
    assert(k@ == key@);
    out.append(&mut k);
    out.push(34);
    out.push(58);
    out.push(32);
    out.append(value);
    if !last {
        out.push(44);
    }
    out.push(10);
    assert(out@ =~= old(out)@ + pretty_member(key@, old(value)@, last));
}

impl PrivP2poolApi {
    /// Render the record as pretty JSON, one field to a line with a
    /// two-space indent.
    pub fn to_json_pretty(&self) -> (r: Vec<u8>)
        ensures
            r@ == ser_stats_pretty_spec(*self),
    {
        let keys = make_keys();
        let mut out: Vec<u8> = Vec::new();
        out.push(123);
        out.push(10);
        let mut d = fmt_u64(self.hashrate_15m);
        push_pretty_member(&mut out, &keys.0, &mut d, false);
        let mut d = fmt_u64(self.hashrate_1h);
        push_pretty_member(&mut out, &keys.1, &mut d, false);
        let mut d = fmt_u64(self.hashrate_24h);
        push_pretty_member(&mut out, &keys.2, &mut d, false);
        let mut d = fmt_u64(self.shares_found);
        push_pretty_member(&mut out, &keys.3, &mut d, false);
        let mut d = fmt_milli(self.average_effort);
        push_pretty_member(&mut out, &keys.4, &mut d, false);
        let mut d = fmt_milli(self.current_effort);
        push_pretty_member(&mut out, &keys.5, &mut d, false);
        let mut d = fmt_u64(self.connections as u64);
        push_pretty_member(&mut out, &keys.6, &mut d, true);
        out.push(125);
        assert(out@ =~= ser_stats_pretty_spec(*self));
        out
    }
}

/// A key fit for the round-trip argument: printable, unescaped, and
/// not a digit at the front.
pub open spec fn clean_key(k: Seq<u8>) -> bool {
    &&& k.len() >= 1
    &&& forall|j: int|
        0 <= j < k.len() ==> #[trigger] k[j] != 34 && k[j] != 92 && !is_ws(k[j])
}

/// A string whose body has no quote or backslash ends at its closing
/// quote.
proof fn lemma_string_end_at(s: Seq<u8>, i: int, e: int)
    requires
        0 <= i <= e < s.len(),
        s[e] == 34,
        forall|j: int| i <= j < e ==> #[trigger] s[j] != 34 && s[j] != 92,
    ensures
        string_end_spec(s, i) == Some(e + 1),
    decreases e - i,
{
    if i < e {
        lemma_string_end_at(s, i + 1, e);
    }
}

/// How one serialized member reads back: the key is found, its value
/// parses, and the object either closes or continues after the comma.
/// `vtext` is the value's rendering and `n` the value it parses to.
#[verifier::rlimit(60)]
proof fn lemma_member_step(
    s: Seq<u8>,
    i: int,
    key: Seq<u8>,
    vtext: Seq<u8>,
    n: u64,
    acc: PartialStats,
)
    requires
        0 <= i,
        clean_key(key),
        vtext.len() >= 1,
        is_digit(vtext[0]),
        i + 3 + key.len() + vtext.len() < s.len(),
        s.subrange(i, i + 3 + key.len() + vtext.len() as int) == seq![(34 as u8)] + key + seq![
            (34 as u8),
            (58 as u8),
        ] + vtext,
        s[i + 3 + key.len() + vtext.len()] == 44 || s[i + 3 + key.len() + vtext.len()] == 125,
        known_key(key) ==> parse_u64_spec(s, i + 3 + key.len()) == Some(
            (n, i + 3 + key.len() + vtext.len()),
        ),
        !known_key(key) && effort_key(key) ==> parse_milli_spec(s, i + 3 + key.len()) == Some(
            (n, i + 3 + key.len() + vtext.len()),
        ),
        known_key(key) || effort_key(key),
    ensures
        ({
            let e = i + 3 + key.len() + vtext.len();
            let acc2 = store_field(acc, key, n);
            stats_members_spec(s, i, acc) == if s[e] == 125 {
                Some((acc2, e + 1))
            } else {
                stats_members_spec(s, e + 1, acc2)
            }
        }),
{
    let kl = key.len() as int;
    let vl = vtext.len() as int;
    let piece = seq![(34 as u8)] + key + seq![(34 as u8), (58 as u8)] + vtext;
    let e = i + 3 + kl + vl;
    assert forall|k: int| 0 <= k < 3 + kl + vl implies #[trigger] s[i + k] == piece[k] by {
        assert(s[i + k] == s.subrange(i, e)[k]);
    }
    assert(s[i + 0] == 34);
    assert(!is_ws(s[i]));
    assert(skip_ws_spec(s, i) == i);
    assert forall|j: int| i + 1 <= j < i + 1 + kl implies #[trigger] s[j] != 34 && s[j] != 92 by {
        assert(s[i + (j - i)] == piece[j - i]);
        assert(piece[j - i] == key[j - i - 1]);
    }
    assert(s[i + (1 + kl)] == piece[1 + kl]);
    assert(s[i + 1 + kl] == 34);
    lemma_string_end_at(s, i + 1, i + 1 + kl);
    assert(string_end_spec(s, i + 1) == Some(i + kl + 2));
    assert(s.subrange(i + 1, i + kl + 1) =~= key) by {
        assert forall|j: int| 0 <= j < kl implies #[trigger] s.subrange(i + 1, i + kl + 1)[j]
            == key[j] by {
            assert(s[i + (1 + j)] == piece[1 + j]);
        }
    }
    assert(s[i + (2 + kl)] == piece[2 + kl]);
    assert(s[i + 2 + kl] == 58);
    assert(skip_ws_spec(s, i + kl + 2) == i + kl + 2);
    assert(s[i + (3 + kl)] == piece[3 + kl]);
    assert(s[i + 3 + kl] == vtext[0]);
    assert(!is_ws(s[i + 3 + kl]));
    assert(skip_ws_spec(s, i + kl + 3) == i + kl + 3);
    assert(stats_members_spec(s, i, acc) == (if s[e] == 125 {
        Some((store_field(acc, key, n), e + 1))
    } else {
        stats_members_spec(s, e + 1, store_field(acc, key, n))
    }));
}

/// The seven keys are pairwise distinct, clean, and sorted into their
/// parse classes.
proof fn lemma_keys_facts()
    ensures
        clean_key(key_h15()),
        clean_key(key_h1()),
        clean_key(key_h24()),
        clean_key(key_shares()),
        clean_key(key_avg()),
        clean_key(key_cur()),
        clean_key(key_conn()),
        known_key(key_h15()),
        known_key(key_h1()),
        known_key(key_h24()),
        known_key(key_shares()),
        known_key(key_conn()),
        !known_key(key_avg()) && effort_key(key_avg()),
        !known_key(key_cur()) && effort_key(key_cur()),
        key_h1() != key_h15() && key_h24() != key_h15() && key_h24() != key_h1(),
        key_shares() != key_h15() && key_shares() != key_h1() && key_shares() != key_h24(),
        key_avg() != key_h15() && key_avg() != key_h1() && key_avg() != key_h24() && key_avg()
            != key_shares(),
        key_cur() != key_h15() && key_cur() != key_h1() && key_cur() != key_h24() && key_cur()
            != key_shares() && key_cur() != key_avg(),
        key_conn() != key_h15() && key_conn() != key_h1() && key_conn() != key_h24() && key_conn()
            != key_shares() && key_conn() != key_avg() && key_conn() != key_cur(),
{
    reveal_strlit("hashrate_15m");
    reveal_strlit("hashrate_1h");
    reveal_strlit("hashrate_24h");
    reveal_strlit("shares_found");
    reveal_strlit("average_effort");
    reveal_strlit("current_effort");
    reveal_strlit("connections");
    assert(key_h15()[9] != key_h24()[9]);
    assert(key_h15()[0] != key_shares()[0]);
    assert(key_h24()[0] != key_shares()[0]);
    assert(key_avg()[0] != key_cur()[0]);
    assert(key_h1()[0] != key_conn()[0]);
}

/// Peel the head chunk off a known suffix of the text.
proof fn lemma_peel(s: Seq<u8>, off: int, rest: Seq<u8>, head: Seq<u8>, tail: Seq<u8>)
    requires
        0 <= off,
        off + rest.len() == s.len(),
        s.subrange(off, s.len() as int) == rest,
        rest == head + tail,
    ensures
        s.subrange(off, off + head.len()) == head,
        s.subrange(off + head.len(), s.len() as int) == tail,
        head.len() > 0 ==> s[off] == head[0],
{
    let hl = head.len() as int;
    assert forall|k: int| 0 <= k < hl implies #[trigger] s.subrange(off, off + hl)[k]
        == head[k] by {
        assert(s.subrange(off, s.len() as int)[k] == rest[k]);
        assert(s.subrange(off, s.len() as int)[k] == s[off + k]);
    }
    assert(s.subrange(off, off + hl) =~= head);
    assert forall|k: int| 0 <= k < tail.len() implies #[trigger] s.subrange(
        off + hl,
        s.len() as int,
    )[k] == tail[k] by {
        assert(s.subrange(off, s.len() as int)[hl + k] == rest[hl + k]);
        assert(s.subrange(off, s.len() as int)[hl + k] == s[off + hl + k]);
        assert(s.subrange(off + hl, s.len() as int)[k] == s[off + hl + k]);
    }
    assert(s.subrange(off + hl, s.len() as int) =~= tail);
    if head.len() > 0 {
        assert(s.subrange(off, s.len() as int)[0] == rest[0]);
    }
}

/// A sub-segment of an extracted segment reads back from the whole.
proof fn lemma_lift_subrange(s: Seq<u8>, a: int, b: int, piece: Seq<u8>, c: int, d: int)
    requires
        0 <= a <= b <= s.len(),
        s.subrange(a, b) == piece,
        0 <= c <= d <= piece.len(),
    ensures
        s.subrange(a + c, a + d) == piece.subrange(c, d),
{
    assert forall|k: int| 0 <= k < d - c implies #[trigger] s.subrange(a + c, a + d)[k]
        == piece.subrange(c, d)[k] by {
        assert(s.subrange(a, b)[c + k] == s[a + c + k]);
    }
    assert(s.subrange(a + c, a + d) =~= piece.subrange(c, d));
}

/// One serialized chunk reads back as one member: the key is found,
/// the value parses, and the accumulator takes the field.
#[verifier::rlimit(100)]
proof fn lemma_chunk_member(
    s: Seq<u8>,
    o: int,
    key: Seq<u8>,
    vtext: Seq<u8>,
    n: u64,
    acc: PartialStats,
    first: bool,
)
    requires
        0 <= o,
        clean_key(key),
        known_key(key) || effort_key(key),
        known_key(key) ==> vtext == dec_digits(n as nat),
        !known_key(key) && effort_key(key) ==> vtext == milli_text(n as nat),
        o + stats_chunk(key, vtext, first).len() < s.len(),
        s.subrange(o, o + stats_chunk(key, vtext, first).len()) == stats_chunk(
            key,
            vtext,
            first,
        ),
        s[o + stats_chunk(key, vtext, first).len()] == 44 || s[o + stats_chunk(
            key,
            vtext,
            first,
        ).len()] == 125,
    ensures
        ({
            let e = o + stats_chunk(key, vtext, first).len();
            let acc2 = store_field(acc, key, n);
            stats_members_spec(s, o + 1, acc) == if s[e] == 125 {
                Some((acc2, e + 1))
            } else {
                stats_members_spec(s, e + 1, acc2)
            }
        }),
{
    let c = stats_chunk(key, vtext, first);
    let cl = c.len() as int;
    let kl = key.len() as int;
    let vl = vtext.len() as int;
    let piece = seq![(34 as u8)] + key + seq![(34 as u8), (58 as u8)] + vtext;
    assert(cl == 1 + 3 + kl + vl);
    assert(c.subrange(1, cl) =~= piece);
    lemma_lift_subrange(s, o, o + cl, c, 1, cl);
    assert(s.subrange(o + 1, o + cl) == piece);
    if known_key(key) {
        lemma_dec_digits_are_digits(n as nat);
        assert(c.subrange(cl - vl, cl) =~= vtext);
        lemma_lift_subrange(s, o, o + cl, c, cl - vl, cl);
        lemma_parse_u64_inverse(s, o + cl - vl, n);
        assert(is_digit(vtext[0]));
    } else {
        lemma_dec_digits_are_digits((n / 1000) as nat);
        assert(vtext[0] == dec_digits((n / 1000) as nat)[0]);
        assert(c.subrange(cl - vl, cl) =~= vtext);
        lemma_lift_subrange(s, o, o + cl, c, cl - vl, cl);
        lemma_parse_milli_inverse(s, o + cl - vl, n);
        assert(is_digit(vtext[0]));
    }
    lemma_member_step(s, o + 1, key, vtext, n, acc);
}

/// The serialized chunks in place: where each member chunk and each
/// separator byte of a rendered record lies.
#[verifier::rlimit(100)]
#[verifier::spinoff_prover]
proof fn lemma_stats_chunks(v: PrivP2poolApi)
    ensures
        ({
            let s = ser_stats_spec(v);
            let c1 = stats_chunk(key_h15(), dec_digits(v.hashrate_15m as nat), true);
            let c2 = stats_chunk(key_h1(), dec_digits(v.hashrate_1h as nat), false);
            let c3 = stats_chunk(key_h24(), dec_digits(v.hashrate_24h as nat), false);
            let c4 = stats_chunk(key_shares(), dec_digits(v.shares_found as nat), false);
            let c5 = stats_chunk(key_avg(), milli_text(v.average_effort as nat), false);
            let c6 = stats_chunk(key_cur(), milli_text(v.current_effort as nat), false);
            let c7 = stats_chunk(key_conn(), dec_digits(v.connections as nat), false);
            let o2 = c1.len() as int;
            let o3 = o2 + c2.len();
            let o4 = o3 + c3.len();
            let o5 = o4 + c4.len();
            let o6 = o5 + c5.len();
            let o7 = o6 + c6.len();
            let o8 = o7 + c7.len();
            &&& s.len() == o8 + 1
            &&& s.subrange(0, o2) == c1
            &&& s.subrange(o2, o3) == c2
            &&& s.subrange(o3, o4) == c3
            &&& s.subrange(o4, o5) == c4
            &&& s.subrange(o5, o6) == c5
            &&& s.subrange(o6, o7) == c6
            &&& s.subrange(o7, o8) == c7
            &&& s[0] == 123
            &&& s[o2] == 44
            &&& s[o3] == 44
            &&& s[o4] == 44
            &&& s[o5] == 44
            &&& s[o6] == 44
            &&& s[o7] == 44
            &&& s[o8] == 125
        }),
{
    let s = ser_stats_spec(v);
    let k1 = key_h15();
    let k2 = key_h1();
    let k3 = key_h24();
    let k4 = key_shares();
    let k5 = key_avg();
    let k6 = key_cur();
    let k7 = key_conn();
    let d1 = dec_digits(v.hashrate_15m as nat);
    let d2 = dec_digits(v.hashrate_1h as nat);
    let d3 = dec_digits(v.hashrate_24h as nat);
    let d4 = dec_digits(v.shares_found as nat);
    let d5 = milli_text(v.average_effort as nat);
    let d6 = milli_text(v.current_effort as nat);
    let d7 = dec_digits(v.connections as nat);
    let c1 = stats_chunk(k1, d1, true);
    let c2 = stats_chunk(k2, d2, false);
    let c3 = stats_chunk(k3, d3, false);
    let c4 = stats_chunk(k4, d4, false);
    let c5 = stats_chunk(k5, d5, false);
    let c6 = stats_chunk(k6, d6, false);
    let c7 = stats_chunk(k7, d7, false);
    let close = seq![(125 as u8)];
    let o1: int = 0;
    let o2 = o1 + c1.len();
    let o3 = o2 + c2.len();
    let o4 = o3 + c3.len();
    let o5 = o4 + c4.len();
    let o6 = o5 + c5.len();
    let o7 = o6 + c6.len();
    let o8 = o7 + c7.len();
    let r8 = close;
    let r7 = c7 + r8;
    let r6 = c6 + r7;
    let r5 = c5 + r6;
    let r4 = c4 + r5;
    let r3 = c3 + r4;
    let r2 = c2 + r3;
    let r1 = c1 + r2;
    assert(s =~= r1);
    assert(s.subrange(0, s.len() as int) =~= r1);
    lemma_peel(s, o1, r1, c1, r2);
    lemma_peel(s, o2, r2, c2, r3);
    lemma_peel(s, o3, r3, c3, r4);
    lemma_peel(s, o4, r4, c4, r5);
    lemma_peel(s, o5, r5, c5, r6);
    lemma_peel(s, o6, r6, c6, r7);
    lemma_peel(s, o7, r7, c7, r8);
    lemma_peel(s, o8, r8, close, Seq::<u8>::empty());
    assert(c1[0] == 123 && c2[0] == 44 && c3[0] == 44 && c4[0] == 44 && c5[0] == 44 && c6[0] == 44
        && c7[0] == 44);
}

/// Serializing a record and parsing the text gives the record back:
/// the seven retained fields survive the round trip exactly.
#[verifier::rlimit(100)]
#[verifier::spinoff_prover]
pub proof fn lemma_stats_round_trip(v: PrivP2poolApi)
    ensures
        parse_stats_spec(ser_stats_spec(v)) == Some(v),
{
    lemma_keys_facts();
    lemma_stats_chunks(v);
    let s = ser_stats_spec(v);
    let k1 = key_h15();
    let k2 = key_h1();
    let k3 = key_h24();
    let k4 = key_shares();
    let k5 = key_avg();
    let k6 = key_cur();
    let k7 = key_conn();
    let d1 = dec_digits(v.hashrate_15m as nat);
    let d2 = dec_digits(v.hashrate_1h as nat);
    let d3 = dec_digits(v.hashrate_24h as nat);
    let d4 = dec_digits(v.shares_found as nat);
    let d5 = milli_text(v.average_effort as nat);
    let d6 = milli_text(v.current_effort as nat);
    let d7 = dec_digits(v.connections as nat);
    let c1 = stats_chunk(k1, d1, true);
    let c2 = stats_chunk(k2, d2, false);
    let c3 = stats_chunk(k3, d3, false);
    let c4 = stats_chunk(k4, d4, false);
    let c5 = stats_chunk(k5, d5, false);
    let c6 = stats_chunk(k6, d6, false);
    let c7 = stats_chunk(k7, d7, false);
    let o1: int = 0;
    let o2 = o1 + c1.len();
    let o3 = o2 + c2.len();
    let o4 = o3 + c3.len();
    let o5 = o4 + c4.len();
    let o6 = o5 + c5.len();
    let o7 = o6 + c6.len();
    let o8 = o7 + c7.len();
    // walk the members
    let acc0 = empty_partial();
    lemma_chunk_member(s, o1, k1, d1, v.hashrate_15m, acc0, true);
    let acc1 = store_field(acc0, k1, v.hashrate_15m);
    lemma_chunk_member(s, o2, k2, d2, v.hashrate_1h, acc1, false);
    let acc2 = store_field(acc1, k2, v.hashrate_1h);
    lemma_chunk_member(s, o3, k3, d3, v.hashrate_24h, acc2, false);
    let acc3 = store_field(acc2, k3, v.hashrate_24h);
    lemma_chunk_member(s, o4, k4, d4, v.shares_found, acc3, false);
    let acc4 = store_field(acc3, k4, v.shares_found);
    lemma_chunk_member(s, o5, k5, d5, v.average_effort, acc4, false);
    let acc5 = store_field(acc4, k5, v.average_effort);
    lemma_chunk_member(s, o6, k6, d6, v.current_effort, acc5, false);
    let acc6 = store_field(acc5, k6, v.current_effort);
    lemma_chunk_member(s, o7, k7, d7, v.connections as u64, acc6, false);
    let acc7 = store_field(acc6, k7, v.connections as u64);
    assert(stats_members_spec(s, o1 + 1, acc0) == Some((acc7, o8 + 1)));
    // the whole document
    assert(skip_ws_spec(s, 0) == 0);
    assert(skip_ws_spec(s, o8 + 1) == o8 + 1);
    assert(complete_stats(acc7) == Some(v));
}

impl PubP2poolApi {
    /// Fold freshly parsed statistics into the public record, formatting
    /// them for humans; nothing else changes.
    pub fn update_from_priv(public: &mut PubP2poolApi, private: PrivP2poolApi)
        ensures
            final(public).hashrate_15m.0@ == crate::fmt::commas(private.hashrate_15m as nat),
            final(public).hashrate_1h.0@ == crate::fmt::commas(private.hashrate_1h as nat),
            final(public).hashrate_24h.0@ == crate::fmt::commas(private.hashrate_24h as nat),
            final(public).shares_found.0@ == crate::fmt::commas(private.shares_found as nat),
            final(public).average_effort.0@ == crate::human::percent_text(
                private.average_effort as nat,
            ),
            final(public).current_effort.0@ == crate::human::percent_text(
                private.current_effort as nat,
            ),
            final(public).connections.0@ == crate::fmt::commas(private.connections as nat),
            final(public).output@ == old(public).output@,
            final(public).uptime == old(public).uptime,
            final(public).payouts == old(public).payouts,
            final(public).payouts_hour == old(public).payouts_hour,
            final(public).payouts_day == old(public).payouts_day,
            final(public).payouts_month == old(public).payouts_month,
            final(public).xmr == old(public).xmr,
            final(public).xmr_hour == old(public).xmr_hour,
            final(public).xmr_day == old(public).xmr_day,
            final(public).xmr_month == old(public).xmr_month,
    {
        public.hashrate_15m = HumanNumber::from_u64(private.hashrate_15m);
        public.hashrate_1h = HumanNumber::from_u64(private.hashrate_1h);
        public.hashrate_24h = HumanNumber::from_u64(private.hashrate_24h);
        public.shares_found = HumanNumber::from_u64(private.shares_found);
        public.average_effort = HumanNumber::to_percent(private.average_effort);
        public.current_effort = HumanNumber::to_percent(private.current_effort);
        public.connections = HumanNumber::from_u16(private.connections);
    }
}

} // verus!
