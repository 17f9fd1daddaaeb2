//! The miner's summary: a large JSON object of which a handful of
//! fields are retained — the worker id, the load-average triplet, the
//! connection's pool, difficulty and share counts, and the hashrate
//! triplet. Members are found by key; everything else is skipped.

use vstd::prelude::*;
use crate::fmt::{ascii, lit};
use crate::json::{skip_ws_spec, skip_ws, string_end_spec, string_end, skip_value_spec,
    skip_value, parse_u64_spec, parse_u64_at, parse_milli_spec, parse_milli_at};
use crate::human::{HumanNumber, HumanTime, unknown_text};

verus! {

/// The start of the value stored under `key` in the object whose
/// members begin at `i` (just past `{` or a comma); nothing when the
/// object closes without the key or is malformed.
pub open spec fn find_member_spec(s: Seq<u8>, i: int, key: Seq<u8>) -> Option<int>
    decreases s.len() - i when 0 <= i <= s.len()
{
    let j = skip_ws_spec(s, i);
    if j >= s.len() {
        None
    } else if s[j] == 125 {
        None
    } else if s[j] != 34 {
        None
    } else {
        match string_end_spec(s, j + 1) {
            None => None,
            Some(ke) => {
                let k = s.subrange(j + 1, ke - 1);
                let c = skip_ws_spec(s, ke);
                if c >= s.len() || s[c] != 58 {
                    None
                } else {
                    let w = skip_ws_spec(s, c + 1);
                    if !(i < w <= s.len()) {
                        None
                    } else if k == key {
                        Some(w)
                    } else {
                        match skip_value_spec(s, w) {
                            None => None,
                            Some(ve) => {
                                if !(i < ve <= s.len()) {
                                    None
                                } else {
                                    let t = skip_ws_spec(s, ve);
                                    if t >= s.len() {
                                        None
                                    } else if s[t] == 44 && i < t + 1 <= s.len() {
                                        find_member_spec(s, t + 1, key)
                                    } else {
                                        None
                                    }
                                }
                            },
                        }
                    }
                }
            },
        }
    }
}

/// Find the value stored under a key.
pub fn find_member(s: &Vec<u8>, i: usize, key: &Vec<u8>) -> (r: Option<usize>)
    requires
        i <= s@.len(),
    ensures
        match r {
            Some(w) => find_member_spec(s@, i as int, key@) == Some(w as int) && i < w
                <= s@.len(),
            None => find_member_spec(s@, i as int, key@) is None,
        },
    decreases s@.len() - i,
{
    let len = s.len();
    let j = skip_ws(s, i);
    if j >= len {
        return None;
    }
    if s[j] == 125 || s[j] != 34 {
        return None;
    }
    let ke = match string_end(s, j + 1) {
        None => {
            return None;
        },
        Some(ke) => ke,
    };
    let c = skip_ws(s, ke);
    if c >= len || s[c] != 58 {
        return None;
    }
    let w = skip_ws(s, c + 1);
    if !(i < w && w <= len) {
        return None;
    }
    if crate::stats::range_eq(s, j + 1, ke - 1, key) {
        return Some(w);
    }
    let ve = match skip_value(s, w) {
        None => {
            return None;
        },
        Some(ve) => ve,
    };
    if !(i < ve && ve <= len) {
        return None;
    }
    let t = skip_ws(s, ve);
    if t >= len {
        return None;
    }
    if s[t] == 44 && i < t + 1 && t + 1 <= len {
        return find_member(s, t + 1, key);
    }
    None
}

/// A string value at `i`: its raw bytes (escapes kept as written) and
/// the position past its closing quote.
pub open spec fn parse_string_spec(s: Seq<u8>, i: int) -> Option<(Seq<u8>, int)> {
    if 0 <= i < s.len() && s[i] == 34 {
        match string_end_spec(s, i + 1) {
            None => None,
            Some(e) => Some((s.subrange(i + 1, e - 1), e)),
        }
    } else {
        None
    }
}

/// Read a string value's raw bytes.
pub fn parse_string_at(s: &Vec<u8>, i: usize) -> (r: Option<(Vec<u8>, usize)>)
    requires
        i <= s@.len(),
    ensures
        match r {
            Some(v) => parse_string_spec(s@, i as int) == Some((v.0@, v.1 as int)),
            None => parse_string_spec(s@, i as int) is None,
        },
{
    let len = s.len();
    if i >= len || s[i] != 34 {
        return None;
    }
    match string_end(s, i + 1) {
        None => None,
        Some(e) => {
            let content = crate::fmt::copy_range(s, i + 1, e - 1);
            Some((content, e))
        },
    }
}

/// One element of a nullable-number triplet: null, or a number in
/// thousandths.
pub open spec fn parse_nullable_spec(s: Seq<u8>, i: int) -> Option<(Option<u64>, int)> {
    if 0 <= i && i + 4 <= s.len() && s[i] == 110 && s[i + 1] == 117 && s[i + 2] == 108 && s[i + 3]
        == 108 {
        Some((None, i + 4))
    } else {
        match parse_milli_spec(s, i) {
            None => None,
            Some(v) => Some((Some(v.0), v.1)),
        }
    }
}

/// Read one nullable number.
pub fn parse_nullable_at(s: &Vec<u8>, i: usize) -> (r: Option<(Option<u64>, usize)>)
    requires
        i <= s@.len(),
    ensures
        match r {
            Some(v) => parse_nullable_spec(s@, i as int) == Some((v.0, v.1 as int)) && v.1
                <= s@.len(),
            None => parse_nullable_spec(s@, i as int) is None,
        },
{
    let len = s.len();
    if len - i >= 4 && s[i] == 110 && s[i + 1] == 117 && s[i + 2] == 108 && s[i + 3] == 108 {
        return Some((None, i + 4));
    }
    match parse_milli_at(s, i) {
        None => None,
        Some(v) => Some((Some(v.0), v.1)),
    }
}

/// A triplet of nullable numbers: `[a, b, c]` with any spacing, each
/// entry null or a number in thousandths.
pub open spec fn parse_triplet_spec(s: Seq<u8>, i: int) -> Option<[Option<u64>; 3]> {
    if !(0 <= i < s.len() && s[i] == 91) {
        None
    } else {
        let p0 = skip_ws_spec(s, i + 1);
        match parse_nullable_spec(s, p0) {
            None => None,
            Some(a) => {
                let c1 = skip_ws_spec(s, a.1);
                if c1 >= s.len() || s[c1] != 44 {
                    None
                } else {
                    let p1 = skip_ws_spec(s, c1 + 1);
                    match parse_nullable_spec(s, p1) {
                        None => None,
                        Some(b) => {
                            let c2 = skip_ws_spec(s, b.1);
                            if c2 >= s.len() || s[c2] != 44 {
                                None
                            } else {
                                let p2 = skip_ws_spec(s, c2 + 1);
                                match parse_nullable_spec(s, p2) {
                                    None => None,
                                    Some(c) => {
                                        let e = skip_ws_spec(s, c.1);
                                        if e >= s.len() || s[e] != 93 {
                                            None
                                        } else {
                                            Some([a.0, b.0, c.0])
                                        }
                                    },
                                }
                            }
                        },
                    }
                }
            },
        }
    }
}

/// Read a nullable-number triplet.
pub fn parse_triplet_at(s: &Vec<u8>, i: usize) -> (r: Option<[Option<u64>; 3]>)
    requires
        i <= s@.len(),
    ensures
        r == parse_triplet_spec(s@, i as int),
{
    let len = s.len();
    if !(i < len && s[i] == 91) {
        return None;
    }
    let p0 = skip_ws(s, i + 1);
    let a = match parse_nullable_at(s, p0) {
        None => {
            return None;
        },
        Some(a) => a,
    };
    let c1 = skip_ws(s, a.1);
    if c1 >= len || s[c1] != 44 {
        return None;
    }
    let p1 = skip_ws(s, c1 + 1);
    let b = match parse_nullable_at(s, p1) {
        None => {
            return None;
        },
        Some(b) => b,
    };
    let c2 = skip_ws(s, b.1);
    if c2 >= len || s[c2] != 44 {
        return None;
    }
    let p2 = skip_ws(s, c2 + 1);
    let c = match parse_nullable_at(s, p2) {
        None => {
            return None;
        },
        Some(c) => c,
    };
    let e = skip_ws(s, c.1);
    if e >= len || s[e] != 93 {
        return None;
    }
    Some([a.0, b.0, c.0])
}

/// The miner's system load averages; entries are thousandths, absent
/// when the miner reported null.
#[derive(Clone, Copy, Debug)]
pub struct Resources {
    pub load_average: [Option<u64>; 3],
}

impl Resources {
    /// All-zero load.
    pub fn new() -> (r: Resources)
        ensures
            r.load_average@[0] == Some(0u64),
            r.load_average@[1] == Some(0u64),
            r.load_average@[2] == Some(0u64),
    {
        Resources { load_average: [Some(0), Some(0), Some(0)] }
    }
}

/// The miner's pool connection: endpoint, difficulty and share counts.
#[derive(Clone, Debug)]
pub struct Connection {
    pub pool: Vec<u8>,
    pub diff: u64,
    pub accepted: u64,
    pub rejected: u64,
}

impl Connection {
    /// A connection to nowhere.
    pub fn new() -> (r: Connection)
        ensures
            r.pool@.len() == 0,
            r.diff == 0,
            r.accepted == 0,
            r.rejected == 0,
    {
        Connection { pool: Vec::new(), diff: 0, accepted: 0, rejected: 0 }
    }
}

/// The miner's hashrate triplet, in thousandths of a hash per second;
/// an entry is absent when the miner reported null.
#[derive(Clone, Copy, Debug)]
pub struct Hashrate {
    pub total: [Option<u64>; 3],
}

impl Hashrate {
    /// All-zero hashrate.
    pub fn new() -> (r: Hashrate)
        ensures
            r.total@[0] == Some(0u64),
            r.total@[1] == Some(0u64),
            r.total@[2] == Some(0u64),
    {
        Hashrate { total: [Some(0), Some(0), Some(0)] }
    }
}

/// What is retained of the miner's summary.
#[derive(Clone, Debug)]
pub struct PrivXmrigApi {
    pub worker_id: Vec<u8>,
    pub resources: Resources,
    pub connection: Connection,
    pub hashrate: Hashrate,
}

/// The retained fields of a summary document: the worker id, the load
/// averages under `resources`, the pool, difficulty and share counts
/// under `connection`, and the totals under `hashrate`. Absent or
/// malformed required fields fail the whole read.
pub open spec fn parse_summary_spec(s: Seq<u8>) -> Option<
    (Seq<u8>, [Option<u64>; 3], Seq<u8>, u64, u64, u64, [Option<u64>; 3]),
> {
    let t0 = skip_ws_spec(s, 0);
    if t0 >= s.len() || s[t0] != 123 {
        None
    } else {
        let top = t0 + 1;
        match find_member_spec(s, top, ascii("worker_id"@)) {
            None => None,
            Some(wp) => match parse_string_spec(s, wp) {
                None => None,
                Some(wid) => match find_member_spec(s, top, ascii("resources"@)) {
                    None => None,
                    Some(rp) => {
                        if !(rp < s.len() && s[rp] == 123) {
                            None
                        } else {
                            match find_member_spec(s, rp + 1, ascii("load_average"@)) {
                                None => None,
                                Some(lp) => match parse_triplet_spec(s, lp) {
                                    None => None,
                                    Some(la) => match find_member_spec(
                                        s,
                                        top,
                                        ascii("connection"@),
                                    ) {
                                        None => None,
                                        Some(cp) => {
                                            if !(cp < s.len() && s[cp] == 123) {
                                                None
                                            } else {
                                                match summary_connection_spec(s, cp + 1) {
                                                    None => None,
                                                    Some(conn) => match find_member_spec(
                                                        s,
                                                        top,
                                                        ascii("hashrate"@),
                                                    ) {
                                                        None => None,
                                                        Some(hp) => {
                                                            if !(hp < s.len() && s[hp] == 123) {
                                                                None
                                                            } else {
                                                                match find_member_spec(
                                                                    s,
                                                                    hp + 1,
                                                                    ascii("total"@),
                                                                ) {
                                                                    None => None,
                                                                    Some(tp) => match
                                                                        parse_triplet_spec(s, tp) {
                                                                        None => None,
                                                                        Some(tot) => Some(
                                                                            (
                                                                                wid.0,
                                                                                la,
                                                                                conn.0,
                                                                                conn.1,
                                                                                conn.2,
                                                                                conn.3,
                                                                                tot,
                                                                            ),
                                                                        ),
                                                                    },
                                                                }
                                                            }
                                                        },
                                                    },
                                                }
                                            }
                                        },
                                    },
                                },
                            }
                        }
                    },
                },
            },
        }
    }
}

/// The connection object's retained fields: pool, diff, accepted,
/// rejected.
pub open spec fn summary_connection_spec(s: Seq<u8>, i: int) -> Option<(Seq<u8>, u64, u64, u64)> {
    if !(0 <= i <= s.len()) {
        None
    } else {
        match find_member_spec(s, i, ascii("pool"@)) {
            None => None,
            Some(pp) => match parse_string_spec(s, pp) {
                None => None,
                Some(pool) => match find_member_spec(s, i, ascii("diff"@)) {
                    None => None,
                    Some(dp) => match parse_u64_spec(s, dp) {
                        None => None,
                        Some(d) => match find_member_spec(s, i, ascii("accepted"@)) {
                            None => None,
                            Some(ap) => match parse_u64_spec(s, ap) {
                                None => None,
                                Some(a) => match find_member_spec(s, i, ascii("rejected"@)) {
                                    None => None,
                                    Some(rp) => match parse_u64_spec(s, rp) {
                                        None => None,
                                        Some(rj) => Some((pool.0, d.0, a.0, rj.0)),
                                    },
                                },
                            },
                        },
                    },
                },
            },
        }
    }
}

impl PrivXmrigApi {
    /// An empty record.
    pub fn new() -> (r: PrivXmrigApi)
        ensures
            r.worker_id@.len() == 0,
    {
        PrivXmrigApi {
            worker_id: Vec::new(),
            resources: Resources::new(),
            connection: Connection::new(),
            hashrate: Hashrate::new(),
        }
    }

    /// Extract the retained fields from a summary document.
    #[verifier::rlimit(60)]
    pub fn from_json(s: &Vec<u8>) -> (r: Option<PrivXmrigApi>)
        ensures
            match r {
                Some(v) => parse_summary_spec(s@) == Some(
                    (
                        v.worker_id@,
                        v.resources.load_average,
                        v.connection.pool@,
                        v.connection.diff,
                        v.connection.accepted,
                        v.connection.rejected,
                        v.hashrate.total,
                    ),
                ),
                None => parse_summary_spec(s@) is None,
            },
    {
        proof {
            reveal_strlit("worker_id");
            reveal_strlit("resources");
            reveal_strlit("load_average");
            reveal_strlit("connection");
            reveal_strlit("pool");
            reveal_strlit("diff");
            reveal_strlit("accepted");
            reveal_strlit("rejected");
            reveal_strlit("hashrate");
            reveal_strlit("total");
        }
        let len = s.len();
        let t0 = skip_ws(s, 0);
        if t0 >= len || s[t0] != 123 {
            return None;
        }
        let top = t0 + 1;
        let wp = match find_member(s, top, &lit("worker_id")) {
            None => {
                return None;
            },
            Some(wp) => wp,
        };
        let wid = match parse_string_at(s, wp) {
            None => {
                return None;
            },
            Some(w) => w.0,
        };
        let rp = match find_member(s, top, &lit("resources")) {
            None => {
                return None;
            },
            Some(rp) => rp,
        };
        if !(rp < len && s[rp] == 123) {
            return None;
        }
        let lp = match find_member(s, rp + 1, &lit("load_average")) {
            None => {
                return None;
            },
            Some(lp) => lp,
        };
        let la = match parse_triplet_at(s, lp) {
            None => {
                return None;
            },
            Some(la) => la,
        };
        let cp = match find_member(s, top, &lit("connection")) {
            None => {
                return None;
            },
            Some(cp) => cp,
        };
        if !(cp < len && s[cp] == 123) {
            return None;
        }
        let pp = match find_member(s, cp + 1, &lit("pool")) {
            None => {
                return None;
            },
            Some(pp) => pp,
        };
        let pool = match parse_string_at(s, pp) {
            None => {
                return None;
            },
            Some(p) => p.0,
        };
        let dp = match find_member(s, cp + 1, &lit("diff")) {
            None => {
                return None;
            },
            Some(dp) => dp,
        };
        let diff = match parse_u64_at(s, dp) {
            None => {
                return None;
            },
            Some(d) => d.0,
        };
        let ap = match find_member(s, cp + 1, &lit("accepted")) {
            None => {
                return None;
            },
            Some(ap) => ap,
        };
        let accepted = match parse_u64_at(s, ap) {
            None => {
                return None;
            },
            Some(a) => a.0,
        };
        let rjp = match find_member(s, cp + 1, &lit("rejected")) {
            None => {
                return None;
            },
            Some(rjp) => rjp,
        };
        let rejected = match parse_u64_at(s, rjp) {
            None => {
                return None;
            },
            Some(rj) => rj.0,
        };
        let hp = match find_member(s, top, &lit("hashrate")) {
            None => {
                return None;
            },
            Some(hp) => hp,
        };
        if !(hp < len && s[hp] == 123) {
            return None;
        }
        let tp = match find_member(s, hp + 1, &lit("total")) {
            None => {
                return None;
            },
            Some(tp) => tp,
        };
        let total = match parse_triplet_at(s, tp) {
            None => {
                return None;
            },
            Some(t) => t,
        };
        Some(
            PrivXmrigApi {
                worker_id: wid,
                resources: Resources { load_average: la },
                connection: Connection { pool, diff, accepted, rejected },
                hashrate: Hashrate { total },
            },
        )
    }
}

/// A nullable triplet entry's rendering: `null`, or the number with
/// its trimmed decimals.
pub open spec fn triplet_entry_text(e: Option<u64>) -> Seq<u8> {
    match e {
        Some(m) => crate::fmt::milli_text(m as nat),
        None => ascii("null"@),
    }
}

/// The pretty rendering of a retained summary, mirroring how the full
/// document's retained fields pretty-print: nested objects indented two
/// spaces per level, triplets one entry to a line.
pub open spec fn ser_summary_pretty_spec(v: PrivXmrigApi) -> Seq<u8> {
    ascii("{\n  \"worker_id\": \""@) + v.worker_id@ + ascii("\",\n  \"resources\": {\n    \"load_average\": [\n      "@)
        + triplet_entry_text(v.resources.load_average@[0]) + ascii(",\n      "@)
        + triplet_entry_text(v.resources.load_average@[1]) + ascii(",\n      "@)
        + triplet_entry_text(v.resources.load_average@[2]) + ascii("\n    ]\n  },\n  \"connection\": {\n    \"pool\": \""@)
        + v.connection.pool@ + ascii("\",\n    \"diff\": "@) + crate::fmt::dec_digits(
        v.connection.diff as nat,
    ) + ascii(",\n    \"accepted\": "@) + crate::fmt::dec_digits(v.connection.accepted as nat)
        + ascii(",\n    \"rejected\": "@) + crate::fmt::dec_digits(v.connection.rejected as nat)
        + ascii("\n  },\n  \"hashrate\": {\n    \"total\": [\n      "@) + triplet_entry_text(
        v.hashrate.total@[0],
    ) + ascii(",\n      "@) + triplet_entry_text(v.hashrate.total@[1]) + ascii(",\n      "@)
        + triplet_entry_text(v.hashrate.total@[2]) + ascii("\n    ]\n  }\n}"@)
}

/// Append one triplet entry's rendering.
fn push_triplet_entry(out: &mut Vec<u8>, e: Option<u64>)
    ensures
        final(out)@ == old(out)@ + triplet_entry_text(e),
{
    match e {
        Some(m) => {
            let mut d = crate::fmt::fmt_milli(m);
            out.append(&mut d);
        },
        None => {
            proof {
                reveal_strlit("null");
            }
            crate::fmt::push_lit(out, "null");
        },
    }
    assert(out@ =~= old(out)@ + triplet_entry_text(e));
}

impl PrivXmrigApi {
    /// Render the retained fields as pretty JSON.
    #[verifier::rlimit(60)]
    pub fn to_json_pretty(&self) -> (r: Vec<u8>)
        ensures
            r@ == ser_summary_pretty_spec(*self),
    {
        proof {
            reveal_strlit("{\n  \"worker_id\": \"");
            reveal_strlit("\",\n  \"resources\": {\n    \"load_average\": [\n      ");
            reveal_strlit(",\n      ");
            reveal_strlit("\n    ]\n  },\n  \"connection\": {\n    \"pool\": \"");
            reveal_strlit("\",\n    \"diff\": ");
            reveal_strlit(",\n    \"accepted\": ");
            reveal_strlit(",\n    \"rejected\": ");
            reveal_strlit("\n  },\n  \"hashrate\": {\n    \"total\": [\n      ");
            reveal_strlit("\n    ]\n  }\n}");
        }
        let mut out: Vec<u8> = Vec::new();
        crate::fmt::push_lit(&mut out, "{\n  \"worker_id\": \"");
        let mut w = self.worker_id.clone();
        assert(w@ == self.worker_id@);
        out.append(&mut w);
        crate::fmt::push_lit(&mut out, "\",\n  \"resources\": {\n    \"load_average\": [\n      ");
        push_triplet_entry(&mut out, self.resources.load_average[0]);
        crate::fmt::push_lit(&mut out, ",\n      ");
        push_triplet_entry(&mut out, self.resources.load_average[1]);
        crate::fmt::push_lit(&mut out, ",\n      ");
        push_triplet_entry(&mut out, self.resources.load_average[2]);
        crate::fmt::push_lit(&mut out, "\n    ]\n  },\n  \"connection\": {\n    \"pool\": \"");
        let mut p = self.connection.pool.clone();
        assert(p@ == self.connection.pool@);
        out.append(&mut p);
        crate::fmt::push_lit(&mut out, "\",\n    \"diff\": ");
        let mut d = crate::fmt::fmt_u64(self.connection.diff);
        out.append(&mut d);
        crate::fmt::push_lit(&mut out, ",\n    \"accepted\": ");
        let mut d = crate::fmt::fmt_u64(self.connection.accepted);
        out.append(&mut d);
        crate::fmt::push_lit(&mut out, ",\n    \"rejected\": ");
        let mut d = crate::fmt::fmt_u64(self.connection.rejected);
        out.append(&mut d);
        crate::fmt::push_lit(&mut out, "\n  },\n  \"hashrate\": {\n    \"total\": [\n      ");
        push_triplet_entry(&mut out, self.hashrate.total[0]);
        crate::fmt::push_lit(&mut out, ",\n      ");
        push_triplet_entry(&mut out, self.hashrate.total[1]);
        crate::fmt::push_lit(&mut out, ",\n      ");
        push_triplet_entry(&mut out, self.hashrate.total[2]);
        crate::fmt::push_lit(&mut out, "\n    ]\n  }\n}");
        assert(out@ =~= ser_summary_pretty_spec(*self));
        out
    }
}

/// The miner's public telemetry: console text, uptime, and the
/// human-formatted retained fields of the latest summary, plus the raw
/// hashrates the donation scheduler reads.
pub struct PubXmrigApi {
    pub output: Vec<u8>,
    pub uptime: HumanTime,
    pub worker_id: Vec<u8>,
    pub resources: HumanNumber,
    pub hashrate: HumanNumber,
    pub pool: Vec<u8>,
    pub diff: HumanNumber,
    pub accepted: HumanNumber,
    pub rejected: HumanNumber,
    /// Instantaneous hashrate, whole hashes per second.
    pub hashrate_raw: u64,
    /// One-minute hashrate, whole hashes per second.
    pub hashrate_raw_1m: u64,
    /// Fifteen-minute hashrate, whole hashes per second.
    pub hashrate_raw_15m: u64,
}

impl PubXmrigApi {
    /// A fresh record: empty console, unknown statistics.
    pub fn new() -> (r: PubXmrigApi)
        ensures
            r.output@.len() == 0,
            r.uptime.0 == 0,
            r.worker_id@ == unknown_text(),
            r.resources.0@ == unknown_text(),
            r.hashrate.0@ == unknown_text(),
            r.pool@ == unknown_text(),
            r.diff.0@ == unknown_text(),
            r.accepted.0@ == unknown_text(),
            r.rejected.0@ == unknown_text(),
            r.hashrate_raw == 0,
            r.hashrate_raw_1m == 0,
            r.hashrate_raw_15m == 0,
    {
        let unknown = HumanNumber::unknown();
        PubXmrigApi {
            output: Vec::new(),
            uptime: HumanTime::new(),
            worker_id: HumanNumber::unknown().0,
            resources: HumanNumber::unknown(),
            hashrate: HumanNumber::unknown(),
            pool: HumanNumber::unknown().0,
            diff: HumanNumber::unknown(),
            accepted: HumanNumber::unknown(),
            rejected: unknown,
            hashrate_raw: 0,
            hashrate_raw_1m: 0,
            hashrate_raw_15m: 0,
        }
    }

    /// Merge the watchdog's record into the UI's: every field moves
    /// over, except that the UI's console is preserved and the incoming
    /// console is appended to it. The watchdog's record resets.
    pub fn combine_gui_pub_api(gui_api: &mut PubXmrigApi, pub_api: &mut PubXmrigApi)
        ensures
            final(gui_api).output@ == old(gui_api).output@ + old(pub_api).output@,
            final(gui_api).uptime == old(pub_api).uptime,
            final(gui_api).worker_id@ == old(pub_api).worker_id@,
            final(gui_api).resources.0@ == old(pub_api).resources.0@,
            final(gui_api).hashrate.0@ == old(pub_api).hashrate.0@,
            final(gui_api).pool@ == old(pub_api).pool@,
            final(gui_api).diff.0@ == old(pub_api).diff.0@,
            final(gui_api).accepted.0@ == old(pub_api).accepted.0@,
            final(gui_api).rejected.0@ == old(pub_api).rejected.0@,
            final(gui_api).hashrate_raw == old(pub_api).hashrate_raw,
            final(gui_api).hashrate_raw_1m == old(pub_api).hashrate_raw_1m,
            final(gui_api).hashrate_raw_15m == old(pub_api).hashrate_raw_15m,
            final(pub_api).output@.len() == 0,
    {
        let mut buf: Vec<u8> = Vec::new();
        core::mem::swap(&mut buf, &mut pub_api.output);
        let mut fresh = PubXmrigApi::new();
        core::mem::swap(pub_api, &mut fresh);
        let mut out: Vec<u8> = Vec::new();
        core::mem::swap(&mut out, &mut gui_api.output);
        out.append(&mut buf);
        fresh.output = out;
        *gui_api = fresh;
    }

    /// Move the console buffer into the record and refresh the uptime.
    pub fn update_from_output(
        public: &mut PubXmrigApi,
        output_pub: &mut Vec<u8>,
        elapsed_secs: u64,
    )
        ensures
            final(public).output@ == old(public).output@ + old(output_pub)@,
            final(output_pub)@.len() == 0,
            final(public).uptime.0 == elapsed_secs,
            final(public).worker_id@ == old(public).worker_id@,
            final(public).resources.0@ == old(public).resources.0@,
            final(public).hashrate.0@ == old(public).hashrate.0@,
            final(public).pool@ == old(public).pool@,
            final(public).diff.0@ == old(public).diff.0@,
            final(public).accepted.0@ == old(public).accepted.0@,
            final(public).rejected.0@ == old(public).rejected.0@,
            final(public).hashrate_raw == old(public).hashrate_raw,
            final(public).hashrate_raw_1m == old(public).hashrate_raw_1m,
            final(public).hashrate_raw_15m == old(public).hashrate_raw_15m,
    {
        let mut buf: Vec<u8> = Vec::new();
        core::mem::swap(&mut buf, output_pub);
        public.output.append(&mut buf);
        public.uptime = HumanTime::into_human(elapsed_secs);
    }

    /// Format the latest summary into the public record: the worker id
    /// and pool verbatim, the triplets and counts for humans, and the
    /// raw hashrates (whole hashes per second) for the scheduler.
    pub fn update_from_priv(public: &mut PubXmrigApi, private: PrivXmrigApi)
        ensures
            final(public).worker_id@ == private.worker_id@,
            final(public).resources.0@ == crate::human::triplet_text(
                crate::human::load_entry(private.resources.load_average@[0]),
                crate::human::load_entry(private.resources.load_average@[1]),
                crate::human::load_entry(private.resources.load_average@[2]),
            ),
            final(public).hashrate.0@ == crate::human::triplet_text(
                crate::human::hashrate_entry(private.hashrate.total@[0]),
                crate::human::hashrate_entry(private.hashrate.total@[1]),
                crate::human::hashrate_entry(private.hashrate.total@[2]),
            ),
            final(public).pool@ == private.connection.pool@,
            final(public).diff.0@ == crate::fmt::commas(private.connection.diff as nat),
            final(public).accepted.0@ == crate::fmt::commas(private.connection.accepted as nat),
            final(public).rejected.0@ == crate::fmt::commas(private.connection.rejected as nat),
            final(public).hashrate_raw == raw_hr(private.hashrate.total@[0]),
            final(public).hashrate_raw_1m == raw_hr(private.hashrate.total@[1]),
            final(public).hashrate_raw_15m == raw_hr(private.hashrate.total@[2]),
            final(public).output@ == old(public).output@,
            final(public).uptime == old(public).uptime,
    {
        public.worker_id = private.worker_id;
        public.resources = HumanNumber::from_load(&private.resources.load_average);
        public.hashrate = HumanNumber::from_hashrate(&private.hashrate.total);
        public.pool = private.connection.pool;
        public.diff = HumanNumber::from_u64(private.connection.diff);
        public.accepted = HumanNumber::from_u64(private.connection.accepted);
        public.rejected = HumanNumber::from_u64(private.connection.rejected);
        public.hashrate_raw = to_raw_hr(private.hashrate.total[0]);
        public.hashrate_raw_1m = to_raw_hr(private.hashrate.total[1]);
        public.hashrate_raw_15m = to_raw_hr(private.hashrate.total[2]);
    }
}

/// A triplet entry as whole hashes per second; null reads as zero.
pub open spec fn raw_hr(e: Option<u64>) -> u64 {
    match e {
        Some(m) => (m / 1000) as u64,
        None => 0,
    }
}

/// Convert one triplet entry to whole hashes per second.
fn to_raw_hr(e: Option<u64>) -> (r: u64)
    ensures
        r == raw_hr(e),
{
    match e {
        Some(m) => m / 1000,
        None => 0,
    }
}

} // verus!
