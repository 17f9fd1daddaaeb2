//! Payout extraction from the pool's console output, and the pool's
//! public telemetry record.
//!
//! The pool prints one line per payout: `You received a payout of
//! <amount> XMR ...`. The scanner counts those lines and sums the
//! amounts exactly, holding XMR in piconero (10^-12 XMR), and the
//! telemetry record accumulates the totals and derives hourly, daily
//! and monthly projections.

use vstd::prelude::*;
use crate::fmt::{ascii, lit};
use crate::human::{HumanNumber, HumanTime, unknown_text};

verus! {

/// A decimal digit byte.
pub open spec fn is_digit(b: u8) -> bool {
    48 <= b <= 57
}

/// Length of the maximal run of digit bytes starting at `i`.
pub open spec fn digit_run(s: Seq<u8>, i: int) -> int
    decreases s.len() - i when 0 <= i <= s.len()
{
    if i < 0 || i >= s.len() || !is_digit(s[i]) {
        0
    } else {
        1 + digit_run(s, i + 1)
    }
}

/// The fixed text that opens a payout line.
pub open spec fn payout_prefix() -> Seq<u8> {
    ascii("You received a payout of "@)
}

/// The unit that closes a payout amount.
pub open spec fn xmr_suffix() -> Seq<u8> {
    ascii(" XMR"@)
}

/// A payout amount matches at `i`: the prefix, one digit, a dot, at
/// least one more digit (a maximal run), then the XMR unit.
pub open spec fn match_at(s: Seq<u8>, i: int) -> bool {
    let p = payout_prefix().len() as int;
    let run = digit_run(s, i + p + 2);
    &&& 0 <= i
    &&& i + p + 2 <= s.len()
    &&& s.subrange(i, i + p) == payout_prefix()
    &&& is_digit(s[i + p])
    &&& s[i + p + 1] == ('.' as u8)
    &&& run >= 1
    &&& i + p + 2 + run + xmr_suffix().len() <= s.len()
    &&& s.subrange(i + p + 2 + run, i + p + 2 + run + xmr_suffix().len() as int) == xmr_suffix()
}

/// The position just past the match at `i`.
pub open spec fn match_end(s: Seq<u8>, i: int) -> int {
    let p = payout_prefix().len() as int;
    i + p + 2 + digit_run(s, i + p + 2) + xmr_suffix().len()
}

/// Powers of ten.
pub open spec fn pow10(n: nat) -> nat
    decreases n,
{
    if n == 0 {
        1
    } else {
        10 * pow10((n - 1) as nat)
    }
}

/// The matched amount read to `j` fraction digits, Horner fashion: the
/// leading digit, then each of the first twelve fraction slots, missing
/// slots reading zero. At `j == 12` this is the amount in piconero.
pub open spec fn payout_acc(s: Seq<u8>, i: int, j: nat) -> nat
    decreases j,
{
    let p = payout_prefix().len() as int;
    let run = digit_run(s, i + p + 2);
    if j == 0 {
        (s[i + p] - 48) as nat
    } else {
        (payout_acc(s, i, (j - 1) as nat) * 10 + (if j - 1 < run {
            (s[i + p + 2 + j - 1] - 48) as nat
        } else {
            0
        })) as nat
    }
}

/// The matched amount in piconero (10^-12 XMR); fraction digits past
/// the twelfth are dropped.
pub open spec fn payout_value(s: Seq<u8>, i: int) -> nat {
    payout_acc(s, i, 12)
}

/// How many payout lines the text holds, scanning left to right and
/// continuing past each match's end.
pub open spec fn scan_count(s: Seq<u8>, i: int) -> nat
    decreases s.len() - i when 0 <= i
{
    if i >= s.len() {
        0
    } else if match_at(s, i) {
        1 + scan_count(s, match_end(s, i))
    } else {
        scan_count(s, i + 1)
    }
}

/// The sum, in piconero, of all matched payout amounts.
pub open spec fn scan_sum(s: Seq<u8>, i: int) -> nat
    decreases s.len() - i when 0 <= i
{
    if i >= s.len() {
        0
    } else if match_at(s, i) {
        payout_value(s, i) + scan_sum(s, match_end(s, i))
    } else {
        scan_sum(s, i + 1)
    }
}

/// Every position inside a digit run holds a digit.
proof fn lemma_digit_run_digits(s: Seq<u8>, p: int, k: int)
    requires
        0 <= p <= s.len(),
        0 <= k < digit_run(s, p),
    ensures
        is_digit(s[p + k]),
        48 <= s[p + k] <= 57,
    decreases k,
{
    if k > 0 {
        lemma_digit_run_digits(s, p + 1, k - 1);
    }
}

/// A digit run never runs past the end of the text.
proof fn lemma_digit_run_in_range(s: Seq<u8>, p: int)
    requires
        0 <= p <= s.len(),
    ensures
        p + digit_run(s, p) <= s.len(),
        digit_run(s, p) >= 0,
    decreases s.len() - p,
{
    if p < s.len() && is_digit(s[p]) {
        lemma_digit_run_in_range(s, p + 1);
    }
}

/// Each Horner step keeps the amount under its digit budget.
proof fn lemma_payout_acc_bound(s: Seq<u8>, i: int, j: nat)
    requires
        match_at(s, i),
    ensures
        payout_acc(s, i, j) < pow10(j + 1),
    decreases j,
{
    let p = payout_prefix().len() as int;
    let run = digit_run(s, i + p + 2);
    if j == 0 {
        assert(payout_acc(s, i, 0) == (s[i + p] - 48) as nat);
        assert(is_digit(s[i + p]));
        assert(pow10(0) == 1);
        assert(pow10(1) == 10);
    } else {
        lemma_payout_acc_bound(s, i, (j - 1) as nat);
        if j - 1 < run {
            lemma_digit_run_in_range(s, i + p + 2);
            lemma_digit_run_digits(s, i + p + 2, j - 1);
        }
        assert(pow10(j + 1) == 10 * pow10(j));
    }
}

/// The piconero budget of a whole payout amount.
proof fn lemma_pow10_13()
    ensures
        pow10(13) == 10_000_000_000_000,
{
    assert(pow10(0) == 1);
    assert(pow10(1) == 10);
    assert(pow10(2) == 100);
    assert(pow10(3) == 1000);
    assert(pow10(4) == 10000);
    assert(pow10(5) == 100000);
    assert(pow10(6) == 1000000);
    assert(pow10(7) == 10000000);
    assert(pow10(8) == 100000000);
    assert(pow10(9) == 1000000000);
    assert(pow10(10) == 10000000000);
    assert(pow10(11) == 100000000000);
    assert(pow10(12) == 1000000000000);
    assert(pow10(13) == 10000000000000);
}

/// Whether the bytes of `pat` stand at position `i` of `s`.
fn bytes_eq_at(s: &Vec<u8>, i: usize, pat: &Vec<u8>) -> (r: bool)
    requires
        i + pat@.len() <= s@.len(),
    ensures
        r == (s@.subrange(i as int, i as int + pat@.len() as int) == pat@),
{
    let slen = s.len();
    let n = pat.len();
    let mut j: usize = 0;
    while j < n
        invariant
            j <= n,
            n == pat@.len(),
            slen == s@.len(),
            i + n <= s@.len(),
            forall|k: int| 0 <= k < j ==> s@[i + k] == pat@[k],
        decreases n - j,
    {
        if s[i + j] != pat[j] {
            assert(s@.subrange(i as int, i as int + n as int)[j as int] != pat@[j as int]);
            return false;
        }
        j = j + 1;
    }
    assert(s@.subrange(i as int, i as int + n as int) =~= pat@);
    true
}

/// Try to read a payout amount at position `i`; on a match, the amount
/// in piconero and the position just past the match.
fn try_match(s: &Vec<u8>, i: usize, pat: &Vec<u8>, xmr: &Vec<u8>) -> (r: Option<(u64, usize)>)
    requires
        pat@ == payout_prefix(),
        xmr@ == xmr_suffix(),
        i < s@.len(),
    ensures
        match r {
            Some(v) => {
                &&& match_at(s@, i as int)
                &&& v.0 == payout_value(s@, i as int)
                &&& v.1 == match_end(s@, i as int)
                &&& i < v.1 <= s@.len()
                &&& v.0 < 10_000_000_000_000
            },
            None => !match_at(s@, i as int),
        },
{
    let len = s.len();
    let p = pat.len();
    if len - i < 2 || p > len - i - 2 {
        return None;
    }
    if !bytes_eq_at(s, i, pat) {
        return None;
    }
    let d0 = s[i + p];
    if !(48 <= d0 && d0 <= 57) {
        return None;
    }
    if s[i + p + 1] != ('.' as u8) {
        return None;
    }
    // measure the maximal digit run after the dot
    let start = i + p + 2;
    let mut j: usize = start;
    while j < len && 48 <= s[j] && s[j] <= 57
        invariant
            start <= j <= len,
            len == s@.len(),
            digit_run(s@, start as int) == (j - start) + digit_run(s@, j as int),
        decreases len - j,
    {
        j = j + 1;
    }
    assert(digit_run(s@, j as int) == 0);
    let run = j - start;
    if run == 0 {
        assert(!match_at(s@, i as int));
        return None;
    }
    if xmr.len() > len - j {
        assert(!match_at(s@, i as int));
        return None;
    }
    if !bytes_eq_at(s, j, xmr) {
        assert(!match_at(s@, i as int));
        return None;
    }
    assert(match_at(s@, i as int));
    // Horner: the leading digit then twelve fraction slots
    let ghost gi = i as int;
    let mut value: u64 = (d0 - 48) as u64;
    let mut t: usize = 0;
    proof {
        lemma_pow10_13();
    }
    while t < 12
        invariant
            t <= 12,
            match_at(s@, gi),
            gi == i,
            len == s@.len(),
            p == payout_prefix().len(),
            start == i + p + 2,
            run == digit_run(s@, start as int),
            start + run <= len,
            value == payout_acc(s@, gi, t as nat),
            value < 10_000_000_000_000,
            pow10(13) == 10_000_000_000_000,
        decreases 12 - t,
    {
        proof {
            lemma_payout_acc_bound(s@, gi, t as nat);
            lemma_payout_acc_bound(s@, gi, (t + 1) as nat);
            assert(pow10((t + 1) as nat) <= pow10(13)) by {
                lemma_pow10_increases((t + 1) as nat, 13);
            }
            assert(pow10((t + 2) as nat) <= pow10(13)) by {
                lemma_pow10_increases((t + 2) as nat, 13);
            }
        }
        let d: u64 = if t < run {
            proof {
                lemma_digit_run_digits(s@, start as int, t as int);
            }
            (s[start + t] - 48) as u64
        } else {
            0
        };
        value = value * 10 + d;
        t = t + 1;
    }
    Some((value, j + xmr.len()))
}

/// Powers of ten grow with the exponent.
proof fn lemma_pow10_increases(a: nat, b: nat)
    requires
        a <= b,
    ensures
        pow10(a) <= pow10(b),
    decreases b,
{
    if a < b {
        lemma_pow10_increases(a, (b - 1) as nat);
        assert(pow10(b) == 10 * pow10((b - 1) as nat));
    }
}

/// Scan console text for payout lines: how many there are, and their
/// sum in piconero.
pub fn calc_payouts_and_xmr(output: &Vec<u8>) -> (r: (u64, u128))
    ensures
        r.0 == scan_count(output@, 0),
        r.1 == scan_sum(output@, 0),
{
    let pat = make_payout_prefix();
    let xmr = make_xmr_suffix();
    let len = output.len();
    let mut count: u64 = 0;
    let mut sum: u128 = 0;
    let mut i: usize = 0;
    while i < len
        invariant
            i <= len,
            len == output@.len(),
            pat@ == payout_prefix(),
            xmr@ == xmr_suffix(),
            scan_count(output@, 0) == count + scan_count(output@, i as int),
            scan_sum(output@, 0) == sum + scan_sum(output@, i as int),
            count <= i,
            sum <= (i as nat) * 10_000_000_000_000,
        decreases len - i,
    {
        match try_match(output, i, &pat, &xmr) {
            Some(v) => {
                let (value, next) = v;
                count = count + 1;
                sum = sum + (value as u128);
                proof {
                    assert(scan_count(output@, i as int) == 1 + scan_count(output@, next as int));
                    assert(scan_sum(output@, i as int) == payout_value(output@, i as int)
                        + scan_sum(output@, next as int));
                    assert((i as nat) * 10_000_000_000_000 + 10_000_000_000_000 <= (next as nat)
                        * 10_000_000_000_000) by (nonlinear_arith)
                        requires
                            i + 1 <= next,
                    ;
                }
                i = next;
            },
            None => {
                proof {
                    assert(scan_count(output@, i as int) == scan_count(output@, i as int + 1));
                    assert(scan_sum(output@, i as int) == scan_sum(output@, i as int + 1));
                }
                i = i + 1;
            },
        }
    }
    (count, sum)
}

/// The payout line's fixed prefix as owned bytes.
fn make_payout_prefix() -> (r: Vec<u8>)
    ensures
        r@ == payout_prefix(),
{
    proof {
        reveal_strlit("You received a payout of ");
    }
    lit("You received a payout of ")
}

/// The payout line's unit suffix as owned bytes.
fn make_xmr_suffix() -> (r: Vec<u8>)
    ensures
        r@ == xmr_suffix(),
{
    proof {
        reveal_strlit(" XMR");
    }
    lit(" XMR")
}

/// Saturating addition on totals; in practice the totals never come
/// near the bound.
pub open spec fn sat_add(a: nat, b: nat) -> nat {
    if a + b > u128::MAX {
        u128::MAX as nat
    } else {
        a + b
    }
}

/// A projection of `total` events over `elapsed` seconds onto a longer
/// span of `span` seconds, scaled by `scale` for fixed-point precision;
/// zero elapsed time projects to zero.
pub open spec fn project(total: nat, scale: nat, elapsed: nat) -> nat {
    if elapsed == 0 {
        0
    } else if total > (u128::MAX as nat) / scale {
        u128::MAX as nat
    } else {
        (total * scale) / elapsed
    }
}

/// Saturating add on totals.
fn sat_add_u128(a: u128, b: u128) -> (r: u128)
    ensures
        r == sat_add(a as nat, b as nat),
{
    if a <= u128::MAX - b {
        a + b
    } else {
        u128::MAX
    }
}

/// Project a total onto a span with a fixed-point scale.
fn project_u128(total: u128, scale: u128, elapsed: u64) -> (r: u128)
    requires
        scale >= 1,
    ensures
        r == project(total as nat, scale as nat, elapsed as nat),
{
    if elapsed == 0 {
        0
    } else if total > u128::MAX / scale {
        u128::MAX
    } else {
        proof {
            assert(total * scale <= (u128::MAX / scale) * scale) by (nonlinear_arith)
                requires
                    total <= u128::MAX / scale,
                    scale >= 1,
            ;
            assert((u128::MAX / scale) * scale <= u128::MAX) by (nonlinear_arith)
                requires
                    scale >= 1,
            ;
        }
        (total * scale) / (elapsed as u128)
    }
}

/// The pool's public telemetry: console text, uptime, running payout
/// totals with projections, and the human-formatted statistics read
/// from the pool's stats file. XMR amounts are piconero; the payout
/// projections carry three extra decimals.
pub struct PubP2poolApi {
    pub output: Vec<u8>,
    pub uptime: HumanTime,
    pub payouts: u128,
    /// Payouts per hour, in thousandths.
    pub payouts_hour: u128,
    /// Payouts per day, in thousandths.
    pub payouts_day: u128,
    /// Payouts per month (30 days), in thousandths.
    pub payouts_month: u128,
    /// Total XMR received, in piconero.
    pub xmr: u128,
    /// XMR per hour, in piconero.
    pub xmr_hour: u128,
    /// XMR per day, in piconero.
    pub xmr_day: u128,
    /// XMR per month (30 days), in piconero.
    pub xmr_month: u128,
    pub hashrate_15m: HumanNumber,
    pub hashrate_1h: HumanNumber,
    pub hashrate_24h: HumanNumber,
    pub shares_found: HumanNumber,
    pub average_effort: HumanNumber,
    pub current_effort: HumanNumber,
    pub connections: HumanNumber,
}

impl PubP2poolApi {
    /// A fresh record: empty console, zero totals, unknown statistics.
    pub fn new() -> (r: PubP2poolApi)
        ensures
            r.output@.len() == 0,
            r.uptime.0 == 0,
            r.payouts == 0,
            r.payouts_hour == 0,
            r.payouts_day == 0,
            r.payouts_month == 0,
            r.xmr == 0,
            r.xmr_hour == 0,
            r.xmr_day == 0,
            r.xmr_month == 0,
            r.hashrate_15m.0@ == unknown_text(),
            r.hashrate_1h.0@ == unknown_text(),
            r.hashrate_24h.0@ == unknown_text(),
            r.shares_found.0@ == unknown_text(),
            r.average_effort.0@ == unknown_text(),
            r.current_effort.0@ == unknown_text(),
            r.connections.0@ == unknown_text(),
    {
        PubP2poolApi {
            output: Vec::new(),
            uptime: HumanTime::new(),
            payouts: 0,
            payouts_hour: 0,
            payouts_day: 0,
            payouts_month: 0,
            xmr: 0,
            xmr_hour: 0,
            xmr_day: 0,
            xmr_month: 0,
            hashrate_15m: HumanNumber::unknown(),
            hashrate_1h: HumanNumber::unknown(),
            hashrate_24h: HumanNumber::unknown(),
            shares_found: HumanNumber::unknown(),
            average_effort: HumanNumber::unknown(),
            current_effort: HumanNumber::unknown(),
            connections: HumanNumber::unknown(),
        }
    }

    /// Merge the watchdog's record into the UI's: every field moves
    /// over, except that the UI's console is preserved and the incoming
    /// console is appended to it. The watchdog's record resets.
    pub fn combine_gui_pub_api(gui_api: &mut PubP2poolApi, pub_api: &mut PubP2poolApi)
        ensures
            final(gui_api).output@ == old(gui_api).output@ + old(pub_api).output@,
            final(gui_api).uptime == old(pub_api).uptime,
            final(gui_api).payouts == old(pub_api).payouts,
            final(gui_api).payouts_hour == old(pub_api).payouts_hour,
            final(gui_api).payouts_day == old(pub_api).payouts_day,
            final(gui_api).payouts_month == old(pub_api).payouts_month,
            final(gui_api).xmr == old(pub_api).xmr,
            final(gui_api).xmr_hour == old(pub_api).xmr_hour,
            final(gui_api).xmr_day == old(pub_api).xmr_day,
            final(gui_api).xmr_month == old(pub_api).xmr_month,
            final(gui_api).hashrate_15m.0@ == old(pub_api).hashrate_15m.0@,
            final(gui_api).hashrate_1h.0@ == old(pub_api).hashrate_1h.0@,
            final(gui_api).hashrate_24h.0@ == old(pub_api).hashrate_24h.0@,
            final(gui_api).shares_found.0@ == old(pub_api).shares_found.0@,
            final(gui_api).average_effort.0@ == old(pub_api).average_effort.0@,
            final(gui_api).current_effort.0@ == old(pub_api).current_effort.0@,
            final(gui_api).connections.0@ == old(pub_api).connections.0@,
            final(pub_api).output@.len() == 0,
            final(pub_api).payouts == 0,
            final(pub_api).xmr == 0,
    {
        let mut buf: Vec<u8> = Vec::new();
        core::mem::swap(&mut buf, &mut pub_api.output);
        let mut fresh = PubP2poolApi::new();
        core::mem::swap(pub_api, &mut fresh);
        let mut out: Vec<u8> = Vec::new();
        core::mem::swap(&mut out, &mut gui_api.output);
        out.append(&mut buf);
        fresh.output = out;
        *gui_api = fresh;
    }

    /// Consume the parse buffer and fold its payouts into the totals;
    /// move the console buffer into the record; refresh the uptime and
    /// the hour/day/month projections from the new totals.
    pub fn update_from_output(
        public: &mut PubP2poolApi,
        output_parse: &mut Vec<u8>,
        output_pub: &mut Vec<u8>,
        elapsed_secs: u64,
    )
        ensures
            final(public).output@ == old(public).output@ + old(output_pub)@,
            final(public).payouts == sat_add(
                old(public).payouts as nat,
                scan_count(old(output_parse)@, 0),
            ),
            final(public).xmr == sat_add(
                old(public).xmr as nat,
                scan_sum(old(output_parse)@, 0),
            ),
            final(public).payouts_hour == project(
                final(public).payouts as nat,
                3_600_000,
                elapsed_secs as nat,
            ),
            final(public).payouts_day == sat_mul24(final(public).payouts_hour as nat),
            final(public).payouts_month == sat_mul30(final(public).payouts_day as nat),
            final(public).xmr_hour == project(
                final(public).xmr as nat,
                3_600,
                elapsed_secs as nat,
            ),
            final(public).xmr_day == sat_mul24(final(public).xmr_hour as nat),
            final(public).xmr_month == sat_mul30(final(public).xmr_day as nat),
            final(public).uptime.0 == elapsed_secs,
            final(output_parse)@.len() == 0,
            final(output_pub)@.len() == 0,
            final(public).hashrate_15m.0@ == old(public).hashrate_15m.0@,
            final(public).hashrate_1h.0@ == old(public).hashrate_1h.0@,
            final(public).hashrate_24h.0@ == old(public).hashrate_24h.0@,
            final(public).shares_found.0@ == old(public).shares_found.0@,
            final(public).average_effort.0@ == old(public).average_effort.0@,
            final(public).current_effort.0@ == old(public).current_effort.0@,
            final(public).connections.0@ == old(public).connections.0@,
    {
        let mut buf: Vec<u8> = Vec::new();
        core::mem::swap(&mut buf, output_pub);
        public.output.append(&mut buf);
        let counted = calc_payouts_and_xmr(output_parse);
        output_parse.clear();
        let (count, pico) = counted;
        public.payouts = sat_add_u128(public.payouts, count as u128);
        public.xmr = sat_add_u128(public.xmr, pico);
        public.payouts_hour = project_u128(public.payouts, 3_600_000, elapsed_secs);
        public.payouts_day = mul24(public.payouts_hour);
        public.payouts_month = mul30(public.payouts_day);
        public.xmr_hour = project_u128(public.xmr, 3_600, elapsed_secs);
        public.xmr_day = mul24(public.xmr_hour);
        public.xmr_month = mul30(public.xmr_day);
        public.uptime = HumanTime::into_human(elapsed_secs);
    }
}

/// A day is 24 of an hour's projection, saturating.
pub open spec fn sat_mul24(a: nat) -> nat {
    if a * 24 > u128::MAX {
        u128::MAX as nat
    } else {
        a * 24
    }
}

/// A month is 30 of a day's projection, saturating.
pub open spec fn sat_mul30(a: nat) -> nat {
    if a * 30 > u128::MAX {
        u128::MAX as nat
    } else {
        a * 30
    }
}

fn mul24(a: u128) -> (r: u128)
    ensures
        r == sat_mul24(a as nat),
{
    if a <= u128::MAX / 24 {
        proof {
            assert(a * 24 <= (u128::MAX / 24) * 24 <= u128::MAX) by (nonlinear_arith)
                requires
                    a <= u128::MAX / 24,
            ;
        }
        a * 24
    } else {
        proof {
            assert(a * 24 > u128::MAX) by (nonlinear_arith)
                requires
                    a > u128::MAX / 24,
            ;
        }
        u128::MAX
    }
}

fn mul30(a: u128) -> (r: u128)
    ensures
        r == sat_mul30(a as nat),
{
    if a <= u128::MAX / 30 {
        proof {
            assert(a * 30 <= (u128::MAX / 30) * 30 <= u128::MAX) by (nonlinear_arith)
                requires
                    a <= u128::MAX / 30,
            ;
        }
        a * 30
    } else {
        proof {
            assert(a * 30 > u128::MAX) by (nonlinear_arith)
                requires
                    a > u128::MAX / 30,
            ;
        }
        u128::MAX
    }
}

/// Appending to a console never disturbs what stood before: the merged
/// console starts with its pre-merge value.
pub proof fn law_merge_preserves_output_prefix(gui: Seq<u8>, incoming: Seq<u8>)
    ensures
        gui.is_prefix_of(gui + incoming),
{
    assert((gui + incoming).subrange(0, gui.len() as int) =~= gui);
}

} // verus!
