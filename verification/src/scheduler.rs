//! The donation scheduler's control arithmetic.
//!
//! Every 600-second epoch the scheduler decides how many seconds of the
//! next epoch the miner should point at the donor pool instead of the
//! user's pool, from the local hashrate, the pool difficulty, and rolling
//! one-hour averages of what was already sent each way. Hashrates are
//! whole hashes per second; every decision is exact integer arithmetic.

use vstd::prelude::*;
use vstd::arithmetic::div_mod::{lemma_div_is_ordered, lemma_div_multiples_vanish,
    lemma_div_nonincreasing};

verus! {

/// Seconds in one scheduler epoch.
pub const XVB_TIME_ALGO: u32 = 600;

/// Seconds the pool takes per block.
pub const SECOND_PER_BLOCK_P2POOL: u64 = 10;

/// Blocks in the payout window on the mini sidechain.
pub const BLOCK_PPLNS_WINDOW_MINI: u64 = 2_160;

/// Blocks in the payout window on the main sidechain.
pub const BLOCK_PPLNS_WINDOW_MAIN: u64 = 2_160;

/// Safety margin on the minimum pool hashrate, in percent.
pub const XVB_BUFFER_PERCENT: u64 = 120;

/// Minimum donated hashrate for the plain donor round.
pub const XVB_ROUND_DONOR_MIN_HR: u64 = 1_000;

/// Minimum donated hashrate for the VIP donor round.
pub const XVB_ROUND_DONOR_VIP_MIN_HR: u64 = 10_000;

/// Minimum donated hashrate for the whale donor round.
pub const XVB_ROUND_DONOR_WHALE_MIN_HR: u64 = 100_000;

/// Minimum donated hashrate for the mega donor round.
pub const XVB_ROUND_DONOR_MEGA_MIN_HR: u64 = 1_000_000;

/// Samples held per rolling hour: one per epoch.
pub const SAMPLES_PER_HOUR: usize = 6;

/// Where the miner can point.
#[derive(Clone, Copy, PartialEq, Eq, Structural, Debug)]
pub enum XvbNode {
    /// The user's own pool.
    P2pool,
    /// The donor pool's normal endpoint.
    DonorNormal,
    /// The donor pool's fast endpoint.
    DonorFast,
}

/// Sum of a sample sequence.
pub open spec fn sum64(s: Seq<u64>) -> nat
    decreases s.len(),
{
    if s.len() == 0 {
        0
    } else {
        (sum64(s.drop_last()) + s.last()) as nat
    }
}

/// Average of a sample sequence, zero when empty.
pub open spec fn avg_spec(s: Seq<u64>) -> nat {
    if s.len() == 0 {
        0
    } else {
        sum64(s) / s.len()
    }
}

/// A rolling window of the last hour's per-epoch hashrate samples. It
/// holds at most one sample per epoch of the hour; pushing onto a full
/// window evicts the oldest sample.
pub struct SamplesAverageHour(pub Vec<u64>);

impl SamplesAverageHour {
    /// The fixed capacity is never exceeded.
    pub open spec fn wf(&self) -> bool {
        self.0@.len() <= SAMPLES_PER_HOUR
    }

    /// An empty window.
    pub fn new() -> (r: SamplesAverageHour)
        ensures
            r.0@.len() == 0,
            r.wf(),
    {
        SamplesAverageHour(Vec::new())
    }

    /// Append a sample; a full window first evicts its oldest sample, so
    /// the capacity holds forever.
    pub fn push(&mut self, x: u64)
        requires
            old(self).wf(),
        ensures
            final(self).wf(),
            old(self).0@.len() < SAMPLES_PER_HOUR ==> final(self).0@ == old(self).0@.push(x),
            old(self).0@.len() == SAMPLES_PER_HOUR ==> final(self).0@ == old(self).0@.skip(1).push(
                x,
            ),
            final(self).0@.len() <= SAMPLES_PER_HOUR,
    {
        if self.0.len() == SAMPLES_PER_HOUR {
            self.0.remove(0);
            assert(self.0@ =~= old(self).0@.skip(1));
        }
        self.0.push(x);
    }

    /// The window's average sample, zero when the window is empty.
    pub fn average(&self) -> (r: u64)
        ensures
            r == avg_spec(self.0@),
    {
        let len = self.0.len();
        if len == 0 {
            return 0;
        }
        let mut acc: u128 = 0;
        let mut i: usize = 0;
        while i < len
            invariant
                i <= len,
                len == self.0@.len(),
                acc == sum64(self.0@.take(i as int)),
                acc <= (i as nat) * (u64::MAX as nat),
            decreases len - i,
        {
            assert(self.0@.take((i + 1) as int).drop_last() =~= self.0@.take(i as int));
            acc = acc + (self.0[i] as u128);
            i = i + 1;
        }
        assert(self.0@.take(len as int) =~= self.0@);
        let a: u128 = acc / (len as u128);
        assert(a <= u64::MAX) by {
            assert(acc <= (len as nat) * (u64::MAX as nat));
            lemma_div_is_ordered(acc as int, (len as nat) * (u64::MAX as nat) as int, len as int);
            lemma_div_multiples_vanish(u64::MAX as int, len as int);
        }
        a as u64
    }
}

/// Average of the last hour's samples, used by the decision below.
pub fn calc_last_hour_avg_hash_rate(samples: &SamplesAverageHour) -> (r: u64)
    ensures
        r == avg_spec(samples.0@),
{
    samples.average()
}

/// The minimum local hashrate that must stay on the user's pool to keep
/// a share in the payout window: the window's difficulty-per-second with
/// a safety margin, less what other sources already contribute.
pub open spec fn min_hashrate_spec(difficulty: u64, mini: bool, ohr: int) -> int {
    let pws = if mini {
        BLOCK_PPLNS_WINDOW_MINI
    } else {
        BLOCK_PPLNS_WINDOW_MAIN
    };
    let base = (difficulty as int) / ((pws * SECOND_PER_BLOCK_P2POOL) as int);
    let buffered = base * (XVB_BUFFER_PERCENT as int) / 100;
    if buffered - ohr < 0 {
        0
    } else if buffered - ohr > u64::MAX {
        u64::MAX as int
    } else {
        buffered - ohr
    }
}

/// Compute the minimum pool-bound hashrate. `ohr` is the hashrate other
/// sources send to the user's address, and may be negative when the
/// rolling average overshoots the pool's own estimate.
pub fn minimum_hashrate_share(difficulty: u64, mini: bool, ohr: i128) -> (r: u64)
    requires
        -(u64::MAX as i128) <= ohr <= u64::MAX as i128,
    ensures
        r == min_hashrate_spec(difficulty, mini, ohr as int),
{
    let pws = if mini {
        BLOCK_PPLNS_WINDOW_MINI
    } else {
        BLOCK_PPLNS_WINDOW_MAIN
    };
    let base: u128 = (difficulty as u128) / ((pws * SECOND_PER_BLOCK_P2POOL) as u128);
    proof {
        lemma_div_nonincreasing(difficulty as int, (pws * SECOND_PER_BLOCK_P2POOL) as int);
        assert(base <= u64::MAX as u128);
        assert(base * (XVB_BUFFER_PERCENT as u128) <= (u64::MAX as u128) * 120)
            by (nonlinear_arith)
            requires
                base <= u64::MAX as u128,
        ;
    }
    let scaled: u128 = base * (XVB_BUFFER_PERCENT as u128);
    let buffered: u128 = scaled / 100;
    proof {
        lemma_div_nonincreasing(scaled as int, 100);
    }
    let m: i128 = (buffered as i128) - ohr;
    if m < 0 {
        0
    } else if m > (u64::MAX as i128) {
        u64::MAX
    } else {
        m as u64
    }
}

/// Seconds of an epoch that can be pointed away from the user's pool
/// without dropping under the minimum: the epoch less the (rounded-up)
/// seconds the minimum demands, and zero when fewer than six seconds
/// would remain to donate.
pub open spec fn spared_time_spec(hr: u64, min_hr: u64) -> nat {
    if hr == 0 {
        0
    } else {
        let required = crate::fmt::ceil_div(600 * (min_hr as nat), hr as nat);
        if required + 6 <= 600 {
            (600 - required) as nat
        } else {
            0
        }
    }
}

/// Compute the spared seconds of the next epoch.
pub fn time_that_could_be_spared(hr: u64, min_hr: u64) -> (r: u32)
    ensures
        r == spared_time_spec(hr, min_hr),
        r <= 600,
        r == 0 || r >= 6,
{
    if hr == 0 {
        return 0;
    }
    let required: u128 = crate::fmt::ceil_div_u128(600 * (min_hr as u128), hr as u128);
    if required + 6 <= 600 {
        (600 - required) as u32
    } else {
        0
    }
}

/// Donor-round tiers, highest demand first, and the smallest donated
/// seconds that still land the highest reachable tier. `hr_for_xvb` is
/// what one second short of the spared time would send; `ohr` is what
/// the donor pool already credits this user from elsewhere.
pub open spec fn tier_time_spec(st: nat, lhr: u64, chr: u64, shr: u64) -> nat {
    let hr_for_xvb = ((st - 1) * (lhr as int)) / 600;
    let ohr = (chr as int) - (shr as int);
    let min_mega = (XVB_ROUND_DONOR_MEGA_MIN_HR as int) - ohr;
    let min_whale = (XVB_ROUND_DONOR_WHALE_MIN_HR as int) - ohr;
    let min_vip = (XVB_ROUND_DONOR_VIP_MIN_HR as int) - ohr;
    let min_donor = (XVB_ROUND_DONOR_MIN_HR as int) - ohr;
    let min = if hr_for_xvb > min_mega {
        min_mega
    } else if hr_for_xvb > min_whale {
        min_whale
    } else if hr_for_xvb > min_vip {
        min_vip
    } else if hr_for_xvb > min_donor {
        min_donor
    } else {
        0
    };
    if min <= 0 {
        0
    } else {
        crate::fmt::ceil_div((600 * min) as nat, lhr as nat)
    }
}

/// Ceiling division stays under a bound the numerator respects.
proof fn lemma_ceil_div_le(a: nat, l: nat, k: nat)
    requires
        l >= 1,
        a <= k * l,
    ensures
        crate::fmt::ceil_div(a, l) <= k,
{
    assert((a + l - 1) as int / l as int <= k as int) by (nonlinear_arith)
        requires
            l >= 1,
            a <= k * l,
    ;
}

/// Shrink the spared time to the smallest donation that still reaches
/// the highest donor tier it can; zero when no tier is reachable.
pub fn minimum_time_for_highest_accessible_round(st: u32, lhr: u64, chr: u64, shr: u64) -> (r:
    u32)
    requires
        6 <= st <= 600,
    ensures
        r == tier_time_spec(st as nat, lhr, chr, shr),
        r < st,
{
    proof {
        assert(((st - 1) as int) * (lhr as int) <= 600 * (u64::MAX as int)) by (nonlinear_arith)
            requires
                6 <= st <= 600,
                lhr <= u64::MAX,
        ;
    }
    let hr_for_xvb: u128 = (((st - 1) as u128) * (lhr as u128)) / 600;
    let hx: i128 = hr_for_xvb as i128;
    let ohr: i128 = (chr as i128) - (shr as i128);
    let min_mega: i128 = (XVB_ROUND_DONOR_MEGA_MIN_HR as i128) - ohr;
    let min_whale: i128 = (XVB_ROUND_DONOR_WHALE_MIN_HR as i128) - ohr;
    let min_vip: i128 = (XVB_ROUND_DONOR_VIP_MIN_HR as i128) - ohr;
    let min_donor: i128 = (XVB_ROUND_DONOR_MIN_HR as i128) - ohr;
    let min: i128 = if hx > min_mega {
        min_mega
    } else if hx > min_whale {
        min_whale
    } else if hx > min_vip {
        min_vip
    } else if hx > min_donor {
        min_donor
    } else {
        return 0;
    };
    if min <= 0 {
        return 0;
    }
    assert(lhr > 0) by {
        assert(hx > min >= 1);
        assert(lhr == 0 ==> hr_for_xvb == 0);
    }
    let donated: u128 = crate::fmt::ceil_div_u128(600 * (min as u128), lhr as u128);
    proof {
        assert(hr_for_xvb * 600 <= ((st - 1) as int) * (lhr as int)) by (nonlinear_arith)
            requires
                lhr > 0,
                hr_for_xvb == (((st - 1) as int) * (lhr as int)) / 600,
                st >= 6,
        ;
        assert((600 * min) as nat <= ((st - 1) as nat) * (lhr as nat)) by (nonlinear_arith)
            requires
                min < hr_for_xvb,
                hr_for_xvb * 600 <= ((st - 1) as int) * (lhr as int),
                min >= 1,
                st >= 6,
        ;
        lemma_ceil_div_le((600 * min) as nat, lhr as nat, (st - 1) as nat);
    }
    donated as u32
}

/// One donation decision: from the local hashrate, the pool's estimate
/// of the user's hashrate, the rolling averages of what this supervisor
/// already sent each way, the pool difficulty and the hero override,
/// the donated seconds of the next epoch.
pub open spec fn donated_time_spec(
    lhr: u64,
    p2pool_ehr: u64,
    sent_pool_avg: u64,
    difficulty: u64,
    mini: bool,
    hero: bool,
    donor_1h_avg: u64,
    sent_donor_avg: u64,
) -> nat {
    let ohr = (p2pool_ehr as int) - (sent_pool_avg as int);
    let min_hr = min_hashrate_spec(difficulty, mini, ohr);
    let spared = spared_time_spec(lhr, min_hr as u64);
    if spared == 0 {
        0
    } else if hero {
        spared
    } else {
        tier_time_spec(spared, lhr, donor_1h_avg, sent_donor_avg)
    }
}

/// Decide the donated seconds of the next epoch. In hero mode the whole
/// spared time is donated; otherwise the donation shrinks to the least
/// that still reaches the highest accessible donor tier.
pub fn calcul_donated_time(
    lhr: u64,
    p2pool_ehr: u64,
    sent_pool: &SamplesAverageHour,
    difficulty: u64,
    mini: bool,
    hero: bool,
    donor_1h_avg: u64,
    sent_donor: &SamplesAverageHour,
) -> (r: u32)
    ensures
        r == donated_time_spec(
            lhr,
            p2pool_ehr,
            avg_spec(sent_pool.0@) as u64,
            difficulty,
            mini,
            hero,
            donor_1h_avg,
            avg_spec(sent_donor.0@) as u64,
        ),
        r <= 600,
{
    let sent_pool_avg = calc_last_hour_avg_hash_rate(sent_pool);
    let ohr: i128 = (p2pool_ehr as i128) - (sent_pool_avg as i128);
    let min_hr = minimum_hashrate_share(difficulty, mini, ohr);
    let spared = time_that_could_be_spared(lhr, min_hr);
    if spared == 0 {
        0
    } else if hero {
        spared
    } else {
        let sent_donor_avg = calc_last_hour_avg_hash_rate(sent_donor);
        minimum_time_for_highest_accessible_round(spared, lhr, donor_1h_avg, sent_donor_avg)
    }
}

/// The whole plan for one scheduler epoch.
pub struct AlgoPlan {
    /// Seconds of the epoch the miner points at the donor pool.
    pub donated: u32,
    /// The local hashrate the decision used.
    pub lhr: u64,
    /// The sample to append to the sent-to-pool window.
    pub sample_pool: u64,
    /// The sample to append to the sent-to-donor window.
    pub sample_donor: u64,
}

/// The local hashrate the scheduler trusts: the 15-minute average when
/// it exists, else the 1-minute average, else the instantaneous reading.
pub open spec fn local_hr_spec(hr_15m: u64, hr_1m: u64, hr_raw: u64) -> u64 {
    if hr_15m > 0 {
        hr_15m
    } else if hr_1m > 0 {
        hr_1m
    } else {
        hr_raw
    }
}

/// One epoch's decision. With no share in the payout window nothing is
/// donated and the pool window records the 15-minute hashrate against a
/// zero donor sample; with a share, the donation is computed and both
/// windows record the split of the measured hashrate.
pub fn algorithm_decide(
    share_in_window: bool,
    hr_15m: u64,
    hr_1m: u64,
    hr_raw: u64,
    p2pool_ehr: u64,
    sent_pool: &SamplesAverageHour,
    difficulty: u64,
    mini: bool,
    hero: bool,
    donor_1h_avg: u64,
    sent_donor: &SamplesAverageHour,
) -> (r: AlgoPlan)
    ensures
        r.donated <= 600,
        !share_in_window ==> r.donated == 0,
        r.lhr == local_hr_spec(hr_15m, hr_1m, hr_raw),
        share_in_window ==> r.donated == donated_time_spec(
            r.lhr,
            p2pool_ehr,
            avg_spec(sent_pool.0@) as u64,
            difficulty,
            mini,
            hero,
            donor_1h_avg,
            avg_spec(sent_donor.0@) as u64,
        ),
        share_in_window ==> r.sample_pool == ((r.lhr as int) * (600 - r.donated as int)) / 600
            && r.sample_donor == ((r.lhr as int) * (r.donated as int)) / 600,
        !share_in_window ==> r.sample_pool == hr_15m && r.sample_donor == 0,
{
    let lhr = if hr_15m > 0 {
        hr_15m
    } else if hr_1m > 0 {
        hr_1m
    } else {
        hr_raw
    };
    if share_in_window {
        let donated = calcul_donated_time(
            lhr,
            p2pool_ehr,
            sent_pool,
            difficulty,
            mini,
            hero,
            donor_1h_avg,
            sent_donor,
        );
        proof {
            assert((lhr as int) * ((600 - donated) as int) <= (u64::MAX as int) * 600
                && (lhr as int) * (donated as int) <= (u64::MAX as int) * 600)
                by (nonlinear_arith)
                requires
                    donated <= 600,
                    lhr <= u64::MAX,
            ;
        }
        let p_pool: u128 = (lhr as u128) * ((600 - donated) as u128);
        let p_donor: u128 = (lhr as u128) * (donated as u128);
        let sample_pool: u128 = p_pool / 600;
        let sample_donor: u128 = p_donor / 600;
        proof {
            lemma_div_is_ordered(p_pool as int, (u64::MAX as int) * 600, 600);
            lemma_div_is_ordered(p_donor as int, (u64::MAX as int) * 600, 600);
            lemma_div_multiples_vanish(u64::MAX as int, 600);
            assert(((u64::MAX as int) * 600) / 600 == u64::MAX);
        }
        AlgoPlan { donated, lhr, sample_pool: sample_pool as u64, sample_donor: sample_donor as u64 }
    } else {
        AlgoPlan { donated: 0, lhr, sample_pool: hr_15m, sample_donor: 0 }
    }
}

/// Whether the epoch must first point the miner back at the user's pool:
/// only when some pool time remains and it is not already there.
pub open spec fn needs_pool_switch(donated: u32, current: Option<XvbNode>) -> bool {
    donated != 600 && current != Some(XvbNode::P2pool)
}

/// Whether, once the pool time has elapsed, the miner must be pointed at
/// the donor: only when something is donated and it still points at the
/// user's pool (or nowhere yet).
pub open spec fn needs_donor_switch(donated: u32, current: Option<XvbNode>) -> bool {
    donated > 0 && (current is None || current == Some(XvbNode::P2pool))
}

/// Decide whether to repoint the miner at the user's pool.
pub fn decide_pool_switch(donated: u32, current: Option<XvbNode>) -> (r: bool)
    ensures
        r == needs_pool_switch(donated, current),
{
    donated != 600 && current != Some(XvbNode::P2pool)
}

/// Decide whether to repoint the miner at the donor pool.
pub fn decide_donor_switch(donated: u32, current: Option<XvbNode>) -> (r: bool)
    ensures
        r == needs_donor_switch(donated, current),
{
    donated > 0 && (current.is_none() || current == Some(XvbNode::P2pool))
}

/// Repointing the miner at the target it already mines on is never
/// requested: a miner on the user's pool is not redirected there, and a
/// miner already on a donor endpoint is not redirected to a donor.
pub proof fn law_reconfigure_idempotent(donated: u32, node: XvbNode)
    ensures
        !needs_pool_switch(donated, Some(XvbNode::P2pool)),
        !(node is P2pool) ==> !needs_donor_switch(donated, Some(node)),
{
}

} // verus!
