//! The donation scheduler's decisions on concrete inputs, and the
//! rolling sample windows.

use gupax::scheduler::{
    algorithm_decide, calc_last_hour_avg_hash_rate, calcul_donated_time, decide_donor_switch,
    decide_pool_switch, minimum_hashrate_share, minimum_time_for_highest_accessible_round,
    time_that_could_be_spared, SamplesAverageHour, XvbNode,
};

// With a 50 MH difficulty the window needs 2777 H/s of the local 5 kH/s,
// so 266 seconds can be spared; without hero mode the donation then
// shrinks to the 120 seconds that still reach the plain donor round.
#[test]
fn tier_snap_lands_plain_donor_round() {
    let sent_pool = SamplesAverageHour::new();
    let sent_donor = SamplesAverageHour::new();
    let donated = calcul_donated_time(
        5_000,
        0,
        &sent_pool,
        50_000_000,
        true,
        false,
        0,
        &sent_donor,
    );
    assert_eq!(donated, 120);
}

// The same inputs in hero mode donate the whole spared time.
#[test]
fn hero_mode_donates_all_spared_time() {
    let sent_pool = SamplesAverageHour::new();
    let sent_donor = SamplesAverageHour::new();
    let donated = calcul_donated_time(
        5_000,
        0,
        &sent_pool,
        50_000_000,
        true,
        true,
        0,
        &sent_donor,
    );
    assert_eq!(donated, 266);
}

// Without a share in the window nothing is donated and the windows
// record the fifteen-minute hashrate against a zero donor sample.
#[test]
fn no_share_donates_nothing() {
    let sent_pool = SamplesAverageHour::new();
    let sent_donor = SamplesAverageHour::new();
    let plan = algorithm_decide(
        false, 4_000, 3_000, 2_000, 0, &sent_pool, 50_000_000, true, false, 0, &sent_donor,
    );
    assert_eq!(plan.donated, 0);
    assert_eq!(plan.lhr, 4_000);
    assert_eq!(plan.sample_pool, 4_000);
    assert_eq!(plan.sample_donor, 0);
}

// Other sources already covering the window's minimum free the whole
// epoch; the tier snap still shrinks the donation.
#[test]
fn high_outside_hashrate_frees_the_epoch() {
    let sent_pool = SamplesAverageHour::new();
    let sent_donor = SamplesAverageHour::new();
    assert_eq!(minimum_hashrate_share(400_000_000, true, 25_000), 0);
    assert_eq!(time_that_could_be_spared(5_000, 0), 600);
    let donated = calcul_donated_time(
        5_000,
        25_000,
        &sent_pool,
        400_000_000,
        true,
        false,
        0,
        &sent_donor,
    );
    assert_eq!(donated, 120);
}

// A minimum above the local hashrate spares nothing, and a spared time
// under six seconds is discarded.
#[test]
fn spared_time_floors() {
    assert_eq!(time_that_could_be_spared(5_000, 22_222), 0);
    assert_eq!(time_that_could_be_spared(0, 100), 0);
    assert_eq!(time_that_could_be_spared(600, 595), 0);
}

// The tier walk picks the highest reachable round.
#[test]
fn tier_walk_descends() {
    // one second short of 600 at 2 MH/s reaches the mega round
    let d = minimum_time_for_highest_accessible_round(600, 2_000_000, 0, 0);
    assert_eq!(d, 300);
    // nothing reachable at a tiny hashrate
    assert_eq!(minimum_time_for_highest_accessible_round(6, 100, 0, 0), 0);
}

// The decision never exceeds the epoch.
#[test]
fn donated_time_within_epoch() {
    let sent_pool = SamplesAverageHour::new();
    let sent_donor = SamplesAverageHour::new();
    for lhr in [0u64, 1, 10, 5_000, 1_000_000, 50_000_000] {
        let d = calcul_donated_time(lhr, 0, &sent_pool, 50_000_000, true, true, 0, &sent_donor);
        assert!(d <= 600);
    }
}

// The windows hold six samples; a seventh evicts the oldest.
#[test]
fn window_capacity_is_six() {
    let mut w = SamplesAverageHour::new();
    for v in [10u64, 20, 30, 40, 50, 60] {
        w.push(v);
    }
    assert_eq!(w.0.len(), 6);
    assert_eq!(calc_last_hour_avg_hash_rate(&w), 35);
    w.push(70);
    assert_eq!(w.0.len(), 6);
    assert_eq!(w.0[0], 20);
    assert_eq!(w.0[5], 70);
    assert_eq!(calc_last_hour_avg_hash_rate(&w), 45);
}

// An empty window averages to zero.
#[test]
fn empty_window_average() {
    let w = SamplesAverageHour::new();
    assert_eq!(calc_last_hour_avg_hash_rate(&w), 0);
}

// Repointing the miner at the target it already mines on is a no-op.
#[test]
fn reconfigure_is_idempotent() {
    assert!(!decide_pool_switch(120, Some(XvbNode::P2pool)));
    assert!(!decide_donor_switch(120, Some(XvbNode::DonorNormal)));
    assert!(!decide_donor_switch(120, Some(XvbNode::DonorFast)));
    // and the switches that are due do happen
    assert!(decide_pool_switch(120, Some(XvbNode::DonorNormal)));
    assert!(decide_donor_switch(120, Some(XvbNode::P2pool)));
    assert!(decide_donor_switch(120, None));
    assert!(!decide_donor_switch(0, Some(XvbNode::P2pool)));
}
