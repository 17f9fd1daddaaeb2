//! Stats-file and summary parsing edges, the serialization round trip,
//! and payout-scanner edge cases.

use gupax::payout::{calc_payouts_and_xmr, PubP2poolApi};
use gupax::stats::PrivP2poolApi;
use gupax::summary::{PrivXmrigApi, PubXmrigApi};

fn s(v: Vec<u8>) -> String {
    String::from_utf8(v).unwrap()
}

// The seed written to a fresh stats file is the zero record.
#[test]
fn stats_seed_text() {
    let seed = PrivP2poolApi::new().to_json();
    assert_eq!(
        s(seed),
        r#"{"hashrate_15m":0,"hashrate_1h":0,"hashrate_24h":0,"shares_found":0,"average_effort":0.0,"current_effort":0.0,"connections":0}"#
    );
}

// Serializing a record and parsing the text gives the record back.
#[test]
fn stats_round_trip() {
    let v = PrivP2poolApi {
        hashrate_15m: 12,
        hashrate_1h: 11_111,
        hashrate_24h: 468_967,
        shares_found: 289_037,
        average_effort: 915_563,
        current_effort: 129_297,
        connections: 123,
    };
    let text = v.to_json();
    let back = PrivP2poolApi::str_to_priv_p2pool_api(&text).unwrap();
    assert_eq!(back, v);
    // and through the pretty form too
    let back2 = PrivP2poolApi::str_to_priv_p2pool_api(&v.to_json_pretty()).unwrap();
    assert_eq!(back2, v);
    // extremes survive as well
    let edge = PrivP2poolApi {
        hashrate_15m: u64::MAX,
        hashrate_1h: 0,
        hashrate_24h: 1,
        shares_found: 10,
        average_effort: u64::MAX,
        current_effort: 999,
        connections: u16::MAX,
    };
    let back3 = PrivP2poolApi::str_to_priv_p2pool_api(&edge.to_json()).unwrap();
    assert_eq!(back3, edge);
}

// A missing field or malformed text is rejected, never misread.
#[test]
fn stats_rejects_malformed() {
    let missing = br#"{"hashrate_15m":1,"hashrate_1h":2}"#.to_vec();
    assert!(PrivP2poolApi::str_to_priv_p2pool_api(&missing).is_none());
    let trailing = br#"{"hashrate_15m":0,"hashrate_1h":0,"hashrate_24h":0,"shares_found":0,"average_effort":0.0,"current_effort":0.0,"connections":0} extra"#.to_vec();
    assert!(PrivP2poolApi::str_to_priv_p2pool_api(&trailing).is_none());
    let not_json = b"hello".to_vec();
    assert!(PrivP2poolApi::str_to_priv_p2pool_api(&not_json).is_none());
    let too_many_connections = br#"{"hashrate_15m":0,"hashrate_1h":0,"hashrate_24h":0,"shares_found":0,"average_effort":0.0,"current_effort":0.0,"connections":70000}"#.to_vec();
    assert!(PrivP2poolApi::str_to_priv_p2pool_api(&too_many_connections).is_none());
}

// Parsed statistics format into the public record.
#[test]
fn stats_update_public() {
    let v = PrivP2poolApi {
        hashrate_15m: 1_234,
        hashrate_1h: 5,
        hashrate_24h: 0,
        shares_found: 1_000_000,
        average_effort: 95_500,
        current_effort: 5,
        connections: 12,
    };
    let mut public = PubP2poolApi::new();
    PubP2poolApi::update_from_priv(&mut public, v);
    assert_eq!(s(public.hashrate_15m.0), "1,234");
    assert_eq!(s(public.shares_found.0), "1,000,000");
    assert_eq!(s(public.average_effort.0), "95.50%");
    assert_eq!(s(public.current_effort.0), "0%");
    assert_eq!(s(public.connections.0), "12");
}

// An amount that is not a well-formed decimal is skipped, not summed.
#[test]
fn payout_scanner_skips_malformed_amounts() {
    let text = b"You received a payout of 5x000000000001 XMR in block 1\nYou received a payout of 1.5 XMR in block 2\n".to_vec();
    let (count, pico) = calc_payouts_and_xmr(&text);
    assert_eq!(count, 1);
    assert_eq!(pico, 1_500_000_000_000);
}

// Fraction digits past the twelfth are dropped.
#[test]
fn payout_scanner_truncates_excess_precision() {
    let text = b"You received a payout of 0.1234567890129999 XMR\n".to_vec();
    let (count, pico) = calc_payouts_and_xmr(&text);
    assert_eq!(count, 1);
    assert_eq!(pico, 123_456_789_012);
}

// An empty parse buffer leaves the totals alone but appends console
// output and refreshes the uptime.
#[test]
fn update_from_output_with_nothing_to_parse() {
    let mut public = PubP2poolApi::new();
    public.payouts = 2;
    public.xmr = 5;
    public.output = b"a\n".to_vec();
    let mut parse: Vec<u8> = Vec::new();
    let mut pub_buf: Vec<u8> = b"b\n".to_vec();
    PubP2poolApi::update_from_output(&mut public, &mut parse, &mut pub_buf, 10);
    assert_eq!(public.payouts, 2);
    assert_eq!(public.xmr, 5);
    assert_eq!(public.output, b"a\nb\n".to_vec());
    assert!(pub_buf.is_empty());
    assert_eq!(s(public.uptime.render()), "10 seconds");
}

// Zero elapsed time projects to zero instead of dividing by it.
#[test]
fn projections_with_zero_elapsed() {
    let mut public = PubP2poolApi::new();
    let mut parse = b"You received a payout of 1.0 XMR\n".to_vec();
    let mut pub_buf: Vec<u8> = Vec::new();
    PubP2poolApi::update_from_output(&mut public, &mut parse, &mut pub_buf, 0);
    assert_eq!(public.payouts, 1);
    assert_eq!(public.payouts_hour, 0);
    assert_eq!(public.xmr_hour, 0);
}

// Summary extraction tolerates nulls and renders them as unknowns.
#[test]
fn summary_with_nulls() {
    let doc = br#"{
        "worker_id": "rig",
        "resources": { "load_average": [null, 1.5, 2.25] },
        "connection": { "pool": "example:3333", "diff": 9, "accepted": 2, "rejected": 1 },
        "hashrate": { "total": [null, null, 1500.5] }
    }"#
        .to_vec();
    let v = PrivXmrigApi::from_json(&doc).unwrap();
    assert_eq!(v.resources.load_average, [None, Some(1_500), Some(2_250)]);
    assert_eq!(v.hashrate.total, [None, None, Some(1_500_500)]);
    let mut public = PubXmrigApi::new();
    PubXmrigApi::update_from_priv(&mut public, v);
    assert_eq!(s(public.worker_id), "rig");
    assert_eq!(s(public.pool), "example:3333");
    assert_eq!(s(public.resources.0), "[???, 1.5, 2.25]");
    assert_eq!(s(public.hashrate.0), "[??? H/s, ??? H/s, 1,500 H/s]");
    assert_eq!(public.hashrate_raw, 0);
    assert_eq!(public.hashrate_raw_1m, 0);
    assert_eq!(public.hashrate_raw_15m, 1_500);
}

// A summary missing a required field is rejected whole.
#[test]
fn summary_rejects_missing_fields() {
    let doc = br#"{"worker_id": "rig", "resources": { "load_average": [0.0, 0.0, 0.0] }}"#.to_vec();
    assert!(PrivXmrigApi::from_json(&doc).is_none());
    let not_obj = b"[1,2,3]".to_vec();
    assert!(PrivXmrigApi::from_json(&not_obj).is_none());
}

// The miner's console accumulates without disturbing its prefix.
#[test]
fn miner_console_accumulates() {
    let mut public = PubXmrigApi::new();
    public.output = b"first\n".to_vec();
    let mut buf = b"second\n".to_vec();
    PubXmrigApi::update_from_output(&mut public, &mut buf, 90_061);
    assert_eq!(public.output, b"first\nsecond\n".to_vec());
    assert_eq!(s(public.uptime.render()), "1 day, 1 hour, 1 minute, 1 second");
}
