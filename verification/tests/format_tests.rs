//! Human formatting: durations, separators, percentages, triplets,
//! the bounded console buffer, and the system readings.

use gupax::buffer::{append_output, check_reset_gui_output};
use gupax::helper::{format_memory_mb, reconcile_tick, Sys};
use gupax::human::{HumanNumber, HumanTime};
use gupax::payout::PubP2poolApi;
use gupax::process::ProcessName;
use gupax::summary::PubXmrigApi;
use gupax::{GUI_OUTPUT_LEEWAY, MAX_GUI_OUTPUT_BYTES};

fn s(v: Vec<u8>) -> String {
    String::from_utf8(v).unwrap()
}

#[test]
fn human_time_zero() {
    assert_eq!(s(HumanTime::new().render()), "0 seconds");
}

#[test]
fn human_time_mixed_units() {
    assert_eq!(
        s(HumanTime::into_human(90_061).render()),
        "1 day, 1 hour, 1 minute, 1 second"
    );
    assert_eq!(s(HumanTime::into_human(2).render()), "2 seconds");
    assert_eq!(s(HumanTime::into_human(3600).render()), "1 hour");
}

#[test]
fn thousands_separators() {
    assert_eq!(s(HumanNumber::from_u64(1_234_567).0), "1,234,567");
    assert_eq!(s(HumanNumber::from_u64(999).0), "999");
    assert_eq!(s(HumanNumber::from_u128(1_000).0), "1,000");
    assert_eq!(s(HumanNumber::unknown().0), "???");
}

#[test]
fn percentages() {
    // thousandths of a percent in, two rounded decimals out
    assert_eq!(s(HumanNumber::to_percent(915_563).0), "915.56%");
    assert_eq!(s(HumanNumber::to_percent(129_297).0), "129.30%");
    // below 0.01% collapses to plain zero
    assert_eq!(s(HumanNumber::to_percent(9).0), "0%");
    assert_eq!(s(HumanNumber::to_percent(10).0), "0.01%");
}

#[test]
fn triplets() {
    let hr = HumanNumber::from_hashrate(&[Some(123_000), Some(311_200), None]);
    assert_eq!(s(hr.0), "[123 H/s, 311 H/s, ??? H/s]");
    let load = HumanNumber::from_load(&[Some(12_000), Some(11_400), None]);
    assert_eq!(s(load.0), "[12.0, 11.4, ???]");
}

#[test]
fn memory_megabytes() {
    assert_eq!(s(format_memory_mb(1_234_567_890)), "1,234 megabytes");
}

// A buffer past the leeway resets to the rotation notice and never
// grows past the cap within an epoch.
#[test]
fn console_buffer_resets() {
    let mut out: Vec<u8> = vec![b'x'; GUI_OUTPUT_LEEWAY + 1];
    check_reset_gui_output(&mut out, ProcessName::P2pool);
    let text = String::from_utf8(out.clone()).unwrap();
    assert!(text.contains("P2Pool GUI log is exceeding the maximum: 500000 bytes!"));
    assert!(text.contains("I've reset the logs for you!"));
    assert!(out.len() <= GUI_OUTPUT_LEEWAY);
    // an epoch's append stays under the cap
    append_output(&mut out, &vec![b'y'; 1000]);
    assert!(out.len() <= MAX_GUI_OUTPUT_BYTES);
}

// A buffer under the leeway is left alone.
#[test]
fn console_buffer_keeps_small_logs() {
    let mut out: Vec<u8> = b"some log line\n".to_vec();
    check_reset_gui_output(&mut out, ProcessName::Xmrig);
    assert_eq!(out, b"some log line\n".to_vec());
}

// The reconciliation merge preserves the UI console as a prefix.
#[test]
fn reconcile_preserves_console_prefix() {
    let mut gui_p = PubP2poolApi::new();
    gui_p.output = b"old pool console\n".to_vec();
    let mut pub_p = PubP2poolApi::new();
    pub_p.output = b"new pool lines\n".to_vec();
    pub_p.payouts = 7;
    let mut gui_x = PubXmrigApi::new();
    gui_x.output = b"old miner console\n".to_vec();
    let mut pub_x = PubXmrigApi::new();
    pub_x.output = b"new miner lines\n".to_vec();
    pub_x.hashrate_raw_15m = 4321;
    let mut sys = Sys::new();
    reconcile_tick(61, true, &mut gui_p, &mut pub_p, true, &mut gui_x, &mut pub_x, &mut sys);
    assert_eq!(
        String::from_utf8(gui_p.output.clone()).unwrap(),
        "old pool console\nnew pool lines\n"
    );
    assert_eq!(gui_p.payouts, 7);
    assert!(pub_p.output.is_empty());
    assert_eq!(
        String::from_utf8(gui_x.output.clone()).unwrap(),
        "old miner console\nnew miner lines\n"
    );
    assert_eq!(gui_x.hashrate_raw_15m, 4321);
    assert_eq!(String::from_utf8(sys.gupax_uptime.clone()).unwrap(), "1 minute, 1 second");
}

// A dead process's records are left alone by the tick.
#[test]
fn reconcile_skips_dead_processes() {
    let mut gui_p = PubP2poolApi::new();
    gui_p.output = b"kept\n".to_vec();
    let mut pub_p = PubP2poolApi::new();
    pub_p.output = b"not merged\n".to_vec();
    let mut gui_x = PubXmrigApi::new();
    let mut pub_x = PubXmrigApi::new();
    let mut sys = Sys::new();
    reconcile_tick(0, false, &mut gui_p, &mut pub_p, false, &mut gui_x, &mut pub_x, &mut sys);
    assert_eq!(gui_p.output, b"kept\n".to_vec());
    assert_eq!(pub_p.output, b"not merged\n".to_vec());
    assert_eq!(String::from_utf8(sys.gupax_uptime).unwrap(), "0 seconds");
}

#[test]
fn sys_defaults() {
    let sys = Sys::new();
    assert_eq!(String::from_utf8(sys.gupax_uptime).unwrap(), "0 seconds");
    assert_eq!(String::from_utf8(sys.gupax_cpu_usage).unwrap(), "???%");
    assert_eq!(String::from_utf8(sys.gupax_memory_used_mb).unwrap(), "??? megabytes");
    assert_eq!(String::from_utf8(sys.system_memory).unwrap(), "???GB / ???GB");
    assert_eq!(String::from_utf8(sys.system_cpu_model).unwrap(), "???");
}
