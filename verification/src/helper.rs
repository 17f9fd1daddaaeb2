//! The reconciliation tick: once a second the supervisor merges each
//! live process's telemetry into what the UI reads, and refreshes the
//! system readings. Merging always preserves the UI's accumulated
//! console text, appending the new output to it.

use vstd::prelude::*;
use crate::fmt::{ascii, commas, fmt_u64_commas, push_lit};
use crate::human::{HumanTime, human_time_text};
use crate::payout::PubP2poolApi;
use crate::summary::PubXmrigApi;

verus! {

/// System readings shown in the status tab, all pre-rendered text.
#[derive(Clone, Debug)]
pub struct Sys {
    pub gupax_uptime: Vec<u8>,
    pub gupax_cpu_usage: Vec<u8>,
    pub gupax_memory_used_mb: Vec<u8>,
    pub system_cpu_model: Vec<u8>,
    pub system_memory: Vec<u8>,
    pub system_cpu_usage: Vec<u8>,
}

impl Sys {
    /// Fresh readings: zero uptime, everything else unknown.
    pub fn new() -> (r: Sys)
        ensures
            r.gupax_uptime@ == ascii("0 seconds"@),
            r.gupax_cpu_usage@ == ascii("???%"@),
            r.gupax_memory_used_mb@ == ascii("??? megabytes"@),
            r.system_cpu_usage@ == ascii("???%"@),
            r.system_memory@ == ascii("???GB / ???GB"@),
            r.system_cpu_model@ == ascii("???"@),
    {
        proof {
            reveal_strlit("0 seconds");
            reveal_strlit("???%");
            reveal_strlit("??? megabytes");
            reveal_strlit("???GB / ???GB");
            reveal_strlit("???");
        }
        Sys {
            gupax_uptime: crate::fmt::lit("0 seconds"),
            gupax_cpu_usage: crate::fmt::lit("???%"),
            gupax_memory_used_mb: crate::fmt::lit("??? megabytes"),
            system_cpu_model: crate::fmt::lit("???"),
            system_memory: crate::fmt::lit("???GB / ???GB"),
            system_cpu_usage: crate::fmt::lit("???%"),
        }
    }
}

/// Memory shown as whole megabytes with separators and a unit.
pub open spec fn memory_mb_text(bytes: u64) -> Seq<u8> {
    commas((bytes / 1_000_000) as nat) + ascii(" megabytes"@)
}

/// Render a byte count as megabytes.
pub fn format_memory_mb(bytes: u64) -> (r: Vec<u8>)
    ensures
        r@ == memory_mb_text(bytes),
{
    proof {
        reveal_strlit(" megabytes");
    }
    let mut v = fmt_u64_commas(bytes / 1_000_000);
    push_lit(&mut v, " megabytes");
    assert(v@ =~= memory_mb_text(bytes));
    v
}

/// Refresh the system readings. The percentage strings come from the
/// platform probe already rendered; the memory figure is formatted
/// here from the raw byte count.
pub fn update_pub_sys(
    sys: &mut Sys,
    uptime_text: Vec<u8>,
    gupax_cpu: Vec<u8>,
    gupax_memory_bytes: u64,
    cpu_model: Vec<u8>,
    system_memory: Vec<u8>,
    system_cpu: Vec<u8>,
)
    ensures
        final(sys).gupax_uptime@ == uptime_text@,
        final(sys).gupax_cpu_usage@ == gupax_cpu@,
        final(sys).gupax_memory_used_mb@ == memory_mb_text(gupax_memory_bytes),
        final(sys).system_cpu_model@ == cpu_model@,
        final(sys).system_memory@ == system_memory@,
        final(sys).system_cpu_usage@ == system_cpu@,
{
    sys.gupax_uptime = uptime_text;
    sys.gupax_cpu_usage = gupax_cpu;
    sys.gupax_memory_used_mb = format_memory_mb(gupax_memory_bytes);
    sys.system_cpu_model = cpu_model;
    sys.system_memory = system_memory;
    sys.system_cpu_usage = system_cpu;
}

/// One reconciliation tick: merge each live process's telemetry into
/// the UI's record (console preserved by appending, everything else
/// replaced) and refresh the supervisor's uptime text. A dead process's
/// records are left alone.
pub fn reconcile_tick(
    uptime_secs: u64,
    p2pool_alive: bool,
    gui_api_p2pool: &mut PubP2poolApi,
    pub_api_p2pool: &mut PubP2poolApi,
    xmrig_alive: bool,
    gui_api_xmrig: &mut PubXmrigApi,
    pub_api_xmrig: &mut PubXmrigApi,
    sys: &mut Sys,
)
    ensures
        p2pool_alive ==> {
            &&& final(gui_api_p2pool).output@ == old(gui_api_p2pool).output@
                + old(pub_api_p2pool).output@
            &&& final(gui_api_p2pool).payouts == old(pub_api_p2pool).payouts
            &&& final(gui_api_p2pool).payouts_hour == old(pub_api_p2pool).payouts_hour
            &&& final(gui_api_p2pool).payouts_day == old(pub_api_p2pool).payouts_day
            &&& final(gui_api_p2pool).payouts_month == old(pub_api_p2pool).payouts_month
            &&& final(gui_api_p2pool).xmr == old(pub_api_p2pool).xmr
            &&& final(gui_api_p2pool).xmr_hour == old(pub_api_p2pool).xmr_hour
            &&& final(gui_api_p2pool).xmr_day == old(pub_api_p2pool).xmr_day
            &&& final(gui_api_p2pool).xmr_month == old(pub_api_p2pool).xmr_month
            &&& final(gui_api_p2pool).uptime == old(pub_api_p2pool).uptime
            &&& final(gui_api_p2pool).hashrate_15m.0@ == old(pub_api_p2pool).hashrate_15m.0@
            &&& final(gui_api_p2pool).hashrate_1h.0@ == old(pub_api_p2pool).hashrate_1h.0@
            &&& final(gui_api_p2pool).hashrate_24h.0@ == old(pub_api_p2pool).hashrate_24h.0@
            &&& final(gui_api_p2pool).shares_found.0@ == old(pub_api_p2pool).shares_found.0@
            &&& final(gui_api_p2pool).average_effort.0@ == old(pub_api_p2pool).average_effort.0@
            &&& final(gui_api_p2pool).current_effort.0@ == old(pub_api_p2pool).current_effort.0@
            &&& final(gui_api_p2pool).connections.0@ == old(pub_api_p2pool).connections.0@
            &&& final(pub_api_p2pool).output@.len() == 0
        },
        !p2pool_alive ==> *final(gui_api_p2pool) == *old(gui_api_p2pool) && *final(pub_api_p2pool) == *old(pub_api_p2pool),
        xmrig_alive ==> {
            &&& final(gui_api_xmrig).output@ == old(gui_api_xmrig).output@
                + old(pub_api_xmrig).output@
            &&& final(gui_api_xmrig).uptime == old(pub_api_xmrig).uptime
            &&& final(gui_api_xmrig).worker_id@ == old(pub_api_xmrig).worker_id@
            &&& final(gui_api_xmrig).resources.0@ == old(pub_api_xmrig).resources.0@
            &&& final(gui_api_xmrig).hashrate.0@ == old(pub_api_xmrig).hashrate.0@
            &&& final(gui_api_xmrig).pool@ == old(pub_api_xmrig).pool@
            &&& final(gui_api_xmrig).diff.0@ == old(pub_api_xmrig).diff.0@
            &&& final(gui_api_xmrig).accepted.0@ == old(pub_api_xmrig).accepted.0@
            &&& final(gui_api_xmrig).rejected.0@ == old(pub_api_xmrig).rejected.0@
            &&& final(gui_api_xmrig).hashrate_raw == old(pub_api_xmrig).hashrate_raw
            &&& final(gui_api_xmrig).hashrate_raw_1m == old(pub_api_xmrig).hashrate_raw_1m
            &&& final(gui_api_xmrig).hashrate_raw_15m == old(pub_api_xmrig).hashrate_raw_15m
            &&& final(pub_api_xmrig).output@.len() == 0
        },
        !xmrig_alive ==> *final(gui_api_xmrig) == *old(gui_api_xmrig) && *final(pub_api_xmrig) == *old(pub_api_xmrig),
        final(sys).gupax_uptime@ == human_time_text(uptime_secs as nat),
        final(sys).gupax_cpu_usage@ == old(sys).gupax_cpu_usage@,
        final(sys).gupax_memory_used_mb@ == old(sys).gupax_memory_used_mb@,
        final(sys).system_cpu_model@ == old(sys).system_cpu_model@,
        final(sys).system_memory@ == old(sys).system_memory@,
        final(sys).system_cpu_usage@ == old(sys).system_cpu_usage@,
{
    sys.gupax_uptime = HumanTime::into_human(uptime_secs).render();
    if p2pool_alive {
        PubP2poolApi::combine_gui_pub_api(gui_api_p2pool, pub_api_p2pool);
    }
    if xmrig_alive {
        PubXmrigApi::combine_gui_pub_api(gui_api_xmrig, pub_api_xmrig);
    }
}

} // verus!
