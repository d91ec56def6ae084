//! The sampling side of the daemon: load percentages derived from successive
//! counter readings, and the updates of one sampling cycle.
use vstd::prelude::*;
use crate::bandwidth::{ceiling_step, percent_of, MaxBW};
use crate::counters::{
    counter_of, cpu_counters_of, mem_info_of, parse_counter, parse_cpu_line, parse_meminfo,
    CpuCounters, NetCounters,
};
use crate::load::{is_percent, LoadData};

verus! {

/// CPU load between two readings: the share of the ticks elapsed that were
/// not idle. `None` where no tick elapsed, or where the counters went
/// backwards or disagree.
pub open spec fn cpu_load_of(prev: CpuCounters, cur: CpuCounters) -> Option<i8> {
    if cur.total > prev.total && cur.idle >= prev.idle && cur.idle - prev.idle <= cur.total
        - prev.total {
        let total = cur.total - prev.total;
        let used = total - (cur.idle - prev.idle);
        Some((used * 100 / total) as i8)
    } else {
        None
    }
}

/// Memory load: the share of memory that is not available. `None` where the
/// figures are inconsistent.
pub open spec fn mem_load_of(total: u64, available: u64) -> Option<i8> {
    if total > 0 && available <= total {
        Some(((total - available) * 100 / total as int) as i8)
    } else {
        None
    }
}

/// Swap load: `-1` where no swap is configured, else the share of swap in use.
pub open spec fn swap_load_of(total: u64, free: u64) -> Option<i8> {
    if total == 0 {
        Some(-1i8)
    } else if free <= total {
        Some(((total - free) * 100 / total as int) as i8)
    } else {
        None
    }
}

/// Bytes per second between two counter readings `elapsed_ms` apart. `None`
/// where no time elapsed, the counter went backwards, or the rate does not
/// fit in a `u64`.
pub open spec fn rate_of(prev: u64, cur: u64, elapsed_ms: u64) -> Option<u64> {
    if elapsed_ms > 0 && cur >= prev && (cur - prev) * 1000 / elapsed_ms as int <= u64::MAX {
        Some(((cur - prev) * 1000 / elapsed_ms as int) as u64)
    } else {
        None
    }
}

/// The time from `then` to `now`, zero where the clock went backwards.
pub open spec fn elapsed(then: u64, now: u64) -> u64 {
    if now >= then {
        (now - then) as u64
    } else {
        0
    }
}

pub open spec fn or_keep(v: Option<i8>, kept: i8) -> i8 {
    match v {
        Some(x) => x,
        None => kept,
    }
}

pub fn cpu_load(prev: CpuCounters, cur: CpuCounters) -> (r: Option<i8>)
    ensures
        r == cpu_load_of(prev, cur),
        r matches Some(v) ==> is_percent(v),
{
    if cur.total > prev.total && cur.idle >= prev.idle && cur.idle - prev.idle <= cur.total
        - prev.total {
        let total: u64 = cur.total - prev.total;
        let used: u64 = total - (cur.idle - prev.idle);
        let p: u128 = used as u128 * 100 / total as u128;
        assert(used as int * 100 / total as int <= 100) by (nonlinear_arith)
            requires
                used <= total,
                total >= 1,
        {
            assert(used as int * 100 <= total as int * 100);
        }
        Some(p as i8)
    } else {
        None
    }
}

/// `(total - part) * 100 / total`, for `part <= total`, `total > 0`.
fn share_used(total: u64, part: u64) -> (r: i8)
    requires
        total > 0,
        part <= total,
    ensures
        r as int == (total - part) * 100 / total as int,
        is_percent(r),
{
    let used: u64 = total - part;
    let p: u128 = used as u128 * 100 / total as u128;
    assert(used as int * 100 / total as int <= 100) by (nonlinear_arith)
        requires
            used <= total,
            total >= 1,
    {
        assert(used as int * 100 <= total as int * 100);
    }
    p as i8
}

pub fn mem_load(total: u64, available: u64) -> (r: Option<i8>)
    ensures
        r == mem_load_of(total, available),
        r matches Some(v) ==> is_percent(v),
{
    if total > 0 && available <= total {
        Some(share_used(total, available))
    } else {
        None
    }
}

pub fn swap_load(total: u64, free: u64) -> (r: Option<i8>)
    ensures
        r == swap_load_of(total, free),
        r matches Some(v) ==> is_percent(v) || v == -1,
{
    if total == 0 {
        Some(-1)
    } else if free <= total {
        Some(share_used(total, free))
    } else {
        None
    }
}

pub fn net_rate(prev: u64, cur: u64, elapsed_ms: u64) -> (r: Option<u64>)
    ensures
        r == rate_of(prev, cur, elapsed_ms),
{
    if elapsed_ms > 0 && cur >= prev {
        let q: u128 = (cur - prev) as u128 * 1000 / elapsed_ms as u128;
        if q <= u64::MAX as u128 {
            Some(q as u64)
        } else {
            None
        }
    } else {
        None
    }
}

/// What the sampler remembers between cycles: when it last read the network
/// counters, and the last CPU and network readings. `None` before the first
/// reading, so that the first cycle only sets the baseline.
#[derive(Clone, Copy, Debug, PartialEq, Eq, Structural)]
pub struct MonitorData {
    pub time_ms: u64,
    pub cpu: Option<CpuCounters>,
    pub net: Option<NetCounters>,
}

/// The CPU load after a cycle that read `cur`.
pub open spec fn next_cpu_load(prev: Option<CpuCounters>, cur: CpuCounters, kept: i8) -> i8 {
    match prev {
        Some(p) => or_keep(cpu_load_of(p, cur), kept),
        None => kept,
    }
}

/// The transmit and receive rates of a cycle that read `cur` at `now_ms`.
pub open spec fn net_rates(md: MonitorData, cur: NetCounters, now_ms: u64) -> Option<(u64, u64)> {
    match md.net {
        Some(p) => {
            let dt = elapsed(md.time_ms, now_ms);
            match (rate_of(p.tx, cur.tx, dt), rate_of(p.rx, cur.rx, dt)) {
                (Some(t), Some(r)) => Some((t, r)),
                _ => None,
            }
        },
        None => None,
    }
}

impl MonitorData {
    /// No readings yet; `now_ms` is the time of start.
    pub fn new(now_ms: u64) -> (r: MonitorData)
        ensures
            r == (MonitorData { time_ms: now_ms, cpu: None, net: None }),
    {
        MonitorData { time_ms: now_ms, cpu: None, net: None }
    }
}

/// One cycle's CPU update from the aggregate CPU line. A malformed line
/// changes nothing; otherwise the reading becomes the baseline, and the CPU
/// load is updated where there was an earlier reading and ticks elapsed.
pub fn update_cpu(md: &mut MonitorData, ld: &mut LoadData, line: &[u8])
    ensures
        cpu_counters_of(line@) is None ==> *final(md) == *old(md) && *final(ld) == *old(ld),
        cpu_counters_of(line@) matches Some(c) ==> {
            &&& *final(md) == (MonitorData { cpu: Some(c), ..*old(md) })
            &&& *final(ld) == (LoadData {
                cpu_load: next_cpu_load(old(md).cpu, c, old(ld).cpu_load),
                ..*old(ld)
            })
        },
        old(ld).wf() ==> final(ld).wf(),
{
    match parse_cpu_line(line) {
        None => {},
        Some(c) => {
            match md.cpu {
                Some(p) => match cpu_load(p, c) {
                    Some(v) => {
                        ld.cpu_load = v;
                    },
                    None => {},
                },
                None => {},
            }
            md.cpu = Some(c);
        },
    }
}

/// One cycle's memory and swap update from the memory table. A malformed
/// table changes nothing; each load is otherwise updated where its figures
/// are consistent.
pub fn update_memswap(ld: &mut LoadData, meminfo: &[u8])
    ensures
        mem_info_of(meminfo@) is None ==> *final(ld) == *old(ld),
        mem_info_of(meminfo@) matches Some(m) ==> *final(ld) == (LoadData {
            mem_load: or_keep(mem_load_of(m.mem_total, m.mem_available), old(ld).mem_load),
            swap_load: or_keep(swap_load_of(m.swap_total, m.swap_free), old(ld).swap_load),
            ..*old(ld)
        }),
        old(ld).wf() ==> final(ld).wf(),
{
    match parse_meminfo(meminfo) {
        None => {},
        Some(m) => {
            match mem_load(m.mem_total, m.mem_available) {
                Some(v) => {
                    ld.mem_load = v;
                },
                None => {},
            }
            match swap_load(m.swap_total, m.swap_free) {
                Some(v) => {
                    ld.swap_load = v;
                },
                None => {},
            }
        },
    }
}

/// One cycle's network update from the transmit and receive counter files,
/// read at `now_ms`. A malformed file changes nothing. Otherwise the readings
/// and the time become the baseline; where there was an earlier reading and
/// time elapsed, both rates raise their ceilings and set the network loads.
pub fn update_netstats(
    md: &mut MonitorData,
    ld: &mut LoadData,
    maxbw: &mut MaxBW,
    tx_text: &[u8],
    rx_text: &[u8],
    now_ms: u64,
)
    requires
        old(maxbw).wf(),
    ensures
        final(maxbw).wf(),
        old(ld).wf() ==> final(ld).wf(),
        counter_of(tx_text@) is None || counter_of(rx_text@) is None ==> {
            &&& *final(md) == *old(md)
            &&& *final(ld) == *old(ld)
            &&& *final(maxbw) == *old(maxbw)
        },
        counter_of(tx_text@) matches Some(t) ==> counter_of(rx_text@) matches Some(r) ==> {
            let cur = NetCounters { tx: t, rx: r };
            &&& *final(md) == (MonitorData { time_ms: now_ms, net: Some(cur), ..*old(md) })
            &&& match net_rates(*old(md), cur, now_ms) {
                Some((tr, rr)) => {
                    &&& final(maxbw).tx == ceiling_step(old(maxbw).tx, tr)
                    &&& final(maxbw).rx == ceiling_step(old(maxbw).rx, rr)
                    &&& *final(ld) == (LoadData {
                        net_out: percent_of(tr, final(maxbw).tx) as i8,
                        net_in: percent_of(rr, final(maxbw).rx) as i8,
                        ..*old(ld)
                    })
                },
                None => *final(maxbw) == *old(maxbw) && *final(ld) == *old(ld),
            }
        },
        elapsed(old(md).time_ms, now_ms) == 0 ==> {
            &&& *final(maxbw) == *old(maxbw)
            &&& final(ld).net_in == old(ld).net_in
            &&& final(ld).net_out == old(ld).net_out
        },
{
    let t = parse_counter(tx_text);
    let r = parse_counter(rx_text);
    match (t, r) {
        (Some(t), Some(r)) => {
            let dt: u64 = if now_ms >= md.time_ms {
                now_ms - md.time_ms
            } else {
                0
            };
            match md.net {
                Some(p) => match (net_rate(p.tx, t, dt), net_rate(p.rx, r, dt)) {
                    (Some(tr), Some(rr)) => {
                        let out = maxbw.observe_tx(tr);
                        let inn = maxbw.observe_rx(rr);
                        ld.net_out = out;
                        ld.net_in = inn;
                    },
                    _ => {},
                },
                None => {},
            }
            md.net = Some(NetCounters { tx: t, rx: r });
            md.time_ms = now_ms;
        },
        _ => {},
    }
}

} // verus!
