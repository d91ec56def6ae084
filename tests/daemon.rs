use rsysstats::bandwidth::MaxBW;
use rsysstats::counters::{parse_counter, parse_cpu_line, parse_meminfo, CpuCounters, MemInfo, NetCounters};
use rsysstats::load::{max_99, percentage_bar_v, LoadData};
use rsysstats::monitor::{
    cpu_load, mem_load, net_rate, swap_load, update_cpu, update_memswap, update_netstats,
    MonitorData,
};
use rsysstats::protocol::{first_monitored, respond, should_shut_down, Command, MAX_INACTIVE_MS};
use rsysstats::text::{parse_u64, split_fields};

fn sample_load() -> LoadData {
    LoadData { cpu_load: 12, mem_load: 60, swap_load: -1, net_in: 0, net_out: 100 }
}

#[test]
fn cpu_scenario_gives_sixty() {
    let prev = CpuCounters { idle: 100, total: 200 };
    let cur = CpuCounters { idle: 120, total: 250 };
    assert_eq!(cpu_load(prev, cur), Some(60));
}

#[test]
fn cpu_zero_tick_delta_is_skipped() {
    let c = CpuCounters { idle: 100, total: 200 };
    assert_eq!(cpu_load(c, c), None);
    assert_eq!(cpu_load(c, CpuCounters { idle: 90, total: 250 }), None);
    assert_eq!(cpu_load(c, CpuCounters { idle: 300, total: 250 }), None);
}

#[test]
fn cpu_update_from_lines() {
    let mut md = MonitorData::new(0);
    let mut ld = LoadData::new();
    // first reading only sets the baseline
    update_cpu(&mut md, &mut ld, b"cpu  40 0 60 100 0 0 0 0 0 0\n");
    assert_eq!(md.cpu, Some(CpuCounters { idle: 100, total: 200 }));
    assert_eq!(ld.cpu_load, 0);
    update_cpu(&mut md, &mut ld, b"cpu  50 0 80 120 0 0 0 0 0 0\n");
    assert_eq!(md.cpu, Some(CpuCounters { idle: 120, total: 250 }));
    assert_eq!(ld.cpu_load, 60);
    // a malformed line keeps everything
    update_cpu(&mut md, &mut ld, b"cpu  50 x 80 120\n");
    assert_eq!(md.cpu, Some(CpuCounters { idle: 120, total: 250 }));
    assert_eq!(ld.cpu_load, 60);
}

#[test]
fn cpu_line_parsing() {
    assert_eq!(
        parse_cpu_line(b"cpu  1135143 2962258 1385972 13764304 29072 11 5709 0 0 0"),
        Some(CpuCounters { idle: 13764304, total: 1135143 + 2962258 + 1385972 + 13764304 + 29072 + 11 + 5709 })
    );
    assert_eq!(parse_cpu_line(b"cpu 1 2 3"), None);
    assert_eq!(parse_cpu_line(b""), None);
    assert_eq!(parse_cpu_line(b"cpu 18446744073709551615 1 0 0"), None);
}

#[test]
fn memory_scenario_gives_sixty_and_no_swap() {
    assert_eq!(mem_load(1000, 400), Some(60));
    assert_eq!(swap_load(0, 0), Some(-1));
    assert_eq!(swap_load(1000, 250), Some(75));
    assert_eq!(mem_load(0, 0), None);
    assert_eq!(mem_load(100, 200), None);
    assert_eq!(swap_load(100, 200), None);
}

#[test]
fn memswap_update_from_table() {
    let text = b"MemTotal:       1000 kB\nMemFree:         100 kB\nMemAvailable:    400 kB\nBuffers:  1 kB\nSwapCached:            0 kB\nSwapTotal:             0 kB\nSwapFree:              0 kB\n";
    assert_eq!(
        parse_meminfo(text),
        Some(MemInfo { mem_total: 1000, mem_available: 400, swap_total: 0, swap_free: 0 })
    );
    let mut ld = LoadData::new();
    update_memswap(&mut ld, text);
    assert_eq!(ld.mem_load, 60);
    assert_eq!(ld.swap_load, -1);
    // a table without its swap lines changes nothing
    let mut ld2 = sample_load();
    update_memswap(&mut ld2, b"MemTotal: 1000 kB\nMemAvailable: 10 kB\n");
    assert_eq!(ld2, sample_load());
}

#[test]
fn network_scenario_sets_ceiling_and_full_load() {
    let mut md = MonitorData { time_ms: 0, cpu: None, net: Some(NetCounters { tx: 1000, rx: 500 }) };
    let mut ld = LoadData::new();
    let mut bw = MaxBW::new();
    update_netstats(&mut md, &mut ld, &mut bw, b"2000\n", b"500\n", 1000);
    assert_eq!(bw.tx, 1000);
    assert_eq!(bw.rx, 1);
    assert_eq!(ld.net_out, 100);
    assert_eq!(ld.net_in, 0);
    assert_eq!(md.net, Some(NetCounters { tx: 2000, rx: 500 }));
    assert_eq!(md.time_ms, 1000);
    // half the ceiling next time
    update_netstats(&mut md, &mut ld, &mut bw, b"2500\n", b"500\n", 2000);
    assert_eq!(bw.tx, 1000);
    assert_eq!(ld.net_out, 50);
}

#[test]
fn network_zero_elapsed_keeps_loads() {
    let mut md = MonitorData { time_ms: 700, cpu: None, net: Some(NetCounters { tx: 1000, rx: 1000 }) };
    let mut ld = sample_load();
    let mut bw = MaxBW { tx: 5, rx: 7 };
    update_netstats(&mut md, &mut ld, &mut bw, b"9000", b"9000", 700);
    assert_eq!(ld, sample_load());
    assert_eq!(bw, MaxBW { tx: 5, rx: 7 });
    assert_eq!(md.net, Some(NetCounters { tx: 9000, rx: 9000 }));
    assert_eq!(net_rate(1000, 9000, 0), None);
}

#[test]
fn network_first_reading_is_baseline_only() {
    let mut md = MonitorData::new(0);
    let mut ld = sample_load();
    let mut bw = MaxBW::new();
    update_netstats(&mut md, &mut ld, &mut bw, b"123456", b"654321", 500);
    assert_eq!(ld, sample_load());
    assert_eq!(bw, MaxBW::new());
    assert_eq!(md.net, Some(NetCounters { tx: 123456, rx: 654321 }));
    // an unreadable counter changes nothing
    let before = md;
    update_netstats(&mut md, &mut ld, &mut bw, b"12 34", b"654321", 900);
    assert_eq!(md, before);
}

#[test]
fn rates() {
    assert_eq!(net_rate(1000, 2000, 1000), Some(1000));
    assert_eq!(net_rate(0, 3, 2000), Some(1));
    assert_eq!(net_rate(2000, 1000, 1000), None);
    assert_eq!(net_rate(0, u64::MAX, 1), None);
}

#[test]
fn ceiling_follows_maximum() {
    let mut bw = MaxBW::new();
    assert_eq!(bw.observe_tx(50), 100);
    assert_eq!(bw.observe_tx(25), 50);
    assert_eq!(bw.observe_tx(200), 100);
    assert_eq!(bw.observe_tx(10), 5);
    assert_eq!(bw.tx, 200);
    assert_eq!(bw.observe_rx(0), 0);
    assert_eq!(bw.rx, 1);
    assert_eq!(bw.observe_rx(u64::MAX), 100);
    assert_eq!(bw.observe_rx(u64::MAX / 2), 49);
}

#[test]
fn reset_twice_is_reset_once() {
    let ld = sample_load();
    let mut bw = MaxBW { tx: 900, rx: 40 };
    assert_eq!(respond(Command::from_byte(b'm'), &ld, &mut bw), None);
    assert_eq!(bw, MaxBW { tx: 1, rx: 1 });
    assert_eq!(respond(Command::from_byte(b'm'), &ld, &mut bw), None);
    assert_eq!(bw, MaxBW { tx: 1, rx: 1 });
}

#[test]
fn read_replies_with_snapshot() {
    let ld = sample_load();
    let mut bw = MaxBW { tx: 900, rx: 40 };
    let reply = respond(Command::from_byte(b'r'), &ld, &mut bw);
    assert_eq!(reply, Some([12, 60, 255, 0, 100]));
    assert_eq!(bw, MaxBW { tx: 900, rx: 40 });
    assert_eq!(LoadData::from_bytes(reply.unwrap()), ld);
}

#[test]
fn unknown_command_is_ignored() {
    let ld = sample_load();
    let mut bw = MaxBW { tx: 3, rx: 4 };
    assert_eq!(Command::from_byte(b'x'), Command::Unknown(b'x'));
    assert_eq!(respond(Command::from_byte(b'x'), &ld, &mut bw), None);
    assert_eq!(bw, MaxBW { tx: 3, rx: 4 });
}

#[test]
fn idle_shutdown_threshold() {
    assert_eq!(MAX_INACTIVE_MS, 5000);
    assert!(should_shut_down(1000, 6001));
    assert!(!should_shut_down(1000, 6000));
    assert!(!should_shut_down(1000, 2000));
    assert!(!should_shut_down(9000, 1000));
}

#[test]
fn bytes_round_trip() {
    let ld = LoadData { cpu_load: 100, mem_load: 0, swap_load: -1, net_in: 7, net_out: 99 };
    assert_eq!(ld.to_bytes(), [100, 0, 255, 7, 99]);
    assert_eq!(LoadData::from_bytes(ld.to_bytes()), ld);
}

#[test]
fn decimal_parsing() {
    assert_eq!(parse_u64(b"0"), Some(0));
    assert_eq!(parse_u64(b"18446744073709551615"), Some(u64::MAX));
    assert_eq!(parse_u64(b"18446744073709551616"), None);
    assert_eq!(parse_u64(b""), None);
    assert_eq!(parse_u64(b"12a"), None);
    assert_eq!(parse_u64(b"-1"), None);
    assert_eq!(parse_counter(b"  42\n"), Some(42));
    assert_eq!(parse_counter(b"\n"), None);
}

#[test]
fn field_splitting() {
    let f = split_fields(b"  cpu\t12  3\n");
    assert_eq!(f, vec![b"cpu".to_vec(), b"12".to_vec(), b"3".to_vec()]);
    assert!(split_fields(b" \n ").is_empty());
}

#[test]
fn bars_and_caps() {
    assert_eq!(percentage_bar_v(0), ' ');
    assert_eq!(percentage_bar_v(12), ' ');
    assert_eq!(percentage_bar_v(13), '\u{2581}');
    assert_eq!(percentage_bar_v(50), '\u{2584}');
    assert_eq!(percentage_bar_v(100), '\u{2588}');
    assert_eq!(max_99(100), 99);
    assert_eq!(max_99(42), 42);
    assert_eq!(max_99(-1), -1);
}

#[test]
fn interface_choice_skips_loopback() {
    let names = vec![b"lo".to_vec(), b"eth0".to_vec(), b"wlan0".to_vec()];
    assert_eq!(first_monitored(&names), Some(1));
    assert_eq!(first_monitored(&vec![b"lo".to_vec()]), None);
}
