use telemetry::cache::{SnapshotCache, CACHE_TTL_NS};
use telemetry::gpu::{GpuProbe, GpuReading};
use telemetry::rate::{compute_rate, net_sample, InterfaceCounters, NetRate, NetSample, RateTracker};
use telemetry::readings::{cpu_stats, disk_stats, memory_stats, usage_of, CpuReading, VolumeSpace};
use telemetry::monitor::{HostReadings, Telemetry};

const GIB: u64 = 1024 * 1024 * 1024;
const SEC: u64 = 1_000_000_000;

fn readings(rx: u64, tx: u64) -> HostReadings {
    HostReadings {
        cpus: vec![
            CpuReading { brand: "Test CPU".to_string(), usage: 2500 },
            CpuReading { brand: "Test CPU".to_string(), usage: 7500 },
        ],
        memory_total_bytes: 16 * GIB,
        memory_used_bytes: 4 * GIB,
        memory_available_bytes: 12 * GIB,
        volumes: vec![VolumeSpace { total_bytes: 100 * GIB, available_bytes: 40 * GIB }],
        interfaces: vec![InterfaceCounters { received: rx, transmitted: tx }],
    }
}

fn sample(at_ns: u64, rx: u64, tx: u64) -> NetSample {
    NetSample { at_ns, rx_bytes: rx, tx_bytes: tx }
}

#[test]
fn first_reading_reports_zero() {
    let mut t = RateTracker::new();
    let r = t.update(sample(5 * SEC, 1 << 40, 1 << 30));
    assert_eq!(r, NetRate { down_kbps: 0, up_kbps: 0 });
    assert_eq!(t.last, Some(sample(5 * SEC, 1 << 40, 1 << 30)));
}

#[test]
fn rate_is_floor_of_kilobytes_per_second() {
    let r = compute_rate(Some(sample(0, 0, 0)), sample(SEC, 10240, 3072));
    assert_eq!(r, NetRate { down_kbps: 10, up_kbps: 3 });
    let r = compute_rate(Some(sample(SEC, 1000, 0)), sample(3 * SEC, 1000 + 3072, 1023));
    assert_eq!(r, NetRate { down_kbps: 1, up_kbps: 0 });
    let r = compute_rate(Some(sample(0, 0, 0)), sample(SEC / 2, 1024, 0));
    assert_eq!(r.down_kbps, 2);
}

#[test]
fn counter_reset_reports_zero_and_moves_baseline() {
    let mut t = RateTracker::new();
    t.update(sample(0, 5000, 5000));
    let r = t.update(sample(SEC, 100, 5000 + 2048));
    assert_eq!(r, NetRate { down_kbps: 0, up_kbps: 2 });
    assert_eq!(t.last, Some(sample(SEC, 100, 5000 + 2048)));
}

#[test]
fn no_elapsed_time_reports_zero() {
    let r = compute_rate(Some(sample(SEC, 0, 0)), sample(SEC, 1 << 20, 1 << 20));
    assert_eq!(r, NetRate { down_kbps: 0, up_kbps: 0 });
    let r = compute_rate(Some(sample(2 * SEC, 0, 0)), sample(SEC, 1 << 20, 1 << 20));
    assert_eq!(r, NetRate { down_kbps: 0, up_kbps: 0 });
}

#[test]
fn huge_rate_is_capped() {
    let r = compute_rate(Some(sample(0, 0, 0)), sample(1, u64::MAX, 0));
    assert_eq!(r.down_kbps, u64::MAX);
}

#[test]
fn interface_counters_are_summed() {
    let s = net_sample(
        &vec![
            InterfaceCounters { received: 10, transmitted: 1 },
            InterfaceCounters { received: 20, transmitted: u64::MAX },
        ],
        7,
    );
    assert_eq!(s, sample(7, 30, u64::MAX));
}

#[test]
fn usage_shares() {
    assert_eq!(usage_of(1, 3), 3333);
    assert_eq!(usage_of(5, 0), 0);
    assert_eq!(usage_of(9, 4), 10000);
}

#[test]
fn memory_figures_in_megabytes() {
    let m = memory_stats(8 * GIB, 2 * GIB, 6 * GIB);
    assert_eq!((m.total_mb, m.used_mb, m.available_mb, m.usage), (8192, 2048, 6144, 2500));
    let empty = memory_stats(0, 0, 0);
    assert_eq!(empty.usage, 0);
}

#[test]
fn disk_figures_over_all_volumes() {
    let d = disk_stats(&vec![
        VolumeSpace { total_bytes: 100 * GIB, available_bytes: 25 * GIB },
        VolumeSpace { total_bytes: 50 * GIB, available_bytes: 50 * GIB },
    ]);
    assert_eq!((d.total_gb, d.used_gb, d.free_gb, d.usage), (150, 75, 75, 5000));
    let odd = disk_stats(&vec![VolumeSpace { total_bytes: GIB, available_bytes: 3 * GIB }]);
    assert_eq!((odd.total_gb, odd.used_gb, odd.free_gb, odd.usage), (1, 0, 3, 0));
    let none = disk_stats(&vec![]);
    assert_eq!((none.total_gb, none.usage), (0, 0));
}

#[test]
fn cpu_figures() {
    let none = cpu_stats(&vec![]);
    assert_eq!(none.model, "Unknown");
    assert_eq!(none.usage, 0);
    let c = cpu_stats(&vec![
        CpuReading { brand: "A".to_string(), usage: 5000 },
        CpuReading { brand: "B".to_string(), usage: 20000 },
    ]);
    assert_eq!(c.model, "A");
    assert_eq!(c.usage, 7500);
}

#[test]
fn gpu_fields_default_one_by_one() {
    let g = GpuReading::from_fields(None, Some(61), None, Some((3 * 1024 * 1024, 8 * 1024 * 1024)));
    assert_eq!(g.model, "Unknown");
    assert_eq!((g.temperature_c, g.usage, g.memory_used_mb, g.memory_total_mb), (61, 0, 3, 8));
    let g = GpuReading::from_fields(Some("Card".to_string()), None, Some(150), None);
    assert_eq!(g.model, "Card");
    assert_eq!((g.temperature_c, g.usage, g.memory_used_mb, g.memory_total_mb), (0, 10000, 0, 0));
    let g = GpuReading::from_fields(None, None, Some(42), None);
    assert_eq!(g.usage, 4200);
}

#[test]
fn absent_gpu_gives_sentinel_snapshot() {
    let mut t = Telemetry::new(GpuProbe::Unavailable);
    let s = t.get_stats(SEC, || readings(0, 0));
    assert_eq!(s.gpu_model, "No NVIDIA GPU detected");
    assert_eq!(s.gpu_temperature, 0);
    assert_eq!(s.gpu_usage, 0);
    assert_eq!(s.gpu_memory_used_mb, 0);
    assert_eq!(s.gpu_memory_total_mb, 0);
}

#[test]
fn snapshot_figures_from_readings() {
    let mut t = Telemetry::new(GpuProbe::Unavailable);
    let s = t.get_stats(SEC, || readings(0, 0));
    assert_eq!(s.cpu_model, "Test CPU");
    assert_eq!(s.cpu_usage, 5000);
    assert_eq!((s.memory_total_mb, s.memory_used_mb, s.memory_available_mb), (16384, 4096, 12288));
    assert_eq!(s.memory_usage, 2500);
    assert_eq!((s.disk_total_gb, s.disk_used_gb, s.disk_free_gb, s.disk_usage), (100, 60, 40, 6000));
    assert_eq!((s.network_down_speed, s.network_up_speed), (0, 0));
}

#[test]
fn repeat_within_ttl_returns_cached_snapshot() {
    let mut t = Telemetry::new(GpuProbe::Unavailable);
    let mut calls = 0;
    let first = t.get_stats(SEC, || {
        calls += 1;
        readings(0, 0)
    });
    let second = t.get_stats(SEC + CACHE_TTL_NS - 1, || {
        calls += 1;
        readings(1 << 30, 1 << 30)
    });
    assert_eq!(calls, 1);
    assert_eq!(second.network_down_speed, first.network_down_speed);
    assert_eq!(second.cpu_model, first.cpu_model);
    assert_eq!(second.disk_used_gb, first.disk_used_gb);
}

#[test]
fn query_after_ttl_collects_again() {
    let mut t = Telemetry::new(GpuProbe::Unavailable);
    let mut calls = 0;
    t.get_stats(SEC, || {
        calls += 1;
        readings(0, 0)
    });
    let s = t.get_stats(2 * SEC, || {
        calls += 1;
        readings(10240, 2048)
    });
    assert_eq!(calls, 2);
    assert_eq!((s.network_down_speed, s.network_up_speed), (10, 2));
    assert_eq!(s.memory_used_mb, 4096);
    let entry = t.cache.entry.as_ref().unwrap();
    assert_eq!(entry.captured_at_ns, 2 * SEC);
}

#[test]
fn earlier_clock_is_served_from_cache() {
    let mut t = Telemetry::new(GpuProbe::Unavailable);
    let mut calls = 0;
    t.get_stats(5 * SEC, || {
        calls += 1;
        readings(0, 0)
    });
    t.get_stats(4 * SEC, || {
        calls += 1;
        readings(0, 0)
    });
    assert_eq!(calls, 1);
}

#[test]
fn many_misses_leave_one_entry() {
    let mut cache = SnapshotCache::new();
    assert!(cache.lookup(0).is_none());
    let mut t = Telemetry::new(GpuProbe::Unavailable);
    for i in 0..4u64 {
        let s = t.aggregate(&readings(i * 1000, 0), i * SEC);
        assert!(s.cpu_usage <= 10000 && s.memory_usage <= 10000 && s.disk_usage <= 10000);
        cache.store(s, i * SEC);
    }
    let entry = cache.entry.as_ref().unwrap();
    assert_eq!(entry.captured_at_ns, 3 * SEC);
    assert!(cache.lookup(3 * SEC).is_some());
    assert!(cache.lookup(3 * SEC + CACHE_TTL_NS).is_none());
}
