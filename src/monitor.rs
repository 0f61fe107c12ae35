//! The query facade: serves the cached snapshot while it is fresh, and
//! otherwise builds a new one from fresh readings and caches it.
use vstd::prelude::*;
use crate::cache::SnapshotCache;
use crate::gpu::{GpuProbe, GpuReading};
use crate::rate::{rate_between, net_sample, sample_of, InterfaceCounters, NetSample, RateTracker};
use crate::readings::{
    average_load, cpu_stats, disk_of, disk_stats, memory_of, memory_stats, CpuReading, VolumeSpace,
};
use crate::snapshot::Snapshot;

verus! {

/// Raw readings of the host at one moment, as the operating system gives
/// them: per-core loads, memory in bytes, per-volume space, per-interface
/// cumulative counters.
#[derive(Debug)]
pub struct HostReadings {
    pub cpus: Vec<CpuReading>,
    pub memory_total_bytes: u64,
    pub memory_used_bytes: u64,
    pub memory_available_bytes: u64,
    pub volumes: Vec<VolumeSpace>,
    pub interfaces: Vec<InterfaceCounters>,
}

/// `s` holds the figures that `h` gives at `now_ns`, with network throughput
/// measured against the baseline `last`. The GPU fields are left open: they
/// come from the device.
pub open spec fn reports(s: Snapshot, h: HostReadings, last: Option<NetSample>, now_ns: u64) -> bool {
    let memory = memory_of(h.memory_total_bytes, h.memory_used_bytes, h.memory_available_bytes);
    let disk = disk_of(h.volumes@);
    let rate = rate_between(last, sample_of(h.interfaces@, now_ns));
    &&& h.cpus@.len() > 0 ==> s.cpu_model@ == h.cpus@[0].brand@
    &&& h.cpus@.len() == 0 ==> s.cpu_model@ == "Unknown"@
    &&& s.cpu_usage == average_load(h.cpus@)
    &&& s.memory_total_mb == memory.total_mb
    &&& s.memory_used_mb == memory.used_mb
    &&& s.memory_available_mb == memory.available_mb
    &&& s.memory_usage == memory.usage
    &&& s.disk_total_gb == disk.total_gb
    &&& s.disk_used_gb == disk.used_gb
    &&& s.disk_free_gb == disk.free_gb
    &&& s.disk_usage == disk.usage
    &&& s.network_down_speed == rate.down_kbps
    &&& s.network_up_speed == rate.up_kbps
}

/// The GPU fields of `s` are those of the absent reading.
pub open spec fn gpu_absent(s: Snapshot) -> bool {
    &&& s.gpu_model@ == "No NVIDIA GPU detected"@
    &&& s.gpu_temperature == 0
    &&& s.gpu_usage == 0
    &&& s.gpu_memory_used_mb == 0
    &&& s.gpu_memory_total_mb == 0
}

/// The process-wide telemetry context: the snapshot cache, the network
/// baseline and the GPU capability.
pub struct Telemetry {
    pub cache: SnapshotCache,
    pub rates: RateTracker,
    pub gpu: GpuProbe,
}

impl Telemetry {
    /// The cached snapshot has its usage figures in range and, without a
    /// GPU backend, the absent GPU fields.
    pub open spec fn wf(&self) -> bool {
        &&& self.cache.wf()
        &&& (self.gpu is Unavailable && self.cache.entry is Some) ==> gpu_absent(
            self.cache.entry->Some_0.snapshot,
        )
    }

    /// A context with an empty cache and no network baseline.
    pub fn new(gpu: GpuProbe) -> (t: Telemetry)
        ensures
            t.cache.entry is None,
            t.rates.last is None,
            t.gpu == gpu,
            t.wf(),
    {
        Telemetry { cache: SnapshotCache::new(), rates: RateTracker::new(), gpu }
    }

    /// Builds a snapshot from `readings` taken at `now_ns` and a GPU sample,
    /// and makes this reading the network baseline. The cache is untouched.
    pub fn aggregate(&mut self, readings: &HostReadings, now_ns: u64) -> (s: Snapshot)
        ensures
            reports(s, *readings, old(self).rates.last, now_ns),
            s.usage_in_range(),
            old(self).gpu is Unavailable ==> gpu_absent(s),
            final(self).rates.last == Some(sample_of(readings.interfaces@, now_ns)),
            final(self).cache == old(self).cache,
            final(self).gpu == old(self).gpu,
    {
        let cpu = cpu_stats(&readings.cpus);
        let memory = memory_stats(
            readings.memory_total_bytes,
            readings.memory_used_bytes,
            readings.memory_available_bytes,
        );
        let disk = disk_stats(&readings.volumes);
        let gpu: GpuReading = self.gpu.sample();
        let network = self.rates.update(net_sample(&readings.interfaces, now_ns));
        Snapshot::assemble(cpu, memory, disk, gpu, network)
    }

    /// The snapshot for a query at `now_ns`. While the cached one is younger
    /// than the time to live it is returned and nothing else happens;
    /// otherwise `collect` is called once for fresh readings, and the
    /// snapshot built from them replaces the cached one.
    pub fn get_stats<F: FnOnce() -> HostReadings>(&mut self, now_ns: u64, collect: F) -> (s: Snapshot)
        requires
            old(self).wf(),
            collect.requires(()),
        ensures
            final(self).wf(),
            s.usage_in_range(),
            old(self).cache.is_fresh_at(now_ns) ==> {
                &&& s == old(self).cache.entry->Some_0.snapshot
                &&& final(self).cache == old(self).cache
                &&& final(self).rates == old(self).rates
            },
            !old(self).cache.is_fresh_at(now_ns) ==> exists|h: HostReadings|
                {
                    &&& collect.ensures((), h)
                    &&& reports(s, h, old(self).rates.last, now_ns)
                    &&& final(self).rates.last == Some(sample_of(h.interfaces@, now_ns))
                    &&& final(self).cache == old(self).cache.stored(s, now_ns)
                },
            old(self).gpu is Unavailable ==> gpu_absent(s),
            final(self).gpu == old(self).gpu,
    {
        match self.cache.lookup(now_ns) {
            Some(s) => s,
            None => {
                let readings = collect();
                let s = self.aggregate(&readings, now_ns);
                self.cache.store(s.clone(), now_ns);
                s
            },
        }
    }
}

/// Two snapshots built from the same readings agree on every processor,
/// memory and disk figure, whatever the network baseline or the time they
/// were built at.
pub proof fn lemma_same_readings_same_figures(
    s1: Snapshot,
    s2: Snapshot,
    h: HostReadings,
    last1: Option<NetSample>,
    last2: Option<NetSample>,
    now1: u64,
    now2: u64,
)
    requires
        reports(s1, h, last1, now1),
        reports(s2, h, last2, now2),
    ensures
        s1.cpu_model@ == s2.cpu_model@,
        s1.cpu_usage == s2.cpu_usage,
        s1.memory_total_mb == s2.memory_total_mb,
        s1.memory_used_mb == s2.memory_used_mb,
        s1.memory_available_mb == s2.memory_available_mb,
        s1.memory_usage == s2.memory_usage,
        s1.disk_total_gb == s2.disk_total_gb,
        s1.disk_used_gb == s2.disk_used_gb,
        s1.disk_free_gb == s2.disk_free_gb,
        s1.disk_usage == s2.disk_usage,
{
}

} // verus!
