//! The point-in-time snapshot of host metrics.
use vstd::prelude::*;
use crate::gpu::GpuReading;
use crate::rate::NetRate;
use crate::readings::{CpuStats, DiskStats, MemoryStats, FULL_USAGE};

verus! {

/// One observation of the host. Usage figures are in hundredths of a
/// percent, memory in megabytes, disk in gigabytes, network throughput in
/// kilobytes per second, temperature in degrees Celsius.
#[derive(Debug)]
pub struct Snapshot {
    pub cpu_model: String,
    pub cpu_usage: u64,
    pub memory_total_mb: u64,
    pub memory_used_mb: u64,
    pub memory_available_mb: u64,
    pub memory_usage: u64,
    pub gpu_model: String,
    pub gpu_temperature: u64,
    pub gpu_usage: u64,
    pub gpu_memory_used_mb: u64,
    pub gpu_memory_total_mb: u64,
    pub network_up_speed: u64,
    pub network_down_speed: u64,
    pub disk_total_gb: u64,
    pub disk_used_gb: u64,
    pub disk_free_gb: u64,
    pub disk_usage: u64,
}

impl Clone for Snapshot {
    fn clone(&self) -> (r: Snapshot)
        ensures
            r == *self,
    {
        Snapshot {
            cpu_model: self.cpu_model.clone(),
            cpu_usage: self.cpu_usage,
            memory_total_mb: self.memory_total_mb,
            memory_used_mb: self.memory_used_mb,
            memory_available_mb: self.memory_available_mb,
            memory_usage: self.memory_usage,
            gpu_model: self.gpu_model.clone(),
            gpu_temperature: self.gpu_temperature,
            gpu_usage: self.gpu_usage,
            gpu_memory_used_mb: self.gpu_memory_used_mb,
            gpu_memory_total_mb: self.gpu_memory_total_mb,
            network_up_speed: self.network_up_speed,
            network_down_speed: self.network_down_speed,
            disk_total_gb: self.disk_total_gb,
            disk_used_gb: self.disk_used_gb,
            disk_free_gb: self.disk_free_gb,
            disk_usage: self.disk_usage,
        }
    }
}

impl Snapshot {
    /// Every usage figure lies within 0..=100%, and an empty total has no
    /// usage.
    pub open spec fn usage_in_range(&self) -> bool {
        &&& self.cpu_usage <= FULL_USAGE
        &&& self.memory_usage <= FULL_USAGE
        &&& self.gpu_usage <= FULL_USAGE
        &&& self.disk_usage <= FULL_USAGE
        &&& self.memory_total_mb == 0 ==> self.memory_usage == 0
        &&& self.disk_total_gb == 0 ==> self.disk_usage == 0
    }

    /// Puts the per-domain figures together, field for field.
    pub fn assemble(
        cpu: CpuStats,
        memory: MemoryStats,
        disk: DiskStats,
        gpu: GpuReading,
        network: NetRate,
    ) -> (s: Snapshot)
        ensures
            s.cpu_model == cpu.model,
            s.cpu_usage == cpu.usage,
            s.memory_total_mb == memory.total_mb,
            s.memory_used_mb == memory.used_mb,
            s.memory_available_mb == memory.available_mb,
            s.memory_usage == memory.usage,
            s.gpu_model == gpu.model,
            s.gpu_temperature == gpu.temperature_c,
            s.gpu_usage == gpu.usage,
            s.gpu_memory_used_mb == gpu.memory_used_mb,
            s.gpu_memory_total_mb == gpu.memory_total_mb,
            s.network_up_speed == network.up_kbps,
            s.network_down_speed == network.down_kbps,
            s.disk_total_gb == disk.total_gb,
            s.disk_used_gb == disk.used_gb,
            s.disk_free_gb == disk.free_gb,
            s.disk_usage == disk.usage,
    {
        Snapshot {
            cpu_model: cpu.model,
            cpu_usage: cpu.usage,
            memory_total_mb: memory.total_mb,
            memory_used_mb: memory.used_mb,
            memory_available_mb: memory.available_mb,
            memory_usage: memory.usage,
            gpu_model: gpu.model,
            gpu_temperature: gpu.temperature_c,
            gpu_usage: gpu.usage,
            gpu_memory_used_mb: gpu.memory_used_mb,
            gpu_memory_total_mb: gpu.memory_total_mb,
            network_up_speed: network.up_kbps,
            network_down_speed: network.down_kbps,
            disk_total_gb: disk.total_gb,
            disk_used_gb: disk.used_gb,
            disk_free_gb: disk.free_gb,
            disk_usage: disk.usage,
        }
    }
}

} // verus!
