//! Host telemetry: per-domain reductions of raw readings, a network
//! throughput tracker, a time-bounded snapshot cache, a GPU capability probe
//! and the query facade over them; and the processor power-policy side:
//! request validation and reading the power configuration tool's output.

pub mod cache;
pub mod gpu;
pub mod monitor;
pub mod power;
pub mod powercfg;
pub mod rate;
pub mod readings;
pub mod snapshot;
pub mod text;
