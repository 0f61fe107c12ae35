//! The GPU capability: probed once, then sampled field by field, each field
//! falling back to a default where the backend cannot give it.
use vstd::prelude::*;
use vstd::string::StringExecFns;
use nvml_wrapper::error::NvmlError;
use nvml_wrapper::{Device, Nvml};
use crate::readings::{BYTES_PER_MB, FULL_USAGE};

verus! {

#[verifier::external_type_specification]
#[verifier::external_body]
pub struct ExNvml(Nvml);

#[verifier::external_type_specification]
#[verifier::external_body]
pub struct ExNvmlError(NvmlError);

#[verifier::external_type_specification]
#[verifier::external_body]
pub struct ExDevice<'a>(Device<'a>);

/// Relies on `Nvml::init`: loads the NVIDIA management library and
/// initialises it, or fails where no driver is present.
#[verifier::external_body]
fn nvml_init() -> Result<Nvml, NvmlError> {
    Nvml::init()
}

/// Relies on `Nvml::device_by_index`: the handle of the device at `index`.
#[verifier::external_body]
fn nvml_device<'a>(nvml: &'a Nvml, index: u32) -> Result<Device<'a>, NvmlError> {
    nvml.device_by_index(index)
}

/// Relies on `Device::name`: the product name of the device.
#[verifier::external_body]
fn device_name(device: &Device) -> Result<String, NvmlError> {
    device.name()
}

/// Relies on `Device::temperature`: the core sensor's reading in degrees
/// Celsius.
#[verifier::external_body]
fn device_temperature(device: &Device) -> Result<u32, NvmlError> {
    device.temperature(nvml_wrapper::enum_wrappers::device::TemperatureSensor::Gpu)
}

/// Relies on `Device::utilization_rates`: the share of time, in percent,
/// during which a kernel ran (its `gpu` field).
#[verifier::external_body]
fn device_utilization(device: &Device) -> Result<u32, NvmlError> {
    device.utilization_rates().map(|u| u.gpu)
}

/// Relies on `Device::memory_info`: the allocated and the installed memory,
/// in bytes (its `used` and `total` fields).
#[verifier::external_body]
fn device_memory(device: &Device) -> Result<(u64, u64), NvmlError> {
    device.memory_info().map(|m| (m.used, m.total))
}

/// One reading of the GPU: its model label, temperature in degrees Celsius,
/// load in hundredths of a percent, and memory in megabytes.
#[derive(Debug)]
pub struct GpuReading {
    pub model: String,
    pub temperature_c: u64,
    pub usage: u64,
    pub memory_used_mb: u64,
    pub memory_total_mb: u64,
}

impl Clone for GpuReading {
    fn clone(&self) -> (r: GpuReading)
        ensures
            r == *self,
    {
        GpuReading {
            model: self.model.clone(),
            temperature_c: self.temperature_c,
            usage: self.usage,
            memory_used_mb: self.memory_used_mb,
            memory_total_mb: self.memory_total_mb,
        }
    }
}

/// A load in whole percent, in hundredths of a percent, at most 100%.
pub open spec fn percent_load(p: u32) -> u64 {
    if p >= 100 {
        FULL_USAGE
    } else {
        (p * 100) as u64
    }
}

/// What a reading holds when no GPU can be queried: the sentinel label and
/// every figure zero.
pub open spec fn is_absent_reading(r: GpuReading) -> bool {
    &&& r.model@ == "No NVIDIA GPU detected"@
    &&& r.temperature_c == 0
    &&& r.usage == 0
    &&& r.memory_used_mb == 0
    &&& r.memory_total_mb == 0
}

impl GpuReading {
    /// The reading for a machine without a usable GPU backend.
    pub fn absent() -> (r: GpuReading)
        ensures
            is_absent_reading(r),
    {
        GpuReading {
            model: String::from_str("No NVIDIA GPU detected"),
            temperature_c: 0,
            usage: 0,
            memory_used_mb: 0,
            memory_total_mb: 0,
        }
    }

    /// A reading from the device's answers, each `None` where the device
    /// could not give it: the label falls back to "Unknown", every figure to
    /// zero; memory is in whole megabytes and the load at most 100%.
    pub fn from_fields(
        name: Option<String>,
        temperature: Option<u32>,
        utilization: Option<u32>,
        memory: Option<(u64, u64)>,
    ) -> (r: GpuReading)
        ensures
            name is Some ==> r.model == name->Some_0,
            name is None ==> r.model@ == "Unknown"@,
            r.temperature_c == (match temperature {
                Some(t) => t as u64,
                None => 0,
            }),
            r.usage == (match utilization {
                Some(u) => percent_load(u),
                None => 0,
            }),
            r.memory_used_mb == (match memory {
                Some(m) => m.0 / BYTES_PER_MB,
                None => 0,
            }),
            r.memory_total_mb == (match memory {
                Some(m) => m.1 / BYTES_PER_MB,
                None => 0,
            }),
            r.usage <= FULL_USAGE,
    {
        let model = match name {
            Some(n) => n,
            None => String::from_str("Unknown"),
        };
        let temperature_c: u64 = match temperature {
            Some(t) => t as u64,
            None => 0,
        };
        let usage: u64 = match utilization {
            Some(u) => if u >= 100 {
                FULL_USAGE
            } else {
                (u * 100) as u64
            },
            None => 0,
        };
        let (memory_used_mb, memory_total_mb) = match memory {
            Some(m) => (m.0 / BYTES_PER_MB, m.1 / BYTES_PER_MB),
            None => (0, 0),
        };
        GpuReading { model, temperature_c, usage, memory_used_mb, memory_total_mb }
    }
}

/// The GPU backend as found at start-up: present with its handle, or absent.
pub enum GpuProbe {
    Available(Nvml),
    Unavailable,
}

/// `Some` of the success value, `None` of any failure.
fn answer<T>(r: Result<T, NvmlError>) -> (o: Option<T>)
    ensures
        r is Ok ==> o == Some(r->Ok_0),
        r is Err ==> o is None,
{
    match r {
        Ok(v) => Some(v),
        Err(_) => None,
    }
}

impl GpuProbe {
    /// Tries once to bring up the backend; a failure means the capability
    /// is absent, not an error.
    pub fn detect() -> (p: GpuProbe) {
        match nvml_init() {
            Ok(nvml) => GpuProbe::Available(nvml),
            Err(_) => GpuProbe::Unavailable,
        }
    }

    /// One reading of the first GPU. Without a backend, or where the first
    /// device cannot be opened, the reading is the absent one.
    pub fn sample(&self) -> (r: GpuReading)
        ensures
            self is Unavailable ==> is_absent_reading(r),
            r.usage <= FULL_USAGE,
    {
        match self {
            GpuProbe::Unavailable => GpuReading::absent(),
            GpuProbe::Available(nvml) => match nvml_device(nvml, 0) {
                Err(_) => GpuReading::absent(),
                Ok(device) => GpuReading::from_fields(
                    answer(device_name(&device)),
                    answer(device_temperature(&device)),
                    answer(device_utilization(&device)),
                    answer(device_memory(&device)),
                ),
            },
        }
    }
}

} // verus!
