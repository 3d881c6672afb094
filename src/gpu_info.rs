//! The readings a GPU widget shows for one graphics device.
use vstd::prelude::*;
use vstd::string::*;
use crate::cpu_info::{megabytes, to_megabytes};
use crate::text::{decimal, decimal_string, pad_left, pad_left_string};

verus! {

/// What identifies a graphics device: its name and, when known, its compute
/// capability as `(major, minor)`.
pub struct GpuIdentity {
    pub name: String,
    pub capability: Option<(u32, u32)>,
}

/// One reading of a graphics device: temperature in degrees Celsius, memory
/// used and total in bytes, utilization in percent.
pub struct GpuSample {
    pub temperature: u32,
    pub memory_used: u64,
    pub memory_total: u64,
    pub utilization: u32,
}

/// The latest readings of one graphics device, memory in megabytes.
pub struct GpuDeviceInfo {
    pub gpu_info: String,
    pub memory_used: u64,
    pub memory_total: u64,
    pub utilization_rates: u32,
    pub temperature: u32,
}

/// A device's identity text: its name and its compute capability.
pub open spec fn identity_text(name: Seq<char>, capability: Option<(u32, u32)>) -> Seq<char> {
    name + ", Cap: "@ + match capability {
        Some(c) => decimal(c.0 as nat) + "."@ + decimal(c.1 as nat),
        None => Seq::empty(),
    }
}

/// A device's info line: its identity and its temperature, right-aligned in
/// three columns.
pub open spec fn info_line(info: GpuDeviceInfo) -> Seq<char> {
    info.gpu_info@ + ", T: "@ + pad_left(decimal(info.temperature as nat), 3) + "°C"@
}

impl GpuDeviceInfo {
    /// Readings for a device before the first sample: its identity text,
    /// nothing used out of a nominal one megabyte, idle and at zero degrees.
    pub fn new(name: &str, capability: Option<(u32, u32)>) -> (r: GpuDeviceInfo)
        ensures
            r.gpu_info@ == identity_text(name@, capability),
            r.memory_used == 0,
            r.memory_total == 1,
            r.utilization_rates == 0,
            r.temperature == 0,
    {
        let mut info = String::from_str(name);
        info.append(", Cap: ");
        match capability {
            Some((major, minor)) => {
                let a = decimal_string(major as u64);
                info.append(a.as_str());
                info.append(".");
                let b = decimal_string(minor as u64);
                info.append(b.as_str());
            },
            None => {
                assert(info@ =~= info@ + Seq::<char>::empty());
            },
        }
        GpuDeviceInfo {
            gpu_info: info,
            memory_used: 0,
            memory_total: 1,
            utilization_rates: 0,
            temperature: 0,
        }
    }

    /// Takes in a sample, memory converted to megabytes.
    pub fn update(&mut self, sample: &GpuSample)
        ensures
            final(self).gpu_info == old(self).gpu_info,
            final(self).temperature == sample.temperature,
            final(self).memory_used == megabytes(sample.memory_used),
            final(self).memory_total == megabytes(sample.memory_total),
            final(self).utilization_rates == sample.utilization,
    {
        self.temperature = sample.temperature;
        self.memory_used = to_megabytes(sample.memory_used);
        self.memory_total = to_megabytes(sample.memory_total);
        self.utilization_rates = sample.utilization;
    }

    /// The device's info line.
    pub fn get_info(&self) -> (r: String)
        ensures
            r@ == info_line(*self),
    {
        let mut r = self.gpu_info.clone();
        r.append(", T: ");
        let t = pad_left_string(decimal_string(self.temperature as u64), 3);
        r.append(t.as_str());
        r.append("°C");
        r
    }

    /// Memory used and total, in megabytes.
    pub fn get_memory_info(&self) -> (r: (u64, u64))
        ensures
            r == (self.memory_used, self.memory_total),
    {
        (self.memory_used, self.memory_total)
    }

    /// Utilization, in percent.
    pub fn get_utilization_rate_info(&self) -> (r: u32)
        ensures
            r == self.utilization_rates,
    {
        self.utilization_rates
    }
}

} // verus!
