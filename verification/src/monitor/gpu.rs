//! What a graphics device reports.

use vstd::prelude::*;

verus! {

/// One reading of the first graphics device.
#[derive(Debug, PartialEq, Eq)]
pub struct GpuStats {
    /// The device's name.
    pub name: String,
    /// How busy the device is, in percent.
    pub utilization: u32,
    /// Device memory in use, in bytes.
    pub memory_used: u64,
    /// Device memory in all, in bytes.
    pub memory_total: u64,
    /// The temperature of the device, in degrees Celsius.
    pub temperature: u32,
}

/// A reading of the graphics device with its name as a sequence of
/// characters.
pub struct GpuStatsView {
    pub name: Seq<char>,
    pub utilization: u32,
    pub memory_used: u64,
    pub memory_total: u64,
    pub temperature: u32,
}

impl View for GpuStats {
    type V = GpuStatsView;

    open spec fn view(&self) -> GpuStatsView {
        GpuStatsView {
            name: self.name@,
            utilization: self.utilization,
            memory_used: self.memory_used,
            memory_total: self.memory_total,
            temperature: self.temperature,
        }
    }
}

impl Clone for GpuStats {
    fn clone(&self) -> (copy: Self)
        ensures
            copy@ == self@,
    {
        GpuStats {
            name: self.name.clone(),
            utilization: self.utilization,
            memory_used: self.memory_used,
            memory_total: self.memory_total,
            temperature: self.temperature,
        }
    }
}

} // verus!
