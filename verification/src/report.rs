//! The report: one device's sample of its own state at one moment.

use vstd::prelude::*;

verus! {

/// One device's point-in-time sample, as the reporter sends it and the
/// collector keeps it.
///
/// A report is taken as it comes: the CPU figure may lie outside 0 to 100,
/// and the used memory may exceed the total.
#[derive(Debug, PartialEq, Eq)]
pub struct SystemInfo {
    /// The host's stable identifier: the key under which the collector keeps
    /// the report.
    pub device_id: String,
    /// A description of the operating system, for people to read.
    pub os_info: String,
    /// CPU usage in percent, as the bit pattern of the single-precision
    /// number that measures it.
    pub cpu_usage_bits: u32,
    /// Memory in use, in megabytes.
    pub ram_used_mb: u64,
    /// Memory installed, in megabytes.
    pub ram_total_mb: u64,
    /// When the sample was taken: a timestamp set by the reporter.
    pub last_seen: String,
}

/// What a report says, with its texts as sequences of characters.
pub ghost struct SystemInfoView {
    pub device_id: Seq<char>,
    pub os_info: Seq<char>,
    pub cpu_usage_bits: u32,
    pub ram_used_mb: u64,
    pub ram_total_mb: u64,
    pub last_seen: Seq<char>,
}

impl View for SystemInfo {
    type V = SystemInfoView;

    open spec fn view(&self) -> SystemInfoView {
        SystemInfoView {
            device_id: self.device_id@,
            os_info: self.os_info@,
            cpu_usage_bits: self.cpu_usage_bits,
            ram_used_mb: self.ram_used_mb,
            ram_total_mb: self.ram_total_mb,
            last_seen: self.last_seen@,
        }
    }
}

impl DeepView for SystemInfo {
    type V = SystemInfoView;

    open spec fn deep_view(&self) -> SystemInfoView {
        self@
    }
}

impl Clone for SystemInfo {
    /// A second report that says the same.
    fn clone(&self) -> (copy: SystemInfo)
        ensures
            copy@ == self@,
    {
        SystemInfo {
            device_id: self.device_id.clone(),
            os_info: self.os_info.clone(),
            cpu_usage_bits: self.cpu_usage_bits,
            ram_used_mb: self.ram_used_mb,
            ram_total_mb: self.ram_total_mb,
            last_seen: self.last_seen.clone(),
        }
    }
}

} // verus!
