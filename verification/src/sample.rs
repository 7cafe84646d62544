//! From a raw host sample to a report.
//!
//! Reading the host is left to the caller. What is made of the readings is
//! decided here: the fallbacks for what the host would not tell, the wording
//! of the operating-system description, the memory figures in megabytes and
//! the timestamp of the sample.

use crate::report::{SystemInfo, SystemInfoView};
use vstd::prelude::*;
use vstd::string::*;

verus! {

/// Bytes in a megabyte, as the memory figures of a report count them.
pub const BYTES_PER_MB: u64 = 1_048_576;

/// The kind of operating system that the reporter runs on.
#[derive(Clone, Copy, Debug, PartialEq, Eq, Structural)]
pub enum Platform {
    Linux,
    Windows,
    MacOs,
    Other,
}

/// What was read from the host for one report; `None` where the host gave
/// no answer.
#[derive(Debug, PartialEq, Eq)]
pub struct HostSample {
    pub host_name: Option<String>,
    pub os_name: Option<String>,
    pub os_version: Option<String>,
    pub kernel_version: Option<String>,
    /// CPU usage in percent, as the bit pattern of a single-precision number.
    pub cpu_usage_bits: u32,
    pub used_memory_bytes: u64,
    pub total_memory_bytes: u64,
}

/// A host sample with its texts as sequences of characters.
pub ghost struct HostSampleView {
    pub host_name: Option<Seq<char>>,
    pub os_name: Option<Seq<char>>,
    pub os_version: Option<Seq<char>>,
    pub kernel_version: Option<Seq<char>>,
    pub cpu_usage_bits: u32,
    pub used_memory_bytes: u64,
    pub total_memory_bytes: u64,
}

impl View for HostSample {
    type V = HostSampleView;

    open spec fn view(&self) -> HostSampleView {
        HostSampleView {
            host_name: self.host_name.deep_view(),
            os_name: self.os_name.deep_view(),
            os_version: self.os_version.deep_view(),
            kernel_version: self.kernel_version.deep_view(),
            cpu_usage_bits: self.cpu_usage_bits,
            used_memory_bytes: self.used_memory_bytes,
            total_memory_bytes: self.total_memory_bytes,
        }
    }
}

/// The text itself where there is one, the fallback otherwise.
pub open spec fn text_or(text: Option<Seq<char>>, fallback: Seq<char>) -> Seq<char> {
    match text {
        Some(given) => given,
        None => fallback,
    }
}

/// The identifier under which a host reports: its name where it has one
/// that is not empty, and `unknown` otherwise, so that the identifier is
/// never empty.
pub open spec fn device_id_of(host_name: Option<Seq<char>>) -> Seq<char> {
    match host_name {
        Some(name) => if name.len() > 0 {
            name
        } else {
            "unknown"@
        },
        None => "unknown"@,
    }
}

/// What a platform adds to the description of its operating system: on
/// Linux the kernel version, if one is known and not empty; on Windows and
/// macOS the platform's name; elsewhere nothing.
pub open spec fn platform_details(platform: Platform, kernel_version: Option<Seq<char>>) -> Seq<
    char,
> {
    match platform {
        Platform::Linux => {
            let kernel = text_or(kernel_version, Seq::empty());
            if kernel.len() > 0 {
                "Kernel: "@ + kernel
            } else {
                Seq::empty()
            }
        },
        Platform::Windows => "Windows"@,
        Platform::MacOs => "macOS"@,
        Platform::Other => Seq::empty(),
    }
}

/// The description of an operating system: name and version with a space
/// between them, followed by the details in round brackets where there are
/// any.
pub open spec fn os_description(name: Seq<char>, version: Seq<char>, details: Seq<char>) -> Seq<
    char,
> {
    if details.len() == 0 {
        name + " "@ + version
    } else {
        name + " "@ + version + " ("@ + details + ")"@
    }
}

/// A number of bytes in whole megabytes, rounded down.
pub open spec fn whole_megabytes(bytes: u64) -> u64 {
    (bytes / BYTES_PER_MB) as u64
}

/// The report that a host sample makes, taken on `platform` and stamped
/// `last_seen`.
pub open spec fn system_info_of(
    sample: HostSampleView,
    platform: Platform,
    last_seen: Seq<char>,
) -> SystemInfoView {
    SystemInfoView {
        device_id: device_id_of(sample.host_name),
        os_info: os_description(
            text_or(sample.os_name, "Unknown"@),
            text_or(sample.os_version, "Unknown"@),
            platform_details(platform, sample.kernel_version),
        ),
        cpu_usage_bits: sample.cpu_usage_bits,
        ram_used_mb: whole_megabytes(sample.used_memory_bytes),
        ram_total_mb: whole_megabytes(sample.total_memory_bytes),
        last_seen,
    }
}

/// The timestamp of the moment that lies `secs` whole seconds and `nanos`
/// nanoseconds after the start of 1970 in UTC, in the notation of RFC 3339;
/// `None` where the calendar in use cannot hold that moment.
pub uninterp spec fn rfc3339_utc(secs: i64, nanos: u32) -> Option<Seq<char>>;

/// The report of a host sample whose moment was written as `stamp`, if it
/// could be written at all.
pub open spec fn stamped_system_info(
    sample: HostSampleView,
    platform: Platform,
    stamp: Option<Seq<char>>,
) -> Option<SystemInfoView> {
    match stamp {
        Some(last_seen) => Some(system_info_of(sample, platform, last_seen)),
        None => None,
    }
}

/// Writes a moment as a timestamp.
///
/// Trusted: this is `chrono::DateTime::from_timestamp` followed, where that
/// gives a moment, by `chrono::DateTime::to_rfc3339`. Neither reads the
/// clock, a time zone or anything else of the machine; together they are a
/// function of the two numbers, and `rfc3339_utc` is the name of that
/// function. Nothing more is claimed of it.
#[verifier::external_body]
fn format_rfc3339_utc(secs: i64, nanos: u32) -> (text: Option<String>)
    ensures
        text.deep_view() == rfc3339_utc(secs, nanos),
{
    match chrono::DateTime::from_timestamp(secs, nanos) {
        Some(moment) => Some(moment.to_rfc3339()),
        None => None,
    }
}

/// Gives the text, or the fallback where there is none.
fn text_or_fallback(text: Option<String>, fallback: &str) -> (chosen: String)
    ensures
        chosen@ == text_or(text.deep_view(), fallback@),
{
    match text {
        Some(given) => given,
        None => String::from_str(fallback),
    }
}

/// An identifier is never empty, whatever the host says its name is.
pub proof fn law_device_id_is_never_empty(host_name: Option<Seq<char>>)
    ensures
        device_id_of(host_name).len() > 0,
        host_name matches Some(name) ==> (name.len() > 0 ==> device_id_of(host_name) == name),
{
    reveal_strlit("unknown");
}

/// Gives the identifier under which a host of this name reports.
fn device_id_for(host_name: Option<String>) -> (device_id: String)
    ensures
        device_id@ == device_id_of(host_name.deep_view()),
        device_id@.len() > 0,
{
    proof {
        reveal_strlit("unknown");
    }
    match host_name {
        Some(name) => {
            if name.as_str().is_empty() {
                String::from_str("unknown")
            } else {
                name
            }
        },
        None => String::from_str("unknown"),
    }
}

/// Says what the platform adds to the description of its operating system.
pub fn get_platform_specific_details(platform: Platform, kernel_version: Option<String>) -> (details:
    String)
    ensures
        details@ == platform_details(platform, kernel_version.deep_view()),
{
    match platform {
        Platform::Linux => {
            let kernel = text_or_fallback(kernel_version, "");
            proof {
                reveal_strlit("");
            }
            if kernel.as_str().is_empty() {
                String::new()
            } else {
                let mut details = String::from_str("Kernel: ");
                details.append(kernel.as_str());
                details
            }
        },
        Platform::Windows => String::from_str("Windows"),
        Platform::MacOs => String::from_str("macOS"),
        Platform::Other => String::new(),
    }
}

/// Words the description of an operating system.
pub fn describe_os(name: &str, version: &str, details: &str) -> (text: String)
    ensures
        text@ == os_description(name@, version@, details@),
{
    let mut text = String::from_str(name);
    text.append(" ");
    text.append(version);
    if !details.is_empty() {
        text.append(" (");
        text.append(details);
        text.append(")");
    }
    text
}

/// Makes the report of a host sample that was taken on `platform` at the
/// moment that `last_seen` names.
pub fn assemble_system_info(sample: HostSample, platform: Platform, last_seen: String) -> (info:
    SystemInfo)
    ensures
        info@ == system_info_of(sample@, platform, last_seen@),
        info@.device_id.len() > 0,
{
    let device_id = device_id_for(sample.host_name);
    let os_name = text_or_fallback(sample.os_name, "Unknown");
    let os_version = text_or_fallback(sample.os_version, "Unknown");
    let details = get_platform_specific_details(platform, sample.kernel_version);
    let os_info = describe_os(os_name.as_str(), os_version.as_str(), details.as_str());
    SystemInfo {
        device_id,
        os_info,
        cpu_usage_bits: sample.cpu_usage_bits,
        ram_used_mb: sample.used_memory_bytes / BYTES_PER_MB,
        ram_total_mb: sample.total_memory_bytes / BYTES_PER_MB,
        last_seen,
    }
}

/// Makes the report of a host sample that was taken on `platform`, `now_secs`
/// whole seconds and `now_nanos` nanoseconds after the start of 1970 in UTC.
/// There is no report where that moment cannot be written as a timestamp.
pub fn get_system_info(sample: HostSample, platform: Platform, now_secs: i64, now_nanos: u32) -> (info:
    Option<SystemInfo>)
    ensures
        info.deep_view() == stamped_system_info(sample@, platform, rfc3339_utc(now_secs, now_nanos)),
        info matches Some(report) ==> report@.device_id.len() > 0,
{
    match format_rfc3339_utc(now_secs, now_nanos) {
        Some(last_seen) => Some(assemble_system_info(sample, platform, last_seen)),
        None => None,
    }
}

} // verus!

