use tailmon::report::SystemInfo;
use tailmon::sample::{
    assemble_system_info, describe_os, get_platform_specific_details, get_system_info, HostSample,
    Platform, BYTES_PER_MB,
};

fn full_sample() -> HostSample {
    HostSample {
        host_name: Some(String::from("build-host")),
        os_name: Some(String::from("Ubuntu")),
        os_version: Some(String::from("22.04")),
        kernel_version: Some(String::from("5.15.0-91-generic")),
        cpu_usage_bits: 37.5f32.to_bits(),
        used_memory_bytes: 8 * 1024 * 1024 * 1024,
        total_memory_bytes: 16 * 1024 * 1024 * 1024,
    }
}

fn silent_sample() -> HostSample {
    HostSample {
        host_name: None,
        os_name: None,
        os_version: None,
        kernel_version: None,
        cpu_usage_bits: 0,
        used_memory_bytes: 0,
        total_memory_bytes: 0,
    }
}

#[test]
fn linux_details_name_the_kernel() {
    let details = get_platform_specific_details(Platform::Linux, Some(String::from("6.1.0")));
    assert_eq!(details, "Kernel: 6.1.0");
}

#[test]
fn linux_details_are_empty_without_a_kernel_version() {
    assert_eq!(get_platform_specific_details(Platform::Linux, None), "");
    assert_eq!(get_platform_specific_details(Platform::Linux, Some(String::new())), "");
}

#[test]
fn other_platforms_ignore_the_kernel_version() {
    let kernel = || Some(String::from("6.1.0"));
    assert_eq!(get_platform_specific_details(Platform::Windows, kernel()), "Windows");
    assert_eq!(get_platform_specific_details(Platform::MacOs, kernel()), "macOS");
    assert_eq!(get_platform_specific_details(Platform::Other, kernel()), "");
    assert_eq!(get_platform_specific_details(Platform::Windows, None), "Windows");
    assert_eq!(get_platform_specific_details(Platform::MacOs, None), "macOS");
    assert_eq!(get_platform_specific_details(Platform::Other, None), "");
}

#[test]
fn os_description_without_details_is_name_and_version() {
    assert_eq!(describe_os("Ubuntu", "22.04", ""), "Ubuntu 22.04");
}

#[test]
fn os_description_puts_details_in_brackets() {
    assert_eq!(describe_os("Ubuntu", "22.04", "Kernel: 6.1.0"), "Ubuntu 22.04 (Kernel: 6.1.0)");
}

#[test]
fn os_description_keeps_empty_parts() {
    assert_eq!(describe_os("", "", ""), " ");
    assert_eq!(describe_os("", "", "x"), "  (x)");
}

#[test]
fn os_description_keeps_characters_beyond_ascii() {
    assert_eq!(describe_os("Pardus", "23 “Yıldız”", "çekirdek"), "Pardus 23 “Yıldız” (çekirdek)");
}

#[test]
fn assembled_report_carries_the_sample() {
    let info = assemble_system_info(
        full_sample(),
        Platform::Linux,
        String::from("2024-05-01T12:00:00+00:00"),
    );
    assert_eq!(
        info,
        SystemInfo {
            device_id: String::from("build-host"),
            os_info: String::from("Ubuntu 22.04 (Kernel: 5.15.0-91-generic)"),
            cpu_usage_bits: 37.5f32.to_bits(),
            ram_used_mb: 8192,
            ram_total_mb: 16384,
            last_seen: String::from("2024-05-01T12:00:00+00:00"),
        }
    );
    assert_eq!(f32::from_bits(info.cpu_usage_bits), 37.5);
}

#[test]
fn assembled_report_falls_back_where_the_host_is_silent() {
    let info = assemble_system_info(silent_sample(), Platform::Linux, String::from("now"));
    assert_eq!(
        info,
        SystemInfo {
            device_id: String::from("unknown"),
            os_info: String::from("Unknown Unknown"),
            cpu_usage_bits: 0,
            ram_used_mb: 0,
            ram_total_mb: 0,
            last_seen: String::from("now"),
        }
    );
}

#[test]
fn assembled_report_on_other_platforms() {
    let windows = assemble_system_info(full_sample(), Platform::Windows, String::new());
    assert_eq!(windows.os_info, "Ubuntu 22.04 (Windows)");
    let mac = assemble_system_info(full_sample(), Platform::MacOs, String::new());
    assert_eq!(mac.os_info, "Ubuntu 22.04 (macOS)");
    let other = assemble_system_info(full_sample(), Platform::Other, String::new());
    assert_eq!(other.os_info, "Ubuntu 22.04");
    assert_eq!(other.last_seen, "");
}

#[test]
fn memory_is_counted_in_whole_megabytes() {
    assert_eq!(BYTES_PER_MB, 1024 * 1024);
    let mut sample = silent_sample();
    sample.used_memory_bytes = 1_048_575;
    sample.total_memory_bytes = 1_048_576;
    let info = assemble_system_info(sample, Platform::Other, String::new());
    assert_eq!(info.ram_used_mb, 0);
    assert_eq!(info.ram_total_mb, 1);

    let mut sample = silent_sample();
    sample.used_memory_bytes = 3 * 1_048_576 + 17;
    sample.total_memory_bytes = u64::MAX;
    let info = assemble_system_info(sample, Platform::Other, String::new());
    assert_eq!(info.ram_used_mb, 3);
    assert_eq!(info.ram_total_mb, u64::MAX / 1024 / 1024);
    assert_eq!(info.ram_total_mb, 17_592_186_044_415);
}

#[test]
fn used_memory_may_exceed_total() {
    let mut sample = silent_sample();
    sample.used_memory_bytes = 10 * 1_048_576;
    sample.total_memory_bytes = 2 * 1_048_576;
    let info = assemble_system_info(sample, Platform::Other, String::new());
    assert_eq!(info.ram_used_mb, 10);
    assert_eq!(info.ram_total_mb, 2);
}

#[test]
fn cpu_figure_is_carried_bit_for_bit() {
    for value in [0.0f32, 100.0, 250.5, -3.0, f32::INFINITY] {
        let mut sample = silent_sample();
        sample.cpu_usage_bits = value.to_bits();
        let info = assemble_system_info(sample, Platform::Other, String::new());
        assert_eq!(f32::from_bits(info.cpu_usage_bits), value);
    }
    let mut sample = silent_sample();
    sample.cpu_usage_bits = f32::NAN.to_bits();
    let info = assemble_system_info(sample, Platform::Other, String::new());
    assert_eq!(info.cpu_usage_bits, f32::NAN.to_bits());
}

#[test]
fn system_info_is_stamped_with_the_epoch() {
    let info = get_system_info(full_sample(), Platform::Linux, 0, 0).unwrap();
    assert_eq!(info.last_seen, "1970-01-01T00:00:00+00:00");
    assert_eq!(info.device_id, "build-host");
    assert_eq!(info.os_info, "Ubuntu 22.04 (Kernel: 5.15.0-91-generic)");
    assert_eq!(info.ram_used_mb, 8192);
    assert_eq!(info.ram_total_mb, 16384);
}

#[test]
fn system_info_is_stamped_with_a_later_moment() {
    let info = get_system_info(silent_sample(), Platform::Other, 1_431_648_000, 0).unwrap();
    assert_eq!(info.last_seen, "2015-05-15T00:00:00+00:00");
    let info = get_system_info(silent_sample(), Platform::Other, 1_700_000_000, 500_000_000).unwrap();
    assert_eq!(info.last_seen, "2023-11-14T22:13:20.500+00:00");
    let info = get_system_info(silent_sample(), Platform::Other, 1_700_000_000, 123_456_789).unwrap();
    assert_eq!(info.last_seen, "2023-11-14T22:13:20.123456789+00:00");
    let info = get_system_info(silent_sample(), Platform::Other, 1_700_000_000, 123_456_000).unwrap();
    assert_eq!(info.last_seen, "2023-11-14T22:13:20.123456+00:00");
}

#[test]
fn system_info_before_the_epoch() {
    let info = get_system_info(silent_sample(), Platform::Other, -1, 0).unwrap();
    assert_eq!(info.last_seen, "1969-12-31T23:59:59+00:00");
}

#[test]
fn system_info_equals_the_assembly_with_the_same_stamp() {
    let stamped = get_system_info(full_sample(), Platform::MacOs, 86_400, 0).unwrap();
    let assembled = assemble_system_info(
        full_sample(),
        Platform::MacOs,
        String::from("1970-01-02T00:00:00+00:00"),
    );
    assert_eq!(stamped, assembled);
}

#[test]
fn no_system_info_for_a_moment_out_of_range() {
    assert_eq!(get_system_info(full_sample(), Platform::Linux, i64::MAX, 0), None);
    assert_eq!(get_system_info(full_sample(), Platform::Linux, i64::MIN, 0), None);
    assert_eq!(get_system_info(full_sample(), Platform::Linux, 0, 2_000_000_000), None);
    assert_eq!(get_system_info(full_sample(), Platform::Linux, 0, u32::MAX), None);
}

#[test]
fn report_clone_says_the_same() {
    let info = assemble_system_info(full_sample(), Platform::Linux, String::from("t"));
    let copy = info.clone();
    assert_eq!(copy, info);
}

#[test]
fn empty_host_name_falls_back_like_a_missing_one() {
    let mut sample = full_sample();
    sample.host_name = Some(String::new());
    let info = assemble_system_info(sample, Platform::Linux, String::from("t"));
    assert_eq!(info.device_id, "unknown");
    assert_eq!(info.os_info, "Ubuntu 22.04 (Kernel: 5.15.0-91-generic)");

    let mut sample = silent_sample();
    sample.host_name = Some(String::new());
    let info = get_system_info(sample, Platform::Other, 0, 0).unwrap();
    assert_eq!(info.device_id, "unknown");
}

#[test]
fn device_id_is_never_empty() {
    let names = [None, Some(""), Some(" "), Some("h"), Some("build-host"), Some("ünlü")];
    for name in names {
        let mut sample = silent_sample();
        sample.host_name = name.map(String::from);
        let info = assemble_system_info(sample, Platform::Other, String::new());
        assert!(!info.device_id.is_empty());
        match name {
            Some(given) if !given.is_empty() => assert_eq!(info.device_id, given),
            _ => assert_eq!(info.device_id, "unknown"),
        }
    }
}

#[test]
fn empty_os_name_and_version_are_kept() {
    let mut sample = silent_sample();
    sample.os_name = Some(String::new());
    sample.os_version = Some(String::new());
    let info = assemble_system_info(sample, Platform::Other, String::new());
    assert_eq!(info.os_info, " ");
}
