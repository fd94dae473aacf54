use engine_supervisor::hardware::{get_hardware_info, HardwareInfo, BYTES_PER_MB};

#[test]
fn megabytes_are_rounded_down() {
    assert_eq!(HardwareInfo::from_total_bytes(0).total_memory_mb, 0);
    assert_eq!(HardwareInfo::from_total_bytes(1).total_memory_mb, 0);
    assert_eq!(HardwareInfo::from_total_bytes(1_048_575).total_memory_mb, 0);
    assert_eq!(HardwareInfo::from_total_bytes(1_048_576).total_memory_mb, 1);
    assert_eq!(HardwareInfo::from_total_bytes(2_097_151).total_memory_mb, 1);
}

#[test]
fn sixteen_gibibytes() {
    let info = HardwareInfo::from_total_bytes(16 * 1024 * 1024 * 1024);
    assert_eq!(info, HardwareInfo { total_memory_mb: 16_384 });
}

#[test]
fn largest_byte_count() {
    assert_eq!(HardwareInfo::from_total_bytes(u64::MAX).total_memory_mb, 17_592_186_044_415);
    assert_eq!(BYTES_PER_MB, 1024 * 1024);
}

#[test]
fn host_memory_is_what_the_host_reports() {
    let mut system = sysinfo::System::new_all();
    system.refresh_memory();
    let expected = system.total_memory() / 1024 / 1024;
    let info = get_hardware_info();
    assert_eq!(info.total_memory_mb, expected);
    assert!(info.total_memory_mb <= u64::MAX / BYTES_PER_MB);
}
