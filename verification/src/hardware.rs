//! The host's memory, asked once to help a caller choose a configuration.

use vstd::prelude::*;

verus! {

/// Bytes in a megabyte, as memory sizes are counted here.
pub const BYTES_PER_MB: u64 = 1_048_576;

/// `sysinfo::System`, the handle through which the host is queried. What it
/// holds is not visible to the verifier.
#[verifier::external_type_specification]
#[verifier::external_body]
pub struct ExSystem(sysinfo::System);

/// `sysinfo::System::new_all` makes a handle with everything loaded. Nothing
/// is claimed of what it has read.
pub assume_specification[ sysinfo::System::new_all ]() -> (system: sysinfo::System);

/// `sysinfo::System::refresh_memory` reads the memory figures again. Nothing
/// is claimed of what it has read.
pub assume_specification[ sysinfo::System::refresh_memory ](system: &mut sysinfo::System);

/// `sysinfo::System::total_memory` gives the RAM size in bytes as last read.
/// Nothing is claimed of the number: it is the machine's.
pub assume_specification[ sysinfo::System::total_memory ](system: &sysinfo::System) -> (bytes:
    u64);

/// What is known of the host.
#[derive(Clone, Copy, Debug, PartialEq, Eq, Structural)]
pub struct HardwareInfo {
    /// Total memory in whole megabytes.
    pub total_memory_mb: u64,
}

impl HardwareInfo {
    /// The snapshot of a host with `bytes` bytes of memory: the size in
    /// megabytes, rounded down.
    pub fn from_total_bytes(bytes: u64) -> (info: HardwareInfo)
        ensures
            info.total_memory_mb == bytes / BYTES_PER_MB,
    {
        HardwareInfo { total_memory_mb: bytes / 1024 / 1024 }
    }
}

/// Asks the host for its memory size. Whatever the host answers, the result
/// is that answer in whole megabytes, so it is at most the largest byte
/// count in megabytes.
pub fn get_hardware_info() -> (info: HardwareInfo)
    ensures
        info.total_memory_mb <= u64::MAX / BYTES_PER_MB,
{
    let mut system = sysinfo::System::new_all();
    system.refresh_memory();
    HardwareInfo::from_total_bytes(system.total_memory())
}

} // verus!
