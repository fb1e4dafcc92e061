//! Facts about the machine that every event reports.

use sysinfo::SystemExt;
use vstd::prelude::*;

verus! {

/// What is known about the host. A text that the system does not reveal is absent.
#[derive(Debug)]
pub struct HostInfo {
    /// The name of the operating system.
    pub os_name: Option<String>,
    /// The version of the operating system.
    pub os_version: Option<String>,
    /// The version of the kernel.
    pub kernel_version: Option<String>,
    /// The host's name on the network.
    pub host_name: Option<String>,
    /// The number of logical processors.
    pub cpu_count: usize,
    /// The size of the main memory, in bytes.
    pub total_memory: u64,
}

/// Reads the host's facts from the operating system.
///
/// Trusted: takes a full snapshot with `sysinfo::System::new_all` and copies
/// six of its answers. What comes back depends on the machine and on the
/// moment, so nothing is claimed about it.
#[verifier::external_body]
pub(crate) fn read_host() -> HostInfo {
    let system = sysinfo::System::new_all();
    HostInfo {
        os_name: system.name(),
        os_version: system.os_version(),
        kernel_version: system.kernel_version(),
        host_name: system.host_name(),
        cpu_count: system.cpus().len(),
        total_memory: system.total_memory(),
    }
}

} // verus!
