//! Reading the live host attributes through the sysinfo crate.

use vstd::prelude::*;
use crate::attributes::HostAttributes;

verus! {

#[verifier::external_type_specification]
#[verifier::external_body]
pub struct ExSystem(sysinfo::System);

/// Relies on sysinfo::System::new_all: a snapshot object with every system
/// fact loaded.
#[verifier::external_body]
fn system_new_all() -> sysinfo::System {
    sysinfo::System::new_all()
}

/// Relies on sysinfo::System::refresh_all: re-reads every system fact in
/// place.
#[verifier::external_body]
fn refresh_system(sys: &mut sysinfo::System) {
    sys.refresh_all();
}

/// Relies on sysinfo::System::host_name: the hostname, if the platform
/// reports one.
#[verifier::external_body]
fn query_host_name() -> Option<String> {
    sysinfo::System::host_name()
}

/// Relies on sysinfo::System::name: the operating system's name, if the
/// platform reports one.
#[verifier::external_body]
fn query_os_name() -> Option<String> {
    sysinfo::System::name()
}

/// Relies on sysinfo::System::cpus: one entry per logical CPU; only the
/// count is handed back.
#[verifier::external_body]
fn query_cpu_count(sys: &sysinfo::System) -> usize {
    sys.cpus().len()
}

/// Relies on sysinfo::System::total_memory: the RAM size in bytes.
#[verifier::external_body]
fn query_total_memory(sys: &sysinfo::System) -> u64 {
    sys.total_memory()
}

/// Takes one snapshot of the live host: hostname and OS name where the
/// platform reports them, the logical CPU count, and the total physical
/// memory in bytes. The values depend on the machine, so nothing more can be
/// said of them here.
pub fn query_host_attributes() -> HostAttributes {
    let mut sys = system_new_all();
    refresh_system(&mut sys);
    let hostname = query_host_name();
    let os_name = query_os_name();
    let cpu_count = query_cpu_count(&sys) as u64;
    let total_memory_bytes = query_total_memory(&sys);
    HostAttributes { hostname, os_name, cpu_count, total_memory_bytes }
}

} // verus!
