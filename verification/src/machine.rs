//! What a monitored machine reports about itself once, at registration.

use vstd::prelude::*;

verus! {

/// The static description of a machine, as sent to the service.
#[derive(Clone, Debug, PartialEq, Eq)]
pub struct MachineInfo {
    /// The identifier that the machine already has, if any.
    pub uuid: Option<String>,
    /// The host name.
    pub host_name: String,
    /// The name of the operating system.
    pub system_name: String,
    /// The machine's address; left empty.
    pub ip_address: String,
    /// The kernel version.
    pub kernel_version: String,
    /// The version of the operating system.
    pub os_version: String,
    /// The number of physical CPU cores.
    pub cpu_cores: u64,
    /// The size of the memory, in bytes.
    pub total_memory: u64,
    /// The size of the swap space, in bytes.
    pub total_swap: u64,
    /// The capacity of all disks together, in bytes.
    pub total_disk: u64,
}

/// What the host answers when asked about itself.
#[derive(Clone, Debug, PartialEq, Eq)]
pub struct HostFacts {
    /// The host name.
    pub host_name: String,
    /// The name of the operating system.
    pub system_name: String,
    /// The kernel version.
    pub kernel_version: String,
    /// The version of the operating system.
    pub os_version: String,
    /// The number of physical CPU cores, where the host knows it.
    pub physical_cores: Option<usize>,
    /// The number of logical CPUs.
    pub logical_cpus: usize,
    /// The size of the memory, in KiB.
    pub total_memory_kib: u64,
    /// The size of the swap space, in KiB.
    pub total_swap_kib: u64,
    /// The capacity of each disk, in bytes.
    pub disk_sizes: Vec<u64>,
}

/// The sum of the given sizes.
pub open spec fn total_of(sizes: Seq<u64>) -> nat
    decreases sizes.len(),
{
    if sizes.len() == 0 {
        0
    } else {
        total_of(sizes.drop_last()) + sizes.last() as nat
    }
}

/// A size in KiB as a size in bytes, or the largest number of bytes that
/// can be written down where the size is beyond it.
pub open spec fn kib_to_bytes(kib: u64) -> u64 {
    if kib * 1024 > u64::MAX {
        u64::MAX
    } else {
        (kib * 1024) as u64
    }
}

/// The number of cores to report: the physical cores where the host knows
/// them, the logical CPUs else.
pub open spec fn cores_of(physical: Option<usize>, logical: usize) -> u64 {
    match physical {
        Some(n) => n as u64,
        None => logical as u64,
    }
}

/// A sum only grows with more sizes.
proof fn total_grows(sizes: Seq<u64>, n: int)
    requires
        0 <= n <= sizes.len(),
    ensures
        total_of(sizes.take(n)) <= total_of(sizes),
    decreases sizes.len() - n,
{
    if n < sizes.len() {
        total_grows(sizes, n + 1);
        assert(sizes.take(n + 1).drop_last() =~= sizes.take(n));
    } else {
        assert(sizes.take(n) =~= sizes);
    }
}

/// Adds up the given sizes. There is no sum where it does not fit.
pub fn checked_total(sizes: &Vec<u64>) -> (total: Option<u64>)
    ensures
        total == (if total_of(sizes@) <= u64::MAX {
            Some(total_of(sizes@) as u64)
        } else {
            None
        }),
{
    let mut sum: u64 = 0;
    let mut i: usize = 0;
    while i < sizes.len()
        invariant
            i <= sizes.len(),
            sum == total_of(sizes@.take(i as int)),
        decreases sizes.len() - i,
    {
        proof {
            assert(sizes@.take(i + 1).drop_last() =~= sizes@.take(i as int));
            total_grows(sizes@, i + 1);
        }
        if sizes[i] > u64::MAX - sum {
            return None;
        }
        sum = sum + sizes[i];
        i += 1;
    }
    assert(sizes@.take(i as int) =~= sizes@);
    Some(sum)
}

/// Converts a size in KiB to bytes, stopping at the largest number.
pub fn bytes_of_kib(kib: u64) -> (bytes: u64)
    ensures
        bytes == kib_to_bytes(kib),
{
    if kib > u64::MAX / 1024 {
        u64::MAX
    } else {
        kib * 1024
    }
}

/// Puts together the static description of a machine from what the host
/// reports. The identifier is passed on as it is, memory and swap are
/// converted to bytes, and the disks are added up; their sum has to fit.
pub fn collect_static_info(uuid: Option<String>, facts: HostFacts) -> (info: MachineInfo)
    requires
        total_of(facts.disk_sizes@) <= u64::MAX,
    ensures
        info.uuid == uuid,
        info.host_name == facts.host_name,
        info.system_name == facts.system_name,
        info.ip_address@ == Seq::<char>::empty(),
        info.kernel_version == facts.kernel_version,
        info.os_version == facts.os_version,
        info.cpu_cores == cores_of(facts.physical_cores, facts.logical_cpus),
        info.total_memory == kib_to_bytes(facts.total_memory_kib),
        info.total_swap == kib_to_bytes(facts.total_swap_kib),
        info.total_disk == total_of(facts.disk_sizes@),
{
    let cpu_cores = match facts.physical_cores {
        Some(n) => n as u64,
        None => facts.logical_cpus as u64,
    };
    let total_disk = checked_total(&facts.disk_sizes).unwrap();
    MachineInfo {
        uuid,
        host_name: facts.host_name,
        system_name: facts.system_name,
        ip_address: String::new(),
        kernel_version: facts.kernel_version,
        os_version: facts.os_version,
        cpu_cores,
        total_memory: bytes_of_kib(facts.total_memory_kib),
        total_swap: bytes_of_kib(facts.total_swap_kib),
        total_disk,
    }
}

} // verus!
