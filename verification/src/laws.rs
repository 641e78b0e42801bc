//! Laws of the snapshot rules, stated over `snapshot_of` and proved once
//! for all readings.

use vstd::prelude::*;
use crate::snapshot::{
    available_space_sum, snapshot_of, total_space_sum, unknown_label, HostReadingsView,
};

verus! {

/// Where the provider's figures are consistent (no more memory used than
/// there is, no more disk space available than there is, and a total that
/// fits in 64 bits), the record holds the plain sums and differences: free
/// memory is total minus used, the two disk figures are the sums over all
/// disks, and used disk space is total minus free.
pub proof fn lemma_consistent_readings_give_plain_arithmetic(readings: HostReadingsView)
    requires
        readings.used_memory <= readings.total_memory,
        available_space_sum(readings.disks) <= total_space_sum(readings.disks),
        total_space_sum(readings.disks) <= u64::MAX,
    ensures
        snapshot_of(readings).free_memory == readings.total_memory - readings.used_memory,
        snapshot_of(readings).total_disk == total_space_sum(readings.disks),
        snapshot_of(readings).free_disk == available_space_sum(readings.disks),
        snapshot_of(readings).used_disk == snapshot_of(readings).total_disk - snapshot_of(
            readings,
        ).free_disk,
{
}

/// The field relations hold of the record of any readings whatever.
pub proof fn lemma_snapshot_well_formed(readings: HostReadingsView)
    ensures
        snapshot_of(readings).well_formed(),
        snapshot_of(readings).free_memory <= snapshot_of(readings).total_memory,
        snapshot_of(readings).used_disk <= snapshot_of(readings).total_disk,
{
}

/// A host that lists no CPU gets the placeholder name and a core count of
/// zero.
pub proof fn lemma_no_cpu_listed(readings: HostReadingsView)
    requires
        readings.cpu_brands.len() == 0,
    ensures
        snapshot_of(readings).cpu_name == unknown_label(),
        snapshot_of(readings).cpu_cores == 0,
{
}

/// A host with at least one CPU is named after the first one, and the core
/// count is the length of the list.
pub proof fn lemma_first_cpu_names_the_host(readings: HostReadingsView)
    requires
        readings.cpu_brands.len() > 0,
    ensures
        snapshot_of(readings).cpu_name == readings.cpu_brands[0],
        snapshot_of(readings).cpu_cores == readings.cpu_brands.len(),
{
}

/// A host with no mounted disk has zero total, used and free disk space.
pub proof fn lemma_no_disk_mounted(readings: HostReadingsView)
    requires
        readings.disks.len() == 0,
    ensures
        snapshot_of(readings).total_disk == 0,
        snapshot_of(readings).used_disk == 0,
        snapshot_of(readings).free_disk == 0,
{
}

/// Two captures of a host that has not changed between them, the CPU
/// utilisation set aside, give records that agree in every field but the
/// CPU utilisation.
pub proof fn lemma_unchanged_host_gives_same_record(
    first: HostReadingsView,
    second: HostReadingsView,
)
    requires
        first.same_but_cpu_usage(second),
    ensures
        snapshot_of(first).same_but_cpu_usage(snapshot_of(second)),
        first.cpu_usage_bits == second.cpu_usage_bits ==> snapshot_of(first) == snapshot_of(
            second,
        ),
{
}

} // verus!
