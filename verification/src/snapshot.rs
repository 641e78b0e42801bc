//! The snapshot record and the rules that derive it from raw host readings.
//!
//! Everything here is a function of its arguments: the readings are plain
//! values, and the record that comes out is fixed by `snapshot_of`.

use vstd::prelude::*;
use vstd::string::StringExecFns;

verus! {

/// Capacity figures of one mounted disk, in bytes.
#[derive(Clone, Copy, Debug)]
pub struct DiskSpace {
    pub total_space: u64,
    pub available_space: u64,
}

/// What the telemetry provider reported at one moment, before any rule of
/// this library has been applied. The caller samples the host and fills the
/// fields as they came; no relation between them is asked for.
///
/// `cpu_usage_bits` is the IEEE-754 bit pattern of the single-precision
/// utilisation percentage; the library carries it and never computes on it.
pub struct HostReadings {
    pub os_name: Option<String>,
    pub os_version: Option<String>,
    pub cpu_brands: Vec<String>,
    pub cpu_usage_bits: u32,
    pub total_memory: u64,
    pub used_memory: u64,
    pub disks: Vec<DiskSpace>,
}

/// Mathematical model of `HostReadings`.
pub ghost struct HostReadingsView {
    pub os_name: Option<Seq<char>>,
    pub os_version: Option<Seq<char>>,
    pub cpu_brands: Seq<Seq<char>>,
    pub cpu_usage_bits: u32,
    pub total_memory: u64,
    pub used_memory: u64,
    pub disks: Seq<DiskSpace>,
}

/// The text of an optional string, if there is one.
pub open spec fn text_of(label: Option<String>) -> Option<Seq<char>> {
    match label {
        Some(s) => Some(s@),
        None => None,
    }
}

impl View for HostReadings {
    type V = HostReadingsView;

    open spec fn view(&self) -> HostReadingsView {
        HostReadingsView {
            os_name: text_of(self.os_name),
            os_version: text_of(self.os_version),
            cpu_brands: self.cpu_brands@.map_values(|brand: String| brand@),
            cpu_usage_bits: self.cpu_usage_bits,
            total_memory: self.total_memory,
            used_memory: self.used_memory,
            disks: self.disks@,
        }
    }
}

/// One complete capture of host state. A value is built once, by
/// `SystemInfo::from_readings`, and only read afterwards.
pub struct SystemInfo {
    os_name: String,
    os_version: String,
    cpu_name: String,
    cpu_cores: usize,
    cpu_usage_bits: u32,
    total_memory: u64,
    used_memory: u64,
    free_memory: u64,
    total_disk: u64,
    used_disk: u64,
    free_disk: u64,
}

/// Mathematical model of `SystemInfo`.
pub ghost struct SystemInfoView {
    pub os_name: Seq<char>,
    pub os_version: Seq<char>,
    pub cpu_name: Seq<char>,
    pub cpu_cores: nat,
    pub cpu_usage_bits: u32,
    pub total_memory: u64,
    pub used_memory: u64,
    pub free_memory: u64,
    pub total_disk: u64,
    pub used_disk: u64,
    pub free_disk: u64,
}

impl View for SystemInfo {
    type V = SystemInfoView;

    closed spec fn view(&self) -> SystemInfoView {
        SystemInfoView {
            os_name: self.os_name@,
            os_version: self.os_version@,
            cpu_name: self.cpu_name@,
            cpu_cores: self.cpu_cores as nat,
            cpu_usage_bits: self.cpu_usage_bits,
            total_memory: self.total_memory,
            used_memory: self.used_memory,
            free_memory: self.free_memory,
            total_disk: self.total_disk,
            used_disk: self.used_disk,
            free_disk: self.free_disk,
        }
    }
}

/// The placeholder that stands in for a string the provider could not give.
pub open spec fn unknown_label() -> Seq<char> {
    "Unknown"@
}

/// An optional label, or the placeholder where it is missing.
pub open spec fn label_or_unknown(label: Option<Seq<char>>) -> Seq<char> {
    match label {
        Some(text) => text,
        None => unknown_label(),
    }
}

/// The brand of the first CPU, or the placeholder where no CPU is listed.
pub open spec fn first_brand_or_unknown(brands: Seq<Seq<char>>) -> Seq<char> {
    if brands.len() > 0 {
        brands[0]
    } else {
        unknown_label()
    }
}

/// Sum of the total capacities of `disks`, as an unbounded number.
pub open spec fn total_space_sum(disks: Seq<DiskSpace>) -> nat
    decreases disks.len(),
{
    if disks.len() == 0 {
        0
    } else {
        total_space_sum(disks.drop_last()) + disks.last().total_space as nat
    }
}

/// Sum of the available capacities of `disks`, as an unbounded number.
pub open spec fn available_space_sum(disks: Seq<DiskSpace>) -> nat
    decreases disks.len(),
{
    if disks.len() == 0 {
        0
    } else {
        available_space_sum(disks.drop_last()) + disks.last().available_space as nat
    }
}

/// `n` where it fits in 64 bits, else the largest 64-bit value.
pub open spec fn capped(n: nat) -> u64 {
    if n > u64::MAX {
        u64::MAX
    } else {
        n as u64
    }
}

/// `whole - part` where `part` does not exceed `whole`, else zero.
pub open spec fn remainder_of(whole: u64, part: u64) -> u64 {
    if part <= whole {
        (whole - part) as u64
    } else {
        0
    }
}

/// The record that belongs to given readings.
pub open spec fn snapshot_of(readings: HostReadingsView) -> SystemInfoView {
    let total_disk = capped(total_space_sum(readings.disks));
    let free_disk = capped(available_space_sum(readings.disks));
    SystemInfoView {
        os_name: label_or_unknown(readings.os_name),
        os_version: label_or_unknown(readings.os_version),
        cpu_name: first_brand_or_unknown(readings.cpu_brands),
        cpu_cores: readings.cpu_brands.len(),
        cpu_usage_bits: readings.cpu_usage_bits,
        total_memory: readings.total_memory,
        used_memory: readings.used_memory,
        free_memory: remainder_of(readings.total_memory, readings.used_memory),
        total_disk,
        used_disk: remainder_of(total_disk, free_disk),
        free_disk,
    }
}

impl SystemInfoView {
    /// The relations between the fields that hold of every record the
    /// library builds.
    pub open spec fn well_formed(self) -> bool {
        &&& self.free_memory == remainder_of(self.total_memory, self.used_memory)
        &&& self.used_disk == remainder_of(self.total_disk, self.free_disk)
        &&& self.cpu_cores == 0 ==> self.cpu_name == unknown_label()
    }

    /// Equality of two records in every field but the CPU utilisation.
    pub open spec fn same_but_cpu_usage(self, other: SystemInfoView) -> bool {
        self == (SystemInfoView { cpu_usage_bits: self.cpu_usage_bits, ..other })
    }
}

impl HostReadingsView {
    /// Equality of two sets of readings in every field but the CPU
    /// utilisation.
    pub open spec fn same_but_cpu_usage(self, other: HostReadingsView) -> bool {
        self == (HostReadingsView { cpu_usage_bits: self.cpu_usage_bits, ..other })
    }
}

/// Adding one disk at the end adds its figures to both sums.
pub proof fn lemma_sums_push(disks: Seq<DiskSpace>, disk: DiskSpace)
    ensures
        total_space_sum(disks.push(disk)) == total_space_sum(disks) + disk.total_space,
        available_space_sum(disks.push(disk)) == available_space_sum(disks)
            + disk.available_space,
{
    assert(disks.push(disk).drop_last() =~= disks);
}

/// A missing label becomes the placeholder; a present one is kept.
pub fn or_unknown(label: Option<String>) -> (text: String)
    ensures
        text@ == label_or_unknown(text_of(label)),
{
    match label {
        Some(text) => text,
        None => String::from_str("Unknown"),
    }
}

/// The brand of the first listed CPU, or the placeholder for an empty list.
pub fn first_brand(brands: &Vec<String>) -> (name: String)
    ensures
        name@ == first_brand_or_unknown(brands@.map_values(|brand: String| brand@)),
{
    if brands.len() > 0 {
        brands[0].clone()
    } else {
        String::from_str("Unknown")
    }
}

/// Adds up total and available capacity over `disks`. Each sum stops at the
/// largest 64-bit value instead of wrapping.
pub fn sum_disks(disks: &Vec<DiskSpace>) -> (sums: (u64, u64))
    ensures
        sums.0 == capped(total_space_sum(disks@)),
        sums.1 == capped(available_space_sum(disks@)),
{
    let mut total: u64 = 0;
    let mut available: u64 = 0;
    let mut i: usize = 0;
    while i < disks.len()
        invariant
            i <= disks.len(),
            total == capped(total_space_sum(disks@.take(i as int))),
            available == capped(available_space_sum(disks@.take(i as int))),
        decreases disks.len() - i,
    {
        proof {
            lemma_sums_push(disks@.take(i as int), disks@[i as int]);
            assert(disks@.take(i as int).push(disks@[i as int]) =~= disks@.take(i + 1));
        }
        total = total.saturating_add(disks[i].total_space);
        available = available.saturating_add(disks[i].available_space);
        i += 1;
    }
    assert(disks@.take(i as int) =~= disks@);
    (total, available)
}

/// `whole - part`, held at zero where the provider reports a part larger
/// than the whole.
pub fn remainder(whole: u64, part: u64) -> (rest: u64)
    ensures
        rest == remainder_of(whole, part),
{
    whole.saturating_sub(part)
}

impl SystemInfo {
    /// Builds the record for `readings`. Every input is accepted: missing
    /// labels and an empty CPU list give the placeholder, an empty disk list
    /// gives zero, sums stop at the largest 64-bit value, and a difference
    /// that would be negative is zero.
    pub fn from_readings(readings: HostReadings) -> (info: SystemInfo)
        ensures
            info@ == snapshot_of(readings@),
            info@.well_formed(),
    {
        let cpu_name = first_brand(&readings.cpu_brands);
        let cpu_cores = readings.cpu_brands.len();
        let (total_disk, free_disk) = sum_disks(&readings.disks);
        let free_memory = remainder(readings.total_memory, readings.used_memory);
        let used_disk = remainder(total_disk, free_disk);
        SystemInfo {
            os_name: or_unknown(readings.os_name),
            os_version: or_unknown(readings.os_version),
            cpu_name,
            cpu_cores,
            cpu_usage_bits: readings.cpu_usage_bits,
            total_memory: readings.total_memory,
            used_memory: readings.used_memory,
            free_memory,
            total_disk,
            used_disk,
            free_disk,
        }
    }

    /// Host OS name, or the placeholder.
    pub fn os_name(&self) -> (text: &str)
        ensures
            text@ == self@.os_name,
    {
        self.os_name.as_str()
    }

    /// Host OS version, or the placeholder.
    pub fn os_version(&self) -> (text: &str)
        ensures
            text@ == self@.os_version,
    {
        self.os_version.as_str()
    }

    /// Brand of the first CPU, or the placeholder.
    pub fn cpu_name(&self) -> (text: &str)
        ensures
            text@ == self@.cpu_name,
    {
        self.cpu_name.as_str()
    }

    /// Number of logical CPUs.
    pub fn cpu_cores(&self) -> (count: usize)
        ensures
            count == self@.cpu_cores,
    {
        self.cpu_cores
    }

    /// Bit pattern of the global CPU utilisation percentage.
    pub fn cpu_usage_bits(&self) -> (bits: u32)
        ensures
            bits == self@.cpu_usage_bits,
    {
        self.cpu_usage_bits
    }

    /// Total memory, in bytes.
    pub fn total_memory(&self) -> (bytes: u64)
        ensures
            bytes == self@.total_memory,
    {
        self.total_memory
    }

    /// Used memory, in bytes.
    pub fn used_memory(&self) -> (bytes: u64)
        ensures
            bytes == self@.used_memory,
    {
        self.used_memory
    }

    /// Free memory, in bytes.
    pub fn free_memory(&self) -> (bytes: u64)
        ensures
            bytes == self@.free_memory,
    {
        self.free_memory
    }

    /// Total capacity of all mounted disks, in bytes.
    pub fn total_disk(&self) -> (bytes: u64)
        ensures
            bytes == self@.total_disk,
    {
        self.total_disk
    }

    /// Used space of all mounted disks, in bytes.
    pub fn used_disk(&self) -> (bytes: u64)
        ensures
            bytes == self@.used_disk,
    {
        self.used_disk
    }

    /// Available space of all mounted disks, in bytes.
    pub fn free_disk(&self) -> (bytes: u64)
        ensures
            bytes == self@.free_disk,
    {
        self.free_disk
    }
}

} // verus!
