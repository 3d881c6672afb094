//! The CPU and memory readings a CPU widget shows.
use vstd::prelude::*;

verus! {

/// One reading of the processor and memory: per logical core its usage in
/// tenths of a percent, and memory and swap, used and total, in bytes.
pub struct CpuSample {
    pub cpu_usage: Vec<u32>,
    pub ram_used: u64,
    pub ram_total: u64,
    pub swap_used: u64,
    pub swap_total: u64,
}

/// The latest readings: per core usage in tenths of a percent, memory and
/// swap in megabytes.
pub struct CpuInfo {
    pub cpus_usage: Vec<u32>,
    pub cpu_count: usize,
    pub ram_used: u64,
    pub ram_total: u64,
    pub swap_used: u64,
    pub swap_total: u64,
}

/// Whole megabytes in `bytes`.
pub open spec fn megabytes(bytes: u64) -> u64 {
    (bytes / 1024 / 1024) as u64
}

/// Converts bytes to whole megabytes.
pub fn to_megabytes(bytes: u64) -> (r: u64)
    ensures
        r == megabytes(bytes),
{
    bytes / 1024 / 1024
}

impl CpuInfo {
    /// One usage per core.
    pub open spec fn wf(&self) -> bool {
        self.cpus_usage@.len() == self.cpu_count
    }

    /// Readings for `cpu_count` cores before the first sample: every core
    /// idle, no memory or swap used out of a nominal total of one.
    pub fn new(cpu_count: usize) -> (r: CpuInfo)
        ensures
            r.wf(),
            r.cpu_count == cpu_count,
            forall|i: int| 0 <= i < cpu_count ==> r.cpus_usage@[i] == 0,
            r.ram_used == 0,
            r.ram_total == 1,
            r.swap_used == 0,
            r.swap_total == 1,
    {
        let mut cpus_usage: Vec<u32> = Vec::new();
        let mut i: usize = 0;
        while i < cpu_count
            invariant
                i <= cpu_count,
                cpus_usage@.len() == i,
                forall|k: int| 0 <= k < i ==> cpus_usage@[k] == 0,
            decreases cpu_count - i,
        {
            cpus_usage.push(0);
            i = i + 1;
        }
        CpuInfo { cpus_usage, cpu_count, ram_used: 0, ram_total: 1, swap_used: 0, swap_total: 1 }
    }

    /// Takes in a sample: the usage of each known core that the sample
    /// covers, and memory and swap converted to megabytes.
    pub fn update(&mut self, sample: &CpuSample)
        requires
            old(self).wf(),
        ensures
            final(self).wf(),
            final(self).cpu_count == old(self).cpu_count,
            forall|i: int|
                0 <= i < old(self).cpu_count ==> #[trigger] final(self).cpus_usage@[i] == if i
                    < sample.cpu_usage@.len() {
                    sample.cpu_usage@[i]
                } else {
                    old(self).cpus_usage@[i]
                },
            final(self).ram_used == megabytes(sample.ram_used),
            final(self).ram_total == megabytes(sample.ram_total),
            final(self).swap_used == megabytes(sample.swap_used),
            final(self).swap_total == megabytes(sample.swap_total),
    {
        self.update_cpu_usage(&sample.cpu_usage);
        self.update_memory_usage(sample);
    }

    fn update_cpu_usage(&mut self, usage: &Vec<u32>)
        requires
            old(self).wf(),
        ensures
            final(self).wf(),
            final(self).cpu_count == old(self).cpu_count,
            forall|i: int|
                0 <= i < old(self).cpu_count ==> #[trigger] final(self).cpus_usage@[i] == if i
                    < usage@.len() {
                    usage@[i]
                } else {
                    old(self).cpus_usage@[i]
                },
            final(self).ram_used == old(self).ram_used,
            final(self).ram_total == old(self).ram_total,
            final(self).swap_used == old(self).swap_used,
            final(self).swap_total == old(self).swap_total,
    {
        let mut ind: usize = 0;
        while ind < self.cpu_count && ind < usage.len()
            invariant
                self.wf(),
                self.cpu_count == old(self).cpu_count,
                ind <= self.cpu_count,
                ind <= usage@.len(),
                forall|i: int|
                    0 <= i < self.cpu_count ==> #[trigger] self.cpus_usage@[i] == if i < ind {
                        usage@[i]
                    } else {
                        old(self).cpus_usage@[i]
                    },
                self.ram_used == old(self).ram_used,
                self.ram_total == old(self).ram_total,
                self.swap_used == old(self).swap_used,
                self.swap_total == old(self).swap_total,
            decreases self.cpu_count - ind,
        {
            self.cpus_usage.set(ind, usage[ind]);
            ind = ind + 1;
        }
    }

    fn update_memory_usage(&mut self, sample: &CpuSample)
        ensures
            final(self).cpus_usage == old(self).cpus_usage,
            final(self).cpu_count == old(self).cpu_count,
            final(self).ram_used == megabytes(sample.ram_used),
            final(self).ram_total == megabytes(sample.ram_total),
            final(self).swap_used == megabytes(sample.swap_used),
            final(self).swap_total == megabytes(sample.swap_total),
    {
        self.ram_used = to_megabytes(sample.ram_used);
        self.ram_total = to_megabytes(sample.ram_total);
        self.swap_used = to_megabytes(sample.swap_used);
        self.swap_total = to_megabytes(sample.swap_total);
    }

    /// The usage of core `cpu_index`, in tenths of a percent.
    pub fn get_cpu_usage(&self, cpu_index: usize) -> (r: u32)
        requires
            self.wf(),
            cpu_index < self.cpu_count,
        ensures
            r == self.cpus_usage@[cpu_index as int],
    {
        self.cpus_usage[cpu_index]
    }

    /// Memory used and total, in megabytes.
    pub fn get_ram_usage(&self) -> (r: (u64, u64))
        ensures
            r == (self.ram_used, self.ram_total),
    {
        (self.ram_used, self.ram_total)
    }

    /// Swap used and total, in megabytes.
    pub fn get_swap_usage(&self) -> (r: (u64, u64))
        ensures
            r == (self.swap_used, self.swap_total),
    {
        (self.swap_used, self.swap_total)
    }
}

} // verus!
