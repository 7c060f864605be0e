//! The records that one sampling pass produces, and the view of the process
//! table that is offered to the operator.

use vstd::prelude::*;
use crate::usage::{share_of, usage_percent};

verus! {

/// One process as a sampling pass saw it. Memory sizes are in bytes, the
/// two percentages in hundredths of a percent.
pub struct ProcessRecord {
    pub pid: i32,
    pub ppid: i32,
    pub user: String,
    pub command: String,
    pub virtual_memory_bytes: u64,
    pub resident_memory_bytes: u64,
    pub shared_memory_bytes: u64,
    pub memory_hundredths: u64,
    pub cpu_hundredths: u64,
    pub time: String,
    pub priority: i64,
    pub nice: i64,
    pub state: String,
    pub threads: i64,
}

impl ProcessRecord {
    /// A field-by-field copy.
    pub fn duplicate(&self) -> (r: ProcessRecord)
        ensures
            r == *self,
    {
        ProcessRecord {
            pid: self.pid,
            ppid: self.ppid,
            user: self.user.clone(),
            command: self.command.clone(),
            virtual_memory_bytes: self.virtual_memory_bytes,
            resident_memory_bytes: self.resident_memory_bytes,
            shared_memory_bytes: self.shared_memory_bytes,
            memory_hundredths: self.memory_hundredths,
            cpu_hundredths: self.cpu_hundredths,
            time: self.time.clone(),
            priority: self.priority,
            nice: self.nice,
            state: self.state.clone(),
            threads: self.threads,
        }
    }
}

/// Load of one CPU core, in hundredths of a percent.
#[derive(Clone, Copy, Debug, PartialEq, Eq, Structural)]
pub struct CpuCoreUsage {
    pub core_index: usize,
    pub usage_hundredths: u64,
}

/// Memory and swap figures of one sampling pass, all in bytes.
#[derive(Clone, Copy, Debug, PartialEq, Eq, Structural)]
pub struct MemoryStats {
    pub total_ram: u64,
    pub used_ram: u64,
    pub free_ram: u64,
    pub total_swap: u64,
    pub used_swap: u64,
    pub free_swap: u64,
}

impl MemoryStats {
    /// Used and free add up to the total, for memory and for swap.
    pub open spec fn wf(self) -> bool {
        &&& self.used_ram + self.free_ram == self.total_ram
        &&& self.used_swap + self.free_swap == self.total_swap
    }

    /// Figures from the totals and what is free of them; a free figure above
    /// its total counts as all of it.
    pub fn from_totals(total_ram: u64, free_ram: u64, total_swap: u64, free_swap: u64) -> (r: MemoryStats)
        ensures
            r.wf(),
            r.total_ram == total_ram,
            r.total_swap == total_swap,
            r.free_ram == if free_ram <= total_ram { free_ram } else { total_ram },
            r.free_swap == if free_swap <= total_swap { free_swap } else { total_swap },
    {
        let free_r = if free_ram <= total_ram { free_ram } else { total_ram };
        let free_s = if free_swap <= total_swap { free_swap } else { total_swap };
        MemoryStats {
            total_ram,
            used_ram: total_ram - free_r,
            free_ram: free_r,
            total_swap,
            used_swap: total_swap - free_s,
            free_swap: free_s,
        }
    }

    /// Percentage of memory in use, 0 when there is no memory at all.
    pub fn ram_percent(&self) -> (r: u16)
        ensures
            r as nat == share_of(self.used_ram as nat, self.total_ram as nat, 100),
    {
        usage_percent(self.used_ram, self.total_ram)
    }

    /// Percentage of swap in use, 0 when there is no swap at all.
    pub fn swap_percent(&self) -> (r: u16)
        ensures
            r as nat == share_of(self.used_swap as nat, self.total_swap as nat, 100),
    {
        usage_percent(self.used_swap, self.total_swap)
    }
}

/// The I/O counters of one block device.
pub struct DiskStats {
    pub device_name: String,
    pub reads_completed: u64,
    pub time_reading: u64,
    pub writes_completed: u64,
    pub time_writing: u64,
    pub io_in_progress: u64,
    pub time_io: u64,
}

impl DiskStats {
    /// A field-by-field copy.
    pub fn duplicate(&self) -> (r: DiskStats)
        ensures
            r == *self,
    {
        DiskStats {
            device_name: self.device_name.clone(),
            reads_completed: self.reads_completed,
            time_reading: self.time_reading,
            writes_completed: self.writes_completed,
            time_writing: self.time_writing,
            io_in_progress: self.io_in_progress,
            time_io: self.time_io,
        }
    }
}

/// Why one read of the operating system's counters failed.
#[derive(Clone, Copy, Debug, PartialEq, Eq, Structural)]
pub enum ProbeError {
    PermissionDenied,
    SourceUnavailable,
    ParseFailure,
}

/// A process is offered as a target unless the protected principal owns it.
pub open spec fn is_offered(p: ProcessRecord, protected_owner: Seq<char>) -> bool {
    p.user@ != protected_owner
}

/// The processes offered to the operator, in snapshot order.
pub open spec fn offered(all: Seq<ProcessRecord>, protected_owner: Seq<char>) -> Seq<ProcessRecord> {
    all.filter(|p: ProcessRecord| is_offered(p, protected_owner))
}

/// Copies of the processes of `all` that `protected_owner` does not own, in order.
pub fn offered_processes(all: &Vec<ProcessRecord>, protected_owner: &String) -> (r: Vec<ProcessRecord>)
    ensures
        r@ == offered(all@, protected_owner@),
{
    let ghost keep = |p: ProcessRecord| is_offered(p, protected_owner@);
    let mut out: Vec<ProcessRecord> = Vec::new();
    let mut i: usize = 0;
    while i < all.len()
        invariant
            i <= all.len(),
            keep == (|p: ProcessRecord| is_offered(p, protected_owner@)),
            out@ == all@.take(i as int).filter(keep),
        decreases all.len() - i,
    {
        proof {
            all@.take(i as int).lemma_filter_push(all@[i as int], keep);
            assert(all@.take(i as int).push(all@[i as int]) =~= all@.take(i + 1));
        }
        if all[i].user != *protected_owner {
            out.push(all[i].duplicate());
        }
        i += 1;
    }
    assert(all@.take(all.len() as int) =~= all@);
    out
}

/// How many processes of `all` are offered.
pub fn offered_count(all: &Vec<ProcessRecord>, protected_owner: &String) -> (r: usize)
    ensures
        r == offered(all@, protected_owner@).len(),
{
    let ghost keep = |p: ProcessRecord| is_offered(p, protected_owner@);
    let mut count: usize = 0;
    let mut i: usize = 0;
    while i < all.len()
        invariant
            i <= all.len(),
            keep == (|p: ProcessRecord| is_offered(p, protected_owner@)),
            count == all@.take(i as int).filter(keep).len(),
            count <= i,
        decreases all.len() - i,
    {
        proof {
            all@.take(i as int).lemma_filter_push(all@[i as int], keep);
            assert(all@.take(i as int).push(all@[i as int]) =~= all@.take(i + 1));
        }
        if all[i].user != *protected_owner {
            count += 1;
        }
        i += 1;
    }
    assert(all@.take(all.len() as int) =~= all@);
    count
}

} // verus!
