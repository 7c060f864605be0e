//! CPU load per core, derived from two time-ordered reads of the cumulative
//! per-core time counters.

use vstd::prelude::*;
use crate::model::CpuCoreUsage;
use crate::usage::share_of;

verus! {

/// Cumulative time a core has spent in each state since boot, in clock ticks.
#[derive(Clone, Copy, Debug, PartialEq, Eq, Structural)]
pub struct CpuTimes {
    pub user: u64,
    pub nice: u64,
    pub system: u64,
    pub idle: u64,
    pub iowait: u64,
    pub irq: u64,
    pub softirq: u64,
    pub steal: u64,
}

/// Ticks the core spent working.
pub open spec fn busy_of(t: CpuTimes) -> nat {
    (t.user + t.nice + t.system + t.irq + t.softirq + t.steal) as nat
}

/// Ticks the core spent idle or waiting for I/O.
pub open spec fn idle_of(t: CpuTimes) -> nat {
    (t.idle + t.iowait) as nat
}

/// How far a counter moved forward from `a` to `b`; a counter that went back counts as still.
pub open spec fn advance(a: nat, b: nat) -> nat {
    if b >= a {
        (b - a) as nat
    } else {
        0
    }
}

/// Load of a core between two reads, in hundredths of a percent.
pub open spec fn load_between(prev: CpuTimes, cur: CpuTimes) -> nat {
    let busy = advance(busy_of(prev), busy_of(cur));
    let idle = advance(idle_of(prev), idle_of(cur));
    share_of(busy, busy + idle, 10000)
}

/// Counters of a core never read before: all zero.
pub open spec fn zero_times() -> CpuTimes {
    CpuTimes { user: 0, nice: 0, system: 0, idle: 0, iowait: 0, irq: 0, softirq: 0, steal: 0 }
}

impl CpuTimes {
    /// All counters zero.
    pub fn zero() -> (r: CpuTimes)
        ensures
            r == zero_times(),
    {
        CpuTimes { user: 0, nice: 0, system: 0, idle: 0, iowait: 0, irq: 0, softirq: 0, steal: 0 }
    }
}

/// The load of a core between the reads `prev` and `cur`, in hundredths of a
/// percent (0..=10000); no elapsed time counts as no load.
pub fn core_usage(prev: &CpuTimes, cur: &CpuTimes) -> (r: u64)
    ensures
        r == load_between(*prev, *cur),
        r <= 10000,
{
    let busy_prev: u128 = prev.user as u128 + prev.nice as u128 + prev.system as u128 + prev.irq as u128
        + prev.softirq as u128 + prev.steal as u128;
    let busy_cur: u128 = cur.user as u128 + cur.nice as u128 + cur.system as u128 + cur.irq as u128
        + cur.softirq as u128 + cur.steal as u128;
    let idle_prev: u128 = prev.idle as u128 + prev.iowait as u128;
    let idle_cur: u128 = cur.idle as u128 + cur.iowait as u128;
    let busy: u128 = if busy_cur >= busy_prev { busy_cur - busy_prev } else { 0 };
    let idle: u128 = if idle_cur >= idle_prev { idle_cur - idle_prev } else { 0 };
    let total: u128 = busy + idle;
    if total == 0 {
        return 0;
    }
    assert(busy * 10000 <= 0x10_0000_0000_0000_0000u128 * 10000) by (nonlinear_arith)
        requires
            busy <= 0x10_0000_0000_0000_0000u128,
    ;
    let share: u128 = busy * 10000 / total;
    if share > 10000 {
        10000
    } else {
        share as u64
    }
}

/// Share of one core that a process has used over its lifetime, in hundredths
/// of a percent: its user and system ticks over the ticks from its start to
/// now. A process started at or after `now_ticks` counts as idle.
pub fn lifetime_cpu_hundredths(user_ticks: u64, system_ticks: u64, start_ticks: u64, now_ticks: u64) -> (r: u64)
    ensures
        r == share_of(
            (user_ticks + system_ticks) as nat,
            advance(start_ticks as nat, now_ticks as nat),
            10000,
        ),
{
    let elapsed: u64 = if now_ticks >= start_ticks { now_ticks - start_ticks } else { 0 };
    if elapsed == 0 {
        return 0;
    }
    let used: u128 = user_ticks as u128 + system_ticks as u128;
    assert(used * 10000 <= 0x2_0000_0000_0000_0000u128 * 10000) by (nonlinear_arith)
        requires
            used <= 0x2_0000_0000_0000_0000u128,
    ;
    let share: u128 = used * 10000 / (elapsed as u128);
    if share > 10000 {
        10000
    } else {
        share as u64
    }
}

/// The per-core sampler's private state: the counters of the previous read.
pub struct CpuSampler {
    pub previous: Vec<CpuTimes>,
}

/// The counters of core `i` in the previous read, or zeros if there were none.
pub open spec fn previous_of(previous: Seq<CpuTimes>, i: int) -> CpuTimes {
    if 0 <= i < previous.len() {
        previous[i]
    } else {
        zero_times()
    }
}

impl CpuSampler {
    /// A sampler that has read nothing yet.
    pub fn new() -> (r: CpuSampler)
        ensures
            r.previous@.len() == 0,
    {
        CpuSampler { previous: Vec::new() }
    }

    /// Takes a new read of every core: returns each core's load since the
    /// previous read (since boot for a core not read before) and keeps the
    /// new read for next time.
    pub fn tick(&mut self, current: Vec<CpuTimes>) -> (r: Vec<CpuCoreUsage>)
        ensures
            final(self).previous@ == current@,
            r.len() == current.len(),
            forall|i: int|
                0 <= i < current.len() ==> (#[trigger] r[i]).core_index == i && r[i].usage_hundredths
                    == load_between(previous_of(old(self).previous@, i), current[i]),
    {
        let mut out: Vec<CpuCoreUsage> = Vec::new();
        let mut i: usize = 0;
        while i < current.len()
            invariant
                i <= current.len(),
                self.previous@ == old(self).previous@,
                out.len() == i,
                forall|j: int|
                    0 <= j < i ==> (#[trigger] out[j]).core_index == j && out[j].usage_hundredths
                        == load_between(previous_of(old(self).previous@, j), current[j]),
            decreases current.len() - i,
        {
            let before = if i < self.previous.len() { self.previous[i] } else { CpuTimes::zero() };
            let load = core_usage(&before, &current[i]);
            out.push(CpuCoreUsage { core_index: i, usage_hundredths: load });
            i += 1;
        }
        self.previous = current;
        out
    }
}

} // verus!
