//! CPU usage per core and for all cores together.
use crate::rates::{cpu_usage_percent, usage_percent};
use vstd::prelude::*;

verus! {

/// Which CPU an entry of a harvest describes.
#[derive(Clone, Copy, Debug, PartialEq, Eq, Structural)]
pub enum CpuDataType {
    Avg,
    Cpu(usize),
}

/// Usage of one CPU over the last cycle, in hundredths of a percent.
#[derive(Clone, Copy, Debug, PartialEq, Eq, Structural)]
pub struct CpuData {
    pub data_type: CpuDataType,
    pub cpu_usage: u64,
}

/// Cumulative ticks of one CPU: those spent working, and all of them.
#[derive(Clone, Copy, Debug, PartialEq, Eq, Structural)]
pub struct CpuTimes {
    pub work: u64,
    pub total: u64,
}

/// What the CPU probe read in one cycle: cumulative ticks of each core, in
/// core order, and of all cores together.
#[derive(Clone, Debug)]
pub struct CpuReading {
    pub per_core: Vec<CpuTimes>,
    pub average: CpuTimes,
}

pub type CpuHarvest = Vec<CpuData>;

/// Load average over one, five and fifteen minutes, in hundredths.
pub type LoadAvgHarvest = [u64; 3];

pub open spec fn times_usage(prev: CpuTimes, curr: CpuTimes) -> u64 {
    usage_percent(prev.work, prev.total, curr.work, curr.total) as u64
}

/// What core `i` is diffed against: its sample of the previous cycle, or its
/// current sample (no movement) where there is none.
pub open spec fn core_baseline(prev: Seq<CpuTimes>, curr: Seq<CpuTimes>, i: int) -> CpuTimes {
    if i < prev.len() {
        prev[i]
    } else {
        curr[i]
    }
}

pub open spec fn core_entry(prev: Seq<CpuTimes>, curr: Seq<CpuTimes>, i: int) -> CpuData {
    CpuData {
        data_type: CpuDataType::Cpu(i as usize),
        cpu_usage: times_usage(core_baseline(prev, curr, i), curr[i]),
    }
}

pub open spec fn core_entries(prev: Seq<CpuTimes>, curr: Seq<CpuTimes>) -> Seq<CpuData> {
    Seq::new(curr.len(), |i: int| core_entry(prev, curr, i))
}

pub open spec fn average_entry(prev_avg: Option<CpuTimes>, curr: CpuTimes) -> CpuData {
    let base = match prev_avg {
        Some(p) => p,
        None => curr,
    };
    CpuData { data_type: CpuDataType::Avg, cpu_usage: times_usage(base, curr) }
}

/// The harvest of one cycle: the all-cores entry first when it is shown, then
/// one entry per core in core order.
pub open spec fn cpu_harvest(
    show_average: bool,
    prev: Seq<CpuTimes>,
    prev_avg: Option<CpuTimes>,
    reading: CpuReading,
) -> Seq<CpuData> {
    let cores = core_entries(prev, reading.per_core@);
    if show_average {
        seq![average_entry(prev_avg, reading.average)] + cores
    } else {
        cores
    }
}

/// Computes this cycle's CPU usage against the previous samples, and makes
/// this cycle's samples the previous ones for the next cycle.
pub fn get_cpu_data_list(
    show_average_cpu: bool,
    reading: &CpuReading,
    previous_cpu_times: &mut Vec<CpuTimes>,
    previous_average_cpu_time: &mut Option<CpuTimes>,
) -> (r: CpuHarvest)
    ensures
        r@ == cpu_harvest(
            show_average_cpu,
            old(previous_cpu_times)@,
            *old(previous_average_cpu_time),
            *reading,
        ),
        final(previous_cpu_times)@ == reading.per_core@,
        *final(previous_average_cpu_time) == if show_average_cpu {
            Some(reading.average)
        } else {
            *old(previous_average_cpu_time)
        },
        forall|k: int| 0 <= k < r@.len() ==> #[trigger] r@[k].cpu_usage <= 10000,
{
    let mut out: Vec<CpuData> = Vec::new();
    if show_average_cpu {
        let base = match previous_average_cpu_time {
            Some(p) => *p,
            None => reading.average,
        };
        let usage = cpu_usage_percent(base.work, base.total, reading.average.work, reading.average.total);
        out.push(CpuData { data_type: CpuDataType::Avg, cpu_usage: usage });
        *previous_average_cpu_time = Some(reading.average);
    }
    let ghost head = out@;
    let ghost prev = previous_cpu_times@;
    let mut next: Vec<CpuTimes> = Vec::new();
    let n = reading.per_core.len();
    let mut i: usize = 0;
    while i < n
        invariant
            n == reading.per_core@.len(),
            i <= n,
            prev == old(previous_cpu_times)@,
            previous_cpu_times@ == prev,
            out@ == head + core_entries(prev, reading.per_core@).take(i as int),
            next@ == reading.per_core@.take(i as int),
            forall|k: int| 0 <= k < head.len() ==> #[trigger] head[k].cpu_usage <= 10000,
            forall|k: int| 0 <= k < out@.len() ==> #[trigger] out@[k].cpu_usage <= 10000,
        decreases n - i,
    {
        let curr = reading.per_core[i];
        let base = if i < previous_cpu_times.len() {
            previous_cpu_times[i]
        } else {
            curr
        };
        let usage = cpu_usage_percent(base.work, base.total, curr.work, curr.total);
        out.push(CpuData { data_type: CpuDataType::Cpu(i), cpu_usage: usage });
        next.push(curr);
        proof {
            assert(core_entries(prev, reading.per_core@).take(i + 1) =~= core_entries(
                prev,
                reading.per_core@,
            ).take(i as int).push(core_entry(prev, reading.per_core@, i as int)));
            assert(reading.per_core@.take(i + 1) =~= reading.per_core@.take(i as int).push(curr));
        }
        i = i + 1;
    }
    proof {
        assert(core_entries(prev, reading.per_core@).take(n as int) =~= core_entries(
            prev,
            reading.per_core@,
        ));
        assert(reading.per_core@.take(n as int) =~= reading.per_core@);
    }
    *previous_cpu_times = next;
    out
}

} // verus!
