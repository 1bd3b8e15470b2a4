//! The collector: one snapshot per cycle, from the probes' readings and the
//! state kept from the previous cycle.
use crate::batteries::BatteryHarvest;
use crate::cpu::{
    core_entries, cpu_harvest, get_cpu_data_list, times_usage, CpuData, CpuDataType, CpuHarvest,
    CpuReading, CpuTimes, LoadAvgHarvest,
};
use crate::disks::{
    disk_entry, get_disk_usage, get_io_usage, io_latest, DiskHarvest, IoEntry, IoHarvest,
    PartitionReading,
};
use crate::error::ToeError;
use crate::memory::{GpuMemHarvest, MemHarvest};
use crate::network::{
    capped, get_network_data, network_harvest, sum_rx, sum_tx, InterfaceCounters, NetworkHarvest,
};
use crate::processes::{
    baseline_map, get_process_data, lemma_state_holds_observed_pids, observed_pids, pid_map_contents, process_entries, sorted_by_pid,
    strategy_for, system_delta, with_users, Pid, PidMap, PrevProcDetails, ProcessHarvest,
    ProcessReading, UserTable,
};
use crate::temperature::TempHarvest;
use vstd::prelude::*;

verus! {

/// An IP address in binary form.
#[derive(Clone, Copy, Debug, PartialEq, Eq)]
pub enum IpAddress {
    V4([u8; 4]),
    V6([u8; 16]),
}

/// One cycle's snapshot. A section is present only where its probe succeeded
/// and had data this cycle.
#[derive(Clone, Debug)]
pub struct Data {
    /// When the cycle ran, in milliseconds of a monotonic clock.
    pub last_collection_time: u64,
    pub cpu: Option<CpuHarvest>,
    pub load_avg: Option<LoadAvgHarvest>,
    pub memory: Option<MemHarvest>,
    pub swap: Option<MemHarvest>,
    pub temperature_sensors: Option<Vec<TempHarvest>>,
    pub network: Option<NetworkHarvest>,
    pub list_of_processes: Option<Vec<ProcessHarvest>>,
    pub disks: Option<Vec<DiskHarvest>>,
    pub io: Option<IoHarvest>,
    /// Seconds since boot.
    pub uptime: u64,
    pub hostname: Option<String>,
    pub kernel_name: Option<String>,
    pub kernel_version: Option<String>,
    pub os_version: Option<String>,
    pub local_ip: Option<IpAddress>,
    pub list_of_batteries: Option<Vec<BatteryHarvest>>,
    pub arc: Option<MemHarvest>,
    pub gpu: Option<Vec<GpuMemHarvest>>,
}

impl Default for Data {
    fn default() -> (r: Data)
        ensures
            is_empty_data(r, 0),
    {
        Data {
            last_collection_time: 0,
            cpu: None,
            load_avg: None,
            memory: None,
            swap: None,
            temperature_sensors: None,
            network: None,
            list_of_processes: None,
            disks: None,
            io: None,
            uptime: 0,
            hostname: None,
            kernel_name: None,
            kernel_version: None,
            os_version: None,
            local_ip: None,
            list_of_batteries: None,
            arc: None,
            gpu: None,
        }
    }
}

/// A snapshot with no section, taken at `time`.
pub open spec fn is_empty_data(d: Data, time: u64) -> bool {
    &&& d.last_collection_time == time
    &&& d.cpu is None
    &&& d.load_avg is None
    &&& d.memory is None
    &&& d.swap is None
    &&& d.temperature_sensors is None
    &&& d.network is None
    &&& d.list_of_processes is None
    &&& d.disks is None
    &&& d.io is None
    &&& d.uptime == 0
    &&& d.hostname is None
    &&& d.kernel_name is None
    &&& d.kernel_version is None
    &&& d.os_version is None
    &&& d.local_ip is None
    &&& d.list_of_batteries is None
    &&& d.arc is None
    &&& d.gpu is None
}

/// `d` with the sections of a warm-up sample dropped: every rate-bearing
/// section goes, the network section keeps its totals with zero rates.
pub open spec fn cleaned(d: Data, before: Data) -> bool {
    &&& d.cpu is None
    &&& d.load_avg is None
    &&& d.memory is None
    &&& d.swap is None
    &&& d.temperature_sensors is None
    &&& d.list_of_processes is None
    &&& d.disks is None
    &&& d.io is None
    &&& d.arc is None
    &&& d.gpu is None
    &&& d.network == match before.network {
        Some(n) => Some(NetworkHarvest { rx: 0, tx: 0, ..n }),
        None => None,
    }
    &&& d.last_collection_time == before.last_collection_time
    &&& d.uptime == before.uptime
    &&& d.hostname == before.hostname
    &&& d.kernel_name == before.kernel_name
    &&& d.kernel_version == before.kernel_version
    &&& d.os_version == before.os_version
    &&& d.local_ip == before.local_ip
    &&& d.list_of_batteries == before.list_of_batteries
}

impl Data {
    /// Drops what a warm-up sample holds that is not a valid metric.
    pub fn cleanup(&mut self)
        ensures
            cleaned(*final(self), *old(self)),
    {
        self.io = None;
        self.temperature_sensors = None;
        self.list_of_processes = None;
        self.disks = None;
        self.memory = None;
        self.swap = None;
        self.cpu = None;
        self.load_avg = None;
        if let Some(network) = &mut self.network {
            network.first_run_cleanup();
        }
        self.arc = None;
        self.gpu = None;
    }
}

/// What every probe returned in one cycle, handed to the collector.
pub struct Readings {
    pub cpu: Result<CpuReading, ToeError>,
    pub load_avg: Result<LoadAvgHarvest, ToeError>,
    pub processes: Result<ProcessReading, ToeError>,
    pub temperature: Result<Option<Vec<TempHarvest>>, ToeError>,
    pub network: Result<Vec<InterfaceCounters>, ToeError>,
    pub memory: Result<Option<MemHarvest>, ToeError>,
    pub swap: Result<Option<MemHarvest>, ToeError>,
    pub arc: Result<Option<MemHarvest>, ToeError>,
    pub gpu: Result<Option<Vec<GpuMemHarvest>>, ToeError>,
    pub disks: Result<Vec<PartitionReading>, ToeError>,
    pub io: Result<Vec<IoEntry>, ToeError>,
    pub batteries: Option<Vec<BatteryHarvest>>,
    pub uptime: u64,
    pub hostname: Option<String>,
    pub kernel_name: Option<String>,
    pub kernel_version: Option<String>,
    pub os_version: Option<String>,
    pub local_ip: Option<IpAddress>,
}

/// The state a collector keeps across cycles, with its settings.
pub struct CollectorState {
    pub prev_cpu: Seq<CpuTimes>,
    pub prev_avg: Option<CpuTimes>,
    pub prev_system: CpuTimes,
    pub pid_map: Map<Pid, PrevProcDetails>,
    pub users: Map<u32, String>,
    pub total_rx: u64,
    pub total_tx: u64,
    pub mem_total_kb: u64,
    pub last_collection_time: u64,
    pub show_average_cpu: bool,
    pub use_current_cpu_total: bool,
    pub unnormalized_cpu: bool,
}

/// Milliseconds from `last` to `now`; none where the clock did not advance.
pub open spec fn elapsed_between(last: u64, now: u64) -> u64 {
    if now >= last {
        (now - last) as u64
    } else {
        0
    }
}

/// The state after a cycle: each family's previous values advance where its
/// probe succeeded and stay where it failed.
pub open spec fn next_state(s: CollectorState, r: Readings, now: u64) -> CollectorState {
    CollectorState {
        prev_cpu: match r.cpu {
            Ok(c) => c.per_core@,
            Err(_) => s.prev_cpu,
        },
        prev_avg: match r.cpu {
            Ok(c) => if s.show_average_cpu {
                Some(c.average)
            } else {
                s.prev_avg
            },
            Err(_) => s.prev_avg,
        },
        prev_system: match r.processes {
            Ok(p) => p.system,
            Err(_) => s.prev_system,
        },
        pid_map: match r.processes {
            Ok(p) => baseline_map(p.processes@),
            Err(_) => s.pid_map,
        },
        users: match r.processes {
            Ok(p) => with_users(s.users, p.resolved_users@),
            Err(_) => s.users,
        },
        total_rx: match r.network {
            Ok(i) => network_harvest(i@, elapsed_between(s.last_collection_time, now), s.total_rx, s.total_tx).total_rx,
            Err(_) => s.total_rx,
        },
        total_tx: match r.network {
            Ok(i) => network_harvest(i@, elapsed_between(s.last_collection_time, now), s.total_rx, s.total_tx).total_tx,
            Err(_) => s.total_tx,
        },
        last_collection_time: now,
        ..s
    }
}

pub open spec fn ok_or_none<T>(r: Result<Option<T>, ToeError>) -> Option<T> {
    match r {
        Ok(o) => o,
        Err(_) => None,
    }
}

/// The snapshot of a cycle run on state `s` with readings `r` at `now`.
pub open spec fn snapshot_of(d: Data, s: CollectorState, r: Readings, now: u64) -> bool {
    let elapsed = elapsed_between(s.last_collection_time, now);
    &&& match r.cpu {
        Ok(c) => d.cpu matches Some(v) && v@ == cpu_harvest(
            s.show_average_cpu,
            s.prev_cpu,
            s.prev_avg,
            c,
        ),
        Err(_) => d.cpu is None,
    }
    &&& d.load_avg == match r.load_avg {
        Ok(l) => Some(l),
        Err(_) => None,
    }
    &&& match r.processes {
        Ok(p) => d.list_of_processes matches Some(v) && sorted_by_pid(v@) && v@.to_multiset()
            == process_entries(
            p.processes@,
            s.pid_map,
            system_delta(s.prev_system, p.system, s.use_current_cpu_total),
            strategy_for(s.unnormalized_cpu, p.logical_cores),
            elapsed,
            s.mem_total_kb,
            with_users(s.users, p.resolved_users@),
        ).to_multiset(),
        Err(_) => d.list_of_processes is None,
    }
    &&& d.temperature_sensors == ok_or_none(r.temperature)
    &&& d.network == match r.network {
        Ok(i) => Some(network_harvest(i@, elapsed, s.total_rx, s.total_tx)),
        Err(_) => None,
    }
    &&& d.memory == ok_or_none(r.memory)
    &&& d.swap == ok_or_none(r.swap)
    &&& d.arc == ok_or_none(r.arc)
    &&& d.gpu == ok_or_none(r.gpu)
    &&& match r.disks {
        Ok(p) => d.disks matches Some(v) && v@ == p@.map_values(|q: PartitionReading| disk_entry(q)),
        Err(_) => d.disks is None,
    }
    &&& match r.io {
        Ok(c) => d.io matches Some(v) && v@ == io_latest(c@),
        Err(_) => d.io is None,
    }
    &&& d.list_of_batteries == r.batteries
    &&& d.uptime == r.uptime
    &&& d.hostname == r.hostname
    &&& d.kernel_name == r.kernel_name
    &&& d.kernel_version == r.kernel_version
    &&& d.os_version == r.os_version
    &&& d.local_ip == r.local_ip
    &&& d.last_collection_time == now
}

/// Runs collection cycles and owns the state kept between them.
pub struct DataCollector {
    pub data: Data,
    previous_cpu_times: Vec<CpuTimes>,
    previous_average_cpu_time: Option<CpuTimes>,
    previous_system_times: CpuTimes,
    pid_mapping: PidMap,
    user_table: UserTable,
    mem_total_kb: u64,
    use_current_cpu_total: bool,
    unnormalized_cpu: bool,
    last_collection_time: u64,
    total_rx: u64,
    total_tx: u64,
    show_average_cpu: bool,
}

impl View for DataCollector {
    type V = CollectorState;

    closed spec fn view(&self) -> CollectorState {
        CollectorState {
            prev_cpu: self.previous_cpu_times@,
            prev_avg: self.previous_average_cpu_time,
            prev_system: self.previous_system_times,
            pid_map: pid_map_contents(self.pid_mapping),
            users: self.user_table@,
            total_rx: self.total_rx,
            total_tx: self.total_tx,
            mem_total_kb: self.mem_total_kb,
            last_collection_time: self.last_collection_time,
            show_average_cpu: self.show_average_cpu,
            use_current_cpu_total: self.use_current_cpu_total,
            unnormalized_cpu: self.unnormalized_cpu,
        }
    }
}

/// A collector that has seen no cycle yet.
pub open spec fn is_fresh(s: CollectorState, now: u64) -> bool {
    &&& s.prev_cpu.len() == 0
    &&& s.prev_avg is None
    &&& s.prev_system == CpuTimes { work: 0, total: 0 }
    &&& s.pid_map.dom().is_empty()
    &&& s.users.dom().is_empty()
    &&& s.total_rx == 0
    &&& s.total_tx == 0
    &&& s.mem_total_kb == 0
    &&& s.last_collection_time == now
}

impl DataCollector {
    /// The snapshot that the collector holds.
    pub closed spec fn snapshot(&self) -> Data {
        self.data
    }

    /// The snapshot of the last cycle.
    pub fn data(&self) -> (r: &Data)
        ensures
            *r == self.snapshot(),
    {
        &self.data
    }

    /// Whether previous counters of process `pid` are kept.
    pub fn tracks_process(&self, pid: Pid) -> (r: bool)
        ensures
            r == self@.pid_map.contains_key(pid),
    {
        self.pid_mapping.contains(pid)
    }

    /// Whether the user table already holds the name of `uid`; a probe
    /// resolves only the names it lacks.
    pub fn knows_user(&self, uid: u32) -> (r: bool)
        ensures
            r == self@.users.contains_key(uid),
    {
        self.user_table.contains(uid)
    }

    /// A collector with no previous samples, created at `now_ms`.
    pub fn new(now_ms: u64) -> (r: DataCollector)
        ensures
            is_fresh(r@, now_ms),
            !r@.show_average_cpu,
            !r@.use_current_cpu_total,
            !r@.unnormalized_cpu,
            is_empty_data(r.snapshot(), 0),
    {
        DataCollector {
            data: Data::default(),
            previous_cpu_times: Vec::new(),
            previous_average_cpu_time: None,
            previous_system_times: CpuTimes { work: 0, total: 0 },
            pid_mapping: PidMap::empty(),
            user_table: UserTable::new(),
            mem_total_kb: 0,
            use_current_cpu_total: false,
            unnormalized_cpu: false,
            last_collection_time: now_ms,
            total_rx: 0,
            total_tx: 0,
            show_average_cpu: false,
        }
    }

    /// Chooses how CPU figures are shown: whether an all-cores entry leads
    /// the CPU section, whether a process's CPU share is taken of the
    /// machine's working ticks rather than all of them, and whether it is a
    /// share of one core rather than of all cores.
    pub fn set_options(
        &mut self,
        show_average_cpu: bool,
        use_current_cpu_total: bool,
        unnormalized_cpu: bool,
    )
        ensures
            final(self)@ == (CollectorState {
                show_average_cpu,
                use_current_cpu_total,
                unnormalized_cpu,
                ..old(self)@
            }),
            final(self).snapshot() == old(self).snapshot(),
    {
        self.show_average_cpu = show_average_cpu;
        self.use_current_cpu_total = use_current_cpu_total;
        self.unnormalized_cpu = unnormalized_cpu;
    }

    /// Runs one cycle on the probes' readings taken at `now_ms`: each family
    /// that succeeded is diffed against its previous values and becomes the
    /// baseline of the next cycle; each that failed leaves its section absent
    /// and its previous values as they were.
    pub fn update_data(&mut self, readings: Readings, now_ms: u64)
        ensures
            snapshot_of(final(self).snapshot(), old(self)@, readings, now_ms),
            final(self)@ == next_state(old(self)@, readings, now_ms),
    {
        let ghost r = readings;
        let elapsed = if now_ms >= self.last_collection_time {
            now_ms - self.last_collection_time
        } else {
            0
        };
        let Readings {
            cpu,
            load_avg,
            processes,
            temperature,
            network,
            memory,
            swap,
            arc,
            gpu,
            disks,
            io,
            batteries,
            uptime,
            hostname,
            kernel_name,
            kernel_version,
            os_version,
            local_ip,
        } = readings;

        self.data.cpu = match cpu {
            Ok(c) => Some(
                get_cpu_data_list(
                    self.show_average_cpu,
                    &c,
                    &mut self.previous_cpu_times,
                    &mut self.previous_average_cpu_time,
                ),
            ),
            Err(_) => None,
        };
        self.data.load_avg = match load_avg {
            Ok(l) => Some(l),
            Err(_) => None,
        };
        self.data.list_of_processes = match processes {
            Ok(p) => Some(
                get_process_data(
                    &p,
                    &mut self.previous_system_times,
                    &mut self.pid_mapping,
                    &mut self.user_table,
                    self.use_current_cpu_total,
                    self.unnormalized_cpu,
                    elapsed,
                    self.mem_total_kb,
                ),
            ),
            Err(_) => None,
        };
        self.data.temperature_sensors = match temperature {
            Ok(t) => t,
            Err(_) => None,
        };
        self.data.network = match network {
            Ok(i) => Some(get_network_data(&i, elapsed, &mut self.total_rx, &mut self.total_tx)),
            Err(_) => None,
        };
        self.data.memory = match memory {
            Ok(m) => m,
            Err(_) => None,
        };
        self.data.swap = match swap {
            Ok(m) => m,
            Err(_) => None,
        };
        self.data.arc = match arc {
            Ok(m) => m,
            Err(_) => None,
        };
        self.data.gpu = match gpu {
            Ok(g) => g,
            Err(_) => None,
        };
        self.data.disks = match disks {
            Ok(p) => Some(get_disk_usage(&p)),
            Err(_) => None,
        };
        self.data.io = match io {
            Ok(c) => Some(get_io_usage(&c)),
            Err(_) => None,
        };
        self.data.list_of_batteries = batteries;
        self.data.uptime = uptime;
        self.data.hostname = hostname;
        self.data.kernel_name = kernel_name;
        self.data.kernel_version = kernel_version;
        self.data.os_version = os_version;
        self.data.local_ip = local_ip;
        self.data.last_collection_time = now_ms;
        self.last_collection_time = now_ms;
    }

    /// Readies the collector: caches the total memory (1 where it could not
    /// be read), runs one cycle to seed the previous values, and drops what
    /// that first snapshot holds that is not a valid metric.
    pub fn init(&mut self, mem_total_kb: Option<u64>, readings: Readings, now_ms: u64)
        ensures
            final(self)@ == next_state(
                CollectorState { mem_total_kb: cached_mem_total(mem_total_kb), ..old(self)@ },
                readings,
                now_ms,
            ),
            exists|first: Data|
                snapshot_of(
                    first,
                    CollectorState { mem_total_kb: cached_mem_total(mem_total_kb), ..old(self)@ },
                    readings,
                    now_ms,
                ) && cleaned(final(self).snapshot(), first),
    {
        self.mem_total_kb = match mem_total_kb {
            Some(m) => m,
            None => 1,
        };
        self.update_data(readings, now_ms);
        let ghost first = self.data;
        self.data.cleanup();
        proof {
            assert(cleaned(self.data, first));
        }
    }
}

/// The total memory a collector caches: what was read, or 1 where nothing was.
pub open spec fn cached_mem_total(m: Option<u64>) -> u64 {
    match m {
        Some(v) => v,
        None => 1,
    }
}

/// The state after running the cycles of `rs` at the times of `times`, in order.
pub open spec fn run_cycles(s: CollectorState, rs: Seq<Readings>, times: Seq<u64>) -> CollectorState
    decreases rs.len(),
{
    if rs.len() == 0 || times.len() != rs.len() {
        s
    } else {
        next_state(run_cycles(s, rs.drop_last(), times.drop_last()), rs.last(), times.last())
    }
}

/// A failing probe degrades its own section alone: with the memory probe
/// failing and the CPU, network and process probes succeeding, the snapshot
/// has no memory section and has the other three.
pub proof fn lemma_failure_is_isolated(d: Data, s: CollectorState, r: Readings, now: u64)
    requires
        snapshot_of(d, s, r, now),
        r.memory is Err,
        r.cpu is Ok,
        r.network is Ok,
        r.processes is Ok,
    ensures
        d.memory is None,
        d.cpu is Some,
        d.network is Some,
        d.list_of_processes is Some,
{
}

/// A probe that always fails never fills its section and never moves its
/// previous values, however many cycles run: here the network probe.
pub proof fn lemma_failing_probe_stays_absent(
    s: CollectorState,
    rs: Seq<Readings>,
    times: Seq<u64>,
    d: Data,
)
    requires
        times.len() == rs.len(),
        rs.len() > 0,
        forall|k: int| 0 <= k < rs.len() ==> (#[trigger] rs[k]).network is Err,
        snapshot_of(d, run_cycles(s, rs.drop_last(), times.drop_last()), rs.last(), times.last()),
    ensures
        run_cycles(s, rs, times).total_rx == s.total_rx,
        run_cycles(s, rs, times).total_tx == s.total_tx,
        d.network is None,
{
    lemma_failing_network_keeps_totals(s, rs, times);
}

proof fn lemma_failing_network_keeps_totals(s: CollectorState, rs: Seq<Readings>, times: Seq<u64>)
    requires
        times.len() == rs.len(),
        forall|k: int| 0 <= k < rs.len() ==> (#[trigger] rs[k]).network is Err,
    ensures
        run_cycles(s, rs, times).total_rx == s.total_rx,
        run_cycles(s, rs, times).total_tx == s.total_tx,
    decreases rs.len(),
{
    if rs.len() > 0 {
        let rest = rs.drop_last();
        assert forall|k: int| 0 <= k < rest.len() implies (#[trigger] rest[k]).network is Err by {
            assert(rest[k] == rs[k]);
        }
        lemma_failing_network_keeps_totals(s, rest, times.drop_last());
        assert(rs.last() == rs[rs.len() - 1]);
    }
}

/// A process that a cycle did not observe has no state after it.
pub proof fn lemma_exited_process_pruned(s: CollectorState, r: Readings, now: u64, pid: Pid)
    requires
        r.processes is Ok,
        !observed_pids(r.processes->Ok_0.processes@).contains(pid),
    ensures
        !next_state(s, r, now).pid_map.contains_key(pid),
{
    lemma_state_holds_observed_pids(r.processes->Ok_0.processes@, pid);
}

/// The first cycle after the warm-up cycle diffs against the warm-up's
/// genuine samples: each core against its warm-up ticks, all cores against
/// the warm-up's aggregate when shown, the network against the warm-up's
/// totals, and each process seen in both against its warm-up counters.
pub proof fn lemma_first_cycle_after_warm_up(
    s0: CollectorState,
    r1: Readings,
    t1: u64,
    r2: Readings,
    i: int,
    pid: Pid,
)
    requires
        r1.cpu is Ok,
        r2.cpu is Ok,
        r1.cpu->Ok_0.per_core@.len() == r2.cpu->Ok_0.per_core@.len(),
        0 <= i < r2.cpu->Ok_0.per_core@.len(),
    ensures
        cpu_harvest(
            next_state(s0, r1, t1).show_average_cpu,
            next_state(s0, r1, t1).prev_cpu,
            next_state(s0, r1, t1).prev_avg,
            r2.cpu->Ok_0,
        ) == (if s0.show_average_cpu {
            seq![
                CpuData {
                    data_type: CpuDataType::Avg,
                    cpu_usage: times_usage(r1.cpu->Ok_0.average, r2.cpu->Ok_0.average),
                },
            ] + core_entries(r1.cpu->Ok_0.per_core@, r2.cpu->Ok_0.per_core@)
        } else {
            core_entries(r1.cpu->Ok_0.per_core@, r2.cpu->Ok_0.per_core@)
        }),
        core_entries(r1.cpu->Ok_0.per_core@, r2.cpu->Ok_0.per_core@)[i].cpu_usage == times_usage(
            r1.cpu->Ok_0.per_core@[i],
            r2.cpu->Ok_0.per_core@[i],
        ),
        r1.network is Ok ==> next_state(s0, r1, t1).total_rx == capped(
            sum_rx(r1.network->Ok_0@),
        ) && next_state(s0, r1, t1).total_tx == capped(sum_tx(r1.network->Ok_0@)),
        r1.processes is Ok && observed_pids(r1.processes->Ok_0.processes@).contains(pid)
            ==> next_state(s0, r1, t1).pid_map.contains_key(pid),
{
    if r1.processes is Ok {
        lemma_state_holds_observed_pids(r1.processes->Ok_0.processes@, pid);
    }
}

} // verus!
