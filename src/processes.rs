//! Per-process harvest: CPU share, memory share and I/O rates computed
//! against the previous cycle's per-process counters.
use crate::cpu::CpuTimes;
use crate::rates::{
    counter_delta, kib_share_percent, per_second, percent_of, rate_per_second, saturating_delta, scaled_percent_of,
    share_percent,
};
use std::collections::HashMap;
use vstd::prelude::*;

verus! {

broadcast use vstd::std_specs::hash::group_hash_axioms;

/// A process id.
pub type Pid = i32;

/// The cumulative counters of one process that the next cycle diffs against.
#[derive(Clone, Copy, Debug, PartialEq, Eq, Structural)]
pub struct PrevProcDetails {
    pub cpu_ticks: u64,
    pub total_read_bytes: u64,
    pub total_write_bytes: u64,
}

/// Previous per-process counters, keyed by process id.
#[verifier::external_body]
pub struct PidMap {
    inner: fxhash::FxHashMap<Pid, PrevProcDetails>,
}

/// What a [`PidMap`] holds.
pub uninterp spec fn pid_map_contents(m: PidMap) -> Map<Pid, PrevProcDetails>;

impl PidMap {
    /// Relies on `FxHashMap::default`: the new map holds no entry.
    #[verifier::external_body]
    pub(crate) fn empty() -> (r: PidMap)
        ensures
            pid_map_contents(r).dom() == Set::<Pid>::empty(),
    {
        PidMap { inner: fxhash::FxHashMap::default() }
    }

    /// Relies on `HashMap::get`: the value stored under `pid`, if any.
    #[verifier::external_body]
    pub(crate) fn lookup(&self, pid: Pid) -> (r: Option<PrevProcDetails>)
        ensures
            r == (if pid_map_contents(*self).contains_key(pid) {
                Some(pid_map_contents(*self)[pid])
            } else {
                None
            }),
    {
        self.inner.get(&pid).copied()
    }

    /// Relies on `HashMap::insert`: `pid` now maps to `details`, the other
    /// entries stay.
    #[verifier::external_body]
    pub(crate) fn store(&mut self, pid: Pid, details: PrevProcDetails)
        ensures
            pid_map_contents(*final(self)) == pid_map_contents(*old(self)).insert(pid, details),
    {
        self.inner.insert(pid, details);
    }

    /// Whether counters of `pid` are kept.
    pub fn contains(&self, pid: Pid) -> (r: bool)
        ensures
            r == pid_map_contents(*self).contains_key(pid),
    {
        self.lookup(pid).is_some()
    }
}

/// Cache of user names by numeric user id. Entries are added, never removed.
pub struct UserTable {
    uid_user_mapping: HashMap<u32, String>,
}

impl View for UserTable {
    type V = Map<u32, String>;

    closed spec fn view(&self) -> Map<u32, String> {
        self.uid_user_mapping@
    }
}

impl UserTable {
    pub fn new() -> (r: UserTable)
        ensures
            r@ == Map::<u32, String>::empty(),
    {
        UserTable { uid_user_mapping: HashMap::new() }
    }

    pub fn contains(&self, uid: u32) -> (r: bool)
        ensures
            r == self@.contains_key(uid),
    {
        self.uid_user_mapping.contains_key(&uid)
    }

    /// Records the name of `uid`; a name already cached is kept.
    pub fn record(&mut self, uid: u32, name: String)
        ensures
            final(self)@ == (if old(self)@.contains_key(uid) {
                old(self)@
            } else {
                old(self)@.insert(uid, name)
            }),
    {
        if !self.uid_user_mapping.contains_key(&uid) {
            self.uid_user_mapping.insert(uid, name);
        }
    }

    /// The cached name of `uid`, if any.
    pub fn user_of(&self, uid: Option<u32>) -> (r: Option<String>)
        ensures
            r == user_name(self@, uid),
    {
        match uid {
            Some(u) => match self.uid_user_mapping.get(&u) {
                Some(name) => Some(name.clone()),
                None => None,
            },
            None => None,
        }
    }
}

pub open spec fn user_name(table: Map<u32, String>, uid: Option<u32>) -> Option<String> {
    match uid {
        Some(u) => if table.contains_key(u) {
            Some(table[u])
        } else {
            None
        },
        None => None,
    }
}

/// How a process's CPU share is scaled.
#[derive(Clone, Copy, Debug, PartialEq, Eq, Structural)]
pub enum CpuUsageStrategy {
    /// A share of all cores: 100% is every core busy.
    Normalized,
    /// A share of one core, over this many logical cores: 100% is one core busy.
    NonNormalized(u32),
}

/// What the process probe read of one process: identity and cumulative counters.
#[derive(Clone, Debug)]
pub struct ProcessSample {
    pub pid: Pid,
    pub parent_pid: Option<Pid>,
    pub name: String,
    pub command: String,
    pub mem_usage_bytes: u64,
    pub cpu_ticks: u64,
    pub total_read_bytes: u64,
    pub total_write_bytes: u64,
    pub state_name: String,
    pub state_char: char,
    pub uid: Option<u32>,
}

/// What the process probe read in one cycle: the cumulative ticks of the whole
/// machine, the number of logical cores where it could be read, the processes,
/// and names of user ids that the user table lacked.
#[derive(Clone, Debug)]
pub struct ProcessReading {
    pub system: CpuTimes,
    pub logical_cores: Option<u32>,
    pub processes: Vec<ProcessSample>,
    pub resolved_users: Vec<(u32, String)>,
}

/// One process as shown for one cycle. Percentages are in hundredths.
#[derive(Clone, Debug)]
pub struct ProcessHarvest {
    pub pid: Pid,
    pub parent_pid: Option<Pid>,
    pub cpu_usage_percent: u64,
    pub mem_usage_percent: u64,
    pub mem_usage_bytes: u64,
    pub name: String,
    pub command: String,
    pub read_bytes_per_sec: u64,
    pub write_bytes_per_sec: u64,
    pub total_read_bytes: u64,
    pub total_write_bytes: u64,
    /// The state of the process (e.g. zombie, asleep), spelled out and as a letter.
    pub state_name: String,
    pub state_char: char,
    pub uid: Option<u32>,
    pub user: Option<String>,
}

pub open spec fn details_of(s: ProcessSample) -> PrevProcDetails {
    PrevProcDetails {
        cpu_ticks: s.cpu_ticks,
        total_read_bytes: s.total_read_bytes,
        total_write_bytes: s.total_write_bytes,
    }
}

/// The per-process state after a cycle: exactly the observed processes, each
/// with its current counters (a pid seen twice keeps its later sample).
pub open spec fn baseline_map(s: Seq<ProcessSample>) -> Map<Pid, PrevProcDetails>
    decreases s.len(),
{
    if s.len() == 0 {
        Map::empty()
    } else {
        baseline_map(s.drop_last()).insert(s.last().pid, details_of(s.last()))
    }
}

pub open spec fn observed_pids(s: Seq<ProcessSample>) -> Set<Pid> {
    Set::new(|p: Pid| exists|i: int| 0 <= i < s.len() && #[trigger] s[i].pid == p)
}

pub open spec fn proc_cpu_percent(dp: nat, dsys: nat, strategy: CpuUsageStrategy) -> u64 {
    match strategy {
        CpuUsageStrategy::Normalized => share_percent(dp as int, dsys as int) as u64,
        CpuUsageStrategy::NonNormalized(n) => share_percent(dp * n, dsys as int) as u64,
    }
}

/// The strategy of a cycle: unnormalized only where asked for and the number
/// of cores is known.
pub open spec fn strategy_for(unnormalized: bool, cores: Option<u32>) -> CpuUsageStrategy {
    match cores {
        Some(n) if unnormalized => CpuUsageStrategy::NonNormalized(n),
        _ => CpuUsageStrategy::Normalized,
    }
}

/// How far the machine's ticks moved: all of them, or only the working ones.
pub open spec fn system_delta(prev: CpuTimes, curr: CpuTimes, use_current_cpu_total: bool) -> nat {
    if use_current_cpu_total {
        counter_delta(curr.work, prev.work)
    } else {
        counter_delta(curr.total, prev.total)
    }
}

/// One process's entry: rates against its previous counters, or 0 for a
/// process seen for the first time.
pub open spec fn process_entry(
    s: ProcessSample,
    prev: Option<PrevProcDetails>,
    dsys: nat,
    strategy: CpuUsageStrategy,
    elapsed_ms: u64,
    mem_total_kb: u64,
    user: Option<String>,
) -> ProcessHarvest {
    ProcessHarvest {
        pid: s.pid,
        parent_pid: s.parent_pid,
        cpu_usage_percent: match prev {
            Some(p) => proc_cpu_percent(counter_delta(s.cpu_ticks, p.cpu_ticks), dsys, strategy),
            None => 0,
        },
        mem_usage_percent: share_percent(s.mem_usage_bytes as int, mem_total_kb * 1024) as u64,
        mem_usage_bytes: s.mem_usage_bytes,
        name: s.name,
        command: s.command,
        read_bytes_per_sec: match prev {
            Some(p) => per_second(s.total_read_bytes, p.total_read_bytes, elapsed_ms) as u64,
            None => 0,
        },
        write_bytes_per_sec: match prev {
            Some(p) => per_second(s.total_write_bytes, p.total_write_bytes, elapsed_ms) as u64,
            None => 0,
        },
        total_read_bytes: s.total_read_bytes,
        total_write_bytes: s.total_write_bytes,
        state_name: s.state_name,
        state_char: s.state_char,
        uid: s.uid,
        user,
    }
}

pub open spec fn lookup_in(m: Map<Pid, PrevProcDetails>, pid: Pid) -> Option<PrevProcDetails> {
    if m.contains_key(pid) {
        Some(m[pid])
    } else {
        None
    }
}

/// The entries of one cycle, in the order the processes were read.
pub open spec fn process_entries(
    s: Seq<ProcessSample>,
    prev: Map<Pid, PrevProcDetails>,
    dsys: nat,
    strategy: CpuUsageStrategy,
    elapsed_ms: u64,
    mem_total_kb: u64,
    users: Map<u32, String>,
) -> Seq<ProcessHarvest> {
    Seq::new(
        s.len(),
        |i: int|
            process_entry(
                s[i],
                lookup_in(prev, s[i].pid),
                dsys,
                strategy,
                elapsed_ms,
                mem_total_kb,
                user_name(users, s[i].uid),
            ),
    )
}

pub open spec fn sorted_by_pid(s: Seq<ProcessHarvest>) -> bool {
    forall|i: int, j: int| 0 <= i < j < s.len() ==> s[i].pid <= s[j].pid
}

/// Relies on `slice::sort_unstable_by_key`: the same entries, ordered by pid.
#[verifier::external_body]
fn sort_by_pid(v: &mut Vec<ProcessHarvest>)
    ensures
        final(v)@.to_multiset() == old(v)@.to_multiset(),
        sorted_by_pid(final(v)@),
{
    v.sort_unstable_by_key(|p| p.pid);
}

/// The names of users that a cycle resolved, added to the table.
pub open spec fn with_users(table: Map<u32, String>, s: Seq<(u32, String)>) -> Map<u32, String>
    decreases s.len(),
{
    if s.len() == 0 {
        table
    } else {
        let t = with_users(table, s.drop_last());
        if t.contains_key(s.last().0) {
            t
        } else {
            t.insert(s.last().0, s.last().1)
        }
    }
}

fn process_entry_exec(
    s: &ProcessSample,
    prev: Option<PrevProcDetails>,
    dsys: u64,
    strategy: CpuUsageStrategy,
    elapsed_ms: u64,
    mem_total_kb: u64,
    user: Option<String>,
) -> (r: ProcessHarvest)
    ensures
        r == process_entry(*s, prev, dsys as nat, strategy, elapsed_ms, mem_total_kb, user),
{
    let (cpu, read, write) = match prev {
        Some(p) => {
            let dp = saturating_delta(s.cpu_ticks, p.cpu_ticks);
            let cpu = match strategy {
                CpuUsageStrategy::Normalized => percent_of(dp, dsys),
                CpuUsageStrategy::NonNormalized(n) => scaled_percent_of(dp, n, dsys),
            };
            (
                cpu,
                rate_per_second(s.total_read_bytes, p.total_read_bytes, elapsed_ms),
                rate_per_second(s.total_write_bytes, p.total_write_bytes, elapsed_ms),
            )
        },
        None => (0, 0, 0),
    };
    let mem = kib_share_percent(s.mem_usage_bytes, mem_total_kb);
    ProcessHarvest {
        pid: s.pid,
        parent_pid: s.parent_pid,
        cpu_usage_percent: cpu,
        mem_usage_percent: mem,
        mem_usage_bytes: s.mem_usage_bytes,
        name: s.name.clone(),
        command: s.command.clone(),
        read_bytes_per_sec: read,
        write_bytes_per_sec: write,
        total_read_bytes: s.total_read_bytes,
        total_write_bytes: s.total_write_bytes,
        state_name: s.state_name.clone(),
        state_char: s.state_char,
        uid: s.uid,
        user,
    }
}

/// Harvests the processes of one cycle against the previous cycle's counters.
///
/// The user names resolved this cycle join the user table first. Each process
/// gets rates against its previous counters (0 when it is new), and the list
/// comes out ordered by pid. The per-process state is replaced by the counters
/// of exactly the processes observed now, which drops those that exited, and
/// the machine's ticks become the baseline of the next cycle.
pub fn get_process_data(
    reading: &ProcessReading,
    prev_system: &mut CpuTimes,
    pid_mapping: &mut PidMap,
    user_table: &mut UserTable,
    use_current_cpu_total: bool,
    unnormalized_cpu: bool,
    elapsed_ms: u64,
    mem_total_kb: u64,
) -> (r: Vec<ProcessHarvest>)
    ensures
        final(user_table)@ == with_users(old(user_table)@, reading.resolved_users@),
        r@.to_multiset() == process_entries(
            reading.processes@,
            pid_map_contents(*old(pid_mapping)),
            system_delta(*old(prev_system), reading.system, use_current_cpu_total),
            strategy_for(unnormalized_cpu, reading.logical_cores),
            elapsed_ms,
            mem_total_kb,
            final(user_table)@,
        ).to_multiset(),
        sorted_by_pid(r@),
        pid_map_contents(*final(pid_mapping)) == baseline_map(reading.processes@),
        *final(prev_system) == reading.system,
{
    let users = &reading.resolved_users;
    let mut j: usize = 0;
    while j < users.len()
        invariant
            j <= users@.len(),
            user_table@ == with_users(old(user_table)@, users@.take(j as int)),
        decreases users@.len() - j,
    {
        let (uid, name) = &users[j];
        proof {
            assert(users@.take(j + 1).drop_last() =~= users@.take(j as int));
        }
        user_table.record(*uid, name.clone());
        j = j + 1;
    }
    proof {
        assert(users@.take(j as int) =~= users@);
    }
    let dsys = if use_current_cpu_total {
        saturating_delta(reading.system.work, prev_system.work)
    } else {
        saturating_delta(reading.system.total, prev_system.total)
    };
    let strategy = match reading.logical_cores {
        Some(n) if unnormalized_cpu => CpuUsageStrategy::NonNormalized(n),
        _ => CpuUsageStrategy::Normalized,
    };
    let ghost prev_map = pid_map_contents(*pid_mapping);
    let ghost entries = process_entries(
        reading.processes@,
        prev_map,
        dsys as nat,
        strategy,
        elapsed_ms,
        mem_total_kb,
        user_table@,
    );
    let samples = &reading.processes;
    let mut out: Vec<ProcessHarvest> = Vec::new();
    let mut next = PidMap::empty();
    let mut i: usize = 0;
    while i < samples.len()
        invariant
            i <= samples@.len(),
            pid_map_contents(*pid_mapping) == prev_map,
            entries == process_entries(
                samples@,
                prev_map,
                dsys as nat,
                strategy,
                elapsed_ms,
                mem_total_kb,
                user_table@,
            ),
            out@ == entries.take(i as int),
            pid_map_contents(next) == baseline_map(samples@.take(i as int)),
        decreases samples@.len() - i,
    {
        let s = &samples[i];
        let prev = pid_mapping.lookup(s.pid);
        let user = user_table.user_of(s.uid);
        let entry = process_entry_exec(s, prev, dsys, strategy, elapsed_ms, mem_total_kb, user);
        out.push(entry);
        next.store(
            s.pid,
            PrevProcDetails {
                cpu_ticks: s.cpu_ticks,
                total_read_bytes: s.total_read_bytes,
                total_write_bytes: s.total_write_bytes,
            },
        );
        proof {
            assert(entries.take(i + 1) =~= entries.take(i as int).push(entry));
            assert(samples@.take(i + 1).drop_last() =~= samples@.take(i as int));
        }
        i = i + 1;
    }
    proof {
        assert(entries.take(i as int) =~= entries);
        assert(samples@.take(i as int) =~= samples@);
    }
    *pid_mapping = next;
    *prev_system = reading.system;
    sort_by_pid(&mut out);
    out
}

/// After a cycle the per-process state holds exactly the processes observed
/// in it: a pid absent from the cycle is pruned.
pub proof fn lemma_state_holds_observed_pids(s: Seq<ProcessSample>, pid: Pid)
    ensures
        baseline_map(s).contains_key(pid) <==> observed_pids(s).contains(pid),
    decreases s.len(),
{
    if s.len() > 0 {
        let rest = s.drop_last();
        lemma_state_holds_observed_pids(rest, pid);
        if observed_pids(rest).contains(pid) {
            let i = choose|i: int| 0 <= i < rest.len() && #[trigger] rest[i].pid == pid;
            assert(s[i].pid == pid);
        }
        if observed_pids(s).contains(pid) && s.last().pid != pid {
            let i = choose|i: int| 0 <= i < s.len() && #[trigger] s[i].pid == pid;
            assert(rest[i].pid == pid);
        }
        if s.last().pid == pid {
            assert(s[s.len() - 1].pid == pid);
        }
    }
}

/// A process seen for the first time gets no rate this cycle, and its
/// current counters (from its last sample in the cycle) become its baseline
/// for the next one.
pub proof fn lemma_new_process_baseline(
    s: Seq<ProcessSample>,
    prev: Map<Pid, PrevProcDetails>,
    dsys: nat,
    strategy: CpuUsageStrategy,
    elapsed_ms: u64,
    mem_total_kb: u64,
    users: Map<u32, String>,
    i: int,
)
    requires
        0 <= i < s.len(),
        !prev.contains_key(s[i].pid),
        forall|j: int| i < j < s.len() ==> #[trigger] s[j].pid != s[i].pid,
    ensures
        process_entries(s, prev, dsys, strategy, elapsed_ms, mem_total_kb, users)[i].cpu_usage_percent == 0,
        process_entries(s, prev, dsys, strategy, elapsed_ms, mem_total_kb, users)[i].read_bytes_per_sec == 0,
        process_entries(s, prev, dsys, strategy, elapsed_ms, mem_total_kb, users)[i].write_bytes_per_sec == 0,
        baseline_map(s).contains_key(s[i].pid),
        baseline_map(s)[s[i].pid] == details_of(s[i]),
{
    lemma_last_sample_is_baseline(s, i);
}

proof fn lemma_last_sample_is_baseline(s: Seq<ProcessSample>, i: int)
    requires
        0 <= i < s.len(),
        forall|j: int| i < j < s.len() ==> #[trigger] s[j].pid != s[i].pid,
    ensures
        baseline_map(s).contains_key(s[i].pid),
        baseline_map(s)[s[i].pid] == details_of(s[i]),
    decreases s.len(),
{
    if i < s.len() - 1 {
        let rest = s.drop_last();
        assert forall|j: int| i < j < rest.len() implies #[trigger] rest[j].pid != rest[i].pid by {
            assert(rest[j] == s[j]);
        }
        lemma_last_sample_is_baseline(rest, i);
        assert(s[s.len() - 1].pid != s[i].pid);
    }
}

/// With no machine ticks elapsed a process's CPU share is 0.
pub proof fn lemma_process_cpu_without_ticks(dp: nat, strategy: CpuUsageStrategy)
    ensures
        proc_cpu_percent(dp, 0, strategy) == 0,
{
}

} // verus!
