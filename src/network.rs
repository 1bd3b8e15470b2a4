//! Network throughput from cumulative interface counters.
use crate::rates::{min_int, per_second, rate_per_second};
use vstd::prelude::*;

verus! {

/// Cumulative bytes received and sent by one interface.
#[derive(Clone, Copy, Debug, PartialEq, Eq, Structural)]
pub struct InterfaceCounters {
    pub rx_bytes: u64,
    pub tx_bytes: u64,
}

/// Throughput of the last cycle (per second) and the cumulative totals over
/// all interfaces.
#[derive(Clone, Copy, Debug, PartialEq, Eq, Structural)]
pub struct NetworkHarvest {
    pub rx: u64,
    pub tx: u64,
    pub total_rx: u64,
    pub total_tx: u64,
}

impl NetworkHarvest {
    /// Drops the rates of a warm-up sample; the totals stay, as the next
    /// cycle diffs against them.
    pub fn first_run_cleanup(&mut self)
        ensures
            final(self).rx == 0,
            final(self).tx == 0,
            final(self).total_rx == old(self).total_rx,
            final(self).total_tx == old(self).total_tx,
    {
        self.rx = 0;
        self.tx = 0;
    }
}

pub open spec fn sum_rx(s: Seq<InterfaceCounters>) -> int
    decreases s.len(),
{
    if s.len() == 0 {
        0
    } else {
        sum_rx(s.drop_last()) + s.last().rx_bytes
    }
}

pub open spec fn sum_tx(s: Seq<InterfaceCounters>) -> int
    decreases s.len(),
{
    if s.len() == 0 {
        0
    } else {
        sum_tx(s.drop_last()) + s.last().tx_bytes
    }
}

/// A sum over interfaces, saturated to 64 bits.
pub open spec fn capped(x: int) -> u64 {
    min_int(x, u64::MAX as int) as u64
}

/// The network section of a cycle whose counters were read `elapsed_ms`
/// after those of `prev_rx` and `prev_tx`.
pub open spec fn network_harvest(
    interfaces: Seq<InterfaceCounters>,
    elapsed_ms: u64,
    prev_rx: u64,
    prev_tx: u64,
) -> NetworkHarvest {
    let total_rx = capped(sum_rx(interfaces));
    let total_tx = capped(sum_tx(interfaces));
    NetworkHarvest {
        rx: per_second(total_rx, prev_rx, elapsed_ms) as u64,
        tx: per_second(total_tx, prev_tx, elapsed_ms) as u64,
        total_rx,
        total_tx,
    }
}

proof fn lemma_sums_nonneg(s: Seq<InterfaceCounters>)
    ensures
        sum_rx(s) >= 0,
        sum_tx(s) >= 0,
    decreases s.len(),
{
    if s.len() > 0 {
        lemma_sums_nonneg(s.drop_last());
    }
}

/// Sums the interfaces' counters, computes the rates against the previous
/// totals, and advances those totals, also when no time has elapsed.
pub fn get_network_data(
    interfaces: &Vec<InterfaceCounters>,
    elapsed_ms: u64,
    prev_net_rx: &mut u64,
    prev_net_tx: &mut u64,
) -> (r: NetworkHarvest)
    ensures
        r == network_harvest(interfaces@, elapsed_ms, *old(prev_net_rx), *old(prev_net_tx)),
        *final(prev_net_rx) == r.total_rx,
        *final(prev_net_tx) == r.total_tx,
{
    let mut total_rx: u64 = 0;
    let mut total_tx: u64 = 0;
    let mut i: usize = 0;
    while i < interfaces.len()
        invariant
            i <= interfaces@.len(),
            total_rx == capped(sum_rx(interfaces@.take(i as int))),
            total_tx == capped(sum_tx(interfaces@.take(i as int))),
        decreases interfaces@.len() - i,
    {
        let io = interfaces[i];
        proof {
            let s = interfaces@.take(i + 1);
            assert(s.drop_last() =~= interfaces@.take(i as int));
            lemma_sums_nonneg(s.drop_last());
        }
        total_rx = total_rx.saturating_add(io.rx_bytes);
        total_tx = total_tx.saturating_add(io.tx_bytes);
        i = i + 1;
    }
    proof {
        assert(interfaces@.take(i as int) =~= interfaces@);
    }
    let rx = rate_per_second(total_rx, *prev_net_rx, elapsed_ms);
    let tx = rate_per_second(total_tx, *prev_net_tx, elapsed_ms);
    *prev_net_rx = total_rx;
    *prev_net_tx = total_tx;
    NetworkHarvest { rx, tx, total_rx, total_tx }
}

} // verus!
