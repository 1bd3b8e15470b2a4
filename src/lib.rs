//! Host telemetry harvesting: rate computation over cumulative counters,
//! cross-cycle state, and the assembly of one snapshot per collection cycle.

pub mod rates;
pub mod cpu;
pub mod network;
pub mod processes;
pub mod disks;
pub mod memory;
pub mod temperature;
pub mod batteries;
pub mod error;
pub mod harvester;
