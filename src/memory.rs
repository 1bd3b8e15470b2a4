//! Memory, swap, cache and GPU memory sections.
use crate::rates::share_percent;
use vstd::prelude::*;

verus! {

/// Memory in use out of a total, in kibibytes, with the share in use in
/// hundredths of a percent (none when the total is 0).
#[derive(Clone, Copy, Debug, PartialEq, Eq, Structural)]
pub struct MemHarvest {
    pub total_kib: u64,
    pub used_kib: u64,
    pub use_percent: Option<u64>,
}

impl MemHarvest {
    pub fn new(total_kib: u64, used_kib: u64) -> (r: MemHarvest)
        ensures
            r.total_kib == total_kib,
            r.used_kib == used_kib,
            r.use_percent == (if total_kib == 0 {
                None
            } else {
                Some(share_percent(used_kib as int, total_kib as int) as u64)
            }),
    {
        let use_percent = if total_kib == 0 {
            None
        } else {
            Some(crate::rates::percent_of(used_kib, total_kib))
        };
        MemHarvest { total_kib, used_kib, use_percent }
    }
}

/// Memory of one GPU, by name.
#[derive(Clone, Debug)]
pub struct GpuMemHarvest {
    pub name: String,
    pub mem: MemHarvest,
}

} // verus!
