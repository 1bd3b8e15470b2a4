//! Disk usage and disk I/O sections.
use vstd::prelude::*;

verus! {

/// Space of one mounted partition, in bytes, where it could be read.
#[derive(Clone, Debug)]
pub struct DiskHarvest {
    pub name: String,
    pub mount_point: String,
    pub free_space: Option<u64>,
    pub used_space: Option<u64>,
    pub total_space: Option<u64>,
}

/// Space of a partition as the usage probe read it, in bytes.
#[derive(Clone, Copy, Debug, PartialEq, Eq, Structural)]
pub struct DiskUsage {
    pub free: u64,
    pub used: u64,
    pub total: u64,
}

/// One physical partition as the disk probe read it; its usage can fail on
/// its own.
#[derive(Clone, Debug)]
pub struct PartitionReading {
    pub name: String,
    pub mount_point: String,
    pub usage: Option<DiskUsage>,
}

/// Cumulative bytes read and written by one device.
#[derive(Clone, Copy, Debug, PartialEq, Eq, Structural)]
pub struct IoData {
    pub read_bytes: u64,
    pub write_bytes: u64,
}

/// The I/O counters of one device, by device name.
#[derive(Clone, Debug)]
pub struct IoEntry {
    pub device: String,
    pub data: Option<IoData>,
}

pub type IoHarvest = Vec<IoEntry>;

pub open spec fn disk_entry(p: PartitionReading) -> DiskHarvest {
    DiskHarvest {
        name: p.name,
        mount_point: p.mount_point,
        free_space: match p.usage {
            Some(u) => Some(u.free),
            None => None,
        },
        used_space: match p.usage {
            Some(u) => Some(u.used),
            None => None,
        },
        total_space: match p.usage {
            Some(u) => Some(u.total),
            None => None,
        },
    }
}

/// The disk section: one entry per partition, in the order read; a partition
/// whose usage failed is listed with no space figures.
pub fn get_disk_usage(partitions: &Vec<PartitionReading>) -> (r: Vec<DiskHarvest>)
    ensures
        r@ == partitions@.map_values(|p: PartitionReading| disk_entry(p)),
{
    let mut out: Vec<DiskHarvest> = Vec::new();
    let mut i: usize = 0;
    while i < partitions.len()
        invariant
            i <= partitions@.len(),
            out@ == partitions@.take(i as int).map_values(|p: PartitionReading| disk_entry(p)),
        decreases partitions@.len() - i,
    {
        let p = &partitions[i];
        let (free_space, used_space, total_space) = match p.usage {
            Some(u) => (Some(u.free), Some(u.used), Some(u.total)),
            None => (None, None, None),
        };
        out.push(
            DiskHarvest {
                name: p.name.clone(),
                mount_point: p.mount_point.clone(),
                free_space,
                used_space,
                total_space,
            },
        );
        proof {
            assert(partitions@.take(i + 1).map_values(|p: PartitionReading| disk_entry(p))
                =~= partitions@.take(i as int).map_values(|p: PartitionReading| disk_entry(p)).push(
                disk_entry(partitions@[i as int]),
            ));
        }
        i = i + 1;
    }
    proof {
        assert(partitions@.take(i as int) =~= partitions@);
    }
    out
}

/// The I/O section built from device counters in the order read: one entry
/// per device name, the device's last reading winning and standing where that
/// reading came.
pub open spec fn io_latest(s: Seq<IoEntry>) -> Seq<IoEntry>
    decreases s.len(),
{
    if s.len() == 0 {
        Seq::empty()
    } else {
        io_latest(s.drop_last()).filter(|x: IoEntry| x.device@ != s.last().device@).push(s.last())
    }
}

fn copy_entry(e: &IoEntry) -> (r: IoEntry)
    ensures
        r == *e,
{
    IoEntry { device: e.device.clone(), data: e.data }
}

/// Builds the I/O section: each device once, with its last reading.
pub fn get_io_usage(counters: &Vec<IoEntry>) -> (r: IoHarvest)
    ensures
        r@ == io_latest(counters@),
{
    let mut out: Vec<IoEntry> = Vec::new();
    let mut i: usize = 0;
    while i < counters.len()
        invariant
            i <= counters@.len(),
            out@ == io_latest(counters@.take(i as int)),
        decreases counters@.len() - i,
    {
        let e = &counters[i];
        let ghost pred = |x: IoEntry| x.device@ != e.device@;
        let mut kept: Vec<IoEntry> = Vec::new();
        let mut j: usize = 0;
        while j < out.len()
            invariant
                j <= out@.len(),
                pred == (|x: IoEntry| x.device@ != e.device@),
                kept@ == out@.take(j as int).filter(pred),
            decreases out@.len() - j,
        {
            proof {
                reveal_with_fuel(Seq::filter, 1);
                assert(out@.take(j + 1).drop_last() =~= out@.take(j as int));
            }
            if out[j].device != e.device {
                kept.push(copy_entry(&out[j]));
            }
            j = j + 1;
        }
        kept.push(copy_entry(e));
        proof {
            assert(out@.take(j as int) =~= out@);
            assert(counters@.take(i + 1).drop_last() =~= counters@.take(i as int));
        }
        out = kept;
        i = i + 1;
    }
    proof {
        assert(counters@.take(i as int) =~= counters@);
    }
    out
}

} // verus!
