//! Temperature sensors.
use vstd::prelude::*;

verus! {

/// One sensor's temperature, in thousandths of a degree.
#[derive(Clone, Debug)]
pub struct TempHarvest {
    pub name: String,
    pub temperature: i64,
}

/// One GPU as its driver reported it: its name and its temperature in whole
/// degrees, each where the query succeeded.
#[derive(Clone, Debug)]
pub struct GpuTempReading {
    pub name: Option<String>,
    pub temperature: Option<u32>,
}

/// The sensors that the GPU readings add: one per GPU whose name and
/// temperature were both read, in order.
pub open spec fn gpu_sensors(s: Seq<GpuTempReading>) -> Seq<TempHarvest>
    decreases s.len(),
{
    if s.len() == 0 {
        Seq::empty()
    } else {
        let rest = gpu_sensors(s.drop_last());
        match (s.last().name, s.last().temperature) {
            (Some(name), Some(t)) => rest.push(TempHarvest { name, temperature: (t * 1000) as i64 }),
            _ => rest,
        }
    }
}

/// Appends the GPUs whose name and temperature were both read.
pub fn add_nvidia_data(temperature_vec: &mut Vec<TempHarvest>, devices: &Vec<GpuTempReading>)
    ensures
        final(temperature_vec)@ == old(temperature_vec)@ + gpu_sensors(devices@),
{
    let ghost start = temperature_vec@;
    let mut i: usize = 0;
    while i < devices.len()
        invariant
            i <= devices@.len(),
            start == old(temperature_vec)@,
            temperature_vec@ == start + gpu_sensors(devices@.take(i as int)),
        decreases devices@.len() - i,
    {
        let d = &devices[i];
        proof {
            assert(devices@.take(i + 1).drop_last() =~= devices@.take(i as int));
        }
        match (&d.name, d.temperature) {
            (Some(name), Some(t)) => {
                temperature_vec.push(TempHarvest { name: name.clone(), temperature: t as i64 * 1000 });
                proof {
                    assert(temperature_vec@ =~= start + gpu_sensors(devices@.take(i + 1)));
                }
            },
            _ => {},
        }
        i = i + 1;
    }
    proof {
        assert(devices@.take(i as int) =~= devices@);
    }
}

} // verus!
