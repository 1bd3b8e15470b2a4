use toerings::cpu::{get_cpu_data_list, CpuDataType, CpuReading, CpuTimes};
use toerings::disks::{get_disk_usage, get_io_usage, DiskUsage, IoData, IoEntry, PartitionReading};
use toerings::error::ToeError;
use toerings::harvester::{DataCollector, Readings};
use toerings::memory::MemHarvest;
use toerings::network::{get_network_data, InterfaceCounters, NetworkHarvest};
use toerings::processes::{ProcessReading, ProcessSample, UserTable};
use toerings::rates::{cpu_usage_percent, kib_share_percent, percent_of, rate_per_second, scaled_percent_of};
use toerings::temperature::{add_nvidia_data, GpuTempReading, TempHarvest};

fn failing() -> Readings {
    Readings {
        cpu: Err(ToeError::MinorError),
        load_avg: Err(ToeError::MinorError),
        processes: Err(ToeError::MinorError),
        temperature: Err(ToeError::MinorError),
        network: Err(ToeError::MinorError),
        memory: Err(ToeError::MinorError),
        swap: Err(ToeError::MinorError),
        arc: Err(ToeError::MinorError),
        gpu: Err(ToeError::MinorError),
        disks: Err(ToeError::MinorError),
        io: Err(ToeError::MinorError),
        batteries: None,
        uptime: 0,
        hostname: None,
        kernel_name: None,
        kernel_version: None,
        os_version: None,
        local_ip: None,
    }
}

fn times(work: u64, total: u64) -> CpuTimes {
    CpuTimes { work, total }
}

fn sample(pid: i32, cpu_ticks: u64, read: u64, write: u64) -> ProcessSample {
    ProcessSample {
        pid,
        parent_pid: Some(1),
        name: format!("p{}", pid),
        command: format!("/bin/p{}", pid),
        mem_usage_bytes: 1024,
        cpu_ticks,
        total_read_bytes: read,
        total_write_bytes: write,
        state_name: "Sleeping".to_string(),
        state_char: 'S',
        uid: Some(1000),
    }
}

fn process_reading(system: CpuTimes, processes: Vec<ProcessSample>) -> ProcessReading {
    ProcessReading { system, logical_cores: Some(4), processes, resolved_users: vec![] }
}

#[test]
fn cpu_usage_half_between_two_samples() {
    assert_eq!(cpu_usage_percent(100, 200, 150, 300), 5000);
}

#[test]
fn cpu_usage_through_collector() {
    let mut c = DataCollector::new(0);
    let mut r = failing();
    r.cpu = Ok(CpuReading { per_core: vec![times(100, 200)], average: times(100, 200) });
    c.update_data(r, 1000);
    let mut r = failing();
    r.cpu = Ok(CpuReading { per_core: vec![times(150, 300)], average: times(150, 300) });
    c.update_data(r, 2000);
    let cpu = c.data().cpu.clone().unwrap();
    assert_eq!(cpu.len(), 1);
    assert!(matches!(cpu[0].data_type, CpuDataType::Cpu(0)));
    assert_eq!(cpu[0].cpu_usage, 5000);
}

#[test]
fn cpu_usage_clamped_and_zero_ticks() {
    assert_eq!(cpu_usage_percent(0, 0, 500, 100), 10000);
    assert_eq!(cpu_usage_percent(10, 50, 20, 50), 0);
    assert_eq!(cpu_usage_percent(100, 100, 50, 200), 0);
    assert_eq!(cpu_usage_percent(0, 0, 1, 3), 3333);
}

#[test]
fn cpu_list_new_core_has_no_usage() {
    let mut prev = vec![times(10, 20)];
    let mut prev_avg = None;
    let reading = CpuReading { per_core: vec![times(20, 40), times(5, 10)], average: times(25, 50) };
    let out = get_cpu_data_list(true, &reading, &mut prev, &mut prev_avg);
    assert_eq!(out.len(), 3);
    assert!(matches!(out[0].data_type, CpuDataType::Avg));
    assert_eq!(out[0].cpu_usage, 0);
    assert_eq!(out[1].cpu_usage, 5000);
    assert!(matches!(out[2].data_type, CpuDataType::Cpu(1)));
    assert_eq!(out[2].cpu_usage, 0);
    assert_eq!(prev, vec![times(20, 40), times(5, 10)]);
    assert_eq!(prev_avg, Some(times(25, 50)));
}

#[test]
fn network_rates_and_totals_advance() {
    let mut rx = 1000u64;
    let mut tx = 500u64;
    let ifs = vec![InterfaceCounters { rx_bytes: 3000, tx_bytes: 900 }];
    let n = get_network_data(&ifs, 2000, &mut rx, &mut tx);
    assert_eq!(n, NetworkHarvest { rx: 1000, tx: 200, total_rx: 3000, total_tx: 900 });
    assert_eq!(rx, 3000);
    assert_eq!(tx, 900);
}

#[test]
fn network_sums_interfaces_and_saturates() {
    let mut rx = 0u64;
    let mut tx = 0u64;
    let ifs = vec![
        InterfaceCounters { rx_bytes: 10, tx_bytes: u64::MAX },
        InterfaceCounters { rx_bytes: 20, tx_bytes: 5 },
    ];
    let n = get_network_data(&ifs, 1000, &mut rx, &mut tx);
    assert_eq!(n.total_rx, 30);
    assert_eq!(n.total_tx, u64::MAX);
    assert_eq!(n.rx, 30);
}

#[test]
fn zero_elapsed_gives_zero_rates() {
    assert_eq!(rate_per_second(5000, 1000, 0), 0);
    let mut rx = 1000u64;
    let mut tx = 0u64;
    let ifs = vec![InterfaceCounters { rx_bytes: 4000, tx_bytes: 7 }];
    let n = get_network_data(&ifs, 0, &mut rx, &mut tx);
    assert_eq!((n.rx, n.tx), (0, 0));
    assert_eq!((rx, tx), (4000, 7));
}

#[test]
fn counter_reset_gives_zero_delta() {
    assert_eq!(rate_per_second(10, 5000, 1000), 0);
    let mut rx = 5000u64;
    let mut tx = 5000u64;
    let ifs = vec![InterfaceCounters { rx_bytes: 100, tx_bytes: 6000 }];
    let n = get_network_data(&ifs, 1000, &mut rx, &mut tx);
    assert_eq!(n.rx, 0);
    assert_eq!(n.tx, 1000);
}

#[test]
fn rate_rounds_down_and_saturates() {
    assert_eq!(rate_per_second(1000, 0, 3000), 333);
    assert_eq!(rate_per_second(u64::MAX, 0, 1), u64::MAX);
    assert_eq!(rate_per_second(1, 0, 1), 1000);
}

#[test]
fn percentages() {
    assert_eq!(percent_of(1, 4), 2500);
    assert_eq!(percent_of(1, 0), 0);
    assert_eq!(scaled_percent_of(1, 4, 8), 5000);
    assert_eq!(kib_share_percent(512, 1), 5000);
    assert_eq!(kib_share_percent(512, 0), 0);
}

#[test]
fn memory_harvest_share() {
    let m = MemHarvest::new(2000, 500);
    assert_eq!(m.use_percent, Some(2500));
    assert_eq!(MemHarvest::new(0, 0).use_percent, None);
}

#[test]
fn exited_process_is_pruned() {
    let mut c = DataCollector::new(0);
    let mut r = failing();
    r.processes = Ok(process_reading(times(0, 100), vec![sample(7, 10, 0, 0), sample(9, 10, 0, 0)]));
    c.update_data(r, 1000);
    let mut r = failing();
    r.processes = Ok(process_reading(times(0, 200), vec![sample(9, 20, 0, 0)]));
    c.update_data(r, 2000);
    let procs = c.data.list_of_processes.clone().unwrap();
    assert_eq!(procs.len(), 1);
    assert_eq!(procs[0].pid, 9);
    assert!(!c.tracks_process(7));
    assert!(c.tracks_process(9));
}

#[test]
fn new_process_starts_at_zero_then_gets_rates() {
    let mut c = DataCollector::new(0);
    let mut r = failing();
    r.processes = Ok(process_reading(times(0, 1000), vec![sample(3, 400, 5000, 100)]));
    c.update_data(r, 1000);
    let p = &c.data.list_of_processes.as_ref().unwrap()[0];
    assert_eq!((p.cpu_usage_percent, p.read_bytes_per_sec, p.write_bytes_per_sec), (0, 0, 0));
    assert!(c.tracks_process(3));
    let mut r = failing();
    r.processes = Ok(process_reading(times(0, 2000), vec![sample(3, 650, 9000, 100)]));
    c.update_data(r, 3000);
    let p = &c.data.list_of_processes.as_ref().unwrap()[0];
    assert_eq!(p.cpu_usage_percent, 2500);
    assert_eq!(p.read_bytes_per_sec, 2000);
    assert_eq!(p.write_bytes_per_sec, 0);
    assert_eq!(p.total_read_bytes, 9000);
}

#[test]
fn processes_come_out_sorted_by_pid() {
    let mut c = DataCollector::new(0);
    let mut r = failing();
    r.processes = Ok(process_reading(
        times(0, 100),
        vec![sample(30, 0, 0, 0), sample(4, 0, 0, 0), sample(12, 0, 0, 0)],
    ));
    c.update_data(r, 10);
    let pids: Vec<i32> = c.data.list_of_processes.as_ref().unwrap().iter().map(|p| p.pid).collect();
    assert_eq!(pids, vec![4, 12, 30]);
}

#[test]
fn process_memory_share_and_user() {
    let mut c = DataCollector::new(0);
    c.init(Some(4), failing(), 5);
    let mut r = failing();
    let mut reading = process_reading(times(0, 100), vec![sample(3, 0, 0, 0)]);
    reading.resolved_users = vec![(1000, "alice".to_string())];
    r.processes = Ok(reading);
    assert!(!c.knows_user(1000));
    c.update_data(r, 10);
    assert!(c.knows_user(1000));
    let p = &c.data.list_of_processes.as_ref().unwrap()[0];
    assert_eq!(p.mem_usage_percent, 2500);
    assert_eq!(p.user, Some("alice".to_string()));
    assert_eq!(p.name, "p3");
}

#[test]
fn user_table_keeps_first_name() {
    let mut t = UserTable::new();
    assert!(!t.contains(5));
    t.record(5, "a".to_string());
    t.record(5, "b".to_string());
    assert_eq!(t.user_of(Some(5)), Some("a".to_string()));
    assert_eq!(t.user_of(Some(6)), None);
    assert_eq!(t.user_of(None), None);
}

#[test]
fn warm_up_discards_rates_but_keeps_network_totals() {
    let mut c = DataCollector::new(0);
    let mut r = failing();
    r.cpu = Ok(CpuReading { per_core: vec![times(100, 200)], average: times(100, 200) });
    r.network = Ok(vec![InterfaceCounters { rx_bytes: 1000, tx_bytes: 500 }]);
    r.memory = Ok(Some(MemHarvest::new(100, 50)));
    r.processes = Ok(process_reading(times(0, 100), vec![sample(1, 0, 0, 0)]));
    r.hostname = Some("host".to_string());
    c.init(Some(1024), r, 1000);
    assert!(c.data.cpu.is_none());
    assert!(c.data.memory.is_none());
    assert!(c.data.list_of_processes.is_none());
    assert_eq!(c.data.network, Some(NetworkHarvest { rx: 0, tx: 0, total_rx: 1000, total_tx: 500 }));
    assert_eq!(c.data.hostname, Some("host".to_string()));

    let mut r = failing();
    r.cpu = Ok(CpuReading { per_core: vec![times(150, 300)], average: times(150, 300) });
    r.network = Ok(vec![InterfaceCounters { rx_bytes: 3000, tx_bytes: 900 }]);
    c.update_data(r, 3000);
    assert_eq!(c.data.cpu.as_ref().unwrap()[0].cpu_usage, 5000);
    assert_eq!(c.data.network, Some(NetworkHarvest { rx: 1000, tx: 200, total_rx: 3000, total_tx: 900 }));
}

#[test]
fn failing_memory_probe_leaves_others() {
    let mut c = DataCollector::new(0);
    let mut r = failing();
    r.cpu = Ok(CpuReading { per_core: vec![times(1, 2)], average: times(1, 2) });
    r.network = Ok(vec![InterfaceCounters { rx_bytes: 1, tx_bytes: 1 }]);
    r.processes = Ok(process_reading(times(0, 100), vec![sample(1, 0, 0, 0)]));
    c.update_data(r, 100);
    assert!(c.data.memory.is_none());
    assert!(c.data.cpu.is_some());
    assert!(c.data.network.is_some());
    assert!(c.data.list_of_processes.is_some());
}

#[test]
fn always_failing_probe_stays_absent() {
    let mut c = DataCollector::new(0);
    let mut r = failing();
    r.network = Ok(vec![InterfaceCounters { rx_bytes: 1000, tx_bytes: 500 }]);
    c.update_data(r, 1000);
    for k in 0..50u64 {
        let mut r = failing();
        r.cpu = Ok(CpuReading { per_core: vec![times(k, 2 * k)], average: times(k, 2 * k) });
        c.update_data(r, 2000 + 1000 * k);
        assert!(c.data.network.is_none());
        assert!(c.data.memory.is_none());
    }
    let mut r = failing();
    r.network = Ok(vec![InterfaceCounters { rx_bytes: 3000, tx_bytes: 500 }]);
    c.update_data(r, 53000);
    assert_eq!(c.data.network.unwrap().total_rx, 3000);
    assert_eq!(c.data.network.unwrap().rx, 1000);
}

#[test]
fn failed_section_becomes_absent() {
    let mut c = DataCollector::new(0);
    let mut r = failing();
    r.memory = Ok(Some(MemHarvest::new(10, 5)));
    c.update_data(r, 1);
    assert!(c.data.memory.is_some());
    c.update_data(failing(), 2);
    assert!(c.data.memory.is_none());
    assert_eq!(c.data.last_collection_time, 2);
}

#[test]
fn disks_with_and_without_usage() {
    let parts = vec![
        PartitionReading {
            name: "sda1".to_string(),
            mount_point: "/".to_string(),
            usage: Some(DiskUsage { free: 1, used: 2, total: 3 }),
        },
        PartitionReading { name: "sdb1".to_string(), mount_point: "/mnt".to_string(), usage: None },
    ];
    let d = get_disk_usage(&parts);
    assert_eq!(d.len(), 2);
    assert_eq!((d[0].free_space, d[0].used_space, d[0].total_space), (Some(1), Some(2), Some(3)));
    assert_eq!(d[1].mount_point, "/mnt");
    assert_eq!(d[1].total_space, None);
}

#[test]
fn nvidia_adds_complete_readings_only() {
    let mut temps = vec![TempHarvest { name: "cpu".to_string(), temperature: 40000 }];
    let devices = vec![
        GpuTempReading { name: Some("gpu0".to_string()), temperature: Some(55) },
        GpuTempReading { name: None, temperature: Some(60) },
        GpuTempReading { name: Some("gpu2".to_string()), temperature: None },
    ];
    add_nvidia_data(&mut temps, &devices);
    assert_eq!(temps.len(), 2);
    assert_eq!(temps[1].name, "gpu0");
    assert_eq!(temps[1].temperature, 55000);
}

#[test]
fn string_becomes_generic_error() {
    let e: ToeError = ToeError::from("boom".to_string());
    assert_eq!(e, ToeError::GenericError("boom".to_string()));
}

#[test]
fn io_keeps_last_reading_per_device() {
    let entry = |d: &str, r: u64| IoEntry {
        device: d.to_string(),
        data: Some(IoData { read_bytes: r, write_bytes: 0 }),
    };
    let out = get_io_usage(&vec![entry("sda", 1), entry("sdb", 2), entry("sda", 3)]);
    assert_eq!(out.len(), 2);
    assert_eq!(out[0].device, "sdb");
    assert_eq!(out[1].device, "sda");
    assert_eq!(out[1].data.unwrap().read_bytes, 3);
}

#[test]
fn options_show_average_and_unnormalized_cpu() {
    let mut c = DataCollector::new(0);
    c.set_options(true, false, true);
    let mut r = failing();
    r.cpu = Ok(CpuReading { per_core: vec![times(0, 100), times(0, 100)], average: times(0, 200) });
    r.processes = Ok(process_reading(times(0, 1000), vec![sample(2, 0, 0, 0)]));
    c.update_data(r, 1000);
    let mut r = failing();
    r.cpu = Ok(CpuReading { per_core: vec![times(50, 200), times(100, 200)], average: times(150, 400) });
    r.processes = Ok(process_reading(times(0, 2000), vec![sample(2, 250, 0, 0)]));
    c.update_data(r, 2000);
    let cpu = c.data.cpu.clone().unwrap();
    assert_eq!(cpu.len(), 3);
    assert!(matches!(cpu[0].data_type, CpuDataType::Avg));
    assert_eq!(cpu[0].cpu_usage, 7500);
    assert_eq!(cpu[1].cpu_usage, 5000);
    assert_eq!(cpu[2].cpu_usage, 10000);
    // 250 of 1000 machine ticks over 4 cores is a full core.
    assert_eq!(c.data.list_of_processes.as_ref().unwrap()[0].cpu_usage_percent, 10000);
}
