use litemon::error::LiteMonError;
use litemon::monitor::cpu::{CoreReading, CpuMonitor, CpuReading, CpuStats};
use litemon::monitor::disk::DiskReading;
use litemon::monitor::gpu::GpuStats;
use litemon::monitor::memory::{FrequencySource, MemoryReading};
use litemon::monitor::network::NetworkReading;
use litemon::monitor::{Monitor, SystemSnapshot};

fn empty(taken_at: u64) -> SystemSnapshot {
    SystemSnapshot { taken_at, cpu: None, memory: None, disks: None, networks: None, gpu: None }
}

fn cpu(brand: &str, frequency: u64, cores: &[(u32, u64)]) -> CpuReading {
    CpuReading {
        brand: brand.to_string(),
        frequency,
        cores: cores
            .iter()
            .map(|(usage, frequency)| CoreReading { usage: *usage, frequency: *frequency })
            .collect(),
    }
}

fn gpu(utilization: u32) -> GpuStats {
    GpuStats {
        name: "Example GPU".to_string(),
        utilization,
        memory_used: 2 * 1_073_741_824,
        memory_total: 8 * 1_073_741_824,
        temperature: 65,
    }
}

fn memory() -> MemoryReading {
    MemoryReading {
        total: 100,
        used: 40,
        free: 10,
        available: 60,
        swap_total: 0,
        swap_used: 0,
        swap_free: 0,
        frequency: FrequencySource::Measured(3200),
    }
}

fn eth0(total_received: u64) -> Vec<NetworkReading> {
    vec![NetworkReading {
        interface_name: "eth0".to_string(),
        total_received,
        total_transmitted: 2 * total_received,
    }]
}

#[test]
fn engine_without_a_snapshot_has_nothing_to_report() {
    let monitor = Monitor::new(false);
    assert!(matches!(monitor.cpu_stats(), Err(LiteMonError::CategoryUnavailable)));
    assert!(matches!(monitor.memory_stats(), Err(LiteMonError::CategoryUnavailable)));
    assert!(matches!(monitor.disk_stats(), Err(LiteMonError::CategoryUnavailable)));
    assert!(matches!(monitor.network_stats(), Err(LiteMonError::CategoryUnavailable)));
    assert!(matches!(monitor.gpu_stats(), Err(LiteMonError::NoGpuFound)));
}

#[test]
fn absent_gpu_is_never_reported() {
    let mut monitor = Monitor::new(false);
    assert!(!monitor.gpu_due(0));
    for tick in 0..5u64 {
        let mut snapshot = empty(tick * 1_000);
        // Even a snapshot that holds a reading does not bring a device into being.
        snapshot.gpu = Some(gpu(50));
        monitor.refresh(&snapshot);
        assert!(matches!(monitor.gpu_stats(), Err(LiteMonError::NoGpuFound)));
        assert!(!monitor.gpu_due(tick * 1_000 + 5_000));
    }
}

#[test]
fn present_gpu_is_read_on_its_own_cadence() {
    let mut monitor = Monitor::new(true);
    assert!(matches!(monitor.gpu_stats(), Err(LiteMonError::NoGpuFound)));
    assert!(monitor.gpu_due(10_000));

    let mut first = empty(10_000);
    first.gpu = Some(gpu(10));
    monitor.refresh(&first);
    assert_eq!(monitor.gpu_stats().unwrap(), gpu(10));

    // Half a second later no reading is due; one that comes is not taken.
    assert!(!monitor.gpu_due(10_500));
    assert!(!monitor.gpu_due(10_999));
    let mut early = empty(10_500);
    early.gpu = Some(gpu(20));
    monitor.refresh(&early);
    assert_eq!(monitor.gpu_stats().unwrap(), gpu(10));

    // A full second after the last reading the next one is due.
    assert!(monitor.gpu_due(11_000));
    let mut due = empty(11_000);
    due.gpu = Some(gpu(30));
    monitor.refresh(&due);
    assert_eq!(monitor.gpu_stats().unwrap(), gpu(30));
}

#[test]
fn gpu_that_gave_no_reading_when_due_is_not_reported() {
    let mut monitor = Monitor::new(true);
    let mut first = empty(0);
    first.gpu = Some(gpu(10));
    monitor.refresh(&first);
    monitor.refresh(&empty(1_000));
    assert!(matches!(monitor.gpu_stats(), Err(LiteMonError::NoGpuFound)));
    // The device is still there, and due again a second later.
    assert!(!monitor.gpu_due(1_500));
    assert!(monitor.gpu_due(2_000));
}

#[test]
fn mean_usage_is_the_mean_of_the_cores() {
    let mut monitor = Monitor::new(false);
    let mut snapshot = empty(0);
    snapshot.cpu = Some(cpu("Example CPU", 3600, &[(1000, 3500), (2000, 3600), (4000, 3700)]));
    monitor.refresh(&snapshot);
    assert_eq!(
        monitor.cpu_stats().unwrap(),
        CpuStats {
            total_usage: 2333,
            core_usage: vec![1000, 2000, 4000],
            core_count: 3,
            frequency: vec![3500, 3600, 3700],
        }
    );
}

#[test]
fn processor_without_cores_has_mean_zero() {
    let mut monitor = CpuMonitor::new();
    let mut snapshot = empty(0);
    snapshot.cpu = Some(cpu("Example CPU", 3600, &[]));
    assert_eq!(
        monitor.collect_stats(&snapshot).unwrap(),
        CpuStats { total_usage: 0, core_usage: vec![], core_count: 0, frequency: vec![] }
    );
}

#[test]
fn mean_of_the_largest_usages_does_not_overflow() {
    let mut monitor = CpuMonitor::new();
    let mut snapshot = empty(0);
    snapshot.cpu = Some(cpu("Example CPU", 1, &[(u32::MAX, 1), (u32::MAX, 1), (u32::MAX - 1, 1)]));
    assert_eq!(monitor.collect_stats(&snapshot).unwrap().total_usage, u32::MAX - 1);
}

#[test]
fn processor_that_was_not_read_is_unavailable() {
    let mut monitor = CpuMonitor::new();
    assert!(matches!(monitor.collect_stats(&empty(0)), Err(LiteMonError::CategoryUnavailable)));
}

#[test]
fn cpu_info_names_the_processor_and_its_frequency() {
    let mut monitor = Monitor::new(false);
    assert_eq!(monitor.cpu_info(), "\n频率: 0.0 GHz");
    let mut snapshot = empty(0);
    snapshot.cpu = Some(cpu("Example CPU", 3600, &[(0, 3600)]));
    monitor.refresh(&snapshot);
    assert_eq!(monitor.cpu_info(), "Example CPU\n频率: 3.6 GHz");
    // A tick without the processor leaves the line as it was.
    monitor.refresh(&empty(1_000));
    assert_eq!(monitor.cpu_info(), "Example CPU\n频率: 3.6 GHz");
}

#[test]
fn frequency_rounds_to_the_nearest_tenth_and_halves_to_even() {
    for (frequency, text) in [
        (3649u64, "3.6"),
        (3651, "3.7"),
        (2450, "2.4"),
        (2550, "2.6"),
        (999, "1.0"),
        (49, "0.0"),
        (50, "0.0"),
        (150, "0.2"),
        (12_345, "12.3"),
    ] {
        let mut monitor = Monitor::new(false);
        let mut snapshot = empty(0);
        snapshot.cpu = Some(cpu("X", frequency, &[]));
        monitor.refresh(&snapshot);
        assert_eq!(monitor.cpu_info(), format!("X\n频率: {} GHz", text));
    }
}

#[test]
fn failure_of_one_category_leaves_the_others() {
    let mut monitor = Monitor::new(false);
    let mut snapshot = empty(0);
    snapshot.memory = Some(memory());
    snapshot.disks = Some(vec![DiskReading {
        name: "sda".to_string(),
        mount_point: "/".to_string(),
        total_space: 100,
        available_space: 30,
        kind: "HDD".to_string(),
        is_removable: false,
    }]);
    monitor.refresh(&snapshot);
    assert!(matches!(monitor.cpu_stats(), Err(LiteMonError::CategoryUnavailable)));
    assert!(matches!(monitor.network_stats(), Err(LiteMonError::CategoryUnavailable)));
    assert_eq!(monitor.memory_stats().unwrap().frequency, 3200);
    assert_eq!(monitor.disk_stats().unwrap()[0].used_space, 70);
}

#[test]
fn failure_lasts_for_one_tick_only() {
    let mut monitor = Monitor::new(false);
    let mut with_memory = empty(0);
    with_memory.memory = Some(memory());
    monitor.refresh(&with_memory);
    assert!(monitor.memory_stats().is_ok());
    monitor.refresh(&empty(1_000));
    assert!(matches!(monitor.memory_stats(), Err(LiteMonError::CategoryUnavailable)));
    let mut again = empty(2_000);
    again.memory = Some(memory());
    monitor.refresh(&again);
    assert!(monitor.memory_stats().is_ok());
}

#[test]
fn memory_failure_is_reported_as_it_came() {
    let mut monitor = Monitor::new(false);
    let mut snapshot = empty(0);
    let mut reading = memory();
    reading.frequency = FrequencySource::CommandFailed;
    snapshot.memory = Some(reading);
    monitor.refresh(&snapshot);
    match monitor.memory_stats() {
        Err(LiteMonError::Io(detail)) => assert_eq!(detail, "Failed to execute dmidecode"),
        other => panic!("unexpected: {:?}", other),
    }
}

#[test]
fn rates_are_recorded_in_the_histories() {
    let mut monitor = Monitor::new(false);
    let name = "eth0".to_string();
    assert_eq!(monitor.received_history(&name), Vec::<u64>::new());
    for tick in 0..4u64 {
        let mut snapshot = empty(tick * 1_000);
        // The counter grows by 100, 200, 300 bytes.
        snapshot.networks = Some(eth0(50 * tick * (tick + 1)));
        monitor.refresh(&snapshot);
    }
    assert_eq!(monitor.received_history(&name), vec![0, 100, 200, 300]);
    assert_eq!(monitor.transmitted_history(&name), vec![0, 200, 400, 600]);
    assert_eq!(monitor.received_history(&"wlan0".to_string()), Vec::<u64>::new());
}

#[test]
fn histories_keep_the_last_fifty_rates() {
    let mut monitor = Monitor::new(false);
    let name = "eth0".to_string();
    let mut total: u64 = 0;
    for tick in 0..60u64 {
        total += tick;
        let mut snapshot = empty(tick * 1_000);
        snapshot.networks = Some(eth0(total));
        monitor.refresh(&snapshot);
    }
    let expected: Vec<u64> = (10..60).collect();
    assert_eq!(monitor.received_history(&name), expected);
}

#[test]
fn tick_without_interfaces_records_nothing() {
    let mut monitor = Monitor::new(false);
    let name = "eth0".to_string();
    let mut first = empty(0);
    first.networks = Some(eth0(100));
    monitor.refresh(&first);
    monitor.refresh(&empty(1_000));
    assert_eq!(monitor.received_history(&name), vec![0]);
}

#[test]
fn snapshot_holds_every_category_that_has_statistics() {
    let mut monitor = Monitor::new(true);
    let nothing = monitor.snapshot();
    assert!(nothing.cpu.is_none() && nothing.memory.is_none() && nothing.disks.is_none());
    assert!(nothing.networks.is_none() && nothing.gpu.is_none());

    let mut snapshot = empty(0);
    snapshot.cpu = Some(cpu("Example CPU", 3600, &[(1000, 3500)]));
    snapshot.memory = Some(memory());
    snapshot.networks = Some(eth0(100));
    snapshot.gpu = Some(gpu(5));
    monitor.refresh(&snapshot);
    let all = monitor.snapshot();
    assert_eq!(all.cpu, monitor.cpu_stats().ok());
    assert_eq!(all.memory, monitor.memory_stats().ok());
    assert_eq!(all.disks, None);
    assert_eq!(all.networks, monitor.network_stats().ok());
    assert_eq!(all.gpu, Some(gpu(5)));
    assert_eq!(all.cpu.unwrap().total_usage, 1000);
}
