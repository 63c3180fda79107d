use litemon::cli::MonitorArgs;
use litemon::monitor::cpu::{CoreReading, CpuReading, CpuStats};
use litemon::monitor::disk::{DiskReading, DiskStats};
use litemon::monitor::gpu::GpuStats;
use litemon::monitor::memory::{FrequencySource, MemoryReading, MemoryStats};
use litemon::monitor::network::{NetworkReading, NetworkStats};
use litemon::monitor::{Monitor, SystemSnapshot};
use litemon::ui::panels::{
    cores_panel, cpu_usage_panel, disk_panel, gpu_memory_panel, gpu_usage_panel, memory_panel,
    network_list_item, network_panel, swap_panel, Color, Gauge, ListItem,
};
use litemon::ui::Tui;

const GIB: u64 = 1_073_741_824;

fn memory(used: u64, total: u64, available: u64, swap_used: u64, swap_total: u64) -> MemoryStats {
    MemoryStats {
        total,
        used,
        free: 0,
        available,
        swap_total,
        swap_used,
        swap_free: 0,
        frequency: 0,
    }
}

fn disk(name: &str, kind: &str, removable: bool, total: u64, used: u64) -> DiskStats {
    DiskStats {
        name: name.to_string(),
        mount_point: "/".to_string(),
        total_space: total,
        available_space: total.saturating_sub(used),
        used_space: used,
        disk_type: kind.to_string(),
        is_removable: removable,
    }
}

fn cores(count: u32) -> CpuStats {
    CpuStats {
        total_usage: 0,
        core_usage: (0..count).map(|i| i * 100).collect(),
        core_count: count as usize,
        frequency: (0..count).map(|i| 1000 + u64::from(i)).collect(),
    }
}

fn full_snapshot(core_count: u32) -> SystemSnapshot {
    SystemSnapshot {
        taken_at: 0,
        cpu: Some(CpuReading {
            brand: "Example CPU".to_string(),
            frequency: 3600,
            cores: (0..core_count)
                .map(|i| CoreReading { usage: i * 100, frequency: 1000 + u64::from(i) })
                .collect(),
        }),
        memory: Some(MemoryReading {
            total: 16 * GIB,
            used: 8 * GIB,
            free: GIB,
            available: 7 * GIB,
            swap_total: 4 * GIB,
            swap_used: GIB,
            swap_free: 3 * GIB,
            frequency: FrequencySource::Unsupported,
        }),
        disks: Some(vec![DiskReading {
            name: "sda".to_string(),
            mount_point: "/".to_string(),
            total_space: 1000,
            available_space: 85,
            kind: "SSD".to_string(),
            is_removable: false,
        }]),
        networks: Some(vec![NetworkReading {
            interface_name: "eth0".to_string(),
            total_received: 3000,
            total_transmitted: 500,
        }]),
        gpu: Some(GpuStats {
            name: "Example GPU".to_string(),
            utilization: 37,
            memory_used: 2 * GIB,
            memory_total: 8 * GIB,
            temperature: 65,
        }),
    }
}

#[test]
fn core_item_shows_usage_bar_and_frequency() {
    assert_eq!(
        Tui::create_core_list_item(3, 4567, 3400),
        ListItem {
            text: "核心 # 3: 45.7% [█████████░░░░░░░░░░] │ 3.4 GHz".to_string(),
            color: Color::Green,
        }
    );
}

#[test]
fn core_item_of_an_idle_and_of_a_busy_core() {
    assert_eq!(
        Tui::create_core_list_item(0, 0, 800).text,
        "核心 # 0: 0.0% [░░░░░░░░░░░░░░░░░░░░] │ 0.8 GHz"
    );
    assert_eq!(
        Tui::create_core_list_item(12, 10000, 5000),
        ListItem {
            text: "核心 #12: 100.0% [████████████████████] │ 5.0 GHz".to_string(),
            color: Color::Red,
        }
    );
    assert_eq!(
        Tui::create_core_list_item(128, 500, 0).text,
        "核心 #128: 5.0% [█░░░░░░░░░░░░░░░░░░░] │ 0.0 GHz"
    );
}

#[test]
fn core_bar_counts_whole_cells_on_either_side() {
    // 4.99 percent fills no cell and leaves nineteen whole cells empty.
    assert_eq!(
        Tui::create_core_list_item(1, 499, 1000).text,
        "核心 # 1: 5.0% [░░░░░░░░░░░░░░░░░░░] │ 1.0 GHz"
    );
    // Beyond the full hundred the bar grows and nothing is left empty.
    assert_eq!(
        Tui::create_core_list_item(1, 10500, 1000).text,
        "核心 # 1: 105.0% [█████████████████████] │ 1.0 GHz"
    );
}

#[test]
fn core_usage_rounds_to_the_nearest_tenth_and_halves_to_even() {
    for (usage, text) in [(1234u32, "12.3"), (1235, "12.4"), (1245, "12.4"), (1255, "12.6"), (5, "0.0"), (15, "0.2")] {
        let item = Tui::create_core_list_item(10, usage, 1000);
        assert!(item.text.starts_with(&format!("核心 #10: {}% [", text)), "{}", item.text);
    }
}

#[test]
fn core_colour_turns_above_fifty_and_above_eighty_percent() {
    for (usage, color) in [
        (0u32, Color::Green),
        (5000, Color::Green),
        (5001, Color::Yellow),
        (8000, Color::Yellow),
        (8001, Color::Red),
        (10000, Color::Red),
    ] {
        assert_eq!(Tui::create_core_list_item(0, usage, 1000).color, color);
    }
}

#[test]
fn cores_list_shows_one_page() {
    let list = cores_panel(&cores(8), 2, 4);
    assert_eq!(list.title, "CPU核心状态 (2-6/8)");
    assert_eq!(list.color, Color::Cyan);
    assert_eq!(
        list.items,
        vec![
            Tui::create_core_list_item(2, 200, 1002),
            Tui::create_core_list_item(3, 300, 1003),
            Tui::create_core_list_item(4, 400, 1004),
            Tui::create_core_list_item(5, 500, 1005),
        ]
    );
}

#[test]
fn last_page_of_cores_may_be_short() {
    let list = cores_panel(&cores(8), 6, 4);
    assert_eq!(list.title, "CPU核心状态 (6-8/8)");
    assert_eq!(
        list.items,
        vec![Tui::create_core_list_item(6, 600, 1006), Tui::create_core_list_item(7, 700, 1007)]
    );
}

#[test]
fn page_beyond_the_cores_is_empty() {
    let list = cores_panel(&cores(8), 9, 4);
    assert_eq!(list.title, "CPU核心状态 (9-8/8)");
    assert!(list.items.is_empty());
    let none = cores_panel(&cores(0), 0, 4);
    assert_eq!(none.title, "CPU核心状态 (0-0/0)");
    assert!(none.items.is_empty());
    let far = cores_panel(&cores(3), usize::MAX, usize::MAX);
    assert!(far.items.is_empty());
}

#[test]
fn cores_without_a_frequency_are_not_listed() {
    let mut stats = cores(4);
    stats.frequency.truncate(2);
    let list = cores_panel(&stats, 0, 10);
    assert_eq!(list.title, "CPU核心状态 (0-4/4)");
    assert_eq!(list.items.len(), 2);
}

#[test]
fn cpu_gauge_shows_whole_percents_up_to_the_full_hundred() {
    for (total_usage, percent) in [(0u32, 0u16), (99, 0), (100, 1), (4567, 45), (10000, 100), (10099, 100), (u32::MAX, 100)] {
        let mut stats = cores(1);
        stats.total_usage = total_usage;
        assert_eq!(
            cpu_usage_panel(&stats),
            Gauge {
                title: "总体CPU使用率".to_string(),
                label: None,
                percent,
                color: Color::Cyan,
            }
        );
    }
}

#[test]
fn memory_gauge_of_a_half_full_memory() {
    assert_eq!(
        memory_panel(&memory(8 * GIB, 16 * GIB, 7 * GIB, 0, 0)),
        Gauge {
            title: "内存使用情况".to_string(),
            label: Some("已用: 8.00 GB / 总计: 16.00 GB (50.0%) [可用: 7.00 GB]".to_string()),
            percent: 50,
            color: Color::Green,
        }
    );
}

#[test]
fn memory_colour_turns_above_seventy_and_above_ninety_percent() {
    for (used, color) in [
        (70u64, Color::Green),
        (71, Color::Yellow),
        (90, Color::Yellow),
        (91, Color::Red),
        (100, Color::Red),
    ] {
        let gauge = memory_panel(&memory(used, 100, 0, 0, 0));
        assert_eq!(gauge.color, color);
        assert_eq!(gauge.percent, used as u16);
    }
}

#[test]
fn memory_without_a_total_is_empty() {
    let gauge = memory_panel(&memory(5, 0, 0, 0, 0));
    assert_eq!(gauge.percent, 0);
    assert_eq!(gauge.color, Color::Green);
    assert_eq!(gauge.label, Some("已用: 5 B / 总计: 0 B (0.0%) [可用: 0 B]".to_string()));
}

#[test]
fn memory_used_beyond_its_total_fills_the_gauge() {
    let gauge = memory_panel(&memory(250, 100, 0, 0, 0));
    assert_eq!(gauge.percent, 100);
    assert_eq!(gauge.color, Color::Red);
    assert_eq!(gauge.label, Some("已用: 250 B / 总计: 100 B (250.0%) [可用: 0 B]".to_string()));
    let far = memory_panel(&memory(u64::MAX, 1, 0, 0, 0));
    assert_eq!(far.percent, 100);
    assert!(far.label.unwrap().contains("(65535.0%)"));
}

#[test]
fn swap_gauge_and_its_colours() {
    assert_eq!(
        swap_panel(&memory(0, 0, 0, 30, 100)),
        Gauge {
            title: "交换分区".to_string(),
            label: Some("已用: 30.0%".to_string()),
            percent: 30,
            color: Color::Yellow,
        }
    );
    for (used, color) in [
        (0u64, Color::Green),
        (25, Color::Green),
        (26, Color::Yellow),
        (50, Color::Yellow),
        (51, Color::Red),
    ] {
        assert_eq!(swap_panel(&memory(0, 0, 0, used, 100)).color, color);
    }
    // A host without swap.
    let none = swap_panel(&memory(0, 0, 0, 0, 0));
    assert_eq!(none.percent, 0);
    assert_eq!(none.label, Some("已用: 0.0%".to_string()));
}

#[test]
fn disk_gauge_shows_usage_to_a_tenth() {
    assert_eq!(
        disk_panel(&disk("sda", "SSD", false, 1000, 915)),
        Gauge {
            title: "sda (SSD)".to_string(),
            label: Some("已用: 915 B / 总计: 1000 B (91.5%)".to_string()),
            percent: 91,
            color: Color::Red,
        }
    );
}

#[test]
fn removable_disk_says_so_in_its_title() {
    let gauge = disk_panel(&disk("usb", "Unknown(-1)", true, 64 * GIB, 16 * GIB));
    assert_eq!(gauge.title, "usb (Unknown(-1) [可移动])");
    assert_eq!(gauge.label, Some("已用: 16.00 GB / 总计: 64.00 GB (25.0%)".to_string()));
    assert_eq!(gauge.percent, 25);
    assert_eq!(gauge.color, Color::Green);
}

#[test]
fn disk_colour_turns_above_seventy_and_above_ninety_percent() {
    for (used, color) in [
        (7000u64, Color::Green),
        (7001, Color::Yellow),
        (9000, Color::Yellow),
        (9001, Color::Red),
    ] {
        assert_eq!(disk_panel(&disk("d", "HDD", false, 10_000, used)).color, color);
    }
}

#[test]
fn disk_without_space_is_empty() {
    let gauge = disk_panel(&disk("d", "HDD", false, 0, 0));
    assert_eq!(gauge.percent, 0);
    assert_eq!(gauge.label, Some("已用: 0 B / 总计: 0 B (0.0%)".to_string()));
}

#[test]
fn gpu_gauges() {
    let stats = GpuStats {
        name: "Example GPU".to_string(),
        utilization: 37,
        memory_used: 2 * GIB,
        memory_total: 8 * GIB,
        temperature: 65,
    };
    assert_eq!(
        gpu_usage_panel(&stats),
        Gauge {
            title: "GPU使用率".to_string(),
            label: Some("37% (65°C)".to_string()),
            percent: 37,
            color: Color::Green,
        }
    );
    assert_eq!(
        gpu_memory_panel(&stats),
        Gauge {
            title: "显存使用率".to_string(),
            label: Some("已用: 2.00 GB / 总计: 8.00 GB (25.0%)".to_string()),
            percent: 25,
            color: Color::Green,
        }
    );
}

#[test]
fn gpu_gauges_never_go_beyond_the_full_hundred() {
    let stats = GpuStats {
        name: "Odd GPU".to_string(),
        utilization: 70_000,
        memory_used: 9,
        memory_total: 0,
        temperature: 0,
    };
    let usage = gpu_usage_panel(&stats);
    assert_eq!(usage.percent, 100);
    assert_eq!(usage.label, Some("70000% (0°C)".to_string()));
    let memory = gpu_memory_panel(&stats);
    assert_eq!(memory.percent, 0);
    assert_eq!(memory.label, Some("已用: 9 B / 总计: 0 B (0.0%)".to_string()));
}

#[test]
fn network_item_shows_rates_and_totals() {
    let item = network_list_item(&NetworkStats {
        interface_name: "eth0".to_string(),
        received_bytes: 2000,
        total_received: 3000,
        transmitted_bytes: 0,
        total_transmitted: 500,
    });
    assert_eq!(
        item,
        ListItem {
            text: "eth0: ↓1.95 KB/s/s ↑0 B/s/s (总计: ↓2.93 KB ↑500 B)".to_string(),
            color: Color::Blue,
        }
    );
}

#[test]
fn network_list_has_a_line_for_each_interface() {
    let stats: Vec<NetworkStats> = ["lo", "eth0", "wlan0"]
        .iter()
        .map(|name| NetworkStats {
            interface_name: name.to_string(),
            received_bytes: 0,
            total_received: 0,
            transmitted_bytes: 0,
            total_transmitted: 0,
        })
        .collect();
    let list = network_panel(&stats);
    assert_eq!(list.title, "网络接口状态");
    assert_eq!(list.color, Color::Blue);
    assert_eq!(list.items.len(), 3);
    assert_eq!(list.items[1], network_list_item(&stats[1]));
    assert!(network_panel(&[].to_vec()).items.is_empty());
}

#[test]
fn frame_of_an_engine_without_statistics_is_empty() {
    let monitor = Monitor::new(false);
    let mut tui = Tui::new();
    let frame = tui.draw(&monitor, &MonitorArgs::default(), 10);
    assert!(frame.cpu.is_none());
    assert!(frame.gpu.is_none());
    assert!(frame.memory.is_none());
    assert!(frame.disks.is_none());
    assert!(frame.network.is_none());
    assert_eq!(tui.page_size, 10);
}

#[test]
fn frame_shows_every_category_that_has_statistics() {
    let mut monitor = Monitor::new(true);
    monitor.refresh(&full_snapshot(8));
    let mut tui = Tui::new();
    let frame = tui.draw(&monitor, &MonitorArgs::default(), 5);
    assert_eq!(tui.page_size, 4);

    let cpu = frame.cpu.unwrap();
    assert_eq!(cpu.info.title, "CPU信息");
    assert_eq!(cpu.info.text, "Example CPU\n频率: 3.6 GHz");
    assert_eq!(cpu.info.color, Color::Cyan);
    // The mean of 0, 1, .. 7 percent is 3.5 percent.
    assert_eq!(cpu.usage.percent, 3);
    assert_eq!(cpu.cores, cores_panel(&monitor.cpu_stats().unwrap(), 0, 4));
    assert_eq!(cpu.cores.title, "CPU核心状态 (0-4/8)");

    let gpu = frame.gpu.unwrap();
    assert_eq!(gpu.info.title, "GPU信息");
    assert_eq!(gpu.info.text, "Example GPU");
    assert_eq!(gpu.info.color, Color::Green);
    assert_eq!(gpu.usage.label, Some("37% (65°C)".to_string()));
    assert_eq!(gpu.memory.percent, 25);

    let memory = frame.memory.unwrap();
    assert_eq!(memory.memory.percent, 50);
    assert_eq!(memory.swap.label, Some("已用: 25.0%".to_string()));

    let disks = frame.disks.unwrap();
    assert_eq!(disks.len(), 1);
    assert_eq!(disks[0], disk_panel(&monitor.disk_stats().unwrap()[0]));
    assert_eq!(disks[0].percent, 91);

    let network = frame.network.unwrap();
    assert_eq!(network.items.len(), 1);
    assert_eq!(network.items[0].text, "eth0: ↓0 B/s/s ↑0 B/s/s (总计: ↓2.93 KB ↑500 B)");
}

#[test]
fn frame_leaves_out_what_is_not_reported() {
    let mut monitor = Monitor::new(true);
    monitor.refresh(&full_snapshot(8));
    let mut tui = Tui::new();
    let only_memory = MonitorArgs { cpu: false, memory: true, disk: false, network: false };
    let frame = tui.draw(&monitor, &only_memory, 5);
    assert!(frame.cpu.is_none());
    assert!(frame.memory.is_some());
    assert!(frame.disks.is_none());
    assert!(frame.network.is_none());
    // The graphics device has no switch.
    assert!(frame.gpu.is_some());
}

#[test]
fn frame_leaves_out_a_category_that_failed_at_this_tick() {
    let mut monitor = Monitor::new(false);
    let mut snapshot = full_snapshot(8);
    snapshot.disks = None;
    monitor.refresh(&snapshot);
    let mut tui = Tui::new();
    let frame = tui.draw(&monitor, &MonitorArgs::default(), 5);
    assert!(frame.disks.is_none());
    assert!(frame.cpu.is_some());
    assert!(frame.memory.is_some());
    assert!(frame.network.is_some());
    assert!(frame.gpu.is_none());
}

#[test]
fn drawing_takes_the_offset_back_into_the_list() {
    let mut monitor = Monitor::new(false);
    monitor.refresh(&full_snapshot(8));
    let mut tui = Tui::new();
    tui.scroll_offset = 7;
    // Six rows give a page of six cores, so the list of eight ends at offset two.
    let frame = tui.draw(&monitor, &MonitorArgs::default(), 6);
    assert_eq!(tui.page_size, 6);
    assert_eq!(tui.scroll_offset, 2);
    assert_eq!(frame.cpu.unwrap().cores.title, "CPU核心状态 (2-8/8)");
}

#[test]
fn drawing_without_the_processor_leaves_the_offset() {
    let monitor = Monitor::new(false);
    let mut tui = Tui::new();
    tui.scroll_offset = 7;
    tui.mark_dirty();
    tui.draw(&monitor, &MonitorArgs::default(), 6);
    assert_eq!(tui.scroll_offset, 7);
    assert!(tui.redraw_needed);
}
