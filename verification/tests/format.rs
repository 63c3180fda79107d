use litemon::monitor::memory::MemoryMonitor;
use litemon::monitor::network::NetworkMonitor;

#[test]
fn zero_bytes_are_whole_bytes() {
    assert_eq!(MemoryMonitor::format_bytes(0), "0 B");
}

#[test]
fn one_and_a_half_kilobytes() {
    assert_eq!(MemoryMonitor::format_bytes(1536), "1.50 KB");
}

#[test]
fn one_gigabyte() {
    assert_eq!(MemoryMonitor::format_bytes(1_073_741_824), "1.00 GB");
}

#[test]
fn bytes_below_a_kilobyte_have_no_decimals() {
    assert_eq!(MemoryMonitor::format_bytes(1), "1 B");
    assert_eq!(MemoryMonitor::format_bytes(1023), "1023 B");
}

#[test]
fn each_unit_starts_at_its_first_whole() {
    assert_eq!(MemoryMonitor::format_bytes(1024), "1.00 KB");
    assert_eq!(MemoryMonitor::format_bytes(1_048_576), "1.00 MB");
    assert_eq!(MemoryMonitor::format_bytes(1_048_575), "1024.00 KB");
    assert_eq!(MemoryMonitor::format_bytes(1_073_741_823), "1024.00 MB");
}

#[test]
fn no_unit_beyond_gigabytes() {
    assert_eq!(MemoryMonitor::format_bytes(1_099_511_627_776), "1024.00 GB");
    assert_eq!(MemoryMonitor::format_bytes(u64::MAX), "17179869184.00 GB");
}

#[test]
fn halves_round_to_the_even_hundredth() {
    // 1.125 KB and 1.375 KB lie exactly between two hundredths.
    assert_eq!(MemoryMonitor::format_bytes(1152), "1.12 KB");
    assert_eq!(MemoryMonitor::format_bytes(1408), "1.38 KB");
    // Just above and just below a half.
    assert_eq!(MemoryMonitor::format_bytes(1153), "1.13 KB");
    assert_eq!(MemoryMonitor::format_bytes(1029), "1.00 KB");
    assert_eq!(MemoryMonitor::format_bytes(1030), "1.01 KB");
}

#[test]
fn rates_read_as_sizes_per_second() {
    assert_eq!(NetworkMonitor::format_speed(0), "0 B/s");
    assert_eq!(NetworkMonitor::format_speed(2000), "1.95 KB/s");
    assert_eq!(NetworkMonitor::format_speed(1536), "1.50 KB/s");
    assert_eq!(NetworkMonitor::format_speed(5 * 1_048_576), "5.00 MB/s");
    assert_eq!(NetworkMonitor::format_speed(3 * 1_073_741_824), "3.00 GB/s");
}
