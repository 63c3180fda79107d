use litemon::monitor::memory::MemoryMonitor;
use litemon::monitor::network::NetworkMonitor;
use litemon::text::{chars_of, trim_in};

/// A small generator of numbers that look random.
struct Numbers(u64);

impl Numbers {
    fn next(&mut self) -> u64 {
        self.0 = self.0.wrapping_mul(6364136223846793005).wrapping_add(1442695040888963407);
        self.0 ^ (self.0 >> 29)
    }
}

fn bytes_by_floating_point(bytes: u64) -> String {
    const KB: f64 = 1024.0;
    const MB: f64 = KB * 1024.0;
    const GB: f64 = MB * 1024.0;
    let bytes = bytes as f64;
    if bytes >= GB {
        format!("{:.2} GB", bytes / GB)
    } else if bytes >= MB {
        format!("{:.2} MB", bytes / MB)
    } else if bytes >= KB {
        format!("{:.2} KB", bytes / KB)
    } else {
        format!("{:.0} B", bytes)
    }
}

fn speed_by_std(report: &str) -> u32 {
    for line in report.lines() {
        if line.contains("Speed:") {
            if let Some(speed) = line.split(':').nth(1) {
                if let Some(speed) = speed.trim().split(' ').next() {
                    if let Ok(speed) = speed.parse::<u32>() {
                        return speed;
                    }
                }
            }
        }
    }
    0
}

#[test]
fn sizes_agree_with_floating_point_where_it_is_exact() {
    let mut numbers = Numbers(7);
    for round in 0..20_000u32 {
        // Every size below 2^53 is held exactly in floating point.
        let bytes = numbers.next() >> (11 + round % 53);
        assert_eq!(MemoryMonitor::format_bytes(bytes), bytes_by_floating_point(bytes), "{}", bytes);
    }
}

#[test]
fn sizes_agree_with_floating_point_at_every_half() {
    for unit in [1u64 << 10, 1 << 20, 1 << 30] {
        for eighths in 8..4_000u64 {
            let bytes = unit / 8 * eighths;
            assert_eq!(
                MemoryMonitor::format_bytes(bytes),
                bytes_by_floating_point(bytes),
                "{}",
                bytes
            );
            assert_eq!(
                NetworkMonitor::format_speed(bytes),
                format!("{}/s", bytes_by_floating_point(bytes))
            );
        }
    }
}

#[test]
fn sizes_agree_with_floating_point_around_each_unit() {
    for unit in [1u64 << 10, 1 << 20, 1 << 30, 1 << 40] {
        for bytes in (unit - 70)..(unit + 70) {
            assert_eq!(
                MemoryMonitor::format_bytes(bytes),
                bytes_by_floating_point(bytes),
                "{}",
                bytes
            );
        }
    }
}

#[test]
fn speed_of_a_report_agrees_with_the_text_functions_of_std() {
    let pieces = [
        "Speed:", "Speed", ":", " ", "  ", "\t", "\n", "\r\n", "\r", "2400", "+7", "-7", "0",
        "4294967295", "4294967296", "MT/s", "Unknown", "Configured Memory ", "\u{a0}", "\u{3000}",
        "é", "x", "+", "00",
    ];
    let mut numbers = Numbers(11);
    for _ in 0..20_000 {
        let mut report = String::new();
        for _ in 0..(numbers.next() % 12) {
            report.push_str(pieces[(numbers.next() % pieces.len() as u64) as usize]);
        }
        assert_eq!(
            MemoryMonitor::parse_memory_speed(&report),
            speed_by_std(&report),
            "{:?}",
            report
        );
    }
}

#[test]
fn trimming_agrees_with_std() {
    let pieces = [" ", "\t", "\n", "\r", "\u{a0}", "\u{2003}", "\u{200b}", "a", "é", "1", ":"];
    let mut numbers = Numbers(13);
    for _ in 0..5_000 {
        let mut text = String::new();
        for _ in 0..(numbers.next() % 9) {
            text.push_str(pieces[(numbers.next() % pieces.len() as u64) as usize]);
        }
        let chars = chars_of(&text);
        let (from, to) = trim_in(&chars, 0, chars.len());
        let trimmed: String = chars[from..to].iter().collect();
        assert_eq!(trimmed, text.trim(), "{:?}", text);
    }
}
