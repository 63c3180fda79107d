//! Memory and swap: the counters, the module speed, and sizes in words.

use crate::error::LiteMonError;
use crate::error::LiteMonErrorView;
use crate::monitor::result_view;
use crate::monitor::SystemSnapshot;
use crate::text::chars_of;
use crate::text::contains_in;
use crate::text::contains_text;
use crate::text::decimal;
use crate::text::div_round_half_even;
use crate::text::find_char;
use crate::text::find_char_in;
use crate::text::holds_at;
use crate::text::lemma_find_char;
use crate::text::parse_u32;
use crate::text::parse_u32_in;
use crate::text::push_decimal;
use crate::text::push_two_decimals;
use crate::text::rounded_div;
use crate::text::trim;
use crate::text::trim_in;
use crate::text::two_decimals;
use vstd::prelude::*;
use vstd::string::*;

verus! {

/// Bytes in a kilobyte.
pub const KB: u64 = 1024;

/// Bytes in a megabyte.
pub const MB: u64 = 1_048_576;

/// Bytes in a gigabyte.
pub const GB: u64 = 1_073_741_824;

/// Memory and swap at one instant, in bytes, and the speed of the memory
/// modules in MHz (zero where it is not known).
#[derive(Debug, Clone, Copy, PartialEq, Eq, Structural)]
pub struct MemoryStats {
    pub total: u64,
    pub used: u64,
    pub free: u64,
    pub available: u64,
    pub swap_total: u64,
    pub swap_used: u64,
    pub swap_free: u64,
    pub frequency: u32,
}

impl View for MemoryStats {
    type V = MemoryStats;

    open spec fn view(&self) -> MemoryStats {
        *self
    }
}

/// Where the speed of the memory modules comes from.
#[derive(Debug, PartialEq, Eq)]
pub enum FrequencySource {
    /// The host has no way to tell.
    Unsupported,
    /// The host answered with the speed in MHz.
    Measured(u32),
    /// The host answered with a hardware report, in which the speed is to be
    /// found.
    Report(String),
    /// The query to the host failed.
    QueryFailed,
    /// The tool that writes the hardware report could not be run.
    CommandFailed,
}

/// A source of the speed with its report as a sequence of characters.
pub enum FrequencySourceView {
    Unsupported,
    Measured(u32),
    Report(Seq<char>),
    QueryFailed,
    CommandFailed,
}

impl View for FrequencySource {
    type V = FrequencySourceView;

    open spec fn view(&self) -> FrequencySourceView {
        match self {
            FrequencySource::Unsupported => FrequencySourceView::Unsupported,
            FrequencySource::Measured(speed) => FrequencySourceView::Measured(*speed),
            FrequencySource::Report(report) => FrequencySourceView::Report(report@),
            FrequencySource::QueryFailed => FrequencySourceView::QueryFailed,
            FrequencySource::CommandFailed => FrequencySourceView::CommandFailed,
        }
    }
}

/// What the provider reads of memory and swap, in bytes.
#[derive(Debug, PartialEq, Eq)]
pub struct MemoryReading {
    pub total: u64,
    pub used: u64,
    pub free: u64,
    pub available: u64,
    pub swap_total: u64,
    pub swap_used: u64,
    pub swap_free: u64,
    pub frequency: FrequencySource,
}

/// A memory reading with its report as a sequence of characters.
pub struct MemoryReadingView {
    pub total: u64,
    pub used: u64,
    pub free: u64,
    pub available: u64,
    pub swap_total: u64,
    pub swap_used: u64,
    pub swap_free: u64,
    pub frequency: FrequencySourceView,
}

impl View for MemoryReading {
    type V = MemoryReadingView;

    open spec fn view(&self) -> MemoryReadingView {
        MemoryReadingView {
            total: self.total,
            used: self.used,
            free: self.free,
            available: self.available,
            swap_total: self.swap_total,
            swap_used: self.swap_used,
            swap_free: self.swap_free,
            frequency: self.frequency@,
        }
    }
}

/// The speed that one line of a hardware report states. A line states a
/// speed if it holds `Speed:` and if what stands between its first colon
/// and its second (or its end), without the white space around it and up to
/// the first blank, spells a number.
pub open spec fn line_speed(line: Seq<char>) -> Option<u32> {
    if contains_text(line, "Speed:"@) {
        let after = line.skip(find_char(line, ':') + 1);
        let field = trim(after.take(find_char(after, ':')));
        parse_u32(field.take(find_char(field, ' ')))
    } else {
        None
    }
}

/// The speed that a hardware report states: that of its first line that
/// states one, and zero where none does.
pub open spec fn report_speed(report: Seq<char>) -> u32
    decreases report.len(),
    via report_speed_decreases
{
    if report.len() == 0 {
        0
    } else {
        let n = find_char(report, '\n');
        match line_speed(report.take(n)) {
            Some(speed) => speed,
            None => if n < report.len() {
                report_speed(report.skip(n + 1))
            } else {
                0
            },
        }
    }
}

#[via_fn]
proof fn report_speed_decreases(report: Seq<char>) {
    lemma_find_char(report, '\n');
}

/// The speed that a source gives, or the failure that it stands for.
pub open spec fn frequency_of(source: FrequencySourceView) -> Result<u32, LiteMonErrorView> {
    match source {
        FrequencySourceView::Unsupported => Ok(0),
        FrequencySourceView::Measured(speed) => Ok(speed),
        FrequencySourceView::Report(report) => Ok(report_speed(report)),
        FrequencySourceView::QueryFailed => Err(
            LiteMonErrorView::Io("Failed to query memory speed"@),
        ),
        FrequencySourceView::CommandFailed => Err(
            LiteMonErrorView::Io("Failed to execute dmidecode"@),
        ),
    }
}

/// The statistics that a snapshot gives: the counters as they were read,
/// with the speed of the modules. There are none where the provider had no
/// memory reading, or where the speed could not be asked for.
pub open spec fn memory_stats_of(reading: Option<MemoryReadingView>) -> Result<
    MemoryStats,
    LiteMonErrorView,
> {
    match reading {
        None => Err(LiteMonErrorView::CategoryUnavailable),
        Some(r) => match frequency_of(r.frequency) {
            Err(e) => Err(e),
            Ok(frequency) => Ok(
                MemoryStats {
                    total: r.total,
                    used: r.used,
                    free: r.free,
                    available: r.available,
                    swap_total: r.swap_total,
                    swap_used: r.swap_used,
                    swap_free: r.swap_free,
                    frequency,
                },
            ),
        },
    }
}

/// `value` counted in `unit`s, to the nearest hundredth, with two decimal
/// places.
pub open spec fn scaled(value: u64, unit: u64) -> Seq<char> {
    two_decimals(div_round_half_even(value as nat * 100, unit as nat))
}

/// A number of bytes in the largest of the units B, KB, MB and GB (each 1024
/// of the one before) of which it holds at least one: whole bytes as they
/// are, the others with two decimal places.
pub open spec fn bytes_text(bytes: u64) -> Seq<char> {
    if bytes >= GB {
        scaled(bytes, GB) + " GB"@
    } else if bytes >= MB {
        scaled(bytes, MB) + " MB"@
    } else if bytes >= KB {
        scaled(bytes, KB) + " KB"@
    } else {
        decimal(bytes as nat) + " B"@
    }
}

/// Appends `value` counted in `unit`s to `out`.
fn push_scaled(out: &mut String, value: u64, unit: u64)
    requires
        unit > 0,
    ensures
        final(out)@ == old(out)@ + scaled(value, unit),
{
    let hundredths: u128 = rounded_div((value as u128) * 100, unit as u128);
    push_two_decimals(out, hundredths);
}

/// The speed that the line `chars[lo..hi]` states.
fn line_speed_in(chars: &Vec<char>, lo: usize, hi: usize, label: &Vec<char>) -> (speed: Option<
    u32,
>)
    requires
        lo <= hi <= chars.len(),
        label@ == "Speed:"@,
    ensures
        speed == line_speed(chars@.subrange(lo as int, hi as int)),
{
    let ghost line = chars@.subrange(lo as int, hi as int);
    if !contains_in(chars, lo, hi, label) {
        return None;
    }
    let colon: usize = find_char_in(chars, lo, hi, ':');
    proof {
        reveal_strlit("Speed:");
        let at = choose|i: int| holds_at(line, "Speed:"@, i);
        assert(line.subrange(at, at + 6)[5] == ':');
        lemma_find_char(line, ':');
    }
    let second: usize = find_char_in(chars, colon + 1, hi, ':');
    let (a, b) = trim_in(chars, colon + 1, second);
    let blank: usize = find_char_in(chars, a, b, ' ');
    proof {
        let after = line.skip(find_char(line, ':') + 1);
        assert(after =~= chars@.subrange(colon + 1, hi as int));
        assert(after.take(find_char(after, ':')) =~= chars@.subrange(colon + 1, second as int));
        let field = trim(after.take(find_char(after, ':')));
        assert(field == chars@.subrange(a as int, b as int));
        assert(field.take(find_char(field, ' ')) =~= chars@.subrange(a as int, blank as int));
    }
    parse_u32_in(chars, a, blank)
}

/// Reads memory and swap from a snapshot.
#[derive(Debug, Clone, Copy)]
pub struct MemoryMonitor {}

impl MemoryMonitor {
    /// A monitor for memory and swap.
    pub fn new() -> (monitor: Self) {
        MemoryMonitor {  }
    }

    /// The speed of the memory modules that a hardware report states, in
    /// MHz; zero where it states none.
    pub fn parse_memory_speed(report: &str) -> (speed: u32)
        ensures
            speed == report_speed(report@),
    {
        let chars: Vec<char> = chars_of(report);
        let label: Vec<char> = chars_of("Speed:");
        let n: usize = chars.len();
        let mut start: usize = 0;
        assert(chars@.skip(0) =~= chars@);
        while start < n
            invariant
                start <= n,
                n == chars.len(),
                label@ == "Speed:"@,
                chars@ == report@,
                report_speed(chars@.skip(start as int)) == report_speed(report@),
            decreases n - start,
        {
            let end: usize = find_char_in(&chars, start, n, '\n');
            proof {
                let rest = chars@.skip(start as int);
                assert(rest =~= chars@.subrange(start as int, n as int));
                assert(rest.take(end - start) =~= chars@.subrange(start as int, end as int));
                if end < n {
                    assert(rest.skip(end - start + 1) =~= chars@.skip(end + 1));
                }
            }
            match line_speed_in(&chars, start, end, &label) {
                Some(speed) => {
                    return speed;
                },
                None => {},
            }
            if end == n {
                return 0;
            }
            start = end + 1;
        }
        0
    }

    /// The speed of the memory modules in MHz, from wherever the host can
    /// tell it.
    pub fn get_memory_frequency(&self, source: &FrequencySource) -> (frequency: Result<
        u32,
        LiteMonError,
    >)
        ensures
            frequency_of(source@) == match frequency {
                Ok(speed) => Ok::<u32, LiteMonErrorView>(speed),
                Err(e) => Err(e@),
            },
    {
        match source {
            FrequencySource::Unsupported => Ok(0),
            FrequencySource::Measured(speed) => Ok(*speed),
            FrequencySource::Report(report) => Ok(Self::parse_memory_speed(report.as_str())),
            FrequencySource::QueryFailed => Err(
                LiteMonError::Io(String::from_str("Failed to query memory speed")),
            ),
            FrequencySource::CommandFailed => Err(
                LiteMonError::Io(String::from_str("Failed to execute dmidecode")),
            ),
        }
    }

    /// The memory statistics of a snapshot.
    pub fn collect_stats(&self, sys: &SystemSnapshot) -> (stats: Result<MemoryStats, LiteMonError>)
        ensures
            result_view(stats) == memory_stats_of(sys@.memory),
    {
        match &sys.memory {
            None => Err(LiteMonError::CategoryUnavailable),
            Some(reading) => {
                match self.get_memory_frequency(&reading.frequency) {
                    Err(e) => Err(e),
                    Ok(frequency) => Ok(
                        MemoryStats {
                            total: reading.total,
                            used: reading.used,
                            free: reading.free,
                            available: reading.available,
                            swap_total: reading.swap_total,
                            swap_used: reading.swap_used,
                            swap_free: reading.swap_free,
                            frequency,
                        },
                    ),
                }
            },
        }
    }

    /// A number of bytes in words: `1536` reads `1.50 KB`.
    pub fn format_bytes(bytes: u64) -> (text: String)
        ensures
            text@ == bytes_text(bytes),
    {
        let mut text: String = String::new();
        if bytes >= GB {
            push_scaled(&mut text, bytes, GB);
            text.append(" GB");
        } else if bytes >= MB {
            push_scaled(&mut text, bytes, MB);
            text.append(" MB");
        } else if bytes >= KB {
            push_scaled(&mut text, bytes, KB);
            text.append(" KB");
        } else {
            push_decimal(&mut text, bytes as u128);
            text.append(" B");
        }
        assert(text@ =~= bytes_text(bytes));
        text
    }
}

} // verus!
