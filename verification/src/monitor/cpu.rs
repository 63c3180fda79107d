//! The processor: usage and frequency of each core, and their mean.

use crate::error::LiteMonError;
use crate::error::LiteMonErrorView;
use crate::monitor::result_view;
use crate::monitor::SystemSnapshot;
use vstd::prelude::*;

verus! {

/// What the provider reads of one core.
#[derive(Debug, Clone, Copy, PartialEq, Eq, Structural)]
pub struct CoreReading {
    /// How busy the core is, in hundredths of a percent.
    pub usage: u32,
    /// The core's frequency in MHz.
    pub frequency: u64,
}

/// What the provider reads of the processor.
#[derive(Debug, PartialEq, Eq)]
pub struct CpuReading {
    /// The processor's brand.
    pub brand: String,
    /// The processor's frequency in MHz.
    pub frequency: u64,
    /// The cores, in the provider's order.
    pub cores: Vec<CoreReading>,
}

/// A reading of the processor as sequences.
pub struct CpuReadingView {
    pub brand: Seq<char>,
    pub frequency: u64,
    pub cores: Seq<CoreReading>,
}

impl View for CpuReading {
    type V = CpuReadingView;

    open spec fn view(&self) -> CpuReadingView {
        CpuReadingView { brand: self.brand@, frequency: self.frequency, cores: self.cores@ }
    }
}

/// The processor at one instant.
#[derive(Debug, PartialEq, Eq)]
pub struct CpuStats {
    /// The mean usage of the cores, in hundredths of a percent.
    pub total_usage: u32,
    /// The usage of each core, in hundredths of a percent.
    pub core_usage: Vec<u32>,
    /// The number of cores.
    pub core_count: usize,
    /// The frequency of each core, in MHz.
    pub frequency: Vec<u64>,
}

/// The processor at one instant, as sequences.
pub struct CpuStatsView {
    pub total_usage: u32,
    pub core_usage: Seq<u32>,
    pub core_count: usize,
    pub frequency: Seq<u64>,
}

impl View for CpuStats {
    type V = CpuStatsView;

    open spec fn view(&self) -> CpuStatsView {
        CpuStatsView {
            total_usage: self.total_usage,
            core_usage: self.core_usage@,
            core_count: self.core_count,
            frequency: self.frequency@,
        }
    }
}

/// A copy of `items`.
fn copy_of<T: Copy>(items: &Vec<T>) -> (copy: Vec<T>)
    ensures
        copy@ == items@,
{
    let mut copy: Vec<T> = Vec::new();
    let mut i: usize = 0;
    while i < items.len()
        invariant
            i <= items.len(),
            copy@ == items@.take(i as int),
        decreases items.len() - i,
    {
        copy.push(items[i]);
        assert(items@.take(i + 1) =~= items@.take(i as int).push(items@[i as int]));
        i = i + 1;
    }
    assert(items@.take(i as int) =~= items@);
    copy
}

impl Clone for CpuStats {
    fn clone(&self) -> (copy: Self)
        ensures
            copy@ == self@,
    {
        CpuStats {
            total_usage: self.total_usage,
            core_usage: copy_of(&self.core_usage),
            core_count: self.core_count,
            frequency: copy_of(&self.frequency),
        }
    }
}

/// The sum of the usages.
pub open spec fn total(usage: Seq<u32>) -> nat
    decreases usage.len(),
{
    if usage.len() == 0 {
        0
    } else {
        total(usage.drop_last()) + usage.last() as nat
    }
}

/// The mean of the usages, rounded down, and zero where there are none.
pub open spec fn mean(usage: Seq<u32>) -> nat {
    if usage.len() == 0 {
        0
    } else {
        total(usage) / usage.len()
    }
}

/// The usage of each core.
pub open spec fn usages(cores: Seq<CoreReading>) -> Seq<u32> {
    cores.map_values(|core: CoreReading| core.usage)
}

/// The frequency of each core.
pub open spec fn frequencies(cores: Seq<CoreReading>) -> Seq<u64> {
    cores.map_values(|core: CoreReading| core.frequency)
}

/// The statistics that a snapshot gives: usage and frequency core by core,
/// and the mean usage. There are none where the provider had no reading of
/// the processor.
pub open spec fn cpu_stats_of(reading: Option<CpuReadingView>) -> Result<
    CpuStatsView,
    LiteMonErrorView,
> {
    match reading {
        None => Err(LiteMonErrorView::CategoryUnavailable),
        Some(r) => Ok(
            CpuStatsView {
                total_usage: mean(usages(r.cores)) as u32,
                core_usage: usages(r.cores),
                core_count: r.cores.len() as usize,
                frequency: frequencies(r.cores),
            },
        ),
    }
}

/// A sum of usages is at most the largest usage times their number, so
/// their mean is a usage again.
pub proof fn lemma_mean_fits(usage: Seq<u32>)
    ensures
        total(usage) <= usage.len() * u32::MAX,
        mean(usage) <= u32::MAX,
    decreases usage.len(),
{
    if usage.len() > 0 {
        lemma_mean_fits(usage.drop_last());
        let t = total(usage);
        let n = usage.len();
        assert(t / n <= u32::MAX) by (nonlinear_arith)
            requires
                t <= n * u32::MAX,
                n > 0,
        ;
    }
}

/// Derives the processor's statistics and remembers the latest.
#[derive(Debug)]
pub struct CpuMonitor {
    previous_measurement: Option<CpuStats>,
}

impl CpuMonitor {
    /// The statistics that were derived last.
    pub closed spec fn previous(&self) -> Option<CpuStatsView> {
        match self.previous_measurement {
            Some(stats) => Some(stats@),
            None => None,
        }
    }

    /// A monitor that has derived nothing yet.
    pub fn new() -> (monitor: Self)
        ensures
            monitor.previous() is None,
    {
        CpuMonitor { previous_measurement: None }
    }

    /// The statistics of the processor in a snapshot. They are remembered as
    /// the latest; where the snapshot has none, what was remembered stays.
    pub fn collect_stats(&mut self, sys: &SystemSnapshot) -> (stats: Result<CpuStats, LiteMonError>)
        ensures
            result_view(stats) == cpu_stats_of(sys@.cpu),
            final(self).previous() == match stats {
                Ok(s) => Some(s@),
                Err(_) => old(self).previous(),
            },
    {
        match &sys.cpu {
            None => Err(LiteMonError::CategoryUnavailable),
            Some(reading) => {
                let core_count: usize = reading.cores.len();
                let mut core_usage: Vec<u32> = Vec::new();
                let mut frequency: Vec<u64> = Vec::new();
                let mut sum: u128 = 0;
                let mut i: usize = 0;
                while i < core_count
                    invariant
                        core_count == reading.cores.len(),
                        i <= core_count,
                        core_usage@ == usages(reading.cores@.take(i as int)),
                        frequency@ == frequencies(reading.cores@.take(i as int)),
                        sum == total(core_usage@),
                        sum <= i * u32::MAX,
                    decreases core_count - i,
                {
                    let core: CoreReading = reading.cores[i];
                    core_usage.push(core.usage);
                    frequency.push(core.frequency);
                    sum = sum + core.usage as u128;
                    proof {
                        let longer = reading.cores@.take(i + 1);
                        assert(longer =~= reading.cores@.take(i as int).push(core));
                        assert(core_usage@ =~= usages(longer));
                        assert(frequency@ =~= frequencies(longer));
                        assert(core_usage@.drop_last() =~= usages(reading.cores@.take(i as int)));
                    }
                    i = i + 1;
                }
                proof {
                    assert(reading.cores@.take(i as int) =~= reading.cores@);
                    lemma_mean_fits(core_usage@);
                }
                let total_usage: u32 = if core_count == 0 {
                    0
                } else {
                    (sum / core_count as u128) as u32
                };
                let stats = CpuStats { total_usage, core_usage, core_count, frequency };
                self.previous_measurement = Some(stats.clone());
                Ok(stats)
            },
        }
    }
}

} // verus!
