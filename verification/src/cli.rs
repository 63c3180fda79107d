//! The options a run is started with.

use vstd::prelude::*;

verus! {

/// The tick interval that is used where none is given, in seconds.
pub const DEFAULT_INTERVAL: u64 = 1;

/// Which categories are reported.
#[derive(Debug, Clone, Copy)]
pub struct MonitorArgs {
    /// Report the processor.
    pub cpu: bool,
    /// Report memory and swap.
    pub memory: bool,
    /// Report the disks.
    pub disk: bool,
    /// Report the network interfaces.
    pub network: bool,
}

/// The options of a run.
#[derive(Debug, Clone, Copy)]
pub struct Cli {
    /// The time between two refreshes, in seconds.
    pub interval: u64,
    /// The categories to report.
    pub monitors: MonitorArgs,
}

impl Default for MonitorArgs {
    /// Every category is reported.
    fn default() -> (args: Self)
        ensures
            args.cpu,
            args.memory,
            args.disk,
            args.network,
    {
        MonitorArgs { cpu: true, memory: true, disk: true, network: true }
    }
}

impl Default for Cli {
    /// One refresh each second, every category reported.
    fn default() -> (cli: Self)
        ensures
            cli.interval == DEFAULT_INTERVAL,
            cli.monitors.cpu,
            cli.monitors.memory,
            cli.monitors.disk,
            cli.monitors.network,
    {
        Cli { interval: DEFAULT_INTERVAL, monitors: MonitorArgs::default() }
    }
}

/// `seconds` in milliseconds, or the largest value that fits where the
/// product does not.
pub open spec fn millis_of(seconds: u64) -> u64 {
    if seconds <= u64::MAX / 1000 {
        (seconds * 1000) as u64
    } else {
        u64::MAX
    }
}

impl Cli {
    /// The time between two refreshes, in milliseconds.
    pub fn interval_millis(&self) -> (millis: u64)
        ensures
            millis == millis_of(self.interval),
    {
        if self.interval <= u64::MAX / 1000 {
            self.interval * 1000
        } else {
            u64::MAX
        }
    }
}

} // verus!
