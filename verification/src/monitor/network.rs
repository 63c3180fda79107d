//! The network interfaces: lifetime counters and the rates between two
//! snapshots.

use crate::error::LiteMonError;
use crate::error::LiteMonErrorView;
use crate::monitor::memory::bytes_text;
use crate::monitor::memory::MemoryMonitor;
use crate::monitor::result_views;
use crate::monitor::views;
use crate::monitor::SystemSnapshot;
use crate::monitor::SystemSnapshotView;
use crate::table::NameTable;
use vstd::prelude::*;
use vstd::string::*;

verus! {

/// What the provider reads of one interface: its name and the bytes it has
/// received and sent since it came up.
#[derive(Debug, PartialEq, Eq)]
pub struct NetworkReading {
    pub interface_name: String,
    pub total_received: u64,
    pub total_transmitted: u64,
}

/// A reading of an interface with its name as a sequence of characters.
pub struct NetworkReadingView {
    pub interface_name: Seq<char>,
    pub total_received: u64,
    pub total_transmitted: u64,
}

impl View for NetworkReading {
    type V = NetworkReadingView;

    open spec fn view(&self) -> NetworkReadingView {
        NetworkReadingView {
            interface_name: self.interface_name@,
            total_received: self.total_received,
            total_transmitted: self.total_transmitted,
        }
    }
}

/// One interface at one instant: its lifetime counters, and the rates at
/// which they grew since the snapshot before.
#[derive(Debug, PartialEq, Eq)]
pub struct NetworkStats {
    pub interface_name: String,
    /// Bytes received per second.
    pub received_bytes: u64,
    /// Bytes received since the interface came up.
    pub total_received: u64,
    /// Bytes sent per second.
    pub transmitted_bytes: u64,
    /// Bytes sent since the interface came up.
    pub total_transmitted: u64,
}

/// An interface at one instant with its name as a sequence of characters.
pub struct NetworkStatsView {
    pub interface_name: Seq<char>,
    pub received_bytes: u64,
    pub total_received: u64,
    pub transmitted_bytes: u64,
    pub total_transmitted: u64,
}

impl View for NetworkStats {
    type V = NetworkStatsView;

    open spec fn view(&self) -> NetworkStatsView {
        NetworkStatsView {
            interface_name: self.interface_name@,
            received_bytes: self.received_bytes,
            total_received: self.total_received,
            transmitted_bytes: self.transmitted_bytes,
            total_transmitted: self.total_transmitted,
        }
    }
}

impl Clone for NetworkStats {
    fn clone(&self) -> (copy: Self)
        ensures
            copy@ == self@,
    {
        NetworkStats {
            interface_name: self.interface_name.clone(),
            received_bytes: self.received_bytes,
            total_received: self.total_received,
            transmitted_bytes: self.transmitted_bytes,
            total_transmitted: self.total_transmitted,
        }
    }
}

/// The lifetime counters of an interface as a snapshot showed them.
#[derive(Debug, Clone, Copy, PartialEq, Eq, Structural)]
pub struct Baseline {
    pub received: u64,
    pub transmitted: u64,
}

/// The milliseconds from `last` to `now`: none where there was no `last`,
/// or where `now` is not after it.
pub open spec fn elapsed_since(last: Option<u64>, now: u64) -> u64 {
    match last {
        Some(then) => if now >= then {
            (now - then) as u64
        } else {
            0
        },
        None => 0,
    }
}

/// The rate in bytes per second at which a counter grew from `previous` to
/// `current` within `interval` milliseconds, rounded down. It is zero where
/// the counter fell or no time has passed, and the largest number where the
/// rate is beyond it.
pub open spec fn speed(current: u64, previous: u64, interval: u64) -> u64 {
    if interval == 0 || current < previous {
        0
    } else if (current - previous) * 1000 / (interval as int) <= u64::MAX {
        ((current - previous) * 1000 / (interval as int)) as u64
    } else {
        u64::MAX
    }
}

/// Over whole seconds the rate is the growth of the counter divided by the
/// seconds.
pub proof fn lemma_speed_over_seconds(current: u64, previous: u64, seconds: u64)
    requires
        current >= previous,
        0 < seconds <= u64::MAX / 1000,
    ensures
        speed(current, previous, (seconds * 1000) as u64) == (current - previous) / (
        seconds as int),
{
    let growth = current - previous;
    let s = seconds as int;
    assert(growth * 1000 / (s * 1000) == growth / s) by (nonlinear_arith)
        requires
            growth >= 0,
            s > 0,
    ;
    assert(growth / s <= growth) by (nonlinear_arith)
        requires
            growth >= 0,
            s > 0,
    ;
}

/// A rate in words: `1536` reads `1.50 KB/s`.
pub open spec fn speed_text(bytes_per_sec: u64) -> Seq<char> {
    bytes_text(bytes_per_sec) + "/s"@
}

/// The statistics of one interface: its counters as they were read, and
/// the rates since its baseline. An interface without a baseline has the
/// rates zero.
pub open spec fn network_stats_of(
    previous: Map<Seq<char>, Baseline>,
    reading: NetworkReadingView,
    interval: u64,
) -> NetworkStatsView {
    let name = reading.interface_name;
    NetworkStatsView {
        interface_name: name,
        received_bytes: if previous.contains_key(name) {
            speed(reading.total_received, previous[name].received, interval)
        } else {
            0
        },
        total_received: reading.total_received,
        transmitted_bytes: if previous.contains_key(name) {
            speed(reading.total_transmitted, previous[name].transmitted, interval)
        } else {
            0
        },
        total_transmitted: reading.total_transmitted,
    }
}

/// The baselines once the counters of `readings` have been taken in, in
/// their order: each interface read has its new counters, the others keep
/// what they had.
pub open spec fn absorbed(
    previous: Map<Seq<char>, Baseline>,
    readings: Seq<NetworkReadingView>,
) -> Map<Seq<char>, Baseline>
    decreases readings.len(),
{
    if readings.len() == 0 {
        previous
    } else {
        absorbed(previous, readings.drop_last()).insert(
            readings.last().interface_name,
            Baseline {
                received: readings.last().total_received,
                transmitted: readings.last().total_transmitted,
            },
        )
    }
}

/// What the network monitor remembers: the counters of each interface it
/// has seen, and when it saw the interfaces last.
pub struct NetworkMonitorView {
    pub previous: Map<Seq<char>, Baseline>,
    pub last_update: Option<u64>,
}

impl NetworkMonitorView {
    /// The statistics that a snapshot gives: those of each interface in the
    /// provider's order, with rates over the time since the last update.
    /// There are none where the provider had no reading of the interfaces.
    pub open spec fn stats(self, sys: SystemSnapshotView) -> Result<
        Seq<NetworkStatsView>,
        LiteMonErrorView,
    > {
        match sys.networks {
            None => Err(LiteMonErrorView::CategoryUnavailable),
            Some(readings) => Ok(
                readings.map_values(
                    |reading: NetworkReadingView|
                        network_stats_of(
                            self.previous,
                            reading,
                            elapsed_since(self.last_update, sys.taken_at),
                        ),
                ),
            ),
        }
    }

    /// What is remembered after a snapshot: the counters it showed are the
    /// new baselines and its instant is the last update. A snapshot without
    /// a reading of the interfaces changes nothing.
    pub open spec fn after(self, sys: SystemSnapshotView) -> NetworkMonitorView {
        match sys.networks {
            None => self,
            Some(readings) => NetworkMonitorView {
                previous: absorbed(self.previous, readings),
                last_update: Some(sys.taken_at),
            },
        }
    }
}

/// Derives the statistics of the interfaces from one snapshot to the next.
pub struct NetworkMonitor {
    previous_stats: NameTable<Baseline>,
    last_update: Option<u64>,
}

impl View for NetworkMonitor {
    type V = NetworkMonitorView;

    closed spec fn view(&self) -> NetworkMonitorView {
        NetworkMonitorView { previous: self.previous_stats@, last_update: self.last_update }
    }
}

impl NetworkMonitor {
    /// A monitor that has seen no interface yet.
    pub fn new() -> (monitor: Self)
        ensures
            monitor@.previous == Map::<Seq<char>, Baseline>::empty(),
            monitor@.last_update is None,
    {
        NetworkMonitor { previous_stats: NameTable::new(), last_update: None }
    }

    /// The statistics of the interfaces in a snapshot, with rates since the
    /// snapshot before. The counters of the snapshot become the baselines of
    /// the next.
    pub fn collect_stats(&mut self, sys: &SystemSnapshot) -> (stats: Result<
        Vec<NetworkStats>,
        LiteMonError,
    >)
        ensures
            result_views(stats) == old(self)@.stats(sys@),
            final(self)@ == old(self)@.after(sys@),
    {
        match &sys.networks {
            None => Err(LiteMonError::CategoryUnavailable),
            Some(readings) => {
                let interval: u64 = match self.last_update {
                    Some(then) => if sys.taken_at >= then {
                        sys.taken_at - then
                    } else {
                        0
                    },
                    None => 0,
                };
                let mut stats: Vec<NetworkStats> = Vec::new();
                let mut i: usize = 0;
                while i < readings.len()
                    invariant
                        i <= readings.len(),
                        *self == *old(self),
                        stats@.len() == i,
                        forall|j: int|
                            0 <= j < i ==> (#[trigger] stats@[j])@ == network_stats_of(
                                self@.previous,
                                readings@[j]@,
                                interval,
                            ),
                    decreases readings.len() - i,
                {
                    let reading: &NetworkReading = &readings[i];
                    let (received_bytes, transmitted_bytes) = match self.previous_stats.get(
                        &reading.interface_name,
                    ) {
                        Some(baseline) => (
                            Self::calculate_speed(
                                reading.total_received,
                                baseline.received,
                                interval,
                            ),
                            Self::calculate_speed(
                                reading.total_transmitted,
                                baseline.transmitted,
                                interval,
                            ),
                        ),
                        None => (0, 0),
                    };
                    stats.push(
                        NetworkStats {
                            interface_name: reading.interface_name.clone(),
                            received_bytes,
                            total_received: reading.total_received,
                            transmitted_bytes,
                            total_transmitted: reading.total_transmitted,
                        },
                    );
                    i = i + 1;
                }
                assert(views(stats@) =~= views(readings@).map_values(
                    |reading: NetworkReadingView|
                        network_stats_of(old(self)@.previous, reading, interval),
                ));
                let mut k: usize = 0;
                while k < readings.len()
                    invariant
                        k <= readings.len(),
                        self.last_update == old(self).last_update,
                        self@.previous == absorbed(
                            old(self)@.previous,
                            views(readings@).take(k as int),
                        ),
                    decreases readings.len() - k,
                {
                    let reading: &NetworkReading = &readings[k];
                    self.previous_stats.insert(
                        &reading.interface_name,
                        Baseline {
                            received: reading.total_received,
                            transmitted: reading.total_transmitted,
                        },
                    );
                    proof {
                        let longer = views(readings@).take(k + 1);
                        assert(longer.drop_last() =~= views(readings@).take(k as int));
                        assert(longer.last() == reading@);
                    }
                    k = k + 1;
                }
                assert(views(readings@).take(k as int) =~= views(readings@));
                self.last_update = Some(sys.taken_at);
                Ok(stats)
            },
        }
    }

    /// The rate in bytes per second at which a counter grew from `previous`
    /// to `current` within `interval` milliseconds.
    pub fn calculate_speed(current: u64, previous: u64, interval: u64) -> (rate: u64)
        ensures
            rate == speed(current, previous, interval),
            current >= previous && interval > 0 && (current - previous) * 1000 / (interval as int)
                <= u64::MAX ==> rate == (current - previous) * 1000 / (interval as int),
            current < previous ==> rate == 0,
    {
        if interval == 0 || current < previous {
            0
        } else {
            let growth: u128 = (current - previous) as u128;
            let rate: u128 = growth * 1000 / (interval as u128);
            if rate <= u64::MAX as u128 {
                rate as u64
            } else {
                u64::MAX
            }
        }
    }

    /// A rate in words: `1536` reads `1.50 KB/s`.
    pub fn format_speed(bytes_per_sec: u64) -> (text: String)
        ensures
            text@ == speed_text(bytes_per_sec),
    {
        let mut text: String = MemoryMonitor::format_bytes(bytes_per_sec);
        text.append("/s");
        text
    }
}

} // verus!
