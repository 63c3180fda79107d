//! The metrics engine: it takes the provider's snapshots and keeps the
//! statistics derived from the latest one.

pub mod cpu;
pub mod disk;
pub mod gpu;
pub mod memory;
pub mod network;

use self::cpu::cpu_stats_of;
use self::cpu::CpuMonitor;
use self::cpu::CpuReading;
use self::cpu::CpuReadingView;
use self::cpu::CpuStats;
use self::cpu::CpuStatsView;
use self::disk::disks_of;
use self::disk::DiskMonitor;
use self::disk::DiskReading;
use self::disk::DiskReadingView;
use self::disk::DiskStats;
use self::disk::DiskStatsView;
use self::gpu::GpuStats;
use self::gpu::GpuStatsView;
use self::memory::memory_stats_of;
use self::memory::MemoryMonitor;
use self::memory::MemoryReading;
use self::memory::MemoryReadingView;
use self::memory::MemoryStats;
use self::network::elapsed_since;
use self::network::NetworkMonitor;
use self::network::NetworkMonitorView;
use self::network::NetworkReading;
use self::network::NetworkReadingView;
use self::network::NetworkStats;
use self::network::NetworkStatsView;
use crate::error::LiteMonError;
use crate::error::LiteMonErrorView;
use crate::history::lemma_push_keeps_bounded;
use crate::history::HistoryBuffer;
use crate::history::HistoryView;
use crate::text::div_round_half_even;
use crate::text::one_decimal;
use crate::text::push_one_decimal;
use crate::text::rounded_div;
use vstd::prelude::*;
use vstd::string::*;

verus! {

/// The views of a sequence of readings or statistics, one for one.
pub open spec fn views<T: View>(items: Seq<T>) -> Seq<T::V> {
    items.map_values(|item: T| item@)
}

/// The views of what a category holds, if it holds anything.
pub open spec fn option_views<T: View>(items: Option<Vec<T>>) -> Option<Seq<T::V>> {
    match items {
        Some(v) => Some(views(v@)),
        None => None,
    }
}

/// The view of what an accessor hands back: of the statistics, or of the
/// failure.
pub open spec fn result_view<T: View>(result: Result<T, LiteMonError>) -> Result<
    T::V,
    LiteMonErrorView,
> {
    match result {
        Ok(stats) => Ok(stats@),
        Err(e) => Err(e@),
    }
}

/// The views of what an accessor hands back: of each of the statistics, or
/// of the failure.
pub open spec fn result_views<T: View>(result: Result<Vec<T>, LiteMonError>) -> Result<
    Seq<T::V>,
    LiteMonErrorView,
> {
    match result {
        Ok(stats) => Ok(views(stats@)),
        Err(e) => Err(e@),
    }
}

/// Everything the provider read of the host at one instant. A category that
/// it could not read is absent; the others stand.
#[derive(Debug, PartialEq, Eq)]
pub struct SystemSnapshot {
    /// When the snapshot was taken, in milliseconds of a clock that never
    /// runs backwards.
    pub taken_at: u64,
    pub cpu: Option<CpuReading>,
    pub memory: Option<MemoryReading>,
    pub disks: Option<Vec<DiskReading>>,
    pub networks: Option<Vec<NetworkReading>>,
    /// A reading of the graphics device, where there is one and it was
    /// asked.
    pub gpu: Option<GpuStats>,
}

/// A snapshot as sequences.
pub struct SystemSnapshotView {
    pub taken_at: u64,
    pub cpu: Option<CpuReadingView>,
    pub memory: Option<MemoryReadingView>,
    pub disks: Option<Seq<DiskReadingView>>,
    pub networks: Option<Seq<NetworkReadingView>>,
    pub gpu: Option<GpuStatsView>,
}

impl View for SystemSnapshot {
    type V = SystemSnapshotView;

    open spec fn view(&self) -> SystemSnapshotView {
        SystemSnapshotView {
            taken_at: self.taken_at,
            cpu: match self.cpu {
                Some(c) => Some(c@),
                None => None,
            },
            memory: match self.memory {
                Some(m) => Some(m@),
                None => None,
            },
            disks: option_views(self.disks),
            networks: option_views(self.networks),
            gpu: match self.gpu {
                Some(g) => Some(g@),
                None => None,
            },
        }
    }
}

/// The time between two readings of the graphics device, in milliseconds.
pub const GPU_INTERVAL: u64 = 1000;

/// The number of samples that the history of an interface holds.
pub const HISTORY_CAPACITY: usize = 50;

/// The history once the receive rates of `stats` have been recorded, in
/// their order.
pub open spec fn recorded_received(history: HistoryView, stats: Seq<NetworkStatsView>) -> HistoryView
    decreases stats.len(),
{
    if stats.len() == 0 {
        history
    } else {
        recorded_received(history, stats.drop_last()).push(
            stats.last().interface_name,
            stats.last().received_bytes,
        )
    }
}

/// The history once the send rates of `stats` have been recorded, in their
/// order.
pub open spec fn recorded_transmitted(
    history: HistoryView,
    stats: Seq<NetworkStatsView>,
) -> HistoryView
    decreases stats.len(),
{
    if stats.len() == 0 {
        history
    } else {
        recorded_transmitted(history, stats.drop_last()).push(
            stats.last().interface_name,
            stats.last().transmitted_bytes,
        )
    }
}

/// The line that names the processor and gives its frequency in GHz, to
/// the nearest tenth.
pub open spec fn cpu_info_text(brand: Seq<char>, frequency: u64) -> Seq<char> {
    brand + "\n频率: "@ + one_decimal(div_round_half_even(frequency as nat, 100)) + " GHz"@
}

/// What the engine holds after a refresh: the statistics derived from the
/// latest snapshot, what it remembers of the snapshots before, and the
/// histories of the interfaces.
pub struct MonitorView {
    /// Whether a graphics device was found when the engine was made.
    pub gpu_available: bool,
    /// The latest reading of the graphics device.
    pub gpu: Option<GpuStatsView>,
    /// When the graphics device was read last.
    pub last_gpu_update: Option<u64>,
    pub cpu_brand: Seq<char>,
    pub cpu_frequency: u64,
    pub cpu: Result<CpuStatsView, LiteMonErrorView>,
    pub memory: Result<MemoryStats, LiteMonErrorView>,
    pub disks: Result<Seq<DiskStatsView>, LiteMonErrorView>,
    pub networks: Result<Seq<NetworkStatsView>, LiteMonErrorView>,
    /// The baselines for the rates of the next snapshot.
    pub network_monitor: NetworkMonitorView,
    pub received_history: HistoryView,
    pub transmitted_history: HistoryView,
}

impl MonitorView {
    /// Whether the graphics device is to be read at `now`: there is one, and
    /// it was never read or not within the last interval.
    pub open spec fn gpu_due(self, now: u64) -> bool {
        self.gpu_available && (self.last_gpu_update is None || elapsed_since(
            self.last_gpu_update,
            now,
        ) >= GPU_INTERVAL)
    }

    /// What the accessor for the graphics device hands back: the latest
    /// reading, or the word that there is no device.
    pub open spec fn gpu_stats(self) -> Result<GpuStatsView, LiteMonErrorView> {
        match self.gpu {
            Some(stats) => Ok(stats),
            None => Err(LiteMonErrorView::NoGpuFound),
        }
    }

    /// The engine after a snapshot. Each category is derived from the
    /// snapshot alone, but for the rates, which are taken against the
    /// counters of the snapshot before. A category that the snapshot lacks
    /// is unavailable until the next snapshot and leaves what is remembered
    /// as it was. The graphics device is taken from the snapshot when its
    /// reading is due.
    pub open spec fn refresh(self, sys: SystemSnapshotView) -> MonitorView {
        let due = self.gpu_due(sys.taken_at);
        let networks = self.network_monitor.stats(sys);
        MonitorView {
            gpu_available: self.gpu_available,
            gpu: if due {
                sys.gpu
            } else {
                self.gpu
            },
            last_gpu_update: if due {
                Some(sys.taken_at)
            } else {
                self.last_gpu_update
            },
            cpu_brand: match sys.cpu {
                Some(reading) => reading.brand,
                None => self.cpu_brand,
            },
            cpu_frequency: match sys.cpu {
                Some(reading) => reading.frequency,
                None => self.cpu_frequency,
            },
            cpu: cpu_stats_of(sys.cpu),
            memory: memory_stats_of(sys.memory),
            disks: disks_of(sys.disks),
            networks,
            network_monitor: self.network_monitor.after(sys),
            received_history: match networks {
                Ok(stats) => recorded_received(self.received_history, stats),
                Err(_) => self.received_history,
            },
            transmitted_history: match networks {
                Ok(stats) => recorded_transmitted(self.transmitted_history, stats),
                Err(_) => self.transmitted_history,
            },
        }
    }

    /// The engine after the snapshots `all`, taken in order.
    pub open spec fn refresh_all(self, all: Seq<SystemSnapshotView>) -> MonitorView
        decreases all.len(),
    {
        if all.len() == 0 {
            self
        } else {
            self.refresh_all(all.drop_last()).refresh(all.last())
        }
    }

    /// Without a graphics device there is no reading of one, and no history
    /// is longer than its capacity.
    pub open spec fn wf(self) -> bool {
        &&& !self.gpu_available ==> self.gpu is None
        &&& self.received_history.bounded()
        &&& self.transmitted_history.bounded()
    }
}

/// Recording rates keeps every series of a history within its capacity.
pub proof fn lemma_recorded_keeps_bounded(history: HistoryView, stats: Seq<NetworkStatsView>)
    requires
        history.bounded(),
    ensures
        recorded_received(history, stats).bounded(),
        recorded_transmitted(history, stats).bounded(),
    decreases stats.len(),
{
    if stats.len() > 0 {
        lemma_recorded_keeps_bounded(history, stats.drop_last());
        lemma_push_keeps_bounded(
            recorded_received(history, stats.drop_last()),
            stats.last().interface_name,
            stats.last().received_bytes,
        );
        lemma_push_keeps_bounded(
            recorded_transmitted(history, stats.drop_last()),
            stats.last().interface_name,
            stats.last().transmitted_bytes,
        );
    }
}

/// A snapshot leaves the engine in order: without a graphics device there is
/// still no reading of one, and the histories are within their capacity.
pub proof fn lemma_refresh_keeps_wf(engine: MonitorView, sys: SystemSnapshotView)
    ensures
        engine.wf() ==> engine.refresh(sys).wf(),
{
    if engine.wf() {
        match engine.network_monitor.stats(sys) {
            Ok(stats) => {
                lemma_recorded_keeps_bounded(engine.received_history, stats);
                lemma_recorded_keeps_bounded(engine.transmitted_history, stats);
            },
            Err(_) => {},
        }
    }
}

/// What the engine reports of one category after a snapshot depends on what
/// the snapshot holds of that category, and on nothing it holds of the
/// others: two snapshots that agree on a category give the same statistics
/// for it. For the interfaces the instants must agree too, as the rates are
/// taken over time.
pub proof fn lemma_categories_are_independent(
    engine: MonitorView,
    a: SystemSnapshotView,
    b: SystemSnapshotView,
)
    ensures
        a.cpu == b.cpu ==> engine.refresh(a).cpu == engine.refresh(b).cpu,
        a.memory == b.memory ==> engine.refresh(a).memory == engine.refresh(b).memory,
        a.disks == b.disks ==> engine.refresh(a).disks == engine.refresh(b).disks,
        a.networks == b.networks && a.taken_at == b.taken_at ==> engine.refresh(a).networks
            == engine.refresh(b).networks,
        a.networks is None ==> engine.refresh(a).network_monitor == engine.network_monitor,
{
    if a.networks == b.networks && a.taken_at == b.taken_at {
        match a.networks {
            Some(_) => {
                assert(engine.network_monitor.stats(a) =~= engine.network_monitor.stats(b));
            },
            None => {},
        }
    }
}

/// An engine made without a graphics device reports none, whatever the
/// snapshots that follow hold.
pub proof fn lemma_absent_gpu_stays_absent(engine: MonitorView, all: Seq<SystemSnapshotView>)
    requires
        !engine.gpu_available,
        engine.gpu is None,
    ensures
        !engine.refresh_all(all).gpu_available,
        engine.refresh_all(all).gpu_stats() == Err::<GpuStatsView, LiteMonErrorView>(
            LiteMonErrorView::NoGpuFound,
        ),
    decreases all.len(),
{
    if all.len() > 0 {
        lemma_absent_gpu_stays_absent(engine, all.drop_last());
    }
}

/// The statistics of every category at one instant. A category without
/// statistics at that instant is absent; the others stand.
#[derive(Debug, PartialEq, Eq)]
pub struct ResourceSnapshot {
    pub cpu: Option<CpuStats>,
    pub memory: Option<MemoryStats>,
    pub disks: Option<Vec<DiskStats>>,
    pub networks: Option<Vec<NetworkStats>>,
    pub gpu: Option<GpuStats>,
}

/// The statistics of every category, as sequences.
pub struct ResourceSnapshotView {
    pub cpu: Option<CpuStatsView>,
    pub memory: Option<MemoryStats>,
    pub disks: Option<Seq<DiskStatsView>>,
    pub networks: Option<Seq<NetworkStatsView>>,
    pub gpu: Option<GpuStatsView>,
}

impl View for ResourceSnapshot {
    type V = ResourceSnapshotView;

    open spec fn view(&self) -> ResourceSnapshotView {
        ResourceSnapshotView {
            cpu: match self.cpu {
                Some(stats) => Some(stats@),
                None => None,
            },
            memory: self.memory,
            disks: option_views(self.disks),
            networks: option_views(self.networks),
            gpu: match self.gpu {
                Some(stats) => Some(stats@),
                None => None,
            },
        }
    }
}

/// What an accessor holds, if it holds statistics.
pub open spec fn available<T>(result: Result<T, LiteMonErrorView>) -> Option<T> {
    match result {
        Ok(stats) => Some(stats),
        Err(_) => None,
    }
}

impl MonitorView {
    /// The statistics of every category that has any.
    pub open spec fn snapshot(self) -> ResourceSnapshotView {
        ResourceSnapshotView {
            cpu: available(self.cpu),
            memory: available(self.memory),
            disks: available(self.disks),
            networks: available(self.networks),
            gpu: self.gpu,
        }
    }
}

/// The metrics engine. It is handed the provider's snapshots and answers
/// for each category with the statistics of the latest one.
pub struct Monitor {
    gpu_available: bool,
    cached_gpu_stats: Option<GpuStats>,
    last_gpu_update: Option<u64>,
    cpu_monitor: CpuMonitor,
    memory_monitor: MemoryMonitor,
    disk_monitor: DiskMonitor,
    network_monitor: NetworkMonitor,
    cpu_brand: String,
    cpu_frequency: u64,
    cpu: Result<CpuStats, LiteMonError>,
    memory: Result<MemoryStats, LiteMonError>,
    disks: Result<Vec<DiskStats>, LiteMonError>,
    networks: Result<Vec<NetworkStats>, LiteMonError>,
    received_history: HistoryBuffer,
    transmitted_history: HistoryBuffer,
}

impl View for Monitor {
    type V = MonitorView;

    closed spec fn view(&self) -> MonitorView {
        MonitorView {
            gpu_available: self.gpu_available,
            gpu: match self.cached_gpu_stats {
                Some(stats) => Some(stats@),
                None => None,
            },
            last_gpu_update: self.last_gpu_update,
            cpu_brand: self.cpu_brand@,
            cpu_frequency: self.cpu_frequency,
            cpu: result_view(self.cpu),
            memory: result_view(self.memory),
            disks: result_views(self.disks),
            networks: result_views(self.networks),
            network_monitor: self.network_monitor@,
            received_history: self.received_history@,
            transmitted_history: self.transmitted_history@,
        }
    }
}

/// A copy of the statistics of the disks.
fn copy_disks(stats: &Vec<DiskStats>) -> (copy: Vec<DiskStats>)
    ensures
        views(copy@) == views(stats@),
{
    let mut copy: Vec<DiskStats> = Vec::new();
    let mut i: usize = 0;
    while i < stats.len()
        invariant
            i <= stats.len(),
            copy@.len() == i,
            forall|j: int| 0 <= j < i ==> (#[trigger] copy@[j])@ == stats@[j]@,
        decreases stats.len() - i,
    {
        copy.push(stats[i].clone());
        i = i + 1;
    }
    assert(views(copy@) =~= views(stats@));
    copy
}

/// A copy of the statistics of the interfaces.
fn copy_networks(stats: &Vec<NetworkStats>) -> (copy: Vec<NetworkStats>)
    ensures
        views(copy@) == views(stats@),
{
    let mut copy: Vec<NetworkStats> = Vec::new();
    let mut i: usize = 0;
    while i < stats.len()
        invariant
            i <= stats.len(),
            copy@.len() == i,
            forall|j: int| 0 <= j < i ==> (#[trigger] copy@[j])@ == stats@[j]@,
        decreases stats.len() - i,
    {
        copy.push(stats[i].clone());
        i = i + 1;
    }
    assert(views(copy@) =~= views(stats@));
    copy
}

/// Records the rates of `stats` in the two histories.
fn record_rates(
    received: &mut HistoryBuffer,
    transmitted: &mut HistoryBuffer,
    stats: &Vec<NetworkStats>,
)
    ensures
        final(received)@ == recorded_received(old(received)@, views(stats@)),
        final(transmitted)@ == recorded_transmitted(old(transmitted)@, views(stats@)),
{
    let mut i: usize = 0;
    while i < stats.len()
        invariant
            i <= stats.len(),
            received@ == recorded_received(old(received)@, views(stats@).take(i as int)),
            transmitted@ == recorded_transmitted(old(transmitted)@, views(stats@).take(i as int)),
        decreases stats.len() - i,
    {
        let stat: &NetworkStats = &stats[i];
        received.push(&stat.interface_name, stat.received_bytes);
        transmitted.push(&stat.interface_name, stat.transmitted_bytes);
        proof {
            let longer = views(stats@).take(i + 1);
            assert(longer.drop_last() =~= views(stats@).take(i as int));
            assert(longer.last() == stat@);
        }
        i = i + 1;
    }
    assert(views(stats@).take(i as int) =~= views(stats@));
}

impl Monitor {
    /// An engine that has seen no snapshot. Whether the host has a graphics
    /// device is settled here, once.
    pub fn new(gpu_available: bool) -> (engine: Self)
        ensures
            engine@.wf(),
            engine@.gpu_available == gpu_available,
            engine@.gpu is None,
            engine@.last_gpu_update is None,
            engine@.cpu_brand == Seq::<char>::empty(),
            engine@.cpu_frequency == 0,
            engine@.cpu == Err::<CpuStatsView, LiteMonErrorView>(
                LiteMonErrorView::CategoryUnavailable,
            ),
            engine@.memory == Err::<MemoryStats, LiteMonErrorView>(
                LiteMonErrorView::CategoryUnavailable,
            ),
            engine@.disks == Err::<Seq<DiskStatsView>, LiteMonErrorView>(
                LiteMonErrorView::CategoryUnavailable,
            ),
            engine@.networks == Err::<Seq<NetworkStatsView>, LiteMonErrorView>(
                LiteMonErrorView::CategoryUnavailable,
            ),
            engine@.network_monitor.previous == Map::<Seq<char>, self::network::Baseline>::empty(),
            engine@.network_monitor.last_update is None,
            engine@.received_history.capacity == HISTORY_CAPACITY,
            engine@.received_history.series == Map::<Seq<char>, Seq<u64>>::empty(),
            engine@.transmitted_history.capacity == HISTORY_CAPACITY,
            engine@.transmitted_history.series == Map::<Seq<char>, Seq<u64>>::empty(),
    {
        Monitor {
            gpu_available,
            cached_gpu_stats: None,
            last_gpu_update: None,
            cpu_monitor: CpuMonitor::new(),
            memory_monitor: MemoryMonitor::new(),
            disk_monitor: DiskMonitor::new(),
            network_monitor: NetworkMonitor::new(),
            cpu_brand: String::new(),
            cpu_frequency: 0,
            cpu: Err(LiteMonError::CategoryUnavailable),
            memory: Err(LiteMonError::CategoryUnavailable),
            disks: Err(LiteMonError::CategoryUnavailable),
            networks: Err(LiteMonError::CategoryUnavailable),
            received_history: HistoryBuffer::new(HISTORY_CAPACITY),
            transmitted_history: HistoryBuffer::new(HISTORY_CAPACITY),
        }
    }

    /// Whether the graphics device is to be read for a snapshot taken at
    /// `now`.
    pub fn gpu_due(&self, now: u64) -> (due: bool)
        ensures
            due == self@.gpu_due(now),
    {
        if !self.gpu_available {
            false
        } else {
            match self.last_gpu_update {
                None => true,
                Some(then) => now >= then && now - then >= GPU_INTERVAL,
            }
        }
    }

    /// Takes in a snapshot: derives the statistics of every category it
    /// holds, moves the baselines of the rates on and records the rates in
    /// the histories.
    pub fn refresh(&mut self, sys: &SystemSnapshot)
        ensures
            final(self)@ == old(self)@.refresh(sys@),
            old(self)@.wf() ==> final(self)@.wf(),
    {
        proof {
            lemma_refresh_keeps_wf(old(self)@, sys@);
        }
        if self.gpu_due(sys.taken_at) {
            self.cached_gpu_stats = match &sys.gpu {
                Some(stats) => Some(stats.clone()),
                None => None,
            };
            self.last_gpu_update = Some(sys.taken_at);
        }
        match &sys.cpu {
            Some(reading) => {
                self.cpu_brand = reading.brand.clone();
                self.cpu_frequency = reading.frequency;
            },
            None => {},
        }
        self.cpu = self.cpu_monitor.collect_stats(sys);
        self.memory = self.memory_monitor.collect_stats(sys);
        self.disks = self.disk_monitor.collect_stats(sys);
        let networks = self.network_monitor.collect_stats(sys);
        match &networks {
            Ok(stats) => {
                record_rates(&mut self.received_history, &mut self.transmitted_history, stats);
            },
            Err(_) => {},
        }
        self.networks = networks;
    }

    /// The statistics of the processor from the latest snapshot.
    pub fn cpu_stats(&self) -> (stats: Result<CpuStats, LiteMonError>)
        ensures
            result_view(stats) == self@.cpu,
    {
        match &self.cpu {
            Ok(stats) => Ok(stats.clone()),
            Err(e) => Err(e.clone()),
        }
    }

    /// The line that names the processor and gives its frequency.
    pub fn cpu_info(&self) -> (info: String)
        ensures
            info@ == cpu_info_text(self@.cpu_brand, self@.cpu_frequency),
    {
        let mut info: String = self.cpu_brand.clone();
        info.append("\n频率: ");
        push_one_decimal(&mut info, rounded_div(self.cpu_frequency as u128, 100));
        info.append(" GHz");
        info
    }

    /// The statistics of memory and swap from the latest snapshot.
    pub fn memory_stats(&self) -> (stats: Result<MemoryStats, LiteMonError>)
        ensures
            result_view(stats) == self@.memory,
    {
        match &self.memory {
            Ok(stats) => Ok(*stats),
            Err(e) => Err(e.clone()),
        }
    }

    /// The statistics of the disks from the latest snapshot.
    pub fn disk_stats(&self) -> (stats: Result<Vec<DiskStats>, LiteMonError>)
        ensures
            result_views(stats) == self@.disks,
    {
        match &self.disks {
            Ok(stats) => Ok(copy_disks(stats)),
            Err(e) => Err(e.clone()),
        }
    }

    /// The statistics of the interfaces from the latest snapshot.
    pub fn network_stats(&self) -> (stats: Result<Vec<NetworkStats>, LiteMonError>)
        ensures
            result_views(stats) == self@.networks,
    {
        match &self.networks {
            Ok(stats) => Ok(copy_networks(stats)),
            Err(e) => Err(e.clone()),
        }
    }

    /// The latest reading of the graphics device. Without a device, or
    /// without a reading of it, the answer is that none was found.
    pub fn gpu_stats(&self) -> (stats: Result<GpuStats, LiteMonError>)
        ensures
            result_view(stats) == self@.gpu_stats(),
    {
        match &self.cached_gpu_stats {
            Some(stats) => Ok(stats.clone()),
            None => Err(LiteMonError::NoGpuFound),
        }
    }

    /// The statistics of every category from the latest snapshot, together.
    pub fn snapshot(&self) -> (all: ResourceSnapshot)
        ensures
            all@ == self@.snapshot(),
    {
        ResourceSnapshot {
            cpu: match self.cpu_stats() {
                Ok(stats) => Some(stats),
                Err(_) => None,
            },
            memory: match self.memory_stats() {
                Ok(stats) => Some(stats),
                Err(_) => None,
            },
            disks: match self.disk_stats() {
                Ok(stats) => Some(stats),
                Err(_) => None,
            },
            networks: match self.network_stats() {
                Ok(stats) => Some(stats),
                Err(_) => None,
            },
            gpu: match self.gpu_stats() {
                Ok(stats) => Some(stats),
                Err(_) => None,
            },
        }
    }

    /// The receive rates recorded for an interface, oldest first.
    pub fn received_history(&self, interface_name: &String) -> (samples: Vec<u64>)
        ensures
            samples@ == self@.received_history.series_of(interface_name@),
    {
        self.received_history.series(interface_name)
    }

    /// The send rates recorded for an interface, oldest first.
    pub fn transmitted_history(&self, interface_name: &String) -> (samples: Vec<u64>)
        ensures
            samples@ == self@.transmitted_history.series_of(interface_name@),
    {
        self.transmitted_history.series(interface_name)
    }
}

} // verus!
