//! The disks: space in all, space left, space used.

use crate::error::LiteMonError;
use crate::error::LiteMonErrorView;
use crate::monitor::result_views;
use crate::monitor::views;
use crate::monitor::SystemSnapshot;
use vstd::prelude::*;

verus! {

/// What the provider reads of one disk.
#[derive(Debug, PartialEq, Eq)]
pub struct DiskReading {
    pub name: String,
    pub mount_point: String,
    /// The size of the disk in bytes.
    pub total_space: u64,
    /// The bytes that are free.
    pub available_space: u64,
    /// The kind of disk, as a label.
    pub kind: String,
    pub is_removable: bool,
}

/// A reading of a disk with its texts as sequences of characters.
pub struct DiskReadingView {
    pub name: Seq<char>,
    pub mount_point: Seq<char>,
    pub total_space: u64,
    pub available_space: u64,
    pub kind: Seq<char>,
    pub is_removable: bool,
}

impl View for DiskReading {
    type V = DiskReadingView;

    open spec fn view(&self) -> DiskReadingView {
        DiskReadingView {
            name: self.name@,
            mount_point: self.mount_point@,
            total_space: self.total_space,
            available_space: self.available_space,
            kind: self.kind@,
            is_removable: self.is_removable,
        }
    }
}

/// One disk at one instant.
#[derive(Debug, PartialEq, Eq)]
pub struct DiskStats {
    pub name: String,
    pub mount_point: String,
    /// The size of the disk in bytes.
    pub total_space: u64,
    /// The bytes that are free.
    pub available_space: u64,
    /// The bytes that are in use: the size less what is free.
    pub used_space: u64,
    /// The kind of disk, as a label.
    pub disk_type: String,
    pub is_removable: bool,
}

/// A disk at one instant with its texts as sequences of characters.
pub struct DiskStatsView {
    pub name: Seq<char>,
    pub mount_point: Seq<char>,
    pub total_space: u64,
    pub available_space: u64,
    pub used_space: u64,
    pub disk_type: Seq<char>,
    pub is_removable: bool,
}

impl View for DiskStats {
    type V = DiskStatsView;

    open spec fn view(&self) -> DiskStatsView {
        DiskStatsView {
            name: self.name@,
            mount_point: self.mount_point@,
            total_space: self.total_space,
            available_space: self.available_space,
            used_space: self.used_space,
            disk_type: self.disk_type@,
            is_removable: self.is_removable,
        }
    }
}

impl Clone for DiskStats {
    fn clone(&self) -> (copy: Self)
        ensures
            copy@ == self@,
    {
        DiskStats {
            name: self.name.clone(),
            mount_point: self.mount_point.clone(),
            total_space: self.total_space,
            available_space: self.available_space,
            used_space: self.used_space,
            disk_type: self.disk_type.clone(),
            is_removable: self.is_removable,
        }
    }
}

/// The bytes in use on a disk of `total` bytes of which `available` are
/// free; none where more is reported free than the disk holds.
pub open spec fn used_space(total: u64, available: u64) -> u64 {
    if total >= available {
        (total - available) as u64
    } else {
        0
    }
}

/// The statistics of one disk: what was read, and the space in use.
pub open spec fn disk_stats_of(reading: DiskReadingView) -> DiskStatsView {
    DiskStatsView {
        name: reading.name,
        mount_point: reading.mount_point,
        total_space: reading.total_space,
        available_space: reading.available_space,
        used_space: used_space(reading.total_space, reading.available_space),
        disk_type: reading.kind,
        is_removable: reading.is_removable,
    }
}

/// The statistics that a snapshot gives: those of each disk, in the
/// provider's order. There are none where the provider had no reading of
/// the disks.
pub open spec fn disks_of(readings: Option<Seq<DiskReadingView>>) -> Result<
    Seq<DiskStatsView>,
    LiteMonErrorView,
> {
    match readings {
        None => Err(LiteMonErrorView::CategoryUnavailable),
        Some(disks) => Ok(disks.map_values(|reading: DiskReadingView| disk_stats_of(reading))),
    }
}

/// The share of `total` that `used` is, in hundredths of a percent and
/// rounded down: zero where `total` is zero, and the largest number where
/// the share is beyond it.
pub open spec fn usage_hundredths(total: u64, used: u64) -> u64 {
    if total == 0 {
        0
    } else if used * 10000 / (total as int) <= u64::MAX {
        (used * 10000 / (total as int)) as u64
    } else {
        u64::MAX
    }
}

/// Derives the statistics of the disks.
#[derive(Debug, Clone, Copy)]
pub struct DiskMonitor {}

impl DiskMonitor {
    /// A monitor for the disks.
    pub fn new() -> (monitor: Self) {
        DiskMonitor {  }
    }

    /// The statistics of the disks in a snapshot.
    pub fn collect_stats(&self, sys: &SystemSnapshot) -> (stats: Result<
        Vec<DiskStats>,
        LiteMonError,
    >)
        ensures
            result_views(stats) == disks_of(sys@.disks),
    {
        match &sys.disks {
            None => Err(LiteMonError::CategoryUnavailable),
            Some(disks) => {
                let mut stats: Vec<DiskStats> = Vec::new();
                let mut i: usize = 0;
                while i < disks.len()
                    invariant
                        i <= disks.len(),
                        stats@.len() == i,
                        forall|j: int| 0 <= j < i ==> (#[trigger] stats@[j])@ == disk_stats_of(disks@[j]@),
                    decreases disks.len() - i,
                {
                    let disk: &DiskReading = &disks[i];
                    let used: u64 = if disk.total_space >= disk.available_space {
                        disk.total_space - disk.available_space
                    } else {
                        0
                    };
                    stats.push(
                        DiskStats {
                            name: disk.name.clone(),
                            mount_point: disk.mount_point.clone(),
                            total_space: disk.total_space,
                            available_space: disk.available_space,
                            used_space: used,
                            disk_type: disk.kind.clone(),
                            is_removable: disk.is_removable,
                        },
                    );
                    i = i + 1;
                }
                assert(views(stats@) =~= views(disks@).map_values(
                    |reading: DiskReadingView| disk_stats_of(reading),
                ));
                Ok(stats)
            },
        }
    }

    /// The share of `total` that `used` is, in hundredths of a percent.
    pub fn usage_percentage(total: u64, used: u64) -> (usage: u64)
        ensures
            usage == usage_hundredths(total, used),
            total == 0 ==> usage == 0,
            0 < total && used <= total ==> usage <= 10000,
    {
        if total == 0 {
            0
        } else {
            let share: u128 = (used as u128) * 10000 / (total as u128);
            assert(used <= total ==> share <= 10000) by (nonlinear_arith)
                requires
                    share == (used as int) * 10000 / (total as int),
                    total > 0,
            ;
            if share <= u64::MAX as u128 {
                share as u64
            } else {
                u64::MAX
            }
        }
    }
}

} // verus!
