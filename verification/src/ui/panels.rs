//! The panels of the dashboard, as values that a terminal can draw.

use crate::monitor::cpu::CpuStats;
use crate::monitor::cpu::CpuStatsView;
use crate::monitor::disk::usage_hundredths;
use crate::monitor::disk::DiskMonitor;
use crate::monitor::disk::DiskStats;
use crate::monitor::disk::DiskStatsView;
use crate::monitor::gpu::GpuStats;
use crate::monitor::gpu::GpuStatsView;
use crate::monitor::memory::bytes_text;
use crate::monitor::memory::MemoryMonitor;
use crate::monitor::memory::MemoryStats;
use crate::monitor::network::speed_text;
use crate::monitor::network::NetworkMonitor;
use crate::monitor::network::NetworkStats;
use crate::monitor::network::NetworkStatsView;
use crate::monitor::views;
use crate::text::decimal;
use crate::text::decimal_width_two;
use crate::text::div_round_half_even;
use crate::text::one_decimal;
use crate::text::push_decimal;
use crate::text::push_one_decimal;
use crate::text::rounded_div;
use crate::cli::MonitorArgs;
use crate::monitor::cpu_info_text;
use crate::monitor::MonitorView;
use crate::ui::Tui;
use vstd::prelude::*;
use vstd::string::*;

verus! {

/// The colours in which panels are drawn.
#[derive(Debug, Clone, Copy, PartialEq, Eq, Structural)]
pub enum Color {
    Green,
    Yellow,
    Red,
    Cyan,
    Blue,
}

/// A bar that is filled to `percent` of its length, with a title and, where
/// the bar is to say more than its percentage, a label.
#[derive(Debug, PartialEq, Eq)]
pub struct Gauge {
    pub title: String,
    pub label: Option<String>,
    /// How much of the bar is filled; never more than 100.
    pub percent: u16,
    pub color: Color,
}

/// A gauge with its texts as sequences of characters.
pub struct GaugeView {
    pub title: Seq<char>,
    pub label: Option<Seq<char>>,
    pub percent: u16,
    pub color: Color,
}

impl View for Gauge {
    type V = GaugeView;

    open spec fn view(&self) -> GaugeView {
        GaugeView {
            title: self.title@,
            label: match self.label {
                Some(text) => Some(text@),
                None => None,
            },
            percent: self.percent,
            color: self.color,
        }
    }
}

/// A titled block of text.
#[derive(Debug, PartialEq, Eq)]
pub struct Paragraph {
    pub title: String,
    pub text: String,
    pub color: Color,
}

/// A paragraph with its texts as sequences of characters.
pub struct ParagraphView {
    pub title: Seq<char>,
    pub text: Seq<char>,
    pub color: Color,
}

impl View for Paragraph {
    type V = ParagraphView;

    open spec fn view(&self) -> ParagraphView {
        ParagraphView { title: self.title@, text: self.text@, color: self.color }
    }
}

/// One line of a list.
#[derive(Debug, PartialEq, Eq)]
pub struct ListItem {
    pub text: String,
    pub color: Color,
}

/// A line of a list with its text as a sequence of characters.
pub struct ListItemView {
    pub text: Seq<char>,
    pub color: Color,
}

impl View for ListItem {
    type V = ListItemView;

    open spec fn view(&self) -> ListItemView {
        ListItemView { text: self.text@, color: self.color }
    }
}

/// A titled list of lines.
#[derive(Debug, PartialEq, Eq)]
pub struct ItemList {
    pub title: String,
    pub items: Vec<ListItem>,
    pub color: Color,
}

/// A list with its texts as sequences of characters.
pub struct ItemListView {
    pub title: Seq<char>,
    pub items: Seq<ListItemView>,
    pub color: Color,
}

impl View for ItemList {
    type V = ItemListView;

    open spec fn view(&self) -> ItemListView {
        ItemListView { title: self.title@, items: views(self.items@), color: self.color }
    }
}

/// `n` times the character `c`.
pub open spec fn bar(c: char, n: nat) -> Seq<char> {
    Seq::new(n, |i: int| c)
}

/// The number of full cells in a bar of twenty that stands for `usage`
/// hundredths of a percent.
pub open spec fn filled_cells(usage: u32) -> nat {
    (usage / 500) as nat
}

/// The number of empty cells in a bar of twenty that stands for `usage`
/// hundredths of a percent: as many as what is left to the full hundred
/// covers whole.
pub open spec fn empty_cells(usage: u32) -> nat {
    if usage <= 10000 {
        ((10000 - usage) / 500) as nat
    } else {
        0
    }
}

/// The colour of a core: red above 80 percent, yellow above 50.
pub open spec fn core_color(usage: u32) -> Color {
    if usage > 8000 {
        Color::Red
    } else if usage > 5000 {
        Color::Yellow
    } else {
        Color::Green
    }
}

/// The line of core number `index`: its usage to a tenth of a percent, a
/// bar of its usage, and its frequency in GHz to a tenth.
pub open spec fn core_item_text(index: nat, usage: u32, frequency: u64) -> Seq<char> {
    "核心 #"@ + decimal_width_two(index) + ": "@ + one_decimal(
        div_round_half_even(usage as nat, 10),
    ) + "% ["@ + bar('█', filled_cells(usage)) + bar('░', empty_cells(usage)) + "] │ "@
        + one_decimal(div_round_half_even(frequency as nat, 100)) + " GHz"@
}

/// The list item of core number `index`.
pub open spec fn core_item(index: nat, usage: u32, frequency: u64) -> ListItemView {
    ListItemView { text: core_item_text(index, usage, frequency), color: core_color(usage) }
}

/// The number of cores that have both a usage and a frequency.
pub open spec fn listed_cores(stats: CpuStatsView) -> nat {
    if stats.core_usage.len() <= stats.frequency.len() {
        stats.core_usage.len()
    } else {
        stats.frequency.len()
    }
}

/// The index behind the last item of a page of `page` items that starts at
/// `scroll`, in a list of `count` items.
pub open spec fn page_end(scroll: usize, page: usize, count: nat) -> nat {
    if scroll + page < count {
        (scroll + page) as nat
    } else {
        count
    }
}

/// The items of the cores on the page that starts at `scroll`.
pub open spec fn core_items(stats: CpuStatsView, scroll: usize, page: usize) -> Seq<ListItemView> {
    let end = page_end(scroll, page, listed_cores(stats));
    if scroll < end {
        Seq::new(
            (end - scroll) as nat,
            |k: int|
                core_item((scroll + k) as nat, stats.core_usage[scroll + k], stats.frequency[scroll + k]),
        )
    } else {
        Seq::empty()
    }
}

/// The title of the list of cores, which says what part of them is shown.
pub open spec fn cores_title(scroll: usize, page: usize, count: nat) -> Seq<char> {
    "CPU核心状态 ("@ + decimal(scroll as nat) + "-"@ + decimal(page_end(scroll, page, count))
        + "/"@ + decimal(count) + ")"@
}

/// The list of the cores on the page that starts at `scroll`.
pub open spec fn cores_list(stats: CpuStatsView, scroll: usize, page: usize) -> ItemListView {
    ItemListView {
        title: cores_title(scroll, page, stats.core_usage.len()),
        items: core_items(stats, scroll, page),
        color: Color::Cyan,
    }
}

/// How far a gauge is filled for a value of `percent`: up to the full
/// hundred.
pub open spec fn gauge_fill(percent: nat) -> u16 {
    if percent <= 100 {
        percent as u16
    } else {
        100
    }
}

/// The whole percents of `total` that `used` is, rounded down: zero where
/// `total` is zero, and the largest number where the share is beyond it.
pub open spec fn whole_percent(used: u64, total: u64) -> u16 {
    let whole = usage_hundredths(total, used) / 100;
    if whole <= u16::MAX {
        whole as u16
    } else {
        u16::MAX
    }
}

/// The paragraph that names the processor.
pub open spec fn cpu_info_paragraph(info: Seq<char>) -> ParagraphView {
    ParagraphView { title: "CPU信息"@, text: info, color: Color::Cyan }
}

/// The gauge of the mean usage of the cores.
pub open spec fn cpu_gauge(stats: CpuStatsView) -> GaugeView {
    GaugeView {
        title: "总体CPU使用率"@,
        label: None,
        percent: gauge_fill(stats.total_usage as nat / 100),
        color: Color::Cyan,
    }
}

/// The paragraph that names the graphics device.
pub open spec fn gpu_info_paragraph(stats: GpuStatsView) -> ParagraphView {
    ParagraphView { title: "GPU信息"@, text: stats.name, color: Color::Green }
}

/// The gauge of how busy the graphics device is, with its temperature.
pub open spec fn gpu_usage_gauge(stats: GpuStatsView) -> GaugeView {
    GaugeView {
        title: "GPU使用率"@,
        label: Some(
            decimal(stats.utilization as nat) + "% ("@ + decimal(stats.temperature as nat)
                + "°C)"@,
        ),
        percent: gauge_fill(stats.utilization as nat),
        color: Color::Green,
    }
}

/// The gauge of the memory of the graphics device.
pub open spec fn gpu_memory_gauge(stats: GpuStatsView) -> GaugeView {
    let whole = whole_percent(stats.memory_used, stats.memory_total);
    GaugeView {
        title: "显存使用率"@,
        label: Some(
            "已用: "@ + bytes_text(stats.memory_used) + " / 总计: "@ + bytes_text(
                stats.memory_total,
            ) + " ("@ + decimal(whole as nat) + ".0%)"@,
        ),
        percent: gauge_fill(whole as nat),
        color: Color::Green,
    }
}

/// The colour of memory in use: red above 90 percent, yellow above 70.
pub open spec fn memory_color(whole: u16) -> Color {
    if whole > 90 {
        Color::Red
    } else if whole > 70 {
        Color::Yellow
    } else {
        Color::Green
    }
}

/// The gauge of memory in use.
pub open spec fn memory_gauge(stats: MemoryStats) -> GaugeView {
    let whole = whole_percent(stats.used, stats.total);
    GaugeView {
        title: "内存使用情况"@,
        label: Some(
            "已用: "@ + bytes_text(stats.used) + " / 总计: "@ + bytes_text(stats.total) + " ("@
                + decimal(whole as nat) + ".0%) [可用: "@ + bytes_text(stats.available) + "]"@,
        ),
        percent: gauge_fill(whole as nat),
        color: memory_color(whole),
    }
}

/// The colour of swap in use: red above 50 percent, yellow above 25.
pub open spec fn swap_color(whole: u16) -> Color {
    if whole > 50 {
        Color::Red
    } else if whole > 25 {
        Color::Yellow
    } else {
        Color::Green
    }
}

/// The gauge of swap in use.
pub open spec fn swap_gauge(stats: MemoryStats) -> GaugeView {
    let whole = whole_percent(stats.swap_used, stats.swap_total);
    GaugeView {
        title: "交换分区"@,
        label: Some("已用: "@ + decimal(whole as nat) + ".0%"@),
        percent: gauge_fill(whole as nat),
        color: swap_color(whole),
    }
}

/// The colour of a disk: red above 90 percent in use, yellow above 70.
pub open spec fn disk_color(usage: u64) -> Color {
    if usage > 9000 {
        Color::Red
    } else if usage > 7000 {
        Color::Yellow
    } else {
        Color::Green
    }
}

/// The kind of a disk as its title shows it.
pub open spec fn disk_kind_text(stats: DiskStatsView) -> Seq<char> {
    if stats.is_removable {
        stats.disk_type + " [可移动]"@
    } else {
        stats.disk_type
    }
}

/// The gauge of one disk.
pub open spec fn disk_gauge(stats: DiskStatsView) -> GaugeView {
    let usage = usage_hundredths(stats.total_space, stats.used_space);
    GaugeView {
        title: stats.name + " ("@ + disk_kind_text(stats) + ")"@,
        label: Some(
            "已用: "@ + bytes_text(stats.used_space) + " / 总计: "@ + bytes_text(
                stats.total_space,
            ) + " ("@ + one_decimal(div_round_half_even(usage as nat, 10)) + "%)"@,
        ),
        percent: gauge_fill(usage as nat / 100),
        color: disk_color(usage),
    }
}

/// The line of one interface: its rates and its lifetime counters.
pub open spec fn network_item(stats: NetworkStatsView) -> ListItemView {
    ListItemView {
        text: stats.interface_name + ": ↓"@ + speed_text(stats.received_bytes) + "/s ↑"@
            + speed_text(stats.transmitted_bytes) + "/s (总计: ↓"@ + bytes_text(
            stats.total_received,
        ) + " ↑"@ + bytes_text(stats.total_transmitted) + ")"@,
        color: Color::Blue,
    }
}

/// The list of the interfaces.
pub open spec fn network_list(stats: Seq<NetworkStatsView>) -> ItemListView {
    ItemListView {
        title: "网络接口状态"@,
        items: stats.map_values(|s: NetworkStatsView| network_item(s)),
        color: Color::Blue,
    }
}

/// Appends `n` times the one-character text `cell` to `out`.
fn push_bar(out: &mut String, cell: &str, n: usize)
    requires
        cell@.len() == 1,
    ensures
        final(out)@ == old(out)@ + bar(cell@[0], n as nat),
{
    let mut i: usize = 0;
    assert(out@ =~= old(out)@ + bar(cell@[0], 0));
    while i < n
        invariant
            i <= n,
            cell@.len() == 1,
            out@ == old(out)@ + bar(cell@[0], i as nat),
        decreases n - i,
    {
        out.append(cell);
        assert(out@ =~= old(out)@ + bar(cell@[0], (i + 1) as nat));
        i = i + 1;
    }
}

/// Appends `n` in a field of at least two characters to `out`.
fn push_width_two(out: &mut String, n: usize)
    ensures
        final(out)@ == old(out)@ + decimal_width_two(n as nat),
{
    if n < 10 {
        out.append(" ");
        push_decimal(out, n as u128);
        proof {
            reveal_strlit(" ");
            assert(out@ =~= old(out)@ + decimal_width_two(n as nat));
        }
    } else {
        push_decimal(out, n as u128);
    }
}

/// How far a gauge is filled for a value of `percent`.
fn fill(percent: u64) -> (filled: u16)
    ensures
        filled == gauge_fill(percent as nat),
        filled <= 100,
{
    if percent <= 100 {
        percent as u16
    } else {
        100
    }
}

/// The whole percents of `total` that `used` is.
fn percent_of(used: u64, total: u64) -> (whole: u16)
    ensures
        whole == whole_percent(used, total),
{
    let whole: u64 = DiskMonitor::usage_percentage(total, used) / 100;
    if whole <= 0xffff {
        whole as u16
    } else {
        0xffff
    }
}

impl Tui {
/// The list item of core number `index`, which is busy to `usage`
/// hundredths of a percent and runs at `frequency` MHz.
pub fn create_core_list_item(index: usize, usage: u32, frequency: u64) -> (item: ListItem)
    ensures
        item@ == core_item(index as nat, usage, frequency),
{
    let mut text: String = String::from_str("核心 #");
    push_width_two(&mut text, index);
    text.append(": ");
    push_one_decimal(&mut text, rounded_div(usage as u128, 10));
    text.append("% [");
    proof {
        reveal_strlit("█");
        reveal_strlit("░");
    }
    let filled: usize = (usage / 500) as usize;
    let empty: usize = if usage <= 10000 {
        ((10000 - usage) / 500) as usize
    } else {
        0
    };
    push_bar(&mut text, "█", filled);
    push_bar(&mut text, "░", empty);
    text.append("] │ ");
    push_one_decimal(&mut text, rounded_div(frequency as u128, 100));
    text.append(" GHz");
    let color: Color = if usage > 8000 {
        Color::Red
    } else if usage > 5000 {
        Color::Yellow
    } else {
        Color::Green
    };
    ListItem { text, color }
}
}

/// The list of the cores on the page of `page` cores that starts at
/// `scroll`.
pub fn cores_panel(stats: &CpuStats, scroll: usize, page: usize) -> (list: ItemList)
    ensures
        list@ == cores_list(stats@, scroll, page),
{
    let count: usize = stats.core_usage.len();
    let listed: usize = if count <= stats.frequency.len() {
        count
    } else {
        stats.frequency.len()
    };
    let end: usize = if page < listed && scroll < listed - page {
        scroll + page
    } else {
        listed
    };
    let shown_end: usize = if page < count && scroll < count - page {
        scroll + page
    } else {
        count
    };
    let mut items: Vec<ListItem> = Vec::new();
    let mut i: usize = scroll;
    while i < end
        invariant
            end <= listed,
            listed <= stats.core_usage.len(),
            listed <= stats.frequency.len(),
            scroll <= i,
            i <= end || i == scroll,
            items@.len() == i - scroll,
            forall|k: int|
                0 <= k < i - scroll ==> (#[trigger] items@[k])@ == core_item(
                    (scroll + k) as nat,
                    stats.core_usage@[scroll + k],
                    stats.frequency@[scroll + k],
                ),
        decreases end - i,
    {
        items.push(Tui::create_core_list_item(i, stats.core_usage[i], stats.frequency[i]));
        i = i + 1;
    }
    proof {
        let expected = core_items(stats@, scroll, page);
        assert(listed == listed_cores(stats@));
        assert(end == page_end(scroll, page, listed as nat));
        assert(views(items@).len() == expected.len());
        assert forall|k: int| 0 <= k < expected.len() implies views(items@)[k] == expected[k] by {
            assert(views(items@)[k] == items@[k]@);
        }
        assert(views(items@) =~= expected);
    }
    let mut title: String = String::from_str("CPU核心状态 (");
    push_decimal(&mut title, scroll as u128);
    title.append("-");
    push_decimal(&mut title, shown_end as u128);
    title.append("/");
    push_decimal(&mut title, count as u128);
    title.append(")");
    ItemList { title, items, color: Color::Cyan }
}

/// The paragraph that names the processor.
pub fn cpu_info_panel(info: String) -> (paragraph: Paragraph)
    ensures
        paragraph@ == cpu_info_paragraph(info@),
{
    Paragraph { title: String::from_str("CPU信息"), text: info, color: Color::Cyan }
}

/// The gauge of the mean usage of the cores.
pub fn cpu_usage_panel(stats: &CpuStats) -> (gauge: Gauge)
    ensures
        gauge@ == cpu_gauge(stats@),
        gauge.percent <= 100,
{
    Gauge {
        title: String::from_str("总体CPU使用率"),
        label: None,
        percent: fill((stats.total_usage / 100) as u64),
        color: Color::Cyan,
    }
}

/// The paragraph that names the graphics device.
pub fn gpu_info_panel(stats: &GpuStats) -> (paragraph: Paragraph)
    ensures
        paragraph@ == gpu_info_paragraph(stats@),
{
    Paragraph { title: String::from_str("GPU信息"), text: stats.name.clone(), color: Color::Green }
}

/// The gauge of how busy the graphics device is.
pub fn gpu_usage_panel(stats: &GpuStats) -> (gauge: Gauge)
    ensures
        gauge@ == gpu_usage_gauge(stats@),
        gauge.percent <= 100,
{
    let mut label: String = String::new();
    push_decimal(&mut label, stats.utilization as u128);
    label.append("% (");
    push_decimal(&mut label, stats.temperature as u128);
    label.append("°C)");
    assert(label@ =~= decimal(stats.utilization as nat) + "% ("@ + decimal(
        stats.temperature as nat,
    ) + "°C)"@);
    Gauge {
        title: String::from_str("GPU使用率"),
        label: Some(label),
        percent: fill(stats.utilization as u64),
        color: Color::Green,
    }
}

/// The gauge of the memory of the graphics device.
pub fn gpu_memory_panel(stats: &GpuStats) -> (gauge: Gauge)
    ensures
        gauge@ == gpu_memory_gauge(stats@),
        gauge.percent <= 100,
{
    let whole: u16 = percent_of(stats.memory_used, stats.memory_total);
    let mut label: String = String::from_str("已用: ");
    label.append(MemoryMonitor::format_bytes(stats.memory_used).as_str());
    label.append(" / 总计: ");
    label.append(MemoryMonitor::format_bytes(stats.memory_total).as_str());
    label.append(" (");
    push_decimal(&mut label, whole as u128);
    label.append(".0%)");
    Gauge {
        title: String::from_str("显存使用率"),
        label: Some(label),
        percent: fill(whole as u64),
        color: Color::Green,
    }
}

/// The gauge of memory in use.
pub fn memory_panel(stats: &MemoryStats) -> (gauge: Gauge)
    ensures
        gauge@ == memory_gauge(*stats),
        gauge.percent <= 100,
{
    let whole: u16 = percent_of(stats.used, stats.total);
    let mut label: String = String::from_str("已用: ");
    label.append(MemoryMonitor::format_bytes(stats.used).as_str());
    label.append(" / 总计: ");
    label.append(MemoryMonitor::format_bytes(stats.total).as_str());
    label.append(" (");
    push_decimal(&mut label, whole as u128);
    label.append(".0%) [可用: ");
    label.append(MemoryMonitor::format_bytes(stats.available).as_str());
    label.append("]");
    let color: Color = if whole > 90 {
        Color::Red
    } else if whole > 70 {
        Color::Yellow
    } else {
        Color::Green
    };
    Gauge {
        title: String::from_str("内存使用情况"),
        label: Some(label),
        percent: fill(whole as u64),
        color,
    }
}

/// The gauge of swap in use.
pub fn swap_panel(stats: &MemoryStats) -> (gauge: Gauge)
    ensures
        gauge@ == swap_gauge(*stats),
        gauge.percent <= 100,
{
    let whole: u16 = percent_of(stats.swap_used, stats.swap_total);
    let mut label: String = String::from_str("已用: ");
    push_decimal(&mut label, whole as u128);
    label.append(".0%");
    let color: Color = if whole > 50 {
        Color::Red
    } else if whole > 25 {
        Color::Yellow
    } else {
        Color::Green
    };
    Gauge { title: String::from_str("交换分区"), label: Some(label), percent: fill(whole as u64), color }
}

/// The gauge of one disk.
pub fn disk_panel(stats: &DiskStats) -> (gauge: Gauge)
    ensures
        gauge@ == disk_gauge(stats@),
        gauge.percent <= 100,
{
    let usage: u64 = DiskMonitor::usage_percentage(stats.total_space, stats.used_space);
    let mut title: String = stats.name.clone();
    title.append(" (");
    title.append(stats.disk_type.as_str());
    if stats.is_removable {
        title.append(" [可移动]");
    }
    title.append(")");
    assert(title@ =~= stats@.name + " ("@ + disk_kind_text(stats@) + ")"@);
    let mut label: String = String::from_str("已用: ");
    label.append(MemoryMonitor::format_bytes(stats.used_space).as_str());
    label.append(" / 总计: ");
    label.append(MemoryMonitor::format_bytes(stats.total_space).as_str());
    label.append(" (");
    push_one_decimal(&mut label, rounded_div(usage as u128, 10));
    label.append("%)");
    let color: Color = if usage > 9000 {
        Color::Red
    } else if usage > 7000 {
        Color::Yellow
    } else {
        Color::Green
    };
    Gauge { title, label: Some(label), percent: fill(usage / 100), color }
}

/// The gauges of the disks, one for one.
pub fn disks_panel(stats: &Vec<DiskStats>) -> (gauges: Vec<Gauge>)
    ensures
        views(gauges@) == views(stats@).map_values(|s: DiskStatsView| disk_gauge(s)),
        forall|i: int| 0 <= i < gauges@.len() ==> (#[trigger] gauges@[i]).percent <= 100,
{
    let mut gauges: Vec<Gauge> = Vec::new();
    let mut i: usize = 0;
    while i < stats.len()
        invariant
            i <= stats.len(),
            gauges@.len() == i,
            forall|j: int| 0 <= j < i ==> (#[trigger] gauges@[j])@ == disk_gauge(stats@[j]@),
            forall|j: int| 0 <= j < i ==> (#[trigger] gauges@[j]).percent <= 100,
        decreases stats.len() - i,
    {
        gauges.push(disk_panel(&stats[i]));
        i = i + 1;
    }
    assert(views(gauges@) =~= views(stats@).map_values(|s: DiskStatsView| disk_gauge(s)));
    gauges
}

/// The line of one interface.
pub fn network_list_item(stats: &NetworkStats) -> (item: ListItem)
    ensures
        item@ == network_item(stats@),
{
    let mut text: String = stats.interface_name.clone();
    text.append(": ↓");
    text.append(NetworkMonitor::format_speed(stats.received_bytes).as_str());
    text.append("/s ↑");
    text.append(NetworkMonitor::format_speed(stats.transmitted_bytes).as_str());
    text.append("/s (总计: ↓");
    text.append(MemoryMonitor::format_bytes(stats.total_received).as_str());
    text.append(" ↑");
    text.append(MemoryMonitor::format_bytes(stats.total_transmitted).as_str());
    text.append(")");
    ListItem { text, color: Color::Blue }
}

/// The list of the interfaces.
pub fn network_panel(stats: &Vec<NetworkStats>) -> (list: ItemList)
    ensures
        list@ == network_list(views(stats@)),
{
    let mut items: Vec<ListItem> = Vec::new();
    let mut i: usize = 0;
    while i < stats.len()
        invariant
            i <= stats.len(),
            items@.len() == i,
            forall|j: int| 0 <= j < i ==> (#[trigger] items@[j])@ == network_item(stats@[j]@),
        decreases stats.len() - i,
    {
        items.push(network_list_item(&stats[i]));
        i = i + 1;
    }
    assert(views(items@) =~= views(stats@).map_values(|s: NetworkStatsView| network_item(s)));
    ItemList { title: String::from_str("网络接口状态"), items, color: Color::Blue }
}

/// The panels of the processor.
#[derive(Debug, PartialEq, Eq)]
pub struct CpuPanel {
    pub info: Paragraph,
    pub usage: Gauge,
    pub cores: ItemList,
}

/// The panels of the processor, as sequences.
pub struct CpuPanelView {
    pub info: ParagraphView,
    pub usage: GaugeView,
    pub cores: ItemListView,
}

impl View for CpuPanel {
    type V = CpuPanelView;

    open spec fn view(&self) -> CpuPanelView {
        CpuPanelView { info: self.info@, usage: self.usage@, cores: self.cores@ }
    }
}

/// The panels of the graphics device.
#[derive(Debug, PartialEq, Eq)]
pub struct GpuPanel {
    pub info: Paragraph,
    pub usage: Gauge,
    pub memory: Gauge,
}

/// The panels of the graphics device, as sequences.
pub struct GpuPanelView {
    pub info: ParagraphView,
    pub usage: GaugeView,
    pub memory: GaugeView,
}

impl View for GpuPanel {
    type V = GpuPanelView;

    open spec fn view(&self) -> GpuPanelView {
        GpuPanelView { info: self.info@, usage: self.usage@, memory: self.memory@ }
    }
}

/// The panels of memory and swap.
#[derive(Debug, PartialEq, Eq)]
pub struct MemoryPanel {
    pub memory: Gauge,
    pub swap: Gauge,
}

/// The panels of memory and swap, as sequences.
pub struct MemoryPanelView {
    pub memory: GaugeView,
    pub swap: GaugeView,
}

impl View for MemoryPanel {
    type V = MemoryPanelView;

    open spec fn view(&self) -> MemoryPanelView {
        MemoryPanelView { memory: self.memory@, swap: self.swap@ }
    }
}

/// Everything that is on the screen at once. A category that is not
/// reported, or that has no statistics at this tick, has no panel.
#[derive(Debug, PartialEq, Eq)]
pub struct Frame {
    pub cpu: Option<CpuPanel>,
    pub gpu: Option<GpuPanel>,
    pub memory: Option<MemoryPanel>,
    pub disks: Option<Vec<Gauge>>,
    pub network: Option<ItemList>,
}

/// A frame as sequences.
pub struct FrameView {
    pub cpu: Option<CpuPanelView>,
    pub gpu: Option<GpuPanelView>,
    pub memory: Option<MemoryPanelView>,
    pub disks: Option<Seq<GaugeView>>,
    pub network: Option<ItemListView>,
}

impl View for Frame {
    type V = FrameView;

    open spec fn view(&self) -> FrameView {
        FrameView {
            cpu: match self.cpu {
                Some(panel) => Some(panel@),
                None => None,
            },
            gpu: match self.gpu {
                Some(panel) => Some(panel@),
                None => None,
            },
            memory: match self.memory {
                Some(panel) => Some(panel@),
                None => None,
            },
            disks: match self.disks {
                Some(gauges) => Some(views(gauges@)),
                None => None,
            },
            network: match self.network {
                Some(list) => Some(list@),
                None => None,
            },
        }
    }
}

impl FrameView {
    /// No gauge is filled beyond the full hundred.
    pub open spec fn gauges_in_range(self) -> bool {
        &&& self.cpu matches Some(panel) ==> panel.usage.percent <= 100
        &&& self.gpu matches Some(panel) ==> panel.usage.percent <= 100 && panel.memory.percent
            <= 100
        &&& self.memory matches Some(panel) ==> panel.memory.percent <= 100 && panel.swap.percent
            <= 100
        &&& self.disks matches Some(gauges) ==> forall|i: int|
            0 <= i < gauges.len() ==> (#[trigger] gauges[i]).percent <= 100
    }
}

/// The frame that shows what the engine holds. The processor, memory, the
/// disks and the interfaces each have their panels where they are reported
/// and the engine has their statistics; the graphics device has its panels
/// where the engine has a reading of it. The list of cores shows the page
/// of `page` cores that starts at `scroll`.
pub open spec fn frame_of(engine: MonitorView, shown: MonitorArgs, scroll: usize, page: usize) -> FrameView {
    FrameView {
        cpu: match engine.cpu {
            Ok(stats) => if shown.cpu {
                Some(
                    CpuPanelView {
                        info: cpu_info_paragraph(
                            cpu_info_text(engine.cpu_brand, engine.cpu_frequency),
                        ),
                        usage: cpu_gauge(stats),
                        cores: cores_list(stats, scroll, page),
                    },
                )
            } else {
                None
            },
            Err(_) => None,
        },
        gpu: match engine.gpu {
            Some(stats) => Some(
                GpuPanelView {
                    info: gpu_info_paragraph(stats),
                    usage: gpu_usage_gauge(stats),
                    memory: gpu_memory_gauge(stats),
                },
            ),
            None => None,
        },
        memory: match engine.memory {
            Ok(stats) => if shown.memory {
                Some(MemoryPanelView { memory: memory_gauge(stats), swap: swap_gauge(stats) })
            } else {
                None
            },
            Err(_) => None,
        },
        disks: match engine.disks {
            Ok(stats) => if shown.disk {
                Some(stats.map_values(|s: DiskStatsView| disk_gauge(s)))
            } else {
                None
            },
            Err(_) => None,
        },
        network: match engine.networks {
            Ok(stats) => if shown.network {
                Some(network_list(stats))
            } else {
                None
            },
            Err(_) => None,
        },
    }
}

/// Whatever the engine holds, no gauge of its frame is filled beyond the
/// full hundred.
pub proof fn lemma_frame_gauges_in_range(
    engine: MonitorView,
    shown: MonitorArgs,
    scroll: usize,
    page: usize,
)
    ensures
        frame_of(engine, shown, scroll, page).gauges_in_range(),
{
}

} // verus!
