//! The dashboard: what the user scrolls, when the screen is due, and the
//! panels that are shown.

pub mod panels;

use self::panels::cores_panel;
use self::panels::cpu_info_panel;
use self::panels::cpu_usage_panel;
use self::panels::disks_panel;
use self::panels::frame_of;
use self::panels::gpu_info_panel;
use self::panels::gpu_memory_panel;
use self::panels::gpu_usage_panel;
use self::panels::lemma_frame_gauges_in_range;
use self::panels::memory_panel;
use self::panels::network_panel;
use self::panels::swap_panel;
use self::panels::CpuPanel;
use self::panels::Frame;
use self::panels::GpuPanel;
use self::panels::MemoryPanel;
use crate::cli::millis_of;
use crate::cli::Cli;
use crate::cli::MonitorArgs;
use crate::monitor::network::elapsed_since;
use crate::monitor::Monitor;
use crate::monitor::MonitorView;
use vstd::prelude::*;

verus! {

/// The least time between two scroll steps, in milliseconds. Keys that come
/// faster, as from a key held down, are dropped.
pub const SCROLL_DEBOUNCE: u64 = 50;

/// The longest time to wait for a key, in milliseconds.
pub const POLL_TIMEOUT: u64 = 100;

/// A key as it comes from the keyboard.
#[derive(Debug, Clone, Copy, PartialEq, Eq, Structural)]
pub enum Key {
    /// The arrow up, which scrolls the list of cores towards its start.
    Up,
    /// The arrow down, which scrolls the list of cores towards its end.
    Down,
    /// A character; `q` leaves the dashboard.
    Char(char),
    /// Any other key.
    Other,
}

impl Key {
    /// Whether the key asks to leave the dashboard.
    pub open spec fn quits(self) -> bool {
        self == Key::Char('q')
    }

    /// Whether the key scrolls the list of cores.
    pub open spec fn scrolls(self) -> bool {
        self == Key::Up || self == Key::Down
    }
}

/// The way a list is scrolled.
#[derive(Debug, Clone, Copy, PartialEq, Eq, Structural)]
pub enum Direction {
    Up,
    Down,
}

/// The largest offset at which a page of `page_size` items still ends
/// within `total_items`.
pub open spec fn max_offset(total_items: usize, page_size: usize) -> usize {
    if total_items > page_size {
        (total_items - page_size) as usize
    } else {
        0
    }
}

/// The number of cores on a page where `available_rows` rows are free for
/// them: an even number, for two columns of equal height, and at least two.
pub open spec fn page_size_for(available_rows: usize) -> usize {
    if available_rows >= 2 {
        (available_rows / 2 * 2) as usize
    } else {
        2
    }
}

/// The offset after one scroll step. A step moves by one item and ends
/// within `0..=max_offset`: at either end a step outwards changes nothing,
/// and an offset that lies beyond the end (the list got shorter) is taken
/// back to it.
pub open spec fn scrolled(
    offset: usize,
    direction: Direction,
    total_items: usize,
    page_size: usize,
) -> usize {
    let max = max_offset(total_items, page_size);
    match direction {
        Direction::Up => if offset == 0 {
            0
        } else if offset - 1 <= max {
            (offset - 1) as usize
        } else {
            max
        },
        Direction::Down => if offset < max {
            (offset + 1) as usize
        } else {
            max
        },
    }
}

/// The offset after the steps `directions`, taken in order.
pub open spec fn scrolled_all(
    offset: usize,
    directions: Seq<Direction>,
    total_items: usize,
    page_size: usize,
) -> usize
    decreases directions.len(),
{
    if directions.len() == 0 {
        offset
    } else {
        scrolled(
            scrolled_all(offset, directions.drop_last(), total_items, page_size),
            directions.last(),
            total_items,
            page_size,
        )
    }
}

/// However many steps are taken, and in whatever directions, the offset
/// ends within `0..=max_offset`.
pub proof fn lemma_scroll_stays_in_range(
    offset: usize,
    directions: Seq<Direction>,
    total_items: usize,
    page_size: usize,
)
    requires
        directions.len() > 0 || offset <= max_offset(total_items, page_size),
    ensures
        scrolled_all(offset, directions, total_items, page_size) <= max_offset(
            total_items,
            page_size,
        ),
{
}

/// Whether a key that scrolls is taken at `now`: none was taken before, or
/// the last one at least `SCROLL_DEBOUNCE` milliseconds ago.
pub open spec fn scroll_accepted(last_input_poll: Option<u64>, now: u64) -> bool {
    last_input_poll is None || elapsed_since(last_input_poll, now) >= SCROLL_DEBOUNCE
}

/// Whether a refresh is due at `now`: there was none yet, or the last one
/// was at least `tick_interval` milliseconds ago.
pub open spec fn tick_due(last_tick: Option<u64>, now: u64, tick_interval: u64) -> bool {
    last_tick is None || elapsed_since(last_tick, now) >= tick_interval
}

/// The milliseconds from `last` to `now`.
fn elapsed(last: Option<u64>, now: u64) -> (millis: u64)
    ensures
        millis == elapsed_since(last, now),
{
    match last {
        Some(then) => if now >= then {
            now - then
        } else {
            0
        },
        None => 0,
    }
}

/// The interactive state of the dashboard.
#[derive(Debug, Clone, Copy, PartialEq, Eq, Structural)]
pub struct Tui {
    /// The index of the first core that is shown.
    pub scroll_offset: usize,
    /// The number of cores on a page.
    pub page_size: usize,
    /// When the statistics were refreshed last, in milliseconds.
    pub last_tick: Option<u64>,
    /// When a key that scrolls was taken last, in milliseconds.
    pub last_input_poll: Option<u64>,
    /// Whether something changed that the screen does not show yet.
    pub redraw_needed: bool,
}

impl Tui {
    /// The state of a dashboard that has shown nothing yet.
    pub open spec fn initial() -> Tui {
        Tui {
            scroll_offset: 0,
            page_size: page_size_for(0),
            last_tick: None,
            last_input_poll: None,
            redraw_needed: false,
        }
    }

    /// The state after a scroll step.
    pub open spec fn after_scroll(
        self,
        direction: Direction,
        total_items: usize,
        page_size: usize,
    ) -> Tui {
        Tui {
            scroll_offset: scrolled(self.scroll_offset, direction, total_items, page_size),
            ..self
        }
    }

    /// The state after a key was looked at, without regard to time: `Up` and
    /// `Down` scroll by one step on pages of the current size, any other key
    /// changes nothing.
    pub open spec fn after_key(self, key: Key, max_cores: usize) -> Tui {
        match key {
            Key::Up => self.after_scroll(Direction::Up, max_cores, self.page_size),
            Key::Down => self.after_scroll(Direction::Down, max_cores, self.page_size),
            _ => self,
        }
    }

    /// The state after a key came in at `now`. A key that scrolls is taken
    /// if the last one was not too recent; it then moves the offset, and the
    /// screen is owed a redraw if the offset changed. Any other key, and a
    /// key that comes too soon, changes nothing.
    pub open spec fn after_input(self, key: Key, now: u64, max_cores: usize) -> Tui {
        if key.scrolls() && scroll_accepted(self.last_input_poll, now) {
            let moved = self.after_key(key, max_cores);
            Tui {
                last_input_poll: Some(now),
                redraw_needed: self.redraw_needed || moved.scroll_offset != self.scroll_offset,
                ..moved
            }
        } else {
            self
        }
    }

    /// The state after a frame was drawn for a list of `available_rows`
    /// rows: the page has the size that fits the rows, and the offset is
    /// taken back to the end of the list of cores where it lay beyond.
    pub open spec fn after_draw(self, engine: MonitorView, available_rows: usize) -> Tui {
        let page_size = page_size_for(available_rows);
        Tui {
            page_size,
            scroll_offset: match engine.cpu {
                Ok(stats) => {
                    let max = max_offset(stats.core_usage.len() as usize, page_size);
                    if self.scroll_offset <= max {
                        self.scroll_offset
                    } else {
                        max
                    }
                },
                Err(_) => self.scroll_offset,
            },
            ..self
        }
    }

    /// The state of a dashboard that has shown nothing yet.
    pub fn new() -> (tui: Self)
        ensures
            tui == Tui::initial(),
    {
        Tui {
            scroll_offset: 0,
            page_size: 2,
            last_tick: None,
            last_input_poll: None,
            redraw_needed: false,
        }
    }

    /// Scrolls a list of `total_items` items, shown in pages of `page_size`,
    /// by one step.
    pub fn scroll(&mut self, direction: Direction, total_items: usize, page_size: usize)
        ensures
            *final(self) == old(self).after_scroll(direction, total_items, page_size),
            final(self).scroll_offset <= max_offset(total_items, page_size),
    {
        let max: usize = if total_items > page_size {
            total_items - page_size
        } else {
            0
        };
        match direction {
            Direction::Up => {
                if self.scroll_offset == 0 {
                } else if self.scroll_offset - 1 <= max {
                    self.scroll_offset = self.scroll_offset - 1;
                } else {
                    self.scroll_offset = max;
                }
            },
            Direction::Down => {
                if self.scroll_offset < max {
                    self.scroll_offset = self.scroll_offset + 1;
                } else {
                    self.scroll_offset = max;
                }
            },
        }
    }

    /// Scrolls the list of `max_cores` cores if `key` is `Up` or `Down`.
    pub fn handle_scroll(&mut self, key: Key, max_cores: usize)
        ensures
            *final(self) == old(self).after_key(key, max_cores),
            key.scrolls() ==> final(self).scroll_offset <= max_offset(
                max_cores,
                old(self).page_size,
            ),
    {
        let page_size: usize = self.page_size;
        match key {
            Key::Up => self.scroll(Direction::Up, max_cores, page_size),
            Key::Down => self.scroll(Direction::Down, max_cores, page_size),
            _ => {},
        }
    }

    /// Takes a key that came in at `now`, and says whether it scrolled.
    pub fn handle_input(&mut self, key: Key, now: u64, max_cores: usize) -> (taken: bool)
        ensures
            *final(self) == old(self).after_input(key, now, max_cores),
            taken == (key.scrolls() && scroll_accepted(old(self).last_input_poll, now)),
    {
        let scrolls: bool = match key {
            Key::Up => true,
            Key::Down => true,
            _ => false,
        };
        let accepted: bool = match self.last_input_poll {
            None => true,
            Some(_) => elapsed(self.last_input_poll, now) >= SCROLL_DEBOUNCE,
        };
        if scrolls && accepted {
            let before: usize = self.scroll_offset;
            self.handle_scroll(key, max_cores);
            self.last_input_poll = Some(now);
            if self.scroll_offset != before {
                self.redraw_needed = true;
            }
            true
        } else {
            false
        }
    }

    /// Notes that something changed that the screen does not show yet.
    pub fn mark_dirty(&mut self)
        ensures
            *final(self) == (Tui { redraw_needed: true, ..*old(self) }),
    {
        self.redraw_needed = true;
    }

    /// Notes that the screen shows everything.
    pub fn clear_dirty(&mut self)
        ensures
            *final(self) == (Tui { redraw_needed: false, ..*old(self) }),
    {
        self.redraw_needed = false;
    }

    /// The frame that shows what the engine holds, for the categories that
    /// are reported and a list of cores of `available_rows` rows.
    pub fn draw(&mut self, monitor: &Monitor, shown: &MonitorArgs, available_rows: usize) -> (frame:
        Frame)
        ensures
            *final(self) == old(self).after_draw(monitor@, available_rows),
            frame@ == frame_of(
                monitor@,
                *shown,
                final(self).scroll_offset,
                final(self).page_size,
            ),
            frame@.gauges_in_range(),
            monitor@.cpu matches Ok(stats) ==> final(self).scroll_offset <= max_offset(
                stats.core_usage.len() as usize,
                final(self).page_size,
            ),
    {
        self.resize(available_rows);
        let cpu: Option<CpuPanel> = match monitor.cpu_stats() {
            Ok(stats) => {
                let count: usize = stats.core_usage.len();
                let max: usize = if count > self.page_size {
                    count - self.page_size
                } else {
                    0
                };
                if self.scroll_offset > max {
                    self.scroll_offset = max;
                }
                if shown.cpu {
                    Some(
                        CpuPanel {
                            info: cpu_info_panel(monitor.cpu_info()),
                            usage: cpu_usage_panel(&stats),
                            cores: cores_panel(&stats, self.scroll_offset, self.page_size),
                        },
                    )
                } else {
                    None
                }
            },
            Err(_) => None,
        };
        let gpu: Option<GpuPanel> = match monitor.gpu_stats() {
            Ok(stats) => Some(
                GpuPanel {
                    info: gpu_info_panel(&stats),
                    usage: gpu_usage_panel(&stats),
                    memory: gpu_memory_panel(&stats),
                },
            ),
            Err(_) => None,
        };
        let memory: Option<MemoryPanel> = match monitor.memory_stats() {
            Ok(stats) => if shown.memory {
                Some(MemoryPanel { memory: memory_panel(&stats), swap: swap_panel(&stats) })
            } else {
                None
            },
            Err(_) => None,
        };
        let disks = match monitor.disk_stats() {
            Ok(stats) => if shown.disk {
                Some(disks_panel(&stats))
            } else {
                None
            },
            Err(_) => None,
        };
        let network = match monitor.network_stats() {
            Ok(stats) => if shown.network {
                Some(network_panel(&stats))
            } else {
                None
            },
            Err(_) => None,
        };
        proof {
            lemma_frame_gauges_in_range(monitor@, *shown, self.scroll_offset, self.page_size);
        }
        Frame { cpu, gpu, memory, disks, network }
    }

    /// Sets the page size for a list that has `available_rows` rows.
    pub fn resize(&mut self, available_rows: usize)
        ensures
            *final(self) == (Tui { page_size: page_size_for(available_rows), ..*old(self) }),
            final(self).page_size >= 2,
            final(self).page_size % 2 == 0,
    {
        self.page_size = if available_rows >= 2 {
            available_rows / 2 * 2
        } else {
            2
        };
    }
}

/// Whether the key that came in, if any did, is the one that quits.
pub open spec fn asks_to_quit(key: Option<Key>) -> bool {
    match key {
        Some(k) => k.quits(),
        None => false,
    }
}

/// Whether one of the turns brought the key that quits.
pub open spec fn quit_among(turns: Seq<(Option<Key>, u64, usize)>) -> bool {
    exists|i: int| 0 <= i < turns.len() && asks_to_quit((#[trigger] turns[i]).0)
}

/// Where the render loop stands.
#[derive(Debug, Clone, Copy, PartialEq, Eq, Structural)]
pub enum LoopState {
    Running,
    /// The user has quit. Nothing leads back from here.
    ShuttingDown,
}

/// What the caller of the render loop is to do next.
#[derive(Debug, Clone, Copy, PartialEq, Eq, Structural)]
pub enum Action {
    /// Take a snapshot, refresh the engine and draw.
    Refresh,
    /// Draw what the engine holds.
    Redraw,
    /// Nothing is due.
    Idle,
    /// Restore the terminal and leave.
    Exit,
}

/// The render loop: the dashboard's state, the clock of the refreshes, and
/// whether the user has quit.
#[derive(Debug, Clone, Copy, PartialEq, Eq, Structural)]
pub struct RenderLoop {
    pub state: LoopState,
    /// The time between two refreshes, in milliseconds.
    pub tick_interval: u64,
    pub tui: Tui,
}

impl RenderLoop {
    /// The loop and what is to be done after one turn, in which `key` came
    /// in (if any did) and the clock read `now`.
    ///
    /// Once shut down the loop stays so and asks to exit. While it runs,
    /// the key `q` shuts it down; any other key goes to the dashboard.
    /// Then a refresh is asked for if one is due, which also settles a
    /// redraw that was owed; else a redraw if one is owed; else nothing.
    pub open spec fn stepped(self, key: Option<Key>, now: u64, max_cores: usize) -> (
        RenderLoop,
        Action,
    ) {
        if self.state == LoopState::ShuttingDown {
            (self, Action::Exit)
        } else if asks_to_quit(key) {
            (RenderLoop { state: LoopState::ShuttingDown, ..self }, Action::Exit)
        } else {
            let tui = match key {
                Some(k) => self.tui.after_input(k, now, max_cores),
                None => self.tui,
            };
            if tick_due(tui.last_tick, now, self.tick_interval) {
                (
                    RenderLoop {
                        tui: Tui { last_tick: Some(now), redraw_needed: false, ..tui },
                        ..self
                    },
                    Action::Refresh,
                )
            } else if tui.redraw_needed {
                (RenderLoop { tui: Tui { redraw_needed: false, ..tui }, ..self }, Action::Redraw)
            } else {
                (RenderLoop { tui, ..self }, Action::Idle)
            }
        }
    }

    /// The loop after the turns `turns`, each with the key that came in, the
    /// reading of the clock and the number of cores.
    pub open spec fn stepped_all(self, turns: Seq<(Option<Key>, u64, usize)>) -> RenderLoop
        decreases turns.len(),
    {
        if turns.len() == 0 {
            self
        } else {
            self.stepped_all(turns.drop_last()).stepped(
                turns.last().0,
                turns.last().1,
                turns.last().2,
            ).0
        }
    }

    /// How long to wait for a key at `now`, in milliseconds: until the next
    /// refresh is due, and no longer than `POLL_TIMEOUT`.
    pub open spec fn wait(self, now: u64) -> u64 {
        if tick_due(self.tui.last_tick, now, self.tick_interval) {
            0
        } else {
            let left = self.tick_interval - elapsed_since(self.tui.last_tick, now);
            if left < POLL_TIMEOUT {
                left as u64
            } else {
                POLL_TIMEOUT
            }
        }
    }

    /// A running loop for the options of a run. Its first refresh is due at
    /// once.
    pub fn new(cli: &Cli) -> (render_loop: Self)
        ensures
            render_loop == (RenderLoop {
                state: LoopState::Running,
                tick_interval: millis_of(cli.interval),
                tui: Tui::initial(),
            }),
    {
        RenderLoop {
            state: LoopState::Running,
            tick_interval: cli.interval_millis(),
            tui: Tui::new(),
        }
    }

    /// Whether the user has quit.
    pub fn is_shutting_down(&self) -> (done: bool)
        ensures
            done == (self.state == LoopState::ShuttingDown),
    {
        match self.state {
            LoopState::ShuttingDown => true,
            LoopState::Running => false,
        }
    }

    /// How long to wait for a key at `now`, in milliseconds.
    pub fn poll_timeout(&self, now: u64) -> (millis: u64)
        ensures
            millis == self.wait(now),
            millis <= POLL_TIMEOUT,
    {
        match self.tui.last_tick {
            None => 0,
            Some(_) => {
                let passed: u64 = elapsed(self.tui.last_tick, now);
                if passed >= self.tick_interval {
                    0
                } else {
                    let left: u64 = self.tick_interval - passed;
                    if left < POLL_TIMEOUT {
                        left
                    } else {
                        POLL_TIMEOUT
                    }
                }
            },
        }
    }

    /// One turn of the loop: takes the key that came in, if any did, and
    /// says what is to be done at `now`.
    pub fn step(&mut self, key: Option<Key>, now: u64, max_cores: usize) -> (action: Action)
        ensures
            (*final(self), action) == old(self).stepped(key, now, max_cores),
            old(self).state == LoopState::ShuttingDown ==> action == Action::Exit && *final(self)
                == *old(self),
            (action == Action::Exit) == (final(self).state == LoopState::ShuttingDown),
            final(self).state == LoopState::ShuttingDown ==> old(self).state
                == LoopState::ShuttingDown || asks_to_quit(key),
            final(self).tick_interval == old(self).tick_interval,
    {
        if self.is_shutting_down() {
            return Action::Exit;
        }
        match key {
            Some(Key::Char('q')) => {
                self.state = LoopState::ShuttingDown;
                return Action::Exit;
            },
            Some(other) => {
                let _ = self.tui.handle_input(other, now, max_cores);
            },
            None => {},
        }
        let due: bool = match self.tui.last_tick {
            None => true,
            Some(_) => elapsed(self.tui.last_tick, now) >= self.tick_interval,
        };
        if due {
            self.tui.last_tick = Some(now);
            self.tui.redraw_needed = false;
            Action::Refresh
        } else if self.tui.redraw_needed {
            self.tui.redraw_needed = false;
            Action::Redraw
        } else {
            Action::Idle
        }
    }
}

/// A loop that has shut down stays as it is, whatever the turns bring.
pub proof fn lemma_shutdown_is_final(
    render_loop: RenderLoop,
    turns: Seq<(Option<Key>, u64, usize)>,
)
    requires
        render_loop.state == LoopState::ShuttingDown,
    ensures
        render_loop.stepped_all(turns) == render_loop,
    decreases turns.len(),
{
    if turns.len() > 0 {
        lemma_shutdown_is_final(render_loop, turns.drop_last());
    }
}

/// A running loop shuts down if and only if one of its turns brings the
/// key that quits: no reading of the clock ends it.
pub proof fn lemma_only_quit_shuts_down(
    render_loop: RenderLoop,
    turns: Seq<(Option<Key>, u64, usize)>,
)
    requires
        render_loop.state == LoopState::Running,
    ensures
        (render_loop.stepped_all(turns).state == LoopState::ShuttingDown) == quit_among(turns),
        render_loop.stepped_all(turns).tick_interval == render_loop.tick_interval,
    decreases turns.len(),
{
    if turns.len() > 0 {
        let front = turns.drop_last();
        lemma_only_quit_shuts_down(render_loop, front);
        if quit_among(front) {
            let i = choose|i: int| 0 <= i < front.len() && asks_to_quit((#[trigger] front[i]).0);
            assert(turns[i] == front[i]);
        }
        if quit_among(turns) && !quit_among(front) {
            let i = choose|i: int| 0 <= i < turns.len() && asks_to_quit((#[trigger] turns[i]).0);
            if i < front.len() {
                assert(turns[i] == front[i]);
            }
        }
        if asks_to_quit(turns.last().0) {
            assert(turns[turns.len() - 1] == turns.last());
        }
    }
}

} // verus!
