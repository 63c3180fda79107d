//! A live, single-host resource dashboard: the sampling engine that turns raw
//! counters into rates, means and percentages, the bounded sample history, the
//! interactive dashboard state and the scheduling of the render loop.
//!
//! The library works on plain values. A caller reads the host's counters, the
//! clock and the keyboard, hands them in, and draws the panels that come back.

pub mod cli;
pub mod error;
pub mod history;
pub mod monitor;
pub mod table;
pub mod text;
pub mod ui;
