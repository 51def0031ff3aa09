//! Decision engine of a memory-watching auto splitter.
//!
//! Once per poll tick the host samples a handful of values from the memory of
//! a running game. This crate turns those samples into verdicts for an
//! external timer: when a run starts, when a segment is split, and what the
//! continuous in-game time is. Every function is verified against a contract
//! stated over a mathematical model of the watched values.
//!
//! The crate reads no memory and calls no timer. The host hands it a
//! [`Sample`] and the timer's state, and performs the [`TimerAction`]s it
//! gets back:
//!
//! * [`watcher`] holds the change-tracking cell that remembers the last two
//!   observations of a signal;
//! * [`snapshot`] holds the watched signals of a session and their refresh,
//!   which also reconstructs a clock that never runs backward from an in-game
//!   clock that does;
//! * [`verdict`] decides start, split, reset, loading and the game time;
//! * [`control`] orders the calls on the timer within a tick.

pub mod control;
pub mod duration;
pub mod offsets;
pub mod settings;
pub mod snapshot;
pub mod verdict;
pub mod watcher;

pub use control::{on_tick, tick, TimerAction};
pub use duration::Duration;
pub use offsets::Offsets;
pub use settings::Settings;
pub use snapshot::{update_loop, Sample, Snapshot, TimerState, Watchers};
pub use verdict::{game_time, is_loading, reset, split, start};
pub use watcher::{Pair, Watcher};
