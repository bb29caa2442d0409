//! A classroom session timer: a verified state machine that alternates class
//! and rest phases and schedules audio cues, and the command vocabulary that
//! controls a playback worker.

pub mod command;
pub mod laws;
pub mod session;

pub use command::{
    delivery, lock, lock_send, send, worker_decision, Delivery, PlayerCommand, SinkControl,
};
pub use session::{rand_sleep, Action, ClassTicker, Cue, SessionLoop, Stage, TickerView};
