//! Values exchanged between the engine and the display.

pub mod command;
pub mod event;
pub mod state;
pub mod units;

pub use command::Command;
pub use event::Event;
pub use state::{EngineState, SourceConfig};
pub use units::{Decibels, Hertz};
