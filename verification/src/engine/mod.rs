//! The engine side: pipeline lifecycle, framing, and the file format of its
//! sample source.

pub mod lifecycle;
pub mod sdr;
pub mod sinks;

pub use lifecycle::{Directive, Engine, EngineError, Occurrence, PollOutcome, Stage};
