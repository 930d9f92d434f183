//! Events sent from the engine to the display.

use super::state::EngineState;
use vstd::prelude::*;

verus! {

/// An event for the display. `S` is the type of one spectrum bin: the
/// engine emits raw magnitudes, the display takes levels.
#[derive(Debug, PartialEq)]
pub enum Event<S> {
    /// The state of a pipeline that was just built. It comes before every
    /// frame of that pipeline.
    StateSnapshot(EngineState),
    /// One frame of spectrum bins, as long as the announced frame size.
    SpectrumData(Vec<S>),
}

} // verus!
