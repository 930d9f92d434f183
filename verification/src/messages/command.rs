//! Commands sent from the display to the engine.

use super::state::SourceConfig;
use vstd::prelude::*;

verus! {

/// A command for the engine. Commands are handled strictly in the order in
/// which they arrive, and each one ends the pipeline that is running.
#[derive(Debug, PartialEq, Eq)]
pub enum Command {
    /// Stop the engine and tear the pipeline down.
    Stop,
    /// Change the input source: the engine stops the pipeline, rebuilds it
    /// from the new configuration and starts again.
    ChangeSource(SourceConfig),
}

impl Clone for Command {
    fn clone(&self) -> (r: Self)
        ensures
            r == *self,
    {
        match self {
            Command::Stop => Command::Stop,
            Command::ChangeSource(config) => Command::ChangeSource(config.clone()),
        }
    }
}

} // verus!
