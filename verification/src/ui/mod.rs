//! The display side: raster model and control panel.

pub mod control_panel;
pub mod state;
pub mod waterfall;

pub use control_panel::{ControlPanel, SourceType};
pub use state::{FrameError, UiState};
pub use waterfall::{Waterfall, WaterfallTexture};
