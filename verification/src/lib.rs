//! Coordination core of a live spectrum waterfall.
//!
//! The crate holds the three pieces that decide how a stream of spectrum
//! frames becomes a scrolling picture, and leaves every side effect to its
//! caller:
//!
//! * [`engine`] is the lifecycle of the processing pipeline as a state
//!   machine that is told what happened and answers what to do next, and the
//!   framing stage that cuts the pipeline's output into frames;
//! * [`ui`] is the display state: the bounded raster, its normalization
//!   range and the operator's control panel;
//! * [`messages`] are the values the two sides exchange.

pub mod engine;
pub mod messages;
pub mod ui;
