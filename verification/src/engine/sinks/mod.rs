//! Stages at the tail of the pipeline.

pub mod spectrum;

pub use spectrum::SpectrumSink;
