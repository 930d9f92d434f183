//! The engine's announced state and the configuration of its source.

use super::units::{Decibels, Hertz};
use vstd::prelude::*;

verus! {

/// Sample rate that a file source is declared with when only its path is
/// given.
pub const FILE_SAMPLE_RATE_HZ: u64 = 3_200_000;

/// Configuration for the signal source.
#[derive(Debug, PartialEq, Eq)]
pub enum SourceConfig {
    /// Generate a test signal: a tone at `signal_freq`.
    SignalGenerator { sample_rate: Hertz, signal_freq: Hertz, amplitude: Decibels },
    /// Read IQ samples from the file at `path`.
    File { path: String, sample_rate: Hertz },
}

impl Clone for SourceConfig {
    fn clone(&self) -> (r: Self)
        ensures
            r == *self,
    {
        match self {
            SourceConfig::SignalGenerator { sample_rate, signal_freq, amplitude } => {
                SourceConfig::SignalGenerator {
                    sample_rate: *sample_rate,
                    signal_freq: *signal_freq,
                    amplitude: *amplitude,
                }
            },
            SourceConfig::File { path, sample_rate } => {
                SourceConfig::File { path: path.clone(), sample_rate: *sample_rate }
            },
        }
    }
}

impl Default for SourceConfig {
    /// The test tone: 10 kHz at 0 dB, sampled at 48 kHz.
    fn default() -> (r: Self)
        ensures
            r == SourceConfig::spec_default(),
    {
        SourceConfig::SignalGenerator {
            sample_rate: Hertz(48_000),
            signal_freq: Hertz(10_000),
            amplitude: Decibels(0),
        }
    }
}

impl SourceConfig {
    /// The configuration used when nothing else is asked for.
    pub open spec fn spec_default() -> SourceConfig {
        SourceConfig::SignalGenerator {
            sample_rate: Hertz(48_000),
            signal_freq: Hertz(10_000),
            amplitude: Decibels(0),
        }
    }

    /// The sample rate the configuration declares, whichever source it names.
    pub open spec fn spec_sample_rate(self) -> Hertz {
        match self {
            SourceConfig::SignalGenerator { sample_rate, .. } => sample_rate,
            SourceConfig::File { sample_rate, .. } => sample_rate,
        }
    }

    /// The configuration selected by an optional file argument.
    pub open spec fn spec_from_argument(path: Option<String>) -> SourceConfig {
        match path {
            Some(path) => SourceConfig::File { path, sample_rate: Hertz(FILE_SAMPLE_RATE_HZ) },
            None => SourceConfig::spec_default(),
        }
    }

    /// The sample rate the configuration declares.
    pub fn sample_rate(&self) -> (r: Hertz)
        ensures
            r == self.spec_sample_rate(),
    {
        match self {
            SourceConfig::SignalGenerator { sample_rate, .. } => *sample_rate,
            SourceConfig::File { sample_rate, .. } => *sample_rate,
        }
    }

    /// Selects the source from the one optional argument of the program: a
    /// path names a file, read at the fixed declared rate; no path selects
    /// the default test tone.
    pub fn from_argument(path: Option<String>) -> (r: SourceConfig)
        ensures
            r == SourceConfig::spec_from_argument(path),
    {
        match path {
            Some(path) => SourceConfig::File { path, sample_rate: Hertz(FILE_SAMPLE_RATE_HZ) },
            None => SourceConfig::default(),
        }
    }
}

/// Current state of the engine, announced once for every pipeline it builds.
#[derive(Debug, PartialEq, Eq)]
pub struct EngineState {
    /// Center frequency.
    pub center_frequency: Hertz,
    /// Sample rate in effect.
    pub sample_rate: Hertz,
    /// Number of bins in every frame that follows.
    pub fft_size: usize,
    /// The source the pipeline was built from.
    pub source_config: SourceConfig,
}

impl Clone for EngineState {
    fn clone(&self) -> (r: Self)
        ensures
            r == *self,
    {
        EngineState {
            center_frequency: self.center_frequency,
            sample_rate: self.sample_rate,
            fft_size: self.fft_size,
            source_config: self.source_config.clone(),
        }
    }
}

} // verus!
