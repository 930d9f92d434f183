//! The operator's control panel: the source configuration being edited.
//!
//! The panel holds a configuration that the operator may change field by
//! field, and hands it out as a command when the operator applies it. From
//! then until the engine announces its state, the panel waits and offers
//! nothing to apply.

use crate::messages::command::Command;
use crate::messages::state::{SourceConfig, FILE_SAMPLE_RATE_HZ};
use crate::messages::units::{Decibels, Hertz};
use vstd::prelude::*;

verus! {

/// Which kind of source is selected.
#[derive(Debug, Clone, Copy, PartialEq, Eq, Structural)]
pub enum SourceType {
    /// The built-in test tone.
    SignalGenerator,
    /// A file of IQ samples.
    File,
}

impl SourceType {
    /// The name of the kind as the operator reads it.
    pub open spec fn spec_label(self) -> Seq<char> {
        match self {
            SourceType::SignalGenerator => "Signal Generator"@,
            SourceType::File => "IQ File"@,
        }
    }

    /// The kind of source that `config` configures.
    pub open spec fn spec_from_config(config: SourceConfig) -> SourceType {
        match config {
            SourceConfig::SignalGenerator { .. } => SourceType::SignalGenerator,
            SourceConfig::File { .. } => SourceType::File,
        }
    }

    /// Whether `config` is what a kind starts with when the operator selects
    /// it: the default tone, or a file with no path yet at the fixed
    /// declared rate.
    pub open spec fn spec_is_initial_config(self, config: SourceConfig) -> bool {
        match self {
            SourceType::SignalGenerator => config == SourceConfig::spec_default(),
            SourceType::File => config matches SourceConfig::File { path, sample_rate }
                && path@.len() == 0 && sample_rate == Hertz(FILE_SAMPLE_RATE_HZ),
        }
    }

    /// The name of the kind as the operator reads it.
    pub fn label(&self) -> (r: &'static str)
        ensures
            r@ == self.spec_label(),
    {
        match self {
            SourceType::SignalGenerator => "Signal Generator",
            SourceType::File => "IQ File",
        }
    }

    /// The kind of source that `config` configures.
    pub fn from_config(config: &SourceConfig) -> (r: SourceType)
        ensures
            r == SourceType::spec_from_config(*config),
    {
        match config {
            SourceConfig::SignalGenerator { .. } => SourceType::SignalGenerator,
            SourceConfig::File { .. } => SourceType::File,
        }
    }
}

/// The panel as a value.
pub struct ControlPanelView {
    /// The configuration as the operator has edited it.
    pub pending_config: SourceConfig,
    /// Whether the operator changed something that was not applied yet.
    pub has_pending_changes: bool,
    /// Whether a configuration was applied that the engine has not
    /// announced yet.
    pub waiting_for_apply: bool,
}

impl ControlPanelView {
    /// The panel that shows `config` as the engine runs it.
    pub open spec fn showing(config: SourceConfig) -> ControlPanelView {
        ControlPanelView {
            pending_config: config,
            has_pending_changes: false,
            waiting_for_apply: false,
        }
    }

    /// Whether the fields may be edited.
    pub open spec fn fields_enabled(self) -> bool {
        !self.waiting_for_apply
    }

    /// Whether there is something to apply.
    pub open spec fn can_apply(self) -> bool {
        self.has_pending_changes && !self.waiting_for_apply
    }

    /// Whether `after` is the panel after the operator selected the kind
    /// `new_type`. Selecting the kind that is shown changes nothing. Another
    /// kind starts from its initial configuration, which is a change to
    /// apply.
    pub open spec fn switches_to(self, new_type: SourceType, after: ControlPanelView) -> bool {
        if new_type == SourceType::spec_from_config(self.pending_config) {
            after == self
        } else {
            &&& new_type.spec_is_initial_config(after.pending_config)
            &&& after.has_pending_changes
            &&& after.waiting_for_apply == self.waiting_for_apply
        }
    }

    /// The panel after the operator set the sample rate.
    pub open spec fn set_sample_rate(self, rate: Hertz) -> ControlPanelView {
        ControlPanelView {
            pending_config: match self.pending_config {
                SourceConfig::SignalGenerator {
                    signal_freq,
                    amplitude,
                    ..
                } => SourceConfig::SignalGenerator { sample_rate: rate, signal_freq, amplitude },
                SourceConfig::File { path, .. } => SourceConfig::File { path, sample_rate: rate },
            },
            has_pending_changes: true,
            ..self
        }
    }

    /// The panel after the operator set the frequency of the tone. A file
    /// has no such field.
    pub open spec fn set_signal_freq(self, freq: Hertz) -> ControlPanelView {
        match self.pending_config {
            SourceConfig::SignalGenerator { sample_rate, amplitude, .. } => ControlPanelView {
                pending_config: SourceConfig::SignalGenerator {
                    sample_rate,
                    signal_freq: freq,
                    amplitude,
                },
                has_pending_changes: true,
                ..self
            },
            SourceConfig::File { .. } => self,
        }
    }

    /// The panel after the operator set the amplitude of the tone. A file
    /// has no such field.
    pub open spec fn set_amplitude(self, amplitude: Decibels) -> ControlPanelView {
        match self.pending_config {
            SourceConfig::SignalGenerator { sample_rate, signal_freq, .. } => ControlPanelView {
                pending_config: SourceConfig::SignalGenerator {
                    sample_rate,
                    signal_freq,
                    amplitude,
                },
                has_pending_changes: true,
                ..self
            },
            SourceConfig::File { .. } => self,
        }
    }

    /// The panel after the operator set the path of the file. The tone has
    /// no such field.
    pub open spec fn set_path(self, path: String) -> ControlPanelView {
        match self.pending_config {
            SourceConfig::SignalGenerator { .. } => self,
            SourceConfig::File { sample_rate, .. } => ControlPanelView {
                pending_config: SourceConfig::File { path, sample_rate },
                has_pending_changes: true,
                ..self
            },
        }
    }

    /// The command that applying hands to the engine, if there is something
    /// to apply.
    pub open spec fn applied_command(self) -> Option<Command> {
        if self.can_apply() {
            Some(Command::ChangeSource(self.pending_config))
        } else {
            None
        }
    }

    /// The panel after the operator applied: it waits for the engine when
    /// there was something to apply.
    pub open spec fn apply(self) -> ControlPanelView {
        if self.can_apply() {
            ControlPanelView { waiting_for_apply: true, ..self }
        } else {
            self
        }
    }
}

/// Control panel for configuring the input source.
pub struct ControlPanel {
    pending_config: SourceConfig,
    has_pending_changes: bool,
    waiting_for_apply: bool,
}

impl View for ControlPanel {
    type V = ControlPanelView;

    closed spec fn view(&self) -> ControlPanelView {
        ControlPanelView {
            pending_config: self.pending_config,
            has_pending_changes: self.has_pending_changes,
            waiting_for_apply: self.waiting_for_apply,
        }
    }
}

impl ControlPanel {
    /// The panel before the operator or the engine touched it.
    pub open spec fn new_view() -> ControlPanelView {
        ControlPanelView::showing(SourceConfig::spec_default())
    }

    /// A panel that shows the default configuration with nothing to apply.
    pub fn new() -> (r: ControlPanel)
        ensures
            r@ == ControlPanel::new_view(),
    {
        ControlPanel {
            pending_config: SourceConfig::default(),
            has_pending_changes: false,
            waiting_for_apply: false,
        }
    }

    /// Takes over the configuration that the engine announced: the panel
    /// shows it, edits that were not applied are gone, and the wait for the
    /// engine is over.
    pub fn update_from_engine_state(&mut self, config: &SourceConfig)
        ensures
            final(self)@ == ControlPanelView::showing(*config),
    {
        self.pending_config = config.clone();
        self.has_pending_changes = false;
        self.waiting_for_apply = false;
    }

    /// The configuration as the operator has edited it.
    pub fn pending_config(&self) -> (r: &SourceConfig)
        ensures
            *r == self@.pending_config,
    {
        &self.pending_config
    }

    /// Whether the operator changed something that was not applied yet.
    pub fn has_pending_changes(&self) -> (r: bool)
        ensures
            r == self@.has_pending_changes,
    {
        self.has_pending_changes
    }

    /// Whether a configuration was applied that the engine has not announced
    /// yet.
    pub fn waiting_for_apply(&self) -> (r: bool)
        ensures
            r == self@.waiting_for_apply,
    {
        self.waiting_for_apply
    }

    /// Whether the fields may be edited: not while the panel waits for the
    /// engine.
    pub fn fields_enabled(&self) -> (r: bool)
        ensures
            r == self@.fields_enabled(),
    {
        !self.waiting_for_apply
    }

    /// Whether there is something to apply: a change, and no wait for the
    /// engine.
    pub fn can_apply(&self) -> (r: bool)
        ensures
            r == self@.can_apply(),
    {
        self.has_pending_changes && !self.waiting_for_apply
    }

    /// The kind of source the panel shows.
    pub fn current_source_type(&self) -> (r: SourceType)
        ensures
            r == SourceType::spec_from_config(self@.pending_config),
    {
        SourceType::from_config(&self.pending_config)
    }

    /// Selects another kind of source. The fields start from the initial
    /// configuration of that kind, and there is a change to apply. Selecting
    /// the kind that is shown changes nothing.
    pub fn switch_source_type(&mut self, new_type: SourceType)
        ensures
            old(self)@.switches_to(new_type, final(self)@),
    {
        let current_type = self.current_source_type();
        if new_type == current_type {
            return ;
        }
        self.pending_config =
        match new_type {
            SourceType::SignalGenerator => SourceConfig::default(),
            SourceType::File => SourceConfig::File {
                path: String::new(),
                sample_rate: Hertz(FILE_SAMPLE_RATE_HZ),
            },
        };
        self.has_pending_changes = true;
    }

    /// Sets the sample rate of the source.
    pub fn set_sample_rate(&mut self, rate: Hertz)
        ensures
            final(self)@ == old(self)@.set_sample_rate(rate),
    {
        self.pending_config =
        match &self.pending_config {
            SourceConfig::SignalGenerator {
                signal_freq,
                amplitude,
                ..
            } => SourceConfig::SignalGenerator {
                sample_rate: rate,
                signal_freq: *signal_freq,
                amplitude: *amplitude,
            },
            SourceConfig::File { path, .. } => SourceConfig::File {
                path: path.clone(),
                sample_rate: rate,
            },
        };
        self.has_pending_changes = true;
    }

    /// Sets the frequency of the tone. Nothing changes while the panel shows
    /// a file.
    pub fn set_signal_freq(&mut self, freq: Hertz)
        ensures
            final(self)@ == old(self)@.set_signal_freq(freq),
    {
        match &self.pending_config {
            SourceConfig::SignalGenerator { sample_rate, amplitude, .. } => {
                self.pending_config =
                SourceConfig::SignalGenerator {
                    sample_rate: *sample_rate,
                    signal_freq: freq,
                    amplitude: *amplitude,
                };
                self.has_pending_changes = true;
            },
            SourceConfig::File { .. } => {},
        }
    }

    /// Sets the amplitude of the tone. Nothing changes while the panel shows
    /// a file.
    pub fn set_amplitude(&mut self, amplitude: Decibels)
        ensures
            final(self)@ == old(self)@.set_amplitude(amplitude),
    {
        match &self.pending_config {
            SourceConfig::SignalGenerator { sample_rate, signal_freq, .. } => {
                self.pending_config =
                SourceConfig::SignalGenerator {
                    sample_rate: *sample_rate,
                    signal_freq: *signal_freq,
                    amplitude,
                };
                self.has_pending_changes = true;
            },
            SourceConfig::File { .. } => {},
        }
    }

    /// Sets the path of the file. Nothing changes while the panel shows the
    /// tone.
    pub fn set_path(&mut self, path: String)
        ensures
            final(self)@ == old(self)@.set_path(path),
    {
        match &self.pending_config {
            SourceConfig::SignalGenerator { .. } => {},
            SourceConfig::File { sample_rate, .. } => {
                self.pending_config = SourceConfig::File { path, sample_rate: *sample_rate };
                self.has_pending_changes = true;
            },
        }
    }

    /// Applies the edited configuration. When there is something to apply,
    /// the result is the command to send to the engine, and the panel waits
    /// until the engine announces its state. Else nothing happens and there
    /// is no command.
    pub fn apply(&mut self) -> (r: Option<Command>)
        ensures
            r == old(self)@.applied_command(),
            final(self)@ == old(self)@.apply(),
    {
        if self.can_apply() {
            self.waiting_for_apply = true;
            Some(Command::ChangeSource(self.pending_config.clone()))
        } else {
            None
        }
    }
}

} // verus!
