//! The display state: what the display has learned from the engine.
//!
//! The state takes the engine's events one by one. A snapshot is kept as
//! the engine's current state, and the control panel shows the source it
//! names. A frame becomes the newest row of the waterfall, if it is as long
//! as the last snapshot said frames would be. A frame of another length, or
//! one that comes before any snapshot, is rejected: the state stays as it
//! was, and the caller is told why.

use crate::messages::event::Event;
use crate::messages::state::EngineState;
use crate::messages::units::Decibels;
use crate::ui::control_panel::{ControlPanel, ControlPanelView};
use crate::ui::waterfall::{Waterfall, WaterfallView};
use vstd::prelude::*;

verus! {

/// Why a frame was rejected.
#[derive(Debug, Clone, Copy, PartialEq, Eq, Structural)]
pub enum FrameError {
    /// No snapshot has come yet, so no frame size is known.
    NoSnapshot,
    /// The frame is not as long as the last snapshot announced.
    WidthMismatch { expected: usize, got: usize },
}

/// Local display state derived from engine events.
pub struct UiState {
    /// Current engine state, from the last snapshot.
    pub engine_state: Option<EngineState>,
    /// The control panel.
    pub control_panel: ControlPanel,
    /// The waterfall raster.
    pub waterfall: Waterfall,
}

/// The display state as a value.
pub struct UiStateView {
    /// Current engine state, from the last snapshot.
    pub engine_state: Option<EngineState>,
    /// The control panel.
    pub control_panel: ControlPanelView,
    /// The waterfall raster.
    pub waterfall: WaterfallView,
}

impl UiStateView {
    /// What the state answers to `event`: a frame is accepted when a
    /// snapshot has come and the frame is as long as it announced.
    pub open spec fn verdict(self, event: Event<Decibels>) -> Result<(), FrameError> {
        match event {
            Event::StateSnapshot(_) => Ok(()),
            Event::SpectrumData(data) => match self.engine_state {
                None => Err(FrameError::NoSnapshot),
                Some(state) => if data@.len() == state.fft_size {
                    Ok(())
                } else {
                    Err(FrameError::WidthMismatch { expected: state.fft_size, got: data.len() })
                },
            },
        }
    }

    /// The state after `event`. A snapshot replaces the engine state and is
    /// shown by the control panel; the waterfall is left as it is. A frame
    /// that is accepted goes into the waterfall; one that is rejected
    /// changes nothing.
    pub open spec fn handle_event(self, event: Event<Decibels>) -> UiStateView {
        match event {
            Event::StateSnapshot(state) => UiStateView {
                engine_state: Some(state),
                control_panel: ControlPanelView::showing(state.source_config),
                waterfall: self.waterfall,
            },
            Event::SpectrumData(data) => if self.verdict(event) is Ok {
                UiStateView { waterfall: self.waterfall.insert(data@), ..self }
            } else {
                self
            },
        }
    }
}

impl View for UiState {
    type V = UiStateView;

    open spec fn view(&self) -> UiStateView {
        UiStateView {
            engine_state: self.engine_state,
            control_panel: self.control_panel@,
            waterfall: self.waterfall@,
        }
    }
}

impl UiState {
    /// The state before any event: no engine state, a blank waterfall of
    /// the default size, the control panel at its default.
    pub fn new() -> (r: UiState)
        ensures
            r.engine_state is None,
            r.control_panel@ == ControlPanel::new_view(),
            r.waterfall@ == Waterfall::new_view(),
    {
        UiState {
            engine_state: None,
            control_panel: ControlPanel::new(),
            waterfall: Waterfall::new(),
        }
    }

    /// Takes in one event from the engine and tells whether it was
    /// accepted.
    pub fn handle_event(&mut self, event: Event<Decibels>) -> (r: Result<(), FrameError>)
        ensures
            r == old(self)@.verdict(event),
            final(self)@ == old(self)@.handle_event(event),
    {
        match event {
            Event::StateSnapshot(state) => {
                self.control_panel.update_from_engine_state(&state.source_config);
                self.engine_state = Some(state);
                Ok(())
            },
            Event::SpectrumData(data) => { self.handle_spectrum_update(&data) },
        }
    }

    /// Takes in one frame.
    fn handle_spectrum_update(&mut self, data: &Vec<Decibels>) -> (r: Result<(), FrameError>)
        ensures
            r == old(self)@.verdict(Event::SpectrumData(*data)),
            final(self)@ == old(self)@.handle_event(Event::SpectrumData(*data)),
    {
        let expected = match &self.engine_state {
            None => {
                return Err(FrameError::NoSnapshot);
            },
            Some(state) => state.fft_size,
        };
        if data.len() != expected {
            return Err(FrameError::WidthMismatch { expected, got: data.len() });
        }
        self.waterfall.insert_spectrum_line(data.as_slice());
        Ok(())
    }
}

} // verus!
