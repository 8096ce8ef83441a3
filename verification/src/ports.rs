//! The capabilities the pipeline needs from its collaborators.
//!
//! Nothing is promised of what an implementation answers: a device may fail
//! or drop its link at any call, so whatever these methods return is taken as
//! it comes and the pipeline is verified for every answer.

use vstd::prelude::*;
use crate::channels::{ImpedanceSample, SignalWindow};
use crate::events::EventData;
use crate::models::{BulbState, WorkMode};

verus! {

/// The headband: connection, mode switching, impedance and signal reads.
pub trait EegHeadsetPort<T> {
    /// Opens the session with the device.
    fn connect(&self) -> Result<(), String>;

    /// Whether the device is there and sending.
    fn is_connected(&self) -> bool;

    /// Closes the session.
    fn disconnect(&mut self) -> Result<(), String>;

    /// One impedance poll; meaningful only in `WorkMode::Calibration`.
    fn extract_impedance_data(&mut self) -> Result<ImpedanceSample, String>;

    /// One burst of signal; meaningful only in `WorkMode::Extraction`.
    fn extract_raw_data(&mut self) -> Result<SignalWindow<T>, String>;

    /// Asks the device to switch to `mode`; on failure the old mode stays.
    fn change_work_mode(&mut self, mode: WorkMode);

    /// The mode the device is in.
    fn get_work_mode(&self) -> WorkMode;
}

/// The smart bulb.
pub trait SmartBulbPort {
    /// Switches the bulb on or off.
    fn change_state(&self, state: BulbState) -> Result<(), String>;
}

/// The classifier.
pub trait ModelInferenceInterface<T> {
    /// The color label the window is classified as.
    fn predict_color(&self, eeg_data: &SignalWindow<T>) -> Result<String, String>;

    /// Whether a model is loaded and predictions can be made.
    fn is_model_loaded(&self) -> bool;
}

/// The observer that receives the pipeline's events.
pub trait EventSink<T> {
    /// Hands one named event with its payload to the observer.
    fn deliver(&self, event: &String, data: &EventData<T>) -> Result<(), String>;
}

} // verus!
