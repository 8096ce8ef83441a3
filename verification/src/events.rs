//! Events: what handlers report to the context, and what the pipeline
//! announces to its observer.

use vstd::prelude::*;
use crate::channels::{ImpedanceSample, SignalWindow};

verus! {

/// The pipeline core has started.
#[derive(Debug)]
pub struct InitializedCoreEvent;

/// The headband is connected.
#[derive(Debug)]
pub struct HeadsetConnectedEvent;

/// The headband is not, or no longer, connected.
#[derive(Debug)]
pub struct HeadsetDisconnectedEvent;

/// Calibration goes on; carries the latest impedance sample.
#[derive(Debug)]
pub struct HeadsetCalibratingEvent {
    pub impedance_data: ImpedanceSample,
}

/// Every electrode is within the calibrated range.
#[derive(Debug)]
pub struct HeadsetCalibratedEvent {
    pub impedance_data: Vec<u8>,
}

/// One captured window with the consensus label at that moment.
#[derive(Debug)]
pub struct CapturedHeadsetDataEvent<T> {
    pub headset_data: SignalWindow<T>,
    pub color_thinking: String,
}

impl InitializedCoreEvent {
    pub const NAME: &'static str = "initialized-core";
}

impl HeadsetConnectedEvent {
    pub const NAME: &'static str = "headset-connected";
}

impl HeadsetDisconnectedEvent {
    pub const NAME: &'static str = "headset-disconnected";
}

impl HeadsetCalibratingEvent {
    pub const NAME: &'static str = "headset-calibrating";
}

impl HeadsetCalibratedEvent {
    pub const NAME: &'static str = "headset-calibrated";
}

impl<T> CapturedHeadsetDataEvent<T> {
    pub const NAME: &'static str = "captured-headset-data";
}

/// The payload of an announced event. At most one of the impedance sample
/// and the signal window is present; the label accompanies a window.
#[derive(Debug)]
pub struct EventData<T> {
    pub headset_data: Option<SignalWindow<T>>,
    pub color_thinking: Option<String>,
    pub impedance_data: Option<ImpedanceSample>,
}

impl<T> EventData<T> {
    /// The payload of an event that carries nothing.
    pub fn empty() -> (out: Self)
        ensures
            out.headset_data is None,
            out.color_thinking is None,
            out.impedance_data is None,
    {
        EventData { headset_data: None, color_thinking: None, impedance_data: None }
    }

    /// The payload of the calibrating announcement: the sample alone.
    pub fn calibrating(impedance_data: ImpedanceSample) -> (out: Self)
        ensures
            out.headset_data is None,
            out.color_thinking is None,
            out.impedance_data == Some(impedance_data),
    {
        EventData { headset_data: None, color_thinking: None, impedance_data: Some(impedance_data) }
    }

    /// The payload of the captured-data announcement: the window and the
    /// consensus label.
    pub fn captured(headset_data: SignalWindow<T>, color_thinking: String) -> (out: Self)
        ensures
            out.headset_data == Some(headset_data),
            out.color_thinking == Some(color_thinking),
            out.impedance_data is None,
    {
        EventData {
            headset_data: Some(headset_data),
            color_thinking: Some(color_thinking),
            impedance_data: None,
        }
    }
}

/// What a handler reports back; the dispatcher folds each into the context.
#[derive(Debug)]
pub enum InternalEvent<T> {
    /// A calibration poll returned this impedance sample.
    ReceivedCalibrationData(ImpedanceSample),
    /// A signal read returned this window.
    ReceivedGeneralistData(SignalWindow<T>),
    /// The classifier returned this label.
    ReceivedPredictColorThinkingData(String),
}

/// The events a handler returned, in order.
#[derive(Debug)]
pub struct Events<T> {
    pub items: Vec<InternalEvent<T>>,
}

impl<T> Events<T> {
    /// No event.
    pub fn new() -> (out: Self)
        ensures
            out.items@.len() == 0,
    {
        Events { items: Vec::new() }
    }

    /// Appends `event`.
    pub fn add(&mut self, event: InternalEvent<T>)
        ensures
            final(self).items@ == old(self).items@.push(event),
    {
        self.items.push(event);
    }
}

/// What the state machine is told.
#[derive(Debug)]
pub enum NeuralAnalyticsCoreEvents {
    InitializeCore,
    BackgroundTick,
    InitializedCore,
    HeadsetConnected,
    HeadsetDisconnected,
    HeadsetCalibrated,
    HeadsetCalibrating,
    DataCaptureStarted,
    CapturedHeadsetData,
}

} // verus!
