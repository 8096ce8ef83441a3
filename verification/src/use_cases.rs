//! The six handlers and the dispatcher that runs them.
//!
//! A handler talks to one collaborator of the context and reports what it
//! learned as events; it never touches the data fields itself. What a
//! collaborator answers is not known in advance, so each handler states the
//! outcomes it can have, and the small functions it is built from state the
//! outcome for every answer.

use vstd::prelude::*;
use crate::channels::{ImpedanceSample, SignalWindow};
use crate::commands::{
    DisconnectHeadbandCommand, ExtractCalibrationDataCommand, ExtractGeneralistDataCommand,
    PredictColorThinkingCommand, SearchHeadbandCommand, UpdateLightStatusCommand,
};
use crate::context::NeuralAnalyticsContext;
use crate::errors::CommandError;
use crate::events::{Events, InternalEvent};
use crate::models::{bulb_state_for, WorkMode};
use crate::ports::{EegHeadsetPort, ModelInferenceInterface, SmartBulbPort};
use crate::text::{concat2, lemma_concat_starts_with, starts_with};

verus! {

/// The device refused to open a session.
pub open spec fn connect_failed_prefix() -> Seq<char> {
    "Error connecting to the device: "@
}

/// The session was opened, yet the device does not answer.
pub open spec fn not_connected_after_connect_message() -> Seq<char> {
    "Error: Device is not connected or is not sending data. Connect first."@
}

/// The device refused to close the session.
pub open spec fn disconnect_failed_prefix() -> Seq<char> {
    "Error disconnecting from the device: "@
}

/// The session was closed, yet the device still answers.
pub open spec fn still_connected_message() -> Seq<char> {
    "Error: Device is not disconnected or is sending data. Disconnect first."@
}

/// A read was asked of a device that is not connected.
pub open spec fn not_connected_message() -> Seq<char> {
    "Error: Device is not connected. Connect first."@
}

/// The impedance read failed.
pub open spec fn calibration_failed_prefix() -> Seq<char> {
    "Error extracting calibration data from device: "@
}

/// The signal read failed.
pub open spec fn extraction_failed_prefix() -> Seq<char> {
    "Error extracting data from device: "@
}

/// A prediction was asked while the context holds no signal window.
pub open spec fn no_signal_message() -> Seq<char> {
    "No EEG data available for prediction"@
}

/// The classifier failed.
pub open spec fn prediction_failed_prefix() -> Seq<char> {
    "Error predicting color: "@
}

/// A command error made of `prefix` and the collaborator's own `reason`.
pub fn prefixed_error(prefix: &str, reason: &str) -> (error: CommandError)
    ensures
        error.message@ == prefix@ + reason@,
        starts_with(error.message@, prefix@),
{
    proof {
        lemma_concat_starts_with(prefix@, reason@);
    }
    CommandError::new(concat2(prefix, reason))
}

/// What the search comes to on the device's first answer: done, with no
/// event and without a connection attempt, when the device answers
/// already; not settled yet when it does not.
pub fn search_first_verdict<T>(connected: bool) -> (settled: Option<Events<T>>)
    ensures
        connected ==> settled is Some && settled->0.items@.len() == 0,
        !connected ==> settled is None,
{
    if connected {
        Some(Events::new())
    } else {
        None
    }
}

/// What the disconnection comes to on the device's first answer: done,
/// with no event and without closing anything, when the device does not
/// answer; not settled yet when it does.
pub fn disconnect_first_verdict<T>(connected: bool) -> (settled: Option<Events<T>>)
    ensures
        !connected ==> settled is Some && settled->0.items@.len() == 0,
        connected ==> settled is None,
{
    if !connected {
        Some(Events::new())
    } else {
        None
    }
}

/// Whether a read may go on, by the device's answer: a device that does
/// not answer is refused.
pub fn readiness_verdict(connected: bool) -> (r: Result<(), CommandError>)
    ensures
        connected ==> r is Ok,
        !connected ==> r is Err && r->Err_0.message@ == not_connected_message(),
{
    if connected {
        Ok(())
    } else {
        Err(CommandError::new(String::from_str("Error: Device is not connected. Connect first.")))
    }
}

/// Whether a read that wants the device in `wanted` has to switch it
/// first: exactly when the device reports another mode.
pub fn needs_mode_switch(reported: WorkMode, wanted: WorkMode) -> (needed: bool)
    ensures
        needed == (reported != wanted),
{
    reported != wanted
}

/// What a connection attempt comes to once the device has been asked again
/// whether it is there: success with no event, or the error of a device
/// that still does not answer.
pub fn connection_verdict<T>(connected: bool) -> (r: Result<Events<T>, CommandError>)
    ensures
        connected ==> r is Ok && r->Ok_0.items@.len() == 0,
        !connected ==> r is Err && r->Err_0.message@ == not_connected_after_connect_message(),
{
    if connected {
        Ok(Events::new())
    } else {
        Err(
            CommandError::new(
                String::from_str(
                    "Error: Device is not connected or is not sending data. Connect first.",
                ),
            ),
        )
    }
}

/// What a disconnection comes to once the device has been asked again
/// whether it is there: success with no event, or the error of a device
/// that still answers.
pub fn disconnection_verdict<T>(connected: bool) -> (r: Result<Events<T>, CommandError>)
    ensures
        !connected ==> r is Ok && r->Ok_0.items@.len() == 0,
        connected ==> r is Err && r->Err_0.message@ == still_connected_message(),
{
    if !connected {
        Ok(Events::new())
    } else {
        Err(
            CommandError::new(
                String::from_str(
                    "Error: Device is not disconnected or is sending data. Disconnect first.",
                ),
            ),
        )
    }
}

/// What an impedance read comes to: one event with the sample, or the
/// device's reason behind the calibration prefix.
pub fn calibration_verdict<T>(read: Result<ImpedanceSample, String>) -> (r: Result<
    Events<T>,
    CommandError,
>)
    ensures
        match read {
            Ok(sample) => r is Ok && r->Ok_0.items@ == seq![
                InternalEvent::<T>::ReceivedCalibrationData(sample),
            ],
            Err(reason) => r is Err && r->Err_0.message@ == calibration_failed_prefix()
                + reason@,
        },
{
    match read {
        Ok(sample) => {
            let mut events = Events::new();
            events.add(InternalEvent::ReceivedCalibrationData(sample));
            assert(events.items@ =~= seq![InternalEvent::<T>::ReceivedCalibrationData(sample)]);
            Ok(events)
        },
        Err(reason) => Err(
            prefixed_error("Error extracting calibration data from device: ", reason.as_str()),
        ),
    }
}

/// What a signal read comes to: one event with the window, or the device's
/// reason behind the extraction prefix.
pub fn extraction_verdict<T>(read: Result<SignalWindow<T>, String>) -> (r: Result<
    Events<T>,
    CommandError,
>)
    ensures
        match read {
            Ok(window) => r is Ok && r->Ok_0.items@ == seq![
                InternalEvent::<T>::ReceivedGeneralistData(window),
            ],
            Err(reason) => r is Err && r->Err_0.message@ == extraction_failed_prefix()
                + reason@,
        },
{
    match read {
        Ok(window) => {
            let mut events = Events::new();
            events.add(InternalEvent::ReceivedGeneralistData(window));
            assert(events.items@ =~= seq![InternalEvent::<T>::ReceivedGeneralistData(window)]);
            Ok(events)
        },
        Err(reason) => Err(prefixed_error("Error extracting data from device: ", reason.as_str())),
    }
}

/// What a classification comes to: one event with the label, or the
/// classifier's reason behind the prediction prefix.
pub fn prediction_verdict<T>(predicted: Result<String, String>) -> (r: Result<
    Events<T>,
    CommandError,
>)
    ensures
        match predicted {
            Ok(label) => r is Ok && r->Ok_0.items@ == seq![
                InternalEvent::<T>::ReceivedPredictColorThinkingData(label),
            ],
            Err(reason) => r is Err && r->Err_0.message@ == prediction_failed_prefix()
                + reason@,
        },
{
    match predicted {
        Ok(label) => {
            let mut events = Events::new();
            events.add(InternalEvent::ReceivedPredictColorThinkingData(label));
            assert(events.items@ =~= seq![
                InternalEvent::<T>::ReceivedPredictColorThinkingData(label),
            ]);
            Ok(events)
        },
        Err(reason) => Err(prefixed_error("Error predicting color: ", reason.as_str())),
    }
}

/// What a bulb command comes to: success with no event when the bulb took
/// it, or the bulb's own reason as the error.
pub fn light_verdict<T>(answer: Result<(), String>) -> (r: Result<Events<T>, CommandError>)
    ensures
        match answer {
            Ok(_) => r is Ok && r->Ok_0.items@.len() == 0,
            Err(reason) => r is Err && r->Err_0.message@ == reason@,
        },
{
    match answer {
        Ok(_) => Ok(Events::new()),
        Err(reason) => Err(CommandError::new(reason)),
    }
}

/// Connects the headband. A device that already answers is left alone;
/// otherwise a session is opened and the device asked again. No event is
/// emitted, and nothing of the context changes: the headset is only asked
/// and told through a shared reference.
pub fn search_headband_use_case<T, H: EegHeadsetPort<T>, B, M>(
    context: &mut NeuralAnalyticsContext<T, H, B, M>,
    command: SearchHeadbandCommand,
) -> (r: Result<Events<T>, CommandError>)
    ensures
        *final(context) == *old(context),
        match r {
            Ok(events) => events.items@.len() == 0,
            Err(error) => error.message@ == not_connected_after_connect_message() || starts_with(
                error.message@,
                connect_failed_prefix(),
            ),
        },
{
    match search_first_verdict(context.eeg_headset_adapter.is_connected()) {
        Some(events) => {
            return Ok(events);
        },
        None => {},
    }
    match context.eeg_headset_adapter.connect() {
        Ok(_) => {},
        Err(reason) => {
            return Err(prefixed_error("Error connecting to the device: ", reason.as_str()));
        },
    }
    connection_verdict(context.eeg_headset_adapter.is_connected())
}

/// Disconnects the headband. A device that does not answer is left alone;
/// otherwise the session is closed and the device asked again. No event is
/// emitted and the data fields are not touched.
pub fn disconnect_headband_use_case<T, H: EegHeadsetPort<T>, B, M>(
    context: &mut NeuralAnalyticsContext<T, H, B, M>,
    command: DisconnectHeadbandCommand,
) -> (r: Result<Events<T>, CommandError>)
    ensures
        final(context).data == old(context).data,
        final(context).smart_bulb_adapter == old(context).smart_bulb_adapter,
        final(context).model_service == old(context).model_service,
        match r {
            Ok(events) => events.items@.len() == 0,
            Err(error) => error.message@ == still_connected_message() || starts_with(
                error.message@,
                disconnect_failed_prefix(),
            ),
        },
{
    match disconnect_first_verdict(context.eeg_headset_adapter.is_connected()) {
        Some(events) => {
            return Ok(events);
        },
        None => {},
    }
    match context.eeg_headset_adapter.disconnect() {
        Ok(_) => {},
        Err(reason) => {
            return Err(prefixed_error("Error disconnecting from the device: ", reason.as_str()));
        },
    }
    disconnection_verdict(context.eeg_headset_adapter.is_connected())
}

/// Reads one impedance sample. The device must answer; it is switched to
/// calibration mode if it is in another; the sample comes back as the one
/// event. The data fields are not touched.
pub fn extract_calibration_data_use_case<T, H: EegHeadsetPort<T>, B, M>(
    context: &mut NeuralAnalyticsContext<T, H, B, M>,
    command: ExtractCalibrationDataCommand,
) -> (r: Result<Events<T>, CommandError>)
    ensures
        final(context).data == old(context).data,
        final(context).smart_bulb_adapter == old(context).smart_bulb_adapter,
        final(context).model_service == old(context).model_service,
        match r {
            Ok(events) => events.items@.len() == 1
                && events.items@[0] is ReceivedCalibrationData,
            Err(error) => error.message@ == not_connected_message() || starts_with(
                error.message@,
                calibration_failed_prefix(),
            ),
        },
{
    match readiness_verdict(context.eeg_headset_adapter.is_connected()) {
        Err(error) => {
            return Err(error);
        },
        Ok(_) => {},
    }
    if needs_mode_switch(context.eeg_headset_adapter.get_work_mode(), WorkMode::Calibration) {
        context.eeg_headset_adapter.change_work_mode(WorkMode::Calibration);
    }
    let read = context.eeg_headset_adapter.extract_impedance_data();
    proof {
        if read is Err {
            lemma_concat_starts_with(calibration_failed_prefix(), read->Err_0@);
        }
    }
    calibration_verdict(read)
}

/// Reads one signal window. The device must answer; it is switched to
/// extraction mode if it is in another; the window comes back as the one
/// event. The data fields are not touched.
pub fn extract_generalist_data_use_case<T, H: EegHeadsetPort<T>, B, M>(
    context: &mut NeuralAnalyticsContext<T, H, B, M>,
    command: ExtractGeneralistDataCommand,
) -> (r: Result<Events<T>, CommandError>)
    ensures
        final(context).data == old(context).data,
        final(context).smart_bulb_adapter == old(context).smart_bulb_adapter,
        final(context).model_service == old(context).model_service,
        match r {
            Ok(events) => events.items@.len() == 1 && events.items@[0] is ReceivedGeneralistData,
            Err(error) => error.message@ == not_connected_message() || starts_with(
                error.message@,
                extraction_failed_prefix(),
            ),
        },
{
    match readiness_verdict(context.eeg_headset_adapter.is_connected()) {
        Err(error) => {
            return Err(error);
        },
        Ok(_) => {},
    }
    if needs_mode_switch(context.eeg_headset_adapter.get_work_mode(), WorkMode::Extraction) {
        context.eeg_headset_adapter.change_work_mode(WorkMode::Extraction);
    }
    let read = context.eeg_headset_adapter.extract_raw_data();
    proof {
        if read is Err {
            lemma_concat_starts_with(extraction_failed_prefix(), read->Err_0@);
        }
    }
    extraction_verdict(read)
}

/// Classifies the signal window of the context. Without a window the
/// answer is an error, and only then; the label comes back as the one
/// event. Nothing of the context is touched.
pub fn predict_color_thinking_use_case<T, H, B, M: ModelInferenceInterface<T>>(
    context: &mut NeuralAnalyticsContext<T, H, B, M>,
    command: PredictColorThinkingCommand,
) -> (r: Result<Events<T>, CommandError>)
    ensures
        *final(context) == *old(context),
        old(context).model().headset_data is None ==> r is Err && r->Err_0.message@
            == no_signal_message(),
        old(context).model().headset_data is Some && r is Err ==> starts_with(
            r->Err_0.message@,
            prediction_failed_prefix(),
        ),
        match r {
            Ok(events) => events.items@.len() == 1
                && events.items@[0] is ReceivedPredictColorThinkingData,
            Err(error) => error.message@ == no_signal_message() || starts_with(
                error.message@,
                prediction_failed_prefix(),
            ),
        },
{
    let predicted = match context.data.headset_data() {
        Some(window) => context.model_service.predict_color(window),
        None => {
            return Err(CommandError::new(String::from_str("No EEG data available for prediction")));
        },
    };
    proof {
        if predicted is Err {
            lemma_concat_starts_with(prediction_failed_prefix(), predicted->Err_0@);
        }
    }
    prediction_verdict(predicted)
}

/// Switches the bulb: on for `is_light_on`, off otherwise. The bulb's own
/// error is handed on unchanged. No event is emitted and the data fields
/// are not touched.
pub fn update_light_status_use_case<T, H, B: SmartBulbPort, M>(
    context: &mut NeuralAnalyticsContext<T, H, B, M>,
    command: UpdateLightStatusCommand,
) -> (r: Result<Events<T>, CommandError>)
    ensures
        *final(context) == *old(context),
        r is Ok ==> r->Ok_0.items@.len() == 0,
{
    let state = bulb_state_for(command.is_light_on);
    light_verdict(context.smart_bulb_adapter.change_state(state))
}

} // verus!
