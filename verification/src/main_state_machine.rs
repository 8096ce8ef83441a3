//! The pipeline's state machine: the entry action of each state runs its
//! commands through the dispatcher, announces what happened and names the
//! next state.

use vstd::prelude::*;
use crate::channels::{ImpedanceSample, SignalWindow};
use crate::commands::{
    Command, DisconnectHeadbandCommand, ExtractCalibrationDataCommand,
    ExtractGeneralistDataCommand, PredictColorThinkingCommand, SearchHeadbandCommand,
    UpdateLightStatusCommand,
};
use crate::context::{DataModel, consistent, effective_label, pushed, NeuralAnalyticsContext};
use crate::dispatcher::CommandBus;
use crate::errors::failed_with;
use crate::events::{EventData, NeuralAnalyticsCoreEvents};
use crate::impedance::{needs_more_calibration, spec_needs_more_calibration};
use crate::models::{spec_bulb_state_for, BulbState};
use crate::ports::{EegHeadsetPort, EventSink, ModelInferenceInterface, SmartBulbPort};
use crate::state_machine::{
    spec_transition, Event, NeuralAnalyticsEvents, NeuralStateMachine, State,
};
use crate::text::{contains_phrase, occurs_in, same_text};

verus! {

/// The phrase in a prediction error that tells of a lost device.
pub open spec fn lost_device_phrase() -> Seq<char> {
    "has no data"@
}

/// The label that switches the bulb on.
pub open spec fn light_on_label() -> Seq<char> {
    "green"@
}

/// The table event that an announcement stands for; the calibrating
/// announcement moves nothing.
pub open spec fn spec_table_event(announcement: NeuralAnalyticsEvents) -> Option<Event> {
    match announcement {
        NeuralAnalyticsEvents::InitializedCoreEvent => Some(Event::InitializedCore),
        NeuralAnalyticsEvents::HeadsetConnectedEvent => Some(Event::HeadsetConnected),
        NeuralAnalyticsEvents::HeadsetDisconnectedEvent => Some(Event::HeadsetDisconnected),
        NeuralAnalyticsEvents::HeadsetCalibratingEvent => None,
        NeuralAnalyticsEvents::HeadsetCalibratedEvent => Some(Event::HeadsetCalibrated),
        NeuralAnalyticsEvents::CapturedHeadsetDataEvent => Some(Event::CapturedHeadsetData),
    }
}

/// The state after `announcement` was made in `state`.
pub open spec fn spec_state_after(state: State, announcement: NeuralAnalyticsEvents) -> State {
    match spec_table_event(announcement) {
        Some(event) => spec_transition(state, event),
        None => state,
    }
}

/// What the connection state announces: connected when the search
/// succeeded, disconnected when it failed.
pub open spec fn spec_connection_announcement(found: bool) -> NeuralAnalyticsEvents {
    if found {
        NeuralAnalyticsEvents::HeadsetConnectedEvent
    } else {
        NeuralAnalyticsEvents::HeadsetDisconnectedEvent
    }
}

/// Where the connection state leads: to calibration when the headband was
/// found, back to itself otherwise. Whether the observer took the
/// announcement plays no part.
pub open spec fn spec_after_search(found: bool) -> State {
    if found {
        State::AwaitingHeadsetCalibration
    } else {
        State::AwaitingHeadsetConnection
    }
}

/// What the calibration state announces: disconnected when the read
/// failed, calibrating when some electrode is out of range, calibrated
/// otherwise.
pub open spec fn spec_calibration_announcement(
    read_ok: bool,
    impedance: Option<ImpedanceSample>,
) -> NeuralAnalyticsEvents {
    if !read_ok {
        NeuralAnalyticsEvents::HeadsetDisconnectedEvent
    } else if impedance is Some && spec_needs_more_calibration(impedance->0@) {
        NeuralAnalyticsEvents::HeadsetCalibratingEvent
    } else {
        NeuralAnalyticsEvents::HeadsetCalibratedEvent
    }
}

/// Where a failed prediction leads from the capture state: to the
/// connection state when the error tells of a lost device, nowhere
/// otherwise.
pub open spec fn spec_after_failed_prediction(message: Seq<char>) -> State {
    if occurs_in(message, lost_device_phrase()) {
        State::AwaitingHeadsetConnection
    } else {
        State::CapturingHeadsetData
    }
}

/// The light command for a consensus label: none for the empty label, on
/// for `green`, off for every other label.
pub open spec fn spec_light_command(label: Seq<char>) -> Option<bool> {
    if label.len() == 0 {
        None
    } else {
        Some(label == light_on_label())
    }
}

/// The state after `announcement` was made in `state`.
pub fn state_after(state: State, announcement: NeuralAnalyticsEvents) -> (next: State)
    ensures
        next == spec_state_after(state, announcement),
{
    match announcement {
        NeuralAnalyticsEvents::InitializedCoreEvent => NeuralStateMachine::transition(
            state,
            &Event::InitializedCore,
        ),
        NeuralAnalyticsEvents::HeadsetConnectedEvent => NeuralStateMachine::transition(
            state,
            &Event::HeadsetConnected,
        ),
        NeuralAnalyticsEvents::HeadsetDisconnectedEvent => NeuralStateMachine::transition(
            state,
            &Event::HeadsetDisconnected,
        ),
        NeuralAnalyticsEvents::HeadsetCalibratingEvent => state,
        NeuralAnalyticsEvents::HeadsetCalibratedEvent => NeuralStateMachine::transition(
            state,
            &Event::HeadsetCalibrated,
        ),
        NeuralAnalyticsEvents::CapturedHeadsetDataEvent => NeuralStateMachine::transition(
            state,
            &Event::CapturedHeadsetData,
        ),
    }
}

/// Where the initialization state leads once the observer has, or has not,
/// been told that the core is up.
pub fn after_initialize(delivered: bool) -> (next: State)
    ensures
        next == if delivered {
            spec_state_after(
                State::InitializeApplication,
                NeuralAnalyticsEvents::InitializedCoreEvent,
            )
        } else {
            State::InitializeApplication
        },
        delivered ==> next == State::AwaitingHeadsetConnection,
{
    if delivered {
        state_after(State::InitializeApplication, NeuralAnalyticsEvents::InitializedCoreEvent)
    } else {
        State::InitializeApplication
    }
}

/// What the connection state announces after the search.
pub fn connection_announcement(found: bool) -> (announcement: NeuralAnalyticsEvents)
    ensures
        announcement == spec_connection_announcement(found),
{
    if found {
        NeuralAnalyticsEvents::HeadsetConnectedEvent
    } else {
        NeuralAnalyticsEvents::HeadsetDisconnectedEvent
    }
}

/// Where the connection state leads after the search and the
/// announcement: a found headband leads to calibration, also where the
/// observer refused the announcement.
pub fn after_search(found: bool, delivered: bool) -> (next: State)
    ensures
        next == spec_after_search(found),
        next == spec_state_after(
            State::AwaitingHeadsetConnection,
            spec_connection_announcement(found),
        ),
{
    state_after(State::AwaitingHeadsetConnection, connection_announcement(found))
}

/// What the calibration state announces after the read.
pub fn calibration_announcement(
    read_ok: bool,
    impedance: &Option<ImpedanceSample>,
) -> (announcement: NeuralAnalyticsEvents)
    ensures
        announcement == spec_calibration_announcement(read_ok, *impedance),
{
    if !read_ok {
        return NeuralAnalyticsEvents::HeadsetDisconnectedEvent;
    }
    match impedance {
        Some(sample) => {
            if needs_more_calibration(sample) {
                NeuralAnalyticsEvents::HeadsetCalibratingEvent
            } else {
                NeuralAnalyticsEvents::HeadsetCalibratedEvent
            }
        },
        None => NeuralAnalyticsEvents::HeadsetCalibratedEvent,
    }
}

/// What the capture state announces after the signal read: nothing yet
/// when the read succeeded, the lost headband when it failed.
pub fn capture_read_announcement(read_ok: bool) -> (announcement: Option<NeuralAnalyticsEvents>)
    ensures
        read_ok ==> announcement is None,
        !read_ok ==> announcement == Some(NeuralAnalyticsEvents::HeadsetDisconnectedEvent),
{
    if read_ok {
        None
    } else {
        Some(NeuralAnalyticsEvents::HeadsetDisconnectedEvent)
    }
}

/// Where a failed prediction leads from the capture state.
pub fn after_failed_prediction(message: &str) -> (next: State)
    ensures
        next == spec_after_failed_prediction(message@),
        next == State::AwaitingHeadsetConnection ==> next == spec_state_after(
            State::CapturingHeadsetData,
            NeuralAnalyticsEvents::HeadsetDisconnectedEvent,
        ),
{
    if contains_phrase(message, "has no data") {
        state_after(State::CapturingHeadsetData, NeuralAnalyticsEvents::HeadsetDisconnectedEvent)
    } else {
        State::CapturingHeadsetData
    }
}

/// The light command for a consensus label.
pub fn light_command(label: &str) -> (command: Option<UpdateLightStatusCommand>)
    ensures
        match command {
            Some(c) => spec_light_command(label@) == Some(c.is_light_on),
            None => spec_light_command(label@) is None,
        },
{
    if label.is_empty() {
        None
    } else {
        Some(UpdateLightStatusCommand { is_light_on: same_text(label, "green") })
    }
}

/// The bulb follows the consensus: a consensus of `green` commands the
/// bulb on, every other consensus that is not empty commands it off;
/// `unknown` is such a consensus.
pub proof fn lemma_light_follows_consensus(labels: Seq<Seq<char>>)
    ensures
        effective_label(labels) == light_on_label() ==> spec_light_command(
            effective_label(labels),
        ) == Some(true) && spec_bulb_state_for(true) == BulbState::BulbOn,
        effective_label(labels) != light_on_label() && effective_label(labels).len() > 0
            ==> spec_light_command(effective_label(labels)) == Some(false) && spec_bulb_state_for(
            false,
        ) == BulbState::BulbOff,
        !(labels.len() > 0 && crate::context::unanimous(labels)) ==> spec_light_command(
            effective_label(labels),
        ) == Some(false),
{
    reveal_strlit("green");
    reveal_strlit("unknown");
    assert("unknown"@.len() == 7);
    assert("green"@.len() == 5);
}

/// Which state may follow which: the edges of the lifecycle.
pub open spec fn may_follow(from: State, to: State) -> bool {
    match from {
        State::InitializeApplication => to == State::InitializeApplication || to
            == State::AwaitingHeadsetConnection,
        State::AwaitingHeadsetConnection => to == State::AwaitingHeadsetConnection || to
            == State::AwaitingHeadsetCalibration,
        State::AwaitingHeadsetCalibration => to == State::AwaitingHeadsetConnection || to
            == State::AwaitingHeadsetCalibration || to == State::CapturingHeadsetData,
        State::CapturingHeadsetData => to == State::CapturingHeadsetData || to
            == State::AwaitingHeadsetConnection,
    }
}

/// Hands one event to the observer. Without an observer the answer is an
/// error; with one, whatever the observer answers.
pub fn send_event<T, S: EventSink<T>>(
    event_handler: &Option<S>,
    event: &String,
    data: &EventData<T>,
) -> (r: Result<(), String>)
    ensures
        event_handler is None ==> failed_with(r, "BUG: Event handler not set"@),
{
    match event_handler {
        Some(handler) => handler.deliver(event, data),
        None => Err(String::from_str("BUG: Event handler not set")),
    }
}

/// The state machine with everything it owns: the context, the dispatcher
/// and the observer.
#[derive(Debug)]
pub struct MainStateMachine<T, H, B, M, S> {
    pub context: NeuralAnalyticsContext<T, H, B, M>,
    pub command_bus: CommandBus,
    pub event_handler: Option<S>,
    pub state: State,
}

impl<T: Copy, H, B, M, S> MainStateMachine<T, H, B, M, S> where
    H: EegHeadsetPort<T>,
    B: SmartBulbPort,
    M: ModelInferenceInterface<T>,
    S: EventSink<T>,
 {
    /// The data fields of the context as plain values.
    pub open spec fn model(&self) -> DataModel<T> {
        self.context.data.model()
    }

    /// A machine in its initial state around the given context and
    /// observer.
    pub fn new(context: NeuralAnalyticsContext<T, H, B, M>, event_handler: Option<S>) -> (out:
        Self)
        ensures
            out.state == State::InitializeApplication,
            out.context == context,
            out.event_handler == event_handler,
    {
        MainStateMachine {
            context,
            command_bus: CommandBus::new(),
            event_handler,
            state: State::InitializeApplication,
        }
    }

    /// Announces an event that carries nothing; true when the observer took
    /// it.
    fn announce(&self, announcement: NeuralAnalyticsEvents) -> (delivered: bool)
        ensures
            self.event_handler is None ==> !delivered,
    {
        let name = announcement.to_string();
        let data = EventData::empty();
        send_event(&self.event_handler, &name, &data).is_ok()
    }

    /// Entry action of the initialization state: tells the observer that
    /// the core is up and moves on to the connection state; stays where the
    /// observer could not be told. Nothing of the machine changes.
    pub fn initialize_application(&mut self, event: &NeuralAnalyticsCoreEvents) -> (next: State)
        ensures
            *final(self) == *old(self),
            may_follow(State::InitializeApplication, next),
            old(self).event_handler is None ==> next == State::InitializeApplication,
    {
        let delivered = self.announce(NeuralAnalyticsEvents::InitializedCoreEvent);
        after_initialize(delivered)
    }

    /// Entry action of the connection state: disconnects, searches, and
    /// announces the result. A found headband leads to calibration, a
    /// failed search leads back here; what the observer answers changes
    /// neither. Of the
    /// machine only the headset can change: the data fields, the bulb, the
    /// classifier, the observer and the state stay as they were.
    pub fn awaiting_headset_connection(&mut self, event: &NeuralAnalyticsCoreEvents) -> (next:
        State)
        ensures
            final(self).model() == old(self).model(),
            final(self).context.smart_bulb_adapter == old(self).context.smart_bulb_adapter,
            final(self).context.model_service == old(self).context.model_service,
            final(self).event_handler == old(self).event_handler,
            final(self).state == old(self).state,
            may_follow(State::AwaitingHeadsetConnection, next),
    {
        let _ = self.command_bus.execute(
            &mut self.context,
            Command::DisconnectHeadband(DisconnectHeadbandCommand),
        );
        let found = self.command_bus.execute(
            &mut self.context,
            Command::SearchHeadband(SearchHeadbandCommand),
        ).is_ok();
        let delivered = self.announce(connection_announcement(found));
        after_search(found, delivered)
    }

    /// Entry action of the calibration state: reads one impedance sample
    /// and announces the result. A failed read leads to the connection
    /// state and leaves the data as it was; a sample with an electrode out
    /// of `[1, 1000]` leads back here; a sample with every electrode in
    /// range leads to capture. Either sample is then the one the context
    /// holds. Bulb and classifier stay as they were.
    pub fn awaiting_headset_calibration(&mut self, event: &NeuralAnalyticsCoreEvents) -> (next:
        State)
        ensures
            consistent(final(self).model()),
            final(self).model().labels == old(self).model().labels,
            final(self).context.smart_bulb_adapter == old(self).context.smart_bulb_adapter,
            final(self).context.model_service == old(self).context.model_service,
            final(self).event_handler == old(self).event_handler,
            final(self).state == old(self).state,
            match next {
                State::AwaitingHeadsetConnection => final(self).model() == old(self).model(),
                State::AwaitingHeadsetCalibration => {
                    &&& final(self).model().impedance_data is Some
                    &&& spec_needs_more_calibration(
                        final(self).model().impedance_data->0@,
                    )
                },
                State::CapturingHeadsetData => {
                    &&& final(self).model().impedance_data is Some
                    &&& !spec_needs_more_calibration(
                        final(self).model().impedance_data->0@,
                    )
                },
                State::InitializeApplication => false,
            },
    {
        let read_ok = self.command_bus.execute(
            &mut self.context,
            Command::ExtractCalibrationData(ExtractCalibrationDataCommand),
        ).is_ok();
        let announcement = calibration_announcement(read_ok, self.context.data.impedance_data());
        match announcement {
            NeuralAnalyticsEvents::HeadsetCalibratingEvent => {
                let sample = match self.context.data.impedance_data() {
                    Some(sample) => sample.duplicate(),
                    None => ImpedanceSample::new(),
                };
                let name = announcement.to_string();
                let data = EventData::calibrating(sample);
                let _ = send_event(&self.event_handler, &name, &data);
            },
            _ => {
                let _ = self.announce(announcement);
            },
        }
        state_after(State::AwaitingHeadsetCalibration, announcement)
    }

    /// Entry action of the capture state: reads one window, classifies it,
    /// drives the bulb by the consensus and announces the window with the
    /// consensus label. A failed read, or a prediction error that tells of
    /// a lost device, leads to the connection state; everything else leads
    /// back here, and then the context holds a window and no sample. The
    /// buffer either stays as it was or takes in one prediction. Bulb and
    /// classifier stay as they were.
    pub fn capturing_headset_data(&mut self, event: &NeuralAnalyticsCoreEvents) -> (next: State)
        ensures
            consistent(final(self).model()),
            final(self).event_handler == old(self).event_handler,
            final(self).state == old(self).state,
            final(self).context.smart_bulb_adapter == old(self).context.smart_bulb_adapter,
            final(self).context.model_service == old(self).context.model_service,
            may_follow(State::CapturingHeadsetData, next),
            next == State::CapturingHeadsetData ==> final(self).model().headset_data is Some
                && final(self).model().impedance_data is None,
            next == State::AwaitingHeadsetConnection ==> final(self).model().labels
                == old(self).model().labels,
            final(self).model() == old(self).model() || final(self).model().impedance_data is None,
            final(self).model().labels == old(self).model().labels || (
            final(self).model().labels.len() > 0 && final(self).model().labels == pushed(
                old(self).model().labels,
                final(self).model().labels.last(),
            )),
    {
        let extracted = self.command_bus.execute(
            &mut self.context,
            Command::ExtractGeneralistData(ExtractGeneralistDataCommand),
        );
        match capture_read_announcement(extracted.is_ok()) {
            Some(announcement) => {
                let _ = self.announce(announcement);
                return state_after(State::CapturingHeadsetData, announcement);
            },
            None => {},
        }
        let raw_data = match self.context.data.headset_data() {
            Some(window) => window.duplicate(),
            None => SignalWindow::new(),
        };
        let predicted = self.command_bus.execute(
            &mut self.context,
            Command::PredictColorThinking(PredictColorThinkingCommand),
        );
        match predicted {
            Err(error) => {
                let next = after_failed_prediction(error.message.as_str());
                if next == State::AwaitingHeadsetConnection {
                    let _ = self.announce(NeuralAnalyticsEvents::HeadsetDisconnectedEvent);
                }
                return next;
            },
            Ok(_) => {},
        }
        let color_prediction = self.context.get_color_thinking();
        match light_command(color_prediction.as_str()) {
            Some(command) => {
                let _ = self.command_bus.execute(
                    &mut self.context,
                    Command::UpdateLightStatus(command),
                );
            },
            None => {},
        }
        let name = NeuralAnalyticsEvents::CapturedHeadsetDataEvent.to_string();
        let data = EventData::captured(raw_data, color_prediction);
        let _ = send_event(&self.event_handler, &name, &data);
        state_after(State::CapturingHeadsetData, NeuralAnalyticsEvents::CapturedHeadsetDataEvent)
    }

    /// Takes one event in: runs the entry action of the current state and
    /// moves to the state it names. The new state is one the lifecycle
    /// allows after the old one, and the data stays consistent.
    pub fn handle(&mut self, event: &NeuralAnalyticsCoreEvents)
        ensures
            may_follow(old(self).state, final(self).state),
            consistent(final(self).model()),
            final(self).event_handler == old(self).event_handler,
            old(self).state == State::AwaitingHeadsetCalibration && final(self).state
                != State::AwaitingHeadsetConnection ==> {
                &&& final(self).model().impedance_data is Some
                &&& (final(self).state == State::AwaitingHeadsetCalibration)
                    == spec_needs_more_calibration(final(self).model().impedance_data->0@)
            },
            old(self).state == State::InitializeApplication || old(self).state
                == State::AwaitingHeadsetConnection ==> final(self).model() == old(self).model(),
    {
        let _ = self.context.data.prediction_count();
        let next = match self.state {
            State::InitializeApplication => self.initialize_application(event),
            State::AwaitingHeadsetConnection => self.awaiting_headset_connection(event),
            State::AwaitingHeadsetCalibration => self.awaiting_headset_calibration(event),
            State::CapturingHeadsetData => self.capturing_headset_data(event),
        };
        self.state = next;
    }
}

} // verus!
