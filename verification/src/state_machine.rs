//! The lifecycle of the pipeline: four states, the six announced events,
//! and the table that says which event leads where.

use vstd::prelude::*;
use crate::events::{
    HeadsetCalibratedEvent, HeadsetCalibratingEvent,
    HeadsetConnectedEvent, HeadsetDisconnectedEvent, InitializedCoreEvent,
};

verus! {

/// The four states of the pipeline.
#[derive(Debug, PartialEq, Eq, Clone, Copy, Structural)]
pub enum State {
    InitializeApplication,
    AwaitingHeadsetConnection,
    AwaitingHeadsetCalibration,
    CapturingHeadsetData,
}

/// What can move the pipeline from one state to another.
#[derive(Debug, PartialEq, Eq, Clone, Copy, Structural)]
pub enum Event {
    InitializedCore,
    HeadsetConnected,
    HeadsetDisconnected,
    HeadsetCalibrated,
    DataCaptureStarted,
    CapturedHeadsetData,
}

/// The six events the pipeline announces to its observer.
#[derive(Debug, PartialEq, Eq, Clone, Copy, Structural)]
pub enum NeuralAnalyticsEvents {
    InitializedCoreEvent,
    HeadsetConnectedEvent,
    HeadsetDisconnectedEvent,
    HeadsetCalibratingEvent,
    HeadsetCalibratedEvent,
    CapturedHeadsetDataEvent,
}

impl NeuralAnalyticsEvents {
    /// The name under which the event is announced.
    pub open spec fn spec_name(&self) -> Seq<char> {
        match self {
            NeuralAnalyticsEvents::InitializedCoreEvent => "initialized-core"@,
            NeuralAnalyticsEvents::HeadsetConnectedEvent => "headset-connected"@,
            NeuralAnalyticsEvents::HeadsetDisconnectedEvent => "headset-disconnected"@,
            NeuralAnalyticsEvents::HeadsetCalibratingEvent => "headset-calibrating"@,
            NeuralAnalyticsEvents::HeadsetCalibratedEvent => "headset-calibrated"@,
            NeuralAnalyticsEvents::CapturedHeadsetDataEvent => "captured-headset-data"@,
        }
    }

    /// The name under which the event is announced.
    pub fn to_string(&self) -> (name: String)
        ensures
            name@ == self.spec_name(),
    {
        match self {
            NeuralAnalyticsEvents::InitializedCoreEvent => String::from_str(
                InitializedCoreEvent::NAME,
            ),
            NeuralAnalyticsEvents::HeadsetConnectedEvent => String::from_str(
                HeadsetConnectedEvent::NAME,
            ),
            NeuralAnalyticsEvents::HeadsetDisconnectedEvent => String::from_str(
                HeadsetDisconnectedEvent::NAME,
            ),
            NeuralAnalyticsEvents::HeadsetCalibratingEvent => String::from_str(
                HeadsetCalibratingEvent::NAME,
            ),
            NeuralAnalyticsEvents::HeadsetCalibratedEvent => String::from_str(
                HeadsetCalibratedEvent::NAME,
            ),
            NeuralAnalyticsEvents::CapturedHeadsetDataEvent => String::from_str(
                "captured-headset-data",
            ),
        }
    }
}

/// The transition table: where `event` leads from `state`. An event a state
/// does not answer leaves the state as it is.
pub open spec fn spec_transition(state: State, event: Event) -> State {
    match (state, event) {
        (State::InitializeApplication, Event::InitializedCore) => State::AwaitingHeadsetConnection,
        (State::AwaitingHeadsetConnection, Event::HeadsetConnected) =>
            State::AwaitingHeadsetCalibration,
        (State::AwaitingHeadsetConnection, Event::HeadsetDisconnected) =>
            State::AwaitingHeadsetConnection,
        (State::AwaitingHeadsetCalibration, Event::HeadsetDisconnected) =>
            State::AwaitingHeadsetConnection,
        (State::AwaitingHeadsetCalibration, Event::HeadsetCalibrated) =>
            State::CapturingHeadsetData,
        (State::CapturingHeadsetData, Event::HeadsetDisconnected) =>
            State::AwaitingHeadsetConnection,
        (State::CapturingHeadsetData, Event::CapturedHeadsetData) => State::CapturingHeadsetData,
        _ => state,
    }
}

/// The state reached from `state` by a run of events.
pub open spec fn spec_run(state: State, events: Seq<Event>) -> State
    decreases events.len(),
{
    if events.len() == 0 {
        state
    } else {
        spec_transition(spec_run(state, events.drop_last()), events.last())
    }
}

/// The transition table as a state machine of its own.
#[derive(Debug, Clone, Copy)]
pub struct NeuralStateMachine {
    pub state: State,
}

impl NeuralStateMachine {
    /// Where `event` leads from the initialization state.
    pub fn initialize_application(event: &Event) -> (next: State)
        ensures
            next == spec_transition(State::InitializeApplication, *event),
    {
        match event {
            Event::InitializedCore => State::AwaitingHeadsetConnection,
            _ => State::InitializeApplication,
        }
    }

    /// Where `event` leads while the headband is awaited.
    pub fn awaiting_headset_connection(event: &Event) -> (next: State)
        ensures
            next == spec_transition(State::AwaitingHeadsetConnection, *event),
    {
        match event {
            Event::HeadsetConnected => State::AwaitingHeadsetCalibration,
            Event::HeadsetDisconnected => State::AwaitingHeadsetConnection,
            _ => State::AwaitingHeadsetConnection,
        }
    }

    /// Where `event` leads during calibration.
    pub fn awaiting_headset_calibration(event: &Event) -> (next: State)
        ensures
            next == spec_transition(State::AwaitingHeadsetCalibration, *event),
    {
        match event {
            Event::HeadsetDisconnected => State::AwaitingHeadsetConnection,
            Event::HeadsetCalibrated => State::CapturingHeadsetData,
            _ => State::AwaitingHeadsetCalibration,
        }
    }

    /// Where `event` leads during capture.
    pub fn capturing_headset_data(event: &Event) -> (next: State)
        ensures
            next == spec_transition(State::CapturingHeadsetData, *event),
    {
        match event {
            Event::HeadsetDisconnected => State::AwaitingHeadsetConnection,
            Event::CapturedHeadsetData => State::CapturingHeadsetData,
            _ => State::CapturingHeadsetData,
        }
    }

    /// Where `event` leads from `state`.
    pub fn transition(state: State, event: &Event) -> (next: State)
        ensures
            next == spec_transition(state, *event),
    {
        match state {
            State::InitializeApplication => Self::initialize_application(event),
            State::AwaitingHeadsetConnection => Self::awaiting_headset_connection(event),
            State::AwaitingHeadsetCalibration => Self::awaiting_headset_calibration(event),
            State::CapturingHeadsetData => Self::capturing_headset_data(event),
        }
    }

    /// Takes `event` in and moves to the state it leads to.
    pub fn handle(&mut self, event: &Event)
        ensures
            final(self).state == spec_transition(old(self).state, *event),
    {
        self.state = Self::transition(self.state, event);
    }
}

impl Default for NeuralStateMachine {
    /// The machine in its initial state.
    fn default() -> (out: Self)
        ensures
            out.state == State::InitializeApplication,
    {
        NeuralStateMachine { state: State::InitializeApplication }
    }
}

/// Every one of the four states is reached from the initial state by some
/// run of events.
pub proof fn lemma_every_state_is_reachable(target: State)
    ensures
        exists|events: Seq<Event>| spec_run(State::InitializeApplication, events) == target,
{
    reveal_with_fuel(spec_run, 4);
    let none = Seq::<Event>::empty();
    let one = seq![Event::InitializedCore];
    let two = seq![Event::InitializedCore, Event::HeadsetConnected];
    let three = seq![Event::InitializedCore, Event::HeadsetConnected, Event::HeadsetCalibrated];
    assert(one.drop_last() =~= none);
    assert(two.drop_last() =~= one);
    assert(three.drop_last() =~= two);
    assert(spec_run(State::InitializeApplication, none) == State::InitializeApplication);
    assert(spec_run(State::InitializeApplication, one) == State::AwaitingHeadsetConnection);
    assert(spec_run(State::InitializeApplication, two) == State::AwaitingHeadsetCalibration);
    assert(spec_run(State::InitializeApplication, three) == State::CapturingHeadsetData);
}

/// A lost device leads back to the connection state from every state but
/// the first, and no event leads back to the first state.
pub proof fn lemma_transition_shape(state: State, event: Event)
    ensures
        state != State::InitializeApplication ==> spec_transition(state, event)
            != State::InitializeApplication,
        state != State::InitializeApplication ==> spec_transition(
            state,
            Event::HeadsetDisconnected,
        ) == State::AwaitingHeadsetConnection,
        spec_transition(state, event) == State::CapturingHeadsetData ==> state
            == State::CapturingHeadsetData || (state == State::AwaitingHeadsetCalibration && event
            == Event::HeadsetCalibrated),
{
}

} // verus!
