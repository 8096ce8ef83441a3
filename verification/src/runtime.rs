//! Start-up of the pipeline and the step its background task repeats.

use vstd::prelude::*;
use crate::context::{consistent, NeuralAnalyticsContext};
use crate::events::NeuralAnalyticsCoreEvents;
use crate::main_state_machine::{may_follow, MainStateMachine};
use crate::ports::{EegHeadsetPort, EventSink, ModelInferenceInterface, SmartBulbPort};
use crate::state_machine::State;

verus! {

/// Builds the state machine around the context, installs the observer and
/// delivers the first event. The machine comes back in the initial state
/// or, when the observer took the first announcement, in the connection
/// state; it is then ready to be ticked.
pub fn initialize_core<T: Copy, H, B, M, S>(
    context: NeuralAnalyticsContext<T, H, B, M>,
    event_handler: S,
) -> (machine: MainStateMachine<T, H, B, M, S>) where
    H: EegHeadsetPort<T>,
    B: SmartBulbPort,
    M: ModelInferenceInterface<T>,
    S: EventSink<T>,

    ensures
        may_follow(State::InitializeApplication, machine.state),
        machine.event_handler == Some(event_handler),
        consistent(machine.model()),
{
    let mut machine = MainStateMachine::new(context, Some(event_handler));
    machine.handle(&NeuralAnalyticsCoreEvents::InitializeCore);
    machine
}

/// One turn of the background task: the entry action of the current state
/// runs once more.
pub fn background_tick<T: Copy, H, B, M, S>(machine: &mut MainStateMachine<T, H, B, M, S>) where
    H: EegHeadsetPort<T>,
    B: SmartBulbPort,
    M: ModelInferenceInterface<T>,
    S: EventSink<T>,

    ensures
        may_follow(old(machine).state, final(machine).state),
        consistent(final(machine).model()),
        final(machine).event_handler == old(machine).event_handler,
{
    machine.handle(&NeuralAnalyticsCoreEvents::BackgroundTick);
}

} // verus!
