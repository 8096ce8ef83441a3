//! The command dispatcher: one entry point that runs the handler of a
//! command and folds the events it returns into the context.

use vstd::prelude::*;
use crate::commands::Command;
use crate::context::{
    consistent, pushed, spec_write, spec_write_all, DataModel, NeuralAnalyticsContext,
};
use crate::errors::CommandError;
use crate::events::Events;
use crate::ports::{EegHeadsetPort, ModelInferenceInterface, SmartBulbPort};
use crate::use_cases::{
    disconnect_headband_use_case, extract_calibration_data_use_case,
    extract_generalist_data_use_case, predict_color_thinking_use_case, search_headband_use_case,
    update_light_status_use_case,
};

verus! {

/// A handler that prepares the hardware; it has nothing to do and reports
/// no event.
#[derive(Debug, Clone, Copy)]
pub struct InitializeHardwarePartsUseCase;

impl InitializeHardwarePartsUseCase {
    /// The identifier of the command this handler answers.
    pub fn command_name(&self) -> (name: &'static str)
        ensures
            name@ == "initialize-hardware-parts"@,
    {
        "initialize-hardware-parts"
    }

    /// Succeeds with no event and leaves the context as it is.
    pub fn handle<T, H, B, M>(&self, context: &mut NeuralAnalyticsContext<T, H, B, M>) -> (r:
        Result<Events<T>, CommandError>)
        ensures
            *final(context) == *old(context),
            r is Ok && r->Ok_0.items@.len() == 0,
    {
        Ok(Events::new())
    }
}

/// What a successful command leaves in the data fields, by command: a
/// read replaces the one reading by the other, a prediction enters the
/// buffer, everything else changes nothing.
pub open spec fn data_after<T>(
    command: Command,
    before: DataModel<T>,
    after: DataModel<T>,
) -> bool {
    match command {
        Command::ExtractCalibrationData(_) => {
            &&& after.headset_data is None
            &&& after.impedance_data is Some
            &&& after.labels == before.labels
        },
        Command::ExtractGeneralistData(_) => {
            &&& after.headset_data is Some
            &&& after.impedance_data is None
            &&& after.labels == before.labels
        },
        Command::PredictColorThinking(_) => {
            &&& after.headset_data == before.headset_data
            &&& after.impedance_data is None
            &&& after.labels.len() > 0
            &&& after.labels == pushed(before.labels, after.labels.last())
        },
        _ => after == before,
    }
}

/// Which collaborators a command leaves as they were: no command changes
/// the bulb or the classifier, which are reached through shared references,
/// and only the disconnection and the two reads may change the headset.
pub open spec fn collaborators_after<T, H, B, M>(
    command: Command,
    before: NeuralAnalyticsContext<T, H, B, M>,
    after: NeuralAnalyticsContext<T, H, B, M>,
) -> bool {
    &&& after.smart_bulb_adapter == before.smart_bulb_adapter
    &&& after.model_service == before.model_service
    &&& (command is SearchHeadband || command is PredictColorThinking
        || command is UpdateLightStatus) ==> after.eeg_headset_adapter
        == before.eeg_headset_adapter
}

/// Folds the events of a handler into the data fields, first to last.
pub fn apply_events<T, H, B, M>(
    context: &mut NeuralAnalyticsContext<T, H, B, M>,
    events: Events<T>,
)
    ensures
        final(context).model() == spec_write_all(old(context).model(), events.items@),
        consistent(final(context).model()),
        final(context).eeg_headset_adapter == old(context).eeg_headset_adapter,
        final(context).smart_bulb_adapter == old(context).smart_bulb_adapter,
        final(context).model_service == old(context).model_service,
{
    let ghost all = events.items@;
    let ghost start = context.data.model();
    let mut items = events.items;
    let _ = context.data.prediction_count();
    while items.len() > 0
        invariant
            spec_write_all(start, all) == spec_write_all(context.data.model(), items@),
            consistent(context.data.model()),
            context.eeg_headset_adapter == old(context).eeg_headset_adapter,
            context.smart_bulb_adapter == old(context).smart_bulb_adapter,
            context.model_service == old(context).model_service,
        decreases items@.len(),
    {
        let ghost rest = items@.subrange(1, items@.len() as int);
        let event = items.remove(0);
        assert(items@ =~= rest);
        context.write(event);
    }
}

/// The dispatcher.
#[derive(Debug, Clone, Copy)]
pub struct CommandBus;

impl CommandBus {
    /// A dispatcher with the six handlers.
    pub fn new() -> Self {
        CommandBus
    }

    /// Runs the handler of `command` on the context and folds the events it
    /// returns into the data fields. A failed command leaves the data
    /// fields as they were; a successful one leaves them as `data_after`
    /// says, and consistent in either case.
    pub fn execute<T, H, B, M>(
        &self,
        context: &mut NeuralAnalyticsContext<T, H, B, M>,
        command: Command,
    ) -> (r: Result<(), CommandError>) where
        H: EegHeadsetPort<T>,
        B: SmartBulbPort,
        M: ModelInferenceInterface<T>,

        ensures
            consistent(old(context).model()),
            consistent(final(context).model()),
            r is Err ==> final(context).model() == old(context).model(),
            r is Ok ==> data_after(
                command,
                old(context).model(),
                final(context).model(),
            ),
            command is PredictColorThinking && old(context).model().headset_data is None
                ==> r is Err,
            collaborators_after(command, *old(context), *final(context)),
    {
        let ghost before = context.data.model();
        let _ = context.data.prediction_count();
        let handled = match command {
            Command::DisconnectHeadband(c) => disconnect_headband_use_case(context, c),
            Command::SearchHeadband(c) => search_headband_use_case(context, c),
            Command::ExtractCalibrationData(c) => extract_calibration_data_use_case(context, c),
            Command::ExtractGeneralistData(c) => extract_generalist_data_use_case(context, c),
            Command::PredictColorThinking(c) => predict_color_thinking_use_case(context, c),
            Command::UpdateLightStatus(c) => update_light_status_use_case(context, c),
        };
        match handled {
            Err(error) => Err(error),
            Ok(events) => {
                proof {
                    let items = events.items@;
                    if items.len() == 1 {
                        let rest = items.subrange(1, 1);
                        assert(rest.len() == 0);
                        assert(spec_write_all(before, items) == spec_write_all(
                            spec_write(before, items[0]),
                            rest,
                        ));
                        assert(spec_write_all(spec_write(before, items[0]), rest) == spec_write(
                            before,
                            items[0],
                        ));
                    }
                }
                apply_events(context, events);
                Ok(())
            },
        }
    }
}

} // verus!
