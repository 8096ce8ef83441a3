//! The commands the state machine sends through the dispatcher.

use vstd::prelude::*;

verus! {

/// Close the session with the headband.
#[derive(Debug)]
pub struct DisconnectHeadbandCommand;

/// Find the headband and open a session with it.
#[derive(Debug)]
pub struct SearchHeadbandCommand;

/// Read one impedance sample.
#[derive(Debug)]
pub struct ExtractCalibrationDataCommand;

/// Read one signal window.
#[derive(Debug)]
pub struct ExtractGeneralistDataCommand;

/// Classify the signal window that the context holds.
#[derive(Debug)]
pub struct PredictColorThinkingCommand;

/// Switch the bulb on or off.
#[derive(Debug)]
pub struct UpdateLightStatusCommand {
    pub is_light_on: bool,
}

impl DisconnectHeadbandCommand {
    pub const NAME: &'static str = "disconnect-headband";
}

impl SearchHeadbandCommand {
    pub const NAME: &'static str = "search-headband";
}

impl ExtractCalibrationDataCommand {
    pub const NAME: &'static str = "extract-calibration-data";
}

impl ExtractGeneralistDataCommand {
    pub const NAME: &'static str = "extract-generalist-data";
}

impl PredictColorThinkingCommand {
    pub const NAME: &'static str = "predict-color-thinking";
}

impl UpdateLightStatusCommand {
    pub const NAME: &'static str = "update-light-status";
}

/// Any one of the six commands.
#[derive(Debug)]
pub enum Command {
    DisconnectHeadband(DisconnectHeadbandCommand),
    SearchHeadband(SearchHeadbandCommand),
    ExtractCalibrationData(ExtractCalibrationDataCommand),
    ExtractGeneralistData(ExtractGeneralistDataCommand),
    PredictColorThinking(PredictColorThinkingCommand),
    UpdateLightStatus(UpdateLightStatusCommand),
}

impl Command {
    /// The identifier under which the command's handler is registered.
    pub fn name(&self) -> (name: &'static str)
        ensures
            name@ == match self {
                Command::DisconnectHeadband(_) => DisconnectHeadbandCommand::NAME@,
                Command::SearchHeadband(_) => SearchHeadbandCommand::NAME@,
                Command::ExtractCalibrationData(_) => ExtractCalibrationDataCommand::NAME@,
                Command::ExtractGeneralistData(_) => ExtractGeneralistDataCommand::NAME@,
                Command::PredictColorThinking(_) => PredictColorThinkingCommand::NAME@,
                Command::UpdateLightStatus(_) => UpdateLightStatusCommand::NAME@,
            },
    {
        match self {
            Command::DisconnectHeadband(_) => DisconnectHeadbandCommand::NAME,
            Command::SearchHeadband(_) => SearchHeadbandCommand::NAME,
            Command::ExtractCalibrationData(_) => ExtractCalibrationDataCommand::NAME,
            Command::ExtractGeneralistData(_) => ExtractGeneralistDataCommand::NAME,
            Command::PredictColorThinking(_) => PredictColorThinkingCommand::NAME,
            Command::UpdateLightStatus(_) => UpdateLightStatusCommand::NAME,
        }
    }
}

} // verus!
