use neural_analytics_core::channels::{ImpedanceSample, SignalWindow};
use neural_analytics_core::commands::{
    Command, DisconnectHeadbandCommand, ExtractCalibrationDataCommand,
    ExtractGeneralistDataCommand, PredictColorThinkingCommand, SearchHeadbandCommand,
    UpdateLightStatusCommand,
};
use neural_analytics_core::context::NeuralAnalyticsContext;
use neural_analytics_core::dispatcher::{CommandBus, InitializeHardwarePartsUseCase};
use neural_analytics_core::events::InternalEvent;
use neural_analytics_core::models::{BulbState, WorkMode};
use neural_analytics_core::ports::{EegHeadsetPort, ModelInferenceInterface, SmartBulbPort};
use neural_analytics_core::use_cases::search_headband_use_case;
use std::cell::RefCell;
use std::collections::VecDeque;

/// A headband that answers from a script and keeps a log of its calls.
struct ScriptedHeadset {
    /// Answers to `is_connected`, in order; the last one repeats.
    connected: RefCell<VecDeque<bool>>,
    connect_result: Result<(), String>,
    disconnect_result: Result<(), String>,
    work_mode: WorkMode,
    /// Answers to `extract_impedance_data`, in order; the last one repeats.
    impedance: VecDeque<Result<Vec<(&'static str, u16)>, String>>,
    /// Answers to `extract_raw_data`, in order; the last one repeats.
    raw: VecDeque<Result<Vec<(&'static str, Vec<f32>)>, String>>,
    calls: RefCell<Vec<String>>,
}

impl ScriptedHeadset {
    fn new(connected: &[bool], work_mode: WorkMode) -> Self {
        ScriptedHeadset {
            connected: RefCell::new(connected.iter().copied().collect()),
            connect_result: Ok(()),
            disconnect_result: Ok(()),
            work_mode,
            impedance: VecDeque::new(),
            raw: VecDeque::new(),
            calls: RefCell::new(Vec::new()),
        }
    }

    fn count(&self, call: &str) -> usize {
        self.calls.borrow().iter().filter(|c| c.as_str() == call).count()
    }
}

fn next_of<V: Clone>(script: &mut VecDeque<V>) -> V {
    if script.len() > 1 {
        script.pop_front().unwrap()
    } else {
        script.front().cloned().expect("the script has no answer for this call")
    }
}

fn impedance_of(pairs: &[(&str, u16)]) -> ImpedanceSample {
    let mut sample = ImpedanceSample::new();
    for (name, value) in pairs {
        sample.insert(name.to_string(), *value);
    }
    sample
}

fn window_of(pairs: &[(&str, Vec<f32>)]) -> SignalWindow<f32> {
    let mut window = SignalWindow::new();
    for (name, values) in pairs {
        window.insert(name.to_string(), values.clone());
    }
    window
}

impl EegHeadsetPort<f32> for ScriptedHeadset {
    fn connect(&self) -> Result<(), String> {
        self.calls.borrow_mut().push("connect".to_string());
        self.connect_result.clone()
    }

    fn is_connected(&self) -> bool {
        self.calls.borrow_mut().push("is_connected".to_string());
        next_of(&mut self.connected.borrow_mut())
    }

    fn disconnect(&mut self) -> Result<(), String> {
        self.calls.borrow_mut().push("disconnect".to_string());
        self.disconnect_result.clone()
    }

    fn extract_impedance_data(&mut self) -> Result<ImpedanceSample, String> {
        self.calls.borrow_mut().push("extract_impedance_data".to_string());
        next_of(&mut self.impedance).map(|pairs| impedance_of(&pairs))
    }

    fn extract_raw_data(&mut self) -> Result<SignalWindow<f32>, String> {
        self.calls.borrow_mut().push("extract_raw_data".to_string());
        next_of(&mut self.raw).map(|pairs| window_of(&pairs))
    }

    fn change_work_mode(&mut self, mode: WorkMode) {
        self.calls.borrow_mut().push(format!("change_work_mode({:?})", mode));
        self.work_mode = mode;
    }

    fn get_work_mode(&self) -> WorkMode {
        self.work_mode
    }
}

/// A bulb that records what it was commanded and answers as told.
struct RecordingBulb {
    result: Result<(), String>,
    commands: RefCell<Vec<BulbState>>,
}

impl RecordingBulb {
    fn new() -> Self {
        RecordingBulb { result: Ok(()), commands: RefCell::new(Vec::new()) }
    }
}

impl SmartBulbPort for RecordingBulb {
    fn change_state(&self, state: BulbState) -> Result<(), String> {
        self.commands.borrow_mut().push(state);
        self.result.clone()
    }
}

/// A classifier that answers from a script; the last answer repeats.
struct ScriptedModel {
    answers: RefCell<VecDeque<Result<String, String>>>,
    seen_channels: RefCell<Vec<usize>>,
}

impl ScriptedModel {
    fn new(answers: &[Result<&str, &str>]) -> Self {
        ScriptedModel {
            answers: RefCell::new(
                answers
                    .iter()
                    .map(|a| a.map(|l| l.to_string()).map_err(|e| e.to_string()))
                    .collect(),
            ),
            seen_channels: RefCell::new(Vec::new()),
        }
    }
}

impl ModelInferenceInterface<f32> for ScriptedModel {
    fn predict_color(&self, eeg_data: &SignalWindow<f32>) -> Result<String, String> {
        self.seen_channels.borrow_mut().push(eeg_data.len());
        next_of(&mut self.answers.borrow_mut())
    }

    fn is_model_loaded(&self) -> bool {
        true
    }
}

type TestContext = NeuralAnalyticsContext<f32, ScriptedHeadset, RecordingBulb, ScriptedModel>;

fn context_with(headset: ScriptedHeadset, bulb: RecordingBulb, model: ScriptedModel) -> TestContext {
    NeuralAnalyticsContext::new(headset, bulb, model)
}
fn idle_headset() -> ScriptedHeadset {
    ScriptedHeadset::new(&[true], WorkMode::Calibration)
}

fn idle_model() -> ScriptedModel {
    ScriptedModel::new(&[Ok("red")])
}

#[test]
fn test_disconnect_already_disconnected() {
    let mock = ScriptedHeadset::new(&[false], WorkMode::Calibration);
    let mut context = context_with(mock, RecordingBulb::new(), idle_model());

    let result =
        CommandBus::new().execute(&mut context, Command::DisconnectHeadband(DisconnectHeadbandCommand));

    assert!(result.is_ok());
    assert_eq!(context.eeg_headset_adapter.count("disconnect"), 0);
}

#[test]
fn test_disconnect_successful() {
    let mock = ScriptedHeadset::new(&[true, false], WorkMode::Calibration);
    let mut context = context_with(mock, RecordingBulb::new(), idle_model());

    let result =
        CommandBus::new().execute(&mut context, Command::DisconnectHeadband(DisconnectHeadbandCommand));

    assert!(result.is_ok());
    assert_eq!(context.eeg_headset_adapter.count("disconnect"), 1);
    assert_eq!(context.eeg_headset_adapter.count("is_connected"), 2);
}

#[test]
fn test_disconnect_error() {
    let mut mock = ScriptedHeadset::new(&[true], WorkMode::Calibration);
    mock.disconnect_result = Err("Failed to disconnect".to_string());
    let mut context = context_with(mock, RecordingBulb::new(), idle_model());

    let result =
        CommandBus::new().execute(&mut context, Command::DisconnectHeadband(DisconnectHeadbandCommand));

    assert!(result.is_err());
    let message = result.unwrap_err().to_string();
    assert!(message.contains("Error disconnecting from the device"));
    assert_eq!(message, "Error disconnecting from the device: Failed to disconnect");
}

#[test]
fn test_disconnect_still_connected_after_attempt() {
    let mock = ScriptedHeadset::new(&[true], WorkMode::Calibration);
    let mut context = context_with(mock, RecordingBulb::new(), idle_model());

    let result =
        CommandBus::new().execute(&mut context, Command::DisconnectHeadband(DisconnectHeadbandCommand));

    assert!(result.is_err());
    let message = result.unwrap_err().to_string();
    assert!(message.contains("Device is not disconnected or is sending data"));
    assert_eq!(message, "Error: Device is not disconnected or is sending data. Disconnect first.");
}

#[test]
fn test_extract_calibration_data_disconnected() {
    let mock = ScriptedHeadset::new(&[false], WorkMode::Calibration);
    let mut context = context_with(mock, RecordingBulb::new(), idle_model());

    let result = CommandBus::new()
        .execute(&mut context, Command::ExtractCalibrationData(ExtractCalibrationDataCommand));

    assert!(result.is_err());
    let message = result.unwrap_err().to_string();
    assert!(message.contains("Device is not connected"));
    assert_eq!(message, "Error: Device is not connected. Connect first.");
    assert!(context.data.impedance_data().is_none());
    assert_eq!(context.eeg_headset_adapter.count("extract_impedance_data"), 0);
    assert_eq!(context.eeg_headset_adapter.count("change_work_mode(Calibration)"), 0);
}

#[test]
fn test_extract_calibration_data_already_in_calibration_mode() {
    let mut mock = ScriptedHeadset::new(&[true], WorkMode::Calibration);
    mock.impedance.push_back(Ok(vec![("electrode1", 1), ("electrode2", 2)]));
    let mut context = context_with(mock, RecordingBulb::new(), idle_model());

    let result = CommandBus::new()
        .execute(&mut context, Command::ExtractCalibrationData(ExtractCalibrationDataCommand));

    assert!(result.is_ok());
    assert_eq!(context.eeg_headset_adapter.count("change_work_mode(Calibration)"), 0);
    assert_eq!(context.eeg_headset_adapter.count("extract_impedance_data"), 1);
    let stored = context.data.impedance_data().as_ref().expect("the sample is in the context");
    assert_eq!(stored.len(), 2);
    assert_eq!(stored.get("electrode1"), Some(&1));
    assert_eq!(stored.get("electrode2"), Some(&2));
    assert!(context.data.headset_data().is_none());
}

#[test]
fn test_extract_calibration_data_change_mode() {
    let mut mock = ScriptedHeadset::new(&[true], WorkMode::Extraction);
    mock.impedance.push_back(Ok(vec![("electrode1", 1)]));
    let mut context = context_with(mock, RecordingBulb::new(), idle_model());

    let result = CommandBus::new()
        .execute(&mut context, Command::ExtractCalibrationData(ExtractCalibrationDataCommand));

    assert!(result.is_ok());
    assert_eq!(context.eeg_headset_adapter.count("change_work_mode(Calibration)"), 1);
    assert_eq!(context.eeg_headset_adapter.count("extract_impedance_data"), 1);
}

#[test]
fn test_extract_calibration_data_extraction_error() {
    let mut mock = ScriptedHeadset::new(&[true], WorkMode::Calibration);
    mock.impedance.push_back(Err("Impedance extraction failed".to_string()));
    let mut context = context_with(mock, RecordingBulb::new(), idle_model());

    let result = CommandBus::new()
        .execute(&mut context, Command::ExtractCalibrationData(ExtractCalibrationDataCommand));

    assert!(result.is_err());
    let message = result.unwrap_err().to_string();
    assert!(message.contains("Error extracting calibration data"));
    assert_eq!(
        message,
        "Error extracting calibration data from device: Impedance extraction failed"
    );
}

#[test]
fn test_extract_generalist_data_disconnected() {
    let mock = ScriptedHeadset::new(&[false], WorkMode::Extraction);
    let mut context = context_with(mock, RecordingBulb::new(), idle_model());

    let result = CommandBus::new()
        .execute(&mut context, Command::ExtractGeneralistData(ExtractGeneralistDataCommand));

    assert!(result.is_err());
    assert!(result.unwrap_err().to_string().contains("Device is not connected"));
}

#[test]
fn test_extract_generalist_data_already_in_extraction_mode() {
    let mut mock = ScriptedHeadset::new(&[true], WorkMode::Extraction);
    mock.raw.push_back(Ok(vec![("channel1", vec![1.0, 2.0, 3.0]), ("channel2", vec![4.0, 5.0, 6.0])]));
    let mut context = context_with(mock, RecordingBulb::new(), idle_model());

    let result = CommandBus::new()
        .execute(&mut context, Command::ExtractGeneralistData(ExtractGeneralistDataCommand));

    assert!(result.is_ok());
    assert_eq!(context.eeg_headset_adapter.count("change_work_mode(Extraction)"), 0);
    let stored = context.data.headset_data().as_ref().expect("the window is in the context");
    assert_eq!(stored.get("channel1"), Some(&vec![1.0, 2.0, 3.0]));
    assert_eq!(stored.get("channel2"), Some(&vec![4.0, 5.0, 6.0]));
    assert!(context.data.impedance_data().is_none());
}

#[test]
fn test_extract_generalist_data_change_mode() {
    let mut mock = ScriptedHeadset::new(&[true], WorkMode::Calibration);
    mock.raw.push_back(Ok(vec![("channel1", vec![1.0, 2.0, 3.0])]));
    let mut context = context_with(mock, RecordingBulb::new(), idle_model());

    let result = CommandBus::new()
        .execute(&mut context, Command::ExtractGeneralistData(ExtractGeneralistDataCommand));

    assert!(result.is_ok());
    assert_eq!(context.eeg_headset_adapter.count("change_work_mode(Extraction)"), 1);
}

#[test]
fn test_extract_generalist_data_extraction_error() {
    let mut mock = ScriptedHeadset::new(&[true], WorkMode::Extraction);
    mock.raw.push_back(Err("Raw data extraction failed".to_string()));
    let mut context = context_with(mock, RecordingBulb::new(), idle_model());

    let result = CommandBus::new()
        .execute(&mut context, Command::ExtractGeneralistData(ExtractGeneralistDataCommand));

    assert!(result.is_err());
    let message = result.unwrap_err().to_string();
    assert!(message.contains("Error extracting data from device"));
    assert_eq!(message, "Error extracting data from device: Raw data extraction failed");
}

#[test]
fn test_predict_color_thinking_no_data() {
    let mut context = context_with(idle_headset(), RecordingBulb::new(), idle_model());

    let result = CommandBus::new()
        .execute(&mut context, Command::PredictColorThinking(PredictColorThinkingCommand));

    assert_eq!(result.unwrap_err().to_string(), "No EEG data available for prediction");
    assert_eq!(context.data.prediction_count(), 0);
    assert!(context.model_service.seen_channels.borrow().is_empty());
}

#[test]
fn test_predict_color_thinking_successful() {
    let mock = ScriptedModel::new(&[Ok("green")]);
    let mut context = context_with(idle_headset(), RecordingBulb::new(), mock);
    context.write(InternalEvent::ReceivedGeneralistData(window_of(&[("channel1", vec![1.0, 2.0, 3.0])])));

    let _ = CommandBus::new()
        .execute(&mut context, Command::PredictColorThinking(PredictColorThinkingCommand));

    assert_eq!(context.data.prediction_count(), 1);
    assert_eq!(context.get_color_thinking(), "green".to_string());
    assert_eq!(*context.model_service.seen_channels.borrow(), vec![1]);
}

#[test]
fn test_predict_color_thinking_prediction_error() {
    let mock = ScriptedModel::new(&[Err("Prediction failed")]);
    let mut context = context_with(idle_headset(), RecordingBulb::new(), mock);
    context.write(InternalEvent::ReceivedGeneralistData(window_of(&[("channel1", vec![1.0, 2.0, 3.0])])));

    let result = CommandBus::new()
        .execute(&mut context, Command::PredictColorThinking(PredictColorThinkingCommand));

    assert_eq!(result.unwrap_err().to_string(), "Error predicting color: Prediction failed");
    assert_eq!(context.data.prediction_count(), 0);
}

#[test]
fn test_search_already_connected() {
    let mock = ScriptedHeadset::new(&[true], WorkMode::Calibration);
    let mut context = context_with(mock, RecordingBulb::new(), idle_model());

    let result = CommandBus::new().execute(&mut context, Command::SearchHeadband(SearchHeadbandCommand));

    assert!(result.is_ok());
    assert_eq!(context.eeg_headset_adapter.count("connect"), 0);
}

#[test]
fn test_search_connect_successful() {
    let mock = ScriptedHeadset::new(&[false, true], WorkMode::Calibration);
    let mut context = context_with(mock, RecordingBulb::new(), idle_model());

    let result = CommandBus::new().execute(&mut context, Command::SearchHeadband(SearchHeadbandCommand));

    assert!(result.is_ok());
    assert_eq!(context.eeg_headset_adapter.count("connect"), 1);
    assert_eq!(context.eeg_headset_adapter.count("is_connected"), 2);
}

#[test]
fn test_search_connect_error() {
    let mut mock = ScriptedHeadset::new(&[false], WorkMode::Calibration);
    mock.connect_result = Err("Failed to connect to device".to_string());
    let mut context = context_with(mock, RecordingBulb::new(), idle_model());

    let result = CommandBus::new().execute(&mut context, Command::SearchHeadband(SearchHeadbandCommand));

    assert!(result.is_err());
    let message = result.unwrap_err().to_string();
    assert!(message.contains("Error connecting to the device"));
    assert_eq!(message, "Error connecting to the device: Failed to connect to device");
    assert_eq!(context.eeg_headset_adapter.count("is_connected"), 1);
}

#[test]
fn test_search_connect_not_connected_after_attempt() {
    let mock = ScriptedHeadset::new(&[false], WorkMode::Calibration);
    let mut context = context_with(mock, RecordingBulb::new(), idle_model());

    let result = CommandBus::new().execute(&mut context, Command::SearchHeadband(SearchHeadbandCommand));

    assert!(result.is_err());
    let message = result.unwrap_err().to_string();
    assert!(message.contains("Device is not connected or is not sending data"));
    assert_eq!(context.eeg_headset_adapter.count("is_connected"), 2);
    assert_eq!(context.eeg_headset_adapter.count("connect"), 1);
}

#[test]
fn test_update_light_status_turn_on_successful() {
    let mut context = context_with(idle_headset(), RecordingBulb::new(), idle_model());

    let result = CommandBus::new().execute(
        &mut context,
        Command::UpdateLightStatus(UpdateLightStatusCommand { is_light_on: true }),
    );

    assert!(result.is_ok());
    assert_eq!(*context.smart_bulb_adapter.commands.borrow(), vec![BulbState::BulbOn]);
}

#[test]
fn test_update_light_status_turn_off_successful() {
    let mut context = context_with(idle_headset(), RecordingBulb::new(), idle_model());

    let result = CommandBus::new().execute(
        &mut context,
        Command::UpdateLightStatus(UpdateLightStatusCommand { is_light_on: false }),
    );

    assert!(result.is_ok());
    assert_eq!(*context.smart_bulb_adapter.commands.borrow(), vec![BulbState::BulbOff]);
}

#[test]
fn test_update_light_status_turn_on_error() {
    let mut bulb = RecordingBulb::new();
    bulb.result = Err("Failed to turn on bulb".to_string());
    let mut context = context_with(idle_headset(), bulb, idle_model());

    let result = CommandBus::new().execute(
        &mut context,
        Command::UpdateLightStatus(UpdateLightStatusCommand { is_light_on: true }),
    );

    assert!(result.is_err());
    assert!(result.unwrap_err().to_string().contains("Failed to turn on bulb"));
    assert_eq!(*context.smart_bulb_adapter.commands.borrow(), vec![BulbState::BulbOn]);
}

#[test]
fn test_update_light_status_turn_off_error() {
    let mut bulb = RecordingBulb::new();
    bulb.result = Err("Failed to turn off bulb".to_string());
    let mut context = context_with(idle_headset(), bulb, idle_model());

    let result = CommandBus::new().execute(
        &mut context,
        Command::UpdateLightStatus(UpdateLightStatusCommand { is_light_on: false }),
    );

    assert!(result.is_err());
    assert!(result.unwrap_err().to_string().contains("Failed to turn off bulb"));
    assert_eq!(*context.smart_bulb_adapter.commands.borrow(), vec![BulbState::BulbOff]);
}

#[test]
fn handlers_can_be_called_directly() {
    let mock = ScriptedHeadset::new(&[false, true], WorkMode::Calibration);
    let mut context = context_with(mock, RecordingBulb::new(), idle_model());
    let events = search_headband_use_case(&mut context, SearchHeadbandCommand).unwrap();
    assert!(events.items.is_empty());
    let events = InitializeHardwarePartsUseCase.handle(&mut context).unwrap();
    assert!(events.items.is_empty());
    assert_eq!(InitializeHardwarePartsUseCase.command_name(), "initialize-hardware-parts");
}

#[test]
fn command_names_are_distinct() {
    let names = [
        Command::DisconnectHeadband(DisconnectHeadbandCommand).name(),
        Command::SearchHeadband(SearchHeadbandCommand).name(),
        Command::ExtractCalibrationData(ExtractCalibrationDataCommand).name(),
        Command::ExtractGeneralistData(ExtractGeneralistDataCommand).name(),
        Command::PredictColorThinking(PredictColorThinkingCommand).name(),
        Command::UpdateLightStatus(UpdateLightStatusCommand { is_light_on: true }).name(),
    ];
    assert_eq!(names[4], "predict-color-thinking");
    assert_eq!(names[5], "update-light-status");
    for a in 0..names.len() {
        for b in 0..a {
            assert_ne!(names[a], names[b]);
        }
    }
}
