use std::cell::RefCell;

use neural_analytics_core::brainbit::{
    command_failure, extract_impedance_sample, extract_signal_window, impedance_read_failure,
    probe_verdict, resistance_row, session_release_failure, signal_read_failure, signal_row,
    signal_start_verdict, start_command, stop_command, stream_start_failure,
    stream_stop_failure, BrainFlowAdapter,
};
use neural_analytics_core::channels::{copy_samples, ImpedanceSample, SignalWindow};
use neural_analytics_core::context::{NeuralAnalyticsContext, PipelineData, BUFFER_SIZE};
use neural_analytics_core::errors::{CommandError, LightStatusError};
use neural_analytics_core::event_handlers::{
    handle_captured_headset_data_event, handle_headset_calibrated_event,
    handle_headset_calibrating_event, handle_headset_connected_event,
    handle_headset_disconnected_event, handle_initialized_core_event,
};
use neural_analytics_core::events::{
    CapturedHeadsetDataEvent, EventData, Events, HeadsetCalibratedEvent, HeadsetCalibratingEvent,
    HeadsetConnectedEvent, HeadsetDisconnectedEvent, InitializedCoreEvent, InternalEvent,
};
use neural_analytics_core::impedance::{
    electrode_status, needs_more_calibration, process_impedance_data, status_label,
    ElectrodeStatus,
};
use neural_analytics_core::main_state_machine::MainStateMachine;
use neural_analytics_core::mock_headset::{
    advanced_channel, drifted_impedance, uses_mock_headset, MockHeadsetAdapter, SimulatedEegData,
};
use neural_analytics_core::models::{bulb_state_for, BulbState, WorkMode};
use neural_analytics_core::ports::{
    EegHeadsetPort, EventSink, ModelInferenceInterface, SmartBulbPort,
};
use neural_analytics_core::dispatcher::apply_events;
use neural_analytics_core::events::NeuralAnalyticsCoreEvents;
use neural_analytics_core::state_machine::State;
use neural_analytics_core::tapo::{
    setting_or, state_name, uses_placeholders, BulbAction, TapoSmartBulbAdapter,
    PLACEHOLDER_IP_ADDRESS, PLACEHOLDER_PASSWORD, PLACEHOLDER_USERNAME,
};
use neural_analytics_core::text::{chars_of, concat2, concat3, contains_phrase, decimal, same_text};
use neural_analytics_core::use_cases::{
    calibration_verdict, connection_verdict, disconnect_first_verdict, disconnection_verdict,
    extraction_verdict, light_verdict, needs_mode_switch, prediction_verdict, prefixed_error,
    readiness_verdict, search_first_verdict,
};

fn impedance_of(pairs: &[(&str, u16)]) -> ImpedanceSample {
    let mut sample = ImpedanceSample::new();
    for (name, value) in pairs {
        sample.insert(name.to_string(), *value);
    }
    sample
}

fn entries<V: Clone>(map: &neural_analytics_core::channels::ChannelMap<V>) -> Vec<(String, V)> {
    let mut out = Vec::new();
    let mut at = 0;
    while let Some((name, value)) = map.entry_at(at) {
        out.push((name.to_string(), value.clone()));
        at += 1;
    }
    assert_eq!(out.len(), map.len());
    out
}

fn labels(data: &PipelineData<f32>) -> Vec<String> {
    let mut out = Vec::new();
    let mut at = 0;
    while let Some(label) = data.prediction_at(at) {
        out.push(label.clone());
        at += 1;
    }
    assert_eq!(out.len(), data.prediction_count());
    out
}

fn push(data: &mut PipelineData<f32>, label: &str) {
    data.write(InternalEvent::ReceivedPredictColorThinkingData(label.to_string()));
}

// Channel maps.

#[test]
fn channel_map_behaves_like_a_map() {
    let mut map: SignalWindow<f32> = SignalWindow::new();
    assert!(map.is_empty());
    assert_eq!(map.get("T3"), None);
    map.insert("T3".to_string(), vec![1.0]);
    map.insert("T4".to_string(), vec![2.0]);
    map.insert("T3".to_string(), vec![3.0, 4.0]);
    assert_eq!(map.len(), 2);
    assert_eq!(entries(&map), vec![("T3".to_string(), vec![3.0, 4.0]), ("T4".to_string(), vec![2.0])]);
    assert!(map.contains_key("T4"));
    assert!(!map.contains_key("t4"));
    assert!(!map.contains_key("T4 "));
    map.remove("O1");
    assert_eq!(map.len(), 2);
    map.remove("T3");
    assert_eq!(entries(&map), vec![("T4".to_string(), vec![2.0])]);
    assert_eq!(map.entry_at(1), None);
    map.replace_at(0, vec![9.0]);
    assert_eq!(map.get("T4"), Some(&vec![9.0]));
    let copy = map.duplicate();
    assert_eq!(entries(&copy), entries(&map));
    let sample = ImpedanceSample::of_electrodes(1, 2, 3, 4);
    assert_eq!(
        entries(&sample.duplicate()),
        vec![("T3".to_string(), 1), ("T4".to_string(), 2), ("O1".to_string(), 3), ("O2".to_string(), 4)]
    );
    assert_eq!(copy_samples(&vec![1u8, 2, 3]), vec![1, 2, 3]);
}

// Impedance.

#[test]
fn electrode_status_thresholds() {
    assert_eq!(electrode_status(0), ElectrodeStatus::Good);
    assert_eq!(electrode_status(1), ElectrodeStatus::Acceptable);
    assert_eq!(electrode_status(2), ElectrodeStatus::Acceptable);
    assert_eq!(electrode_status(3), ElectrodeStatus::Poor);
    assert_eq!(electrode_status(u16::MAX), ElectrodeStatus::Poor);
    assert_eq!(status_label(ElectrodeStatus::Good), "OK: Good connection");
    assert_eq!(status_label(ElectrodeStatus::Acceptable), "WARNING: Acceptable connection");
    assert_eq!(status_label(ElectrodeStatus::Poor), "ERROR: Poor connection");
}

#[test]
fn impedance_reports_follow_the_sample() {
    let sample = impedance_of(&[("T3", 0), ("T4", 2), ("O1", 3), ("O2", 1500)]);
    let reports = process_impedance_data(&sample);
    let digest: Vec<(&str, u16, ElectrodeStatus)> =
        reports.iter().map(|r| (r.electrode.as_str(), r.kilo_ohms, r.status)).collect();
    assert_eq!(
        digest,
        vec![
            ("T3", 0, ElectrodeStatus::Good),
            ("T4", 2, ElectrodeStatus::Acceptable),
            ("O1", 3, ElectrodeStatus::Poor),
            ("O2", 1500, ElectrodeStatus::Poor)
        ]
    );
    assert!(process_impedance_data(&ImpedanceSample::new()).is_empty());
}

#[test]
fn calibration_range_is_closed() {
    assert!(!needs_more_calibration(&impedance_of(&[("T3", 1), ("T4", 1000)])));
    assert!(needs_more_calibration(&impedance_of(&[("T3", 1), ("T4", 0)])));
    assert!(needs_more_calibration(&impedance_of(&[("T3", 1001), ("T4", 5)])));
    assert!(!needs_more_calibration(&ImpedanceSample::new()));
    assert!(needs_more_calibration(&impedance_of(&[("sensor1", 2000), ("sensor2", 100)])));
}

// Context.

#[test]
fn window_and_sample_exclude_each_other() {
    let mut data: PipelineData<f32> = PipelineData::new();
    assert!(data.headset_data().is_none() && data.impedance_data().is_none());
    data.write(InternalEvent::ReceivedCalibrationData(impedance_of(&[("T3", 5)])));
    assert!(data.headset_data().is_none() && data.impedance_data().is_some());
    let mut window = SignalWindow::new();
    window.insert("T3".to_string(), vec![1.0f32]);
    data.write(InternalEvent::ReceivedGeneralistData(window));
    assert!(data.headset_data().is_some() && data.impedance_data().is_none());
    push(&mut data, "red");
    assert!(data.headset_data().is_some() && data.impedance_data().is_none());
    data.write(InternalEvent::ReceivedCalibrationData(impedance_of(&[("T3", 5)])));
    assert!(data.headset_data().is_none() && data.impedance_data().is_some());
    push(&mut data, "red");
    assert!(data.headset_data().is_none() && data.impedance_data().is_none());
    assert_eq!(labels(&data), vec!["red", "red"]);
}

#[test]
fn buffer_keeps_the_newest_six() {
    let mut data: PipelineData<f32> = PipelineData::new();
    assert_eq!(BUFFER_SIZE, 6);
    for (count, label) in ["a", "b", "c", "d", "e", "f", "g", "h"].iter().enumerate() {
        push(&mut data, label);
        assert_eq!(data.prediction_count(), (count + 1).min(6));
    }
    assert_eq!(labels(&data), vec!["c", "d", "e", "f", "g", "h"]);
    assert_eq!(data.prediction_at(6), None);
}

#[test]
fn consensus_needs_unanimity() {
    let mut data: PipelineData<f32> = PipelineData::new();
    assert_eq!(data.get_color_thinking(), "unknown");
    push(&mut data, "trash");
    assert_eq!(data.get_color_thinking(), "trash");
    push(&mut data, "red");
    assert_eq!(data.get_color_thinking(), "unknown");
    for pushed in 1..=6 {
        push(&mut data, "green");
        let expected = if pushed >= 6 { "green" } else { "unknown" };
        assert_eq!(data.get_color_thinking(), expected, "after {} pushes", pushed);
    }
    for pushed in 1..=6 {
        push(&mut data, "red");
        let expected = if pushed >= 6 { "red" } else { "unknown" };
        assert_eq!(data.get_color_thinking(), expected, "after {} pushes", pushed);
    }
    push(&mut data, "Red");
    assert_eq!(data.get_color_thinking(), "unknown");
}

#[test]
fn events_are_applied_in_order() {
    let mut context = NeuralAnalyticsContext::<f32, u8, u8, u8>::new(1, 2, 3);
    let mut events = Events::new();
    events.add(InternalEvent::ReceivedPredictColorThinkingData("red".to_string()));
    events.add(InternalEvent::ReceivedCalibrationData(impedance_of(&[("T3", 7)])));
    events.add(InternalEvent::ReceivedPredictColorThinkingData("green".to_string()));
    apply_events(&mut context, events);
    assert_eq!(labels(&context.data), vec!["red", "green"]);
    assert!(context.data.impedance_data().is_none());
    assert_eq!((context.eeg_headset_adapter, context.smart_bulb_adapter, context.model_service), (1, 2, 3));
    assert_eq!(context.get_color_thinking(), "unknown");
}

// Verdicts.

#[test]
fn verdicts_word_their_errors() {
    assert!(connection_verdict::<f32>(true).unwrap().items.is_empty());
    assert_eq!(
        connection_verdict::<f32>(false).unwrap_err().to_string(),
        "Error: Device is not connected or is not sending data. Connect first."
    );
    assert!(disconnection_verdict::<f32>(false).unwrap().items.is_empty());
    assert_eq!(
        disconnection_verdict::<f32>(true).unwrap_err().to_string(),
        "Error: Device is not disconnected or is sending data. Disconnect first."
    );
    let events = calibration_verdict::<f32>(Ok(impedance_of(&[("T3", 4)]))).unwrap();
    assert!(matches!(&events.items[..], [InternalEvent::ReceivedCalibrationData(s)] if s.get("T3") == Some(&4)));
    assert_eq!(
        calibration_verdict::<f32>(Err("x".to_string())).unwrap_err().to_string(),
        "Error extracting calibration data from device: x"
    );
    let mut window = SignalWindow::new();
    window.insert("O1".to_string(), vec![2.5f32]);
    let events = extraction_verdict(Ok(window)).unwrap();
    assert!(matches!(&events.items[..], [InternalEvent::ReceivedGeneralistData(w)] if w.get("O1") == Some(&vec![2.5])));
    assert_eq!(
        extraction_verdict::<f32>(Err("y".to_string())).unwrap_err().to_string(),
        "Error extracting data from device: y"
    );
    let events = prediction_verdict::<f32>(Ok("trash".to_string())).unwrap();
    assert!(matches!(&events.items[..], [InternalEvent::ReceivedPredictColorThinkingData(l)] if l == "trash"));
    assert_eq!(
        prediction_verdict::<f32>(Err("z".to_string())).unwrap_err().to_string(),
        "Error predicting color: z"
    );
    assert!(search_first_verdict::<f32>(true).unwrap().items.is_empty());
    assert!(search_first_verdict::<f32>(false).is_none());
    assert!(disconnect_first_verdict::<f32>(false).unwrap().items.is_empty());
    assert!(disconnect_first_verdict::<f32>(true).is_none());
    assert!(readiness_verdict(true).is_ok());
    assert_eq!(
        readiness_verdict(false).unwrap_err().to_string(),
        "Error: Device is not connected. Connect first."
    );
    assert!(needs_mode_switch(WorkMode::Extraction, WorkMode::Calibration));
    assert!(needs_mode_switch(WorkMode::Initialized, WorkMode::Extraction));
    assert!(!needs_mode_switch(WorkMode::Calibration, WorkMode::Calibration));
    assert!(light_verdict::<f32>(Ok(())).unwrap().items.is_empty());
    assert_eq!(
        light_verdict::<f32>(Err("Failed to turn on bulb".to_string())).unwrap_err().to_string(),
        "Failed to turn on bulb"
    );
    assert_eq!(prefixed_error("a: ", "b").message, "a: b");
    assert_eq!(CommandError::new("m".to_string()).to_string(), "m");
}

#[test]
fn light_status_errors_read_as_lines() {
    assert_eq!(
        LightStatusError::InvalidStatus("dim".to_string()).to_string(),
        "Invalid light status: dim"
    );
    assert_eq!(
        LightStatusError::CommunicationFailure("timeout".to_string()).to_string(),
        "Failed to communicate with the light: timeout"
    );
}

// Text.

#[test]
fn text_helpers() {
    assert!(contains_phrase("Channel 'T3' has no data", "has no data"));
    assert!(contains_phrase("has no data", "has no data"));
    assert!(contains_phrase("x", ""));
    assert!(contains_phrase("", ""));
    assert!(!contains_phrase("", "a"));
    assert!(!contains_phrase("has no dat", "has no data"));
    assert!(!contains_phrase("Has No Data", "has no data"));
    assert!(contains_phrase("señal sin has no data ✓", "has no data"));
    assert!(contains_phrase("aab", "ab"));
    assert_eq!(chars_of("añ✓"), vec!['a', 'ñ', '✓']);
    assert_eq!(concat2("ab", "cd"), "abcd");
    assert_eq!(concat3("a", "", "c"), "ac");
    assert!(same_text("green", "green") && !same_text("green", "green "));
    assert_eq!(decimal(0), "0");
    assert_eq!(decimal(7), "7");
    assert_eq!(decimal(10), "10");
    assert_eq!(decimal(907), "907");
    assert_eq!(decimal(usize::MAX), usize::MAX.to_string());
}

// BrainBit rules.

#[test]
fn mode_switch_commands() {
    assert_eq!(stop_command(WorkMode::Calibration), "CommandStopResist");
    assert_eq!(stop_command(WorkMode::Extraction), "CommandStopSignal");
    assert_eq!(stop_command(WorkMode::Initialized), "CommandStopSignal");
    assert_eq!(start_command(WorkMode::Calibration), "CommandStartResist");
    assert_eq!(start_command(WorkMode::Extraction), "CommandStartSignal");
    assert_eq!(start_command(WorkMode::Initialized), "CommandStartSignal");
}

#[test]
fn mode_round_trip_sends_one_pair() {
    let mut adapter = BrainFlowAdapter::default();
    assert_eq!(adapter.get_work_mode(), WorkMode::Initialized);
    assert_eq!(adapter.begin_mode_change(WorkMode::Calibration), Some("CommandStopSignal"));
    assert_eq!(adapter.continue_mode_change(WorkMode::Calibration, true), Some("CommandStartResist"));
    adapter.finish_mode_change(WorkMode::Calibration, true);
    assert_eq!(adapter.get_work_mode(), WorkMode::Calibration);
    assert_eq!(adapter.begin_mode_change(WorkMode::Calibration), None);
    // Leaving calibration stops the resistance measurement and starts the signal.
    assert_eq!(adapter.begin_mode_change(WorkMode::Extraction), Some("CommandStopResist"));
    assert_eq!(adapter.continue_mode_change(WorkMode::Extraction, true), Some("CommandStartSignal"));
    adapter.finish_mode_change(WorkMode::Extraction, true);
    assert_eq!(adapter.get_work_mode(), WorkMode::Extraction);
    assert_eq!(adapter.begin_mode_change(WorkMode::Extraction), None);
}

#[test]
fn refused_switch_keeps_the_mode() {
    let mut adapter = BrainFlowAdapter { work_mode: WorkMode::Extraction };
    assert_eq!(adapter.begin_mode_change(WorkMode::Calibration), Some("CommandStopSignal"));
    // A stop command that fails ends the switch: there is nothing to send.
    assert_eq!(adapter.continue_mode_change(WorkMode::Calibration, false), None);
    assert_eq!(adapter.get_work_mode(), WorkMode::Extraction);
    // A start command that fails leaves the mode as it was.
    adapter.finish_mode_change(WorkMode::Calibration, false);
    assert_eq!(adapter.get_work_mode(), WorkMode::Extraction);
    assert!(adapter.begin_mode_change(WorkMode::Calibration).is_some());
    let mut adapter = BrainFlowAdapter { work_mode: WorkMode::Extraction };
    adapter.mark_disconnected();
    assert_eq!(adapter.work_mode, WorkMode::Initialized);
}

#[test]
fn reads_are_gated_by_mode() {
    let calibration = BrainFlowAdapter { work_mode: WorkMode::Calibration };
    let extraction = BrainFlowAdapter { work_mode: WorkMode::Extraction };
    let initial = BrainFlowAdapter::default();
    assert!(calibration.check_calibration_mode().is_ok());
    assert_eq!(
        extraction.check_calibration_mode().unwrap_err(),
        "Device not in Calibration mode. Call change_work_mode first."
    );
    assert!(initial.check_calibration_mode().is_err());
    assert!(extraction.check_extraction_mode().is_ok());
    assert_eq!(
        calibration.check_extraction_mode().unwrap_err(),
        "Device not in Extraction mode. Call change_work_mode first."
    );
    assert!(initial.check_extraction_mode().is_err());
}

#[test]
fn board_frames_map_to_electrodes() {
    assert_eq!((0..4).map(resistance_row).collect::<Vec<_>>(), vec![5, 6, 7, 8]);
    assert_eq!((0..4).map(signal_row).collect::<Vec<_>>(), vec![1, 2, 3, 4]);
    assert_eq!(
        extract_impedance_sample(&vec![]).unwrap_err(),
        "No data returned from board for impedance check."
    );
    let mut frame: Vec<Vec<u16>> = (0..8).map(|row| vec![row * 10, 999]).collect();
    frame[6] = vec![];
    let sample = extract_impedance_sample(&frame).unwrap();
    assert_eq!(
        entries(&sample),
        vec![("T3".to_string(), 50), ("T4".to_string(), 0), ("O1".to_string(), 70), ("O2".to_string(), 0)]
    );
    let signal: Vec<Vec<f32>> = (0..4).map(|row| vec![row as f32, 0.5]).collect();
    let window = extract_signal_window(&signal);
    assert_eq!(
        entries(&window),
        vec![
            ("T3".to_string(), vec![1.0, 0.5]),
            ("T4".to_string(), vec![2.0, 0.5]),
            ("O1".to_string(), vec![3.0, 0.5])
        ]
    );
    assert!(extract_signal_window::<f32>(&vec![]).is_empty());
    assert!(extract_signal_window(&vec![vec![1.0f32]]).is_empty());
    let full: Vec<Vec<f32>> = (0..12).map(|row| vec![row as f32]).collect();
    assert_eq!(extract_signal_window(&full).len(), 4);
    assert_eq!(extract_signal_window(&full).get("O2"), Some(&vec![4.0]));
}

#[test]
fn board_answers() {
    assert_eq!(command_failure("CommandStopSignal", "timeout"), "Error sending command 'CommandStopSignal': timeout");
    assert!(signal_start_verdict(true).is_ok());
    assert_eq!(signal_start_verdict(false).unwrap_err(), "Failed to start signal command.");
    assert!(probe_verdict(true, &Ok(1)));
    assert!(!probe_verdict(true, &Ok(0)));
    assert!(!probe_verdict(false, &Ok(1)));
    assert!(!probe_verdict(true, &Err("gone".to_string())));
    let adapter = BrainFlowAdapter::default();
    assert!(adapter.needs_session(false) && !adapter.needs_session(true));
    assert!(adapter.check_session(true).is_ok());
    assert_eq!(adapter.check_session(false).unwrap_err(), "Device is not connected.");
    assert_eq!(stream_start_failure("a"), "Failed to start stream: a");
    assert_eq!(stream_stop_failure("b"), "Failed to stop stream: b");
    assert_eq!(session_release_failure("c"), "Failed to release session: c");
    assert_eq!(impedance_read_failure("d"), "Failed to get board data for impedance: d");
    assert_eq!(signal_read_failure("e"), "Failed to get board data for raw extraction: e");
}

// Simulated headband.

#[test]
fn simulated_impedances_are_drawn_within_range() {
    let mut seen = std::collections::BTreeSet::new();
    for _ in 0..200 {
        let simulated: SimulatedEegData<f32> = SimulatedEegData::new(SignalWindow::new());
        let sample = entries(&simulated.impedance_sample());
        assert_eq!(
            sample.iter().map(|(name, _)| name.as_str()).collect::<Vec<_>>(),
            vec!["T3", "T4", "O1", "O2"]
        );
        for (_, value) in sample {
            assert!((1..15).contains(&value), "drawn {}", value);
            seen.insert(value);
        }
    }
    // 800 draws from 14 values: a generator that handed back a bound would show one value.
    assert!(seen.len() > 5);
}

#[test]
fn simulated_impedances_drift_slowly() {
    let mut simulated: SimulatedEegData<f32> = SimulatedEegData::new(SignalWindow::new());
    let mut changed = 0;
    let mut unchanged = 0;
    for _ in 0..2000 {
        let before = entries(&simulated.impedance_sample());
        simulated.refresh_impedance();
        let after = entries(&simulated.impedance_sample());
        for ((_, old), (_, new)) in before.iter().zip(after.iter()) {
            assert!((1..=20).contains(new));
            assert!((*new as i32 - *old as i32).abs() <= 2);
        }
        if before == after {
            unchanged += 1;
        } else {
            changed += 1;
        }
    }
    assert!(changed > 20, "drifted only {} times", changed);
    assert!(unchanged > 1000, "stayed only {} times", unchanged);
}

#[test]
fn drift_is_clamped() {
    assert_eq!(drifted_impedance(10, 2), 12);
    assert_eq!(drifted_impedance(10, -2), 8);
    assert_eq!(drifted_impedance(1, -2), 1);
    assert_eq!(drifted_impedance(2, -2), 1);
    assert_eq!(drifted_impedance(20, 2), 20);
    assert_eq!(drifted_impedance(19, 1), 20);
    assert_eq!(drifted_impedance(u16::MAX, i16::MAX), 20);
    assert_eq!(drifted_impedance(0, i16::MIN), 1);
}

#[test]
fn simulated_channels_keep_five_hundred_samples() {
    assert_eq!(advanced_channel(&vec![1u32, 2], 3), vec![1, 2, 3]);
    let full: Vec<u32> = (0..500).collect();
    let advanced = advanced_channel(&full, 500);
    assert_eq!(advanced, (1..=500).collect::<Vec<u32>>());
    let mut window = SignalWindow::new();
    window.insert("T3".to_string(), vec![1.0f32]);
    let mut simulated = SimulatedEegData::new(window);
    assert_eq!(simulated.last_sample("T3"), Some(1.0));
    assert_eq!(simulated.last_sample("T4"), None);
    simulated.push_sample("T3", 2.0);
    simulated.push_sample("T4", 9.0);
    assert_eq!(entries(&simulated.signal_window()), vec![("T3".to_string(), vec![1.0, 2.0])]);
    assert_eq!(simulated.last_sample("T3"), Some(2.0));
}

#[test]
fn mock_headset_answers_the_same_through_the_port() {
    fn poll<H: EegHeadsetPort<f32>>(headset: &mut H) -> (bool, WorkMode, bool, bool) {
        let connected = headset.is_connected() && headset.connect().is_ok();
        let mode = headset.get_work_mode();
        let impedance = headset.extract_impedance_data().is_ok();
        headset.change_work_mode(WorkMode::Extraction);
        let signal = headset.extract_raw_data().is_ok();
        (connected, mode, impedance, signal && headset.disconnect().is_ok())
    }
    let mut mock: MockHeadsetAdapter<f32> = MockHeadsetAdapter::default();
    assert_eq!(poll(&mut mock), (true, WorkMode::Calibration, true, true));
    assert_eq!(mock.work_mode, WorkMode::Extraction);
    assert_eq!(poll(&mut mock), (true, WorkMode::Extraction, false, true));
    mock.is_connected = false;
    assert_eq!(poll(&mut mock), (false, WorkMode::Extraction, false, false));
}

#[test]
fn mock_headset_gates_reads_by_mode() {
    let mut window = SignalWindow::new();
    window.insert("T3".to_string(), vec![1.0f32, 2.0]);
    let mut mock = MockHeadsetAdapter::new(SimulatedEegData::new(window));
    assert_eq!(mock.get_work_mode(), WorkMode::Calibration);
    assert!(mock.is_connected());
    assert!(mock.connect().is_ok());
    assert!(mock.disconnect().is_ok());
    assert!(mock.is_connected());
    assert_eq!(
        mock.extract_raw_data().unwrap_err(),
        "Device not in Extraction mode. Call change_work_mode first."
    );
    let sample = mock.extract_impedance_data().unwrap();
    assert_eq!(sample.len(), 4);
    mock.change_work_mode(WorkMode::Extraction);
    mock.change_work_mode(WorkMode::Extraction);
    assert_eq!(mock.get_work_mode(), WorkMode::Extraction);
    assert_eq!(
        mock.extract_impedance_data().unwrap_err(),
        "Device not in Calibration mode. Call change_work_mode first."
    );
    assert_eq!(entries(&mock.extract_raw_data().unwrap()), vec![("T3".to_string(), vec![1.0, 2.0])]);
    mock.is_connected = false;
    assert_eq!(mock.extract_raw_data().unwrap_err(), "Device is not connected");
    assert_eq!(mock.disconnect().unwrap_err(), "Device is not connected");
    mock.change_work_mode(WorkMode::Calibration);
    assert_eq!(mock.extract_impedance_data().unwrap_err(), "Device is not connected");
    assert!(mock.check_readable(WorkMode::Extraction).is_err());
    mock.is_connected = true;
    assert!(mock.check_readable(WorkMode::Calibration).is_ok());
    assert_eq!(
        mock.check_readable(WorkMode::Extraction).unwrap_err(),
        "Device not in Extraction mode. Call change_work_mode first."
    );
    assert!(uses_mock_headset(&None));
    assert!(uses_mock_headset(&Some("true".to_string())));
    assert!(uses_mock_headset(&Some("anything".to_string())));
    assert!(!uses_mock_headset(&Some("false".to_string())));
    let blank: MockHeadsetAdapter<f32> = MockHeadsetAdapter::default();
    assert!(blank.is_connected && blank.work_mode == WorkMode::Calibration);
    assert!(blank.simulated.signal_window().is_empty());
}

struct Bulb {
    commands: RefCell<Vec<BulbState>>,
}

impl SmartBulbPort for Bulb {
    fn change_state(&self, state: BulbState) -> Result<(), String> {
        self.commands.borrow_mut().push(state);
        Ok(())
    }
}

struct Green;

impl ModelInferenceInterface<f32> for Green {
    fn predict_color(&self, _: &SignalWindow<f32>) -> Result<String, String> {
        Ok("green".to_string())
    }

    fn is_model_loaded(&self) -> bool {
        true
    }
}

struct Names {
    names: RefCell<Vec<String>>,
}

impl EventSink<f32> for Names {
    fn deliver(&self, event: &String, _: &EventData<f32>) -> Result<(), String> {
        self.names.borrow_mut().push(event.clone());
        Ok(())
    }
}

#[test]
fn pipeline_runs_on_the_simulated_headband() {
    let mut window = SignalWindow::new();
    for name in ["T3", "T4", "O1", "O2"] {
        window.insert(name.to_string(), vec![0.25f32; 500]);
    }
    let headset = MockHeadsetAdapter::new(SimulatedEegData::new(window));
    let context =
        NeuralAnalyticsContext::new(headset, Bulb { commands: RefCell::new(Vec::new()) }, Green);
    let mut machine = MainStateMachine::new(context, Some(Names { names: RefCell::new(Vec::new()) }));
    for _ in 0..9 {
        machine.handle(&NeuralAnalyticsCoreEvents::BackgroundTick);
    }
    assert_eq!(machine.state, State::CapturingHeadsetData);
    let names = machine.event_handler.as_ref().unwrap().names.borrow().clone();
    assert_eq!(&names[0..3], &["initialized-core", "headset-connected", "headset-calibrated"]);
    assert_eq!(names.len(), 9);
    assert_eq!(machine.context.smart_bulb_adapter.commands.borrow().len(), 6);
    assert_eq!(machine.context.eeg_headset_adapter.get_work_mode(), WorkMode::Extraction);
}

// Bulb rules.

#[test]
fn missing_settings_fall_back_to_placeholders() {
    assert_eq!(setting_or(None, PLACEHOLDER_IP_ADDRESS), "127.0.0.1");
    assert_eq!(setting_or(None, PLACEHOLDER_USERNAME), "test_user");
    assert_eq!(setting_or(None, PLACEHOLDER_PASSWORD), "test_password");
    assert_eq!(setting_or(Some("10.0.0.7".to_string()), PLACEHOLDER_IP_ADDRESS), "10.0.0.7");
    assert!(uses_placeholders("127.0.0.1", "test_user", "test_password"));
    assert!(!uses_placeholders("127.0.0.1", "me", "test_password"));
    assert!(!uses_placeholders("10.0.0.7", "test_user", "test_password"));
    assert!(!uses_placeholders("127.0.0.1", "test_user", ""));
}

#[test]
fn bulb_without_credentials_answers_with_success() {
    let adapter = TapoSmartBulbAdapter::new(setting_or(None, PLACEHOLDER_IP_ADDRESS));
    for ready in [false, true] {
        for state in [BulbState::BulbOn, BulbState::BulbOff] {
            assert!(matches!(adapter.plan_change_state(ready, state), BulbAction::Simulated));
            assert_eq!(adapter.plan_change_state(ready, state).settled_answer(), Some(Ok(())));
        }
    }
}

#[test]
fn bulb_is_not_commanded_before_its_session_is_there() {
    let adapter = TapoSmartBulbAdapter::new("10.0.0.7".to_string());
    match adapter.plan_change_state(false, BulbState::BulbOn) {
        BulbAction::NotConnected(message) => assert_eq!(message, "not connected yet"),
        _ => panic!("a bulb without session must refuse"),
    }
    for state in [BulbState::BulbOn, BulbState::BulbOff] {
        assert_eq!(
            adapter.plan_change_state(false, state).settled_answer(),
            Some(Err("not connected yet".to_string()))
        );
        assert_eq!(adapter.plan_change_state(true, state).settled_answer(), None);
    }
    assert!(matches!(
        adapter.plan_change_state(true, BulbState::BulbOn),
        BulbAction::Send(BulbState::BulbOn)
    ));
    assert!(matches!(
        adapter.plan_change_state(true, BulbState::BulbOff),
        BulbAction::Send(BulbState::BulbOff)
    ));
    assert_eq!(
        adapter.change_failure(BulbState::BulbOff, "timeout"),
        "Failed to change Tapo bulb state to BulbOff for device 10.0.0.7: timeout"
    );
    assert_eq!(state_name(BulbState::BulbOn), "BulbOn");
    assert_eq!(bulb_state_for(true), BulbState::BulbOn);
    assert_eq!(bulb_state_for(false), BulbState::BulbOff);
}

// Forwarders.

struct Payloads {
    told: RefCell<Vec<(String, bool, Option<String>, bool)>>,
}

impl EventSink<f32> for Payloads {
    fn deliver(&self, event: &String, data: &EventData<f32>) -> Result<(), String> {
        self.told.borrow_mut().push((
            event.clone(),
            data.headset_data.is_some(),
            data.color_thinking.clone(),
            data.impedance_data.is_some(),
        ));
        Err("ignored".to_string())
    }
}

#[test]
fn forwarders_build_the_payload_of_their_event() {
    let sink = Some(Payloads { told: RefCell::new(Vec::new()) });
    let mut window = SignalWindow::new();
    window.insert("T3".to_string(), vec![1.0f32]);
    assert!(handle_captured_headset_data_event(
        &sink,
        CapturedHeadsetDataEvent { headset_data: window, color_thinking: "red".to_string() }
    ));
    assert!(handle_headset_calibrated_event(&sink, HeadsetCalibratedEvent { impedance_data: vec![] }));
    assert!(handle_headset_calibrating_event(
        &sink,
        HeadsetCalibratingEvent { impedance_data: impedance_of(&[("T3", 1)]) }
    ));
    assert!(handle_headset_connected_event(&sink, HeadsetConnectedEvent));
    assert!(handle_headset_disconnected_event(&sink, HeadsetDisconnectedEvent));
    assert!(handle_initialized_core_event(&sink, InitializedCoreEvent));
    assert_eq!(
        *sink.as_ref().unwrap().told.borrow(),
        vec![
            ("captured-headset-data".to_string(), true, Some("red".to_string()), false),
            ("headset-calibrated".to_string(), false, None, false),
            ("headset-calibrating".to_string(), false, None, true),
            ("headset-connected".to_string(), false, None, false),
            ("headset-disconnected".to_string(), false, None, false),
            ("initialized-core".to_string(), false, None, false),
        ]
    );
    let none: Option<Payloads> = None;
    assert!(!handle_headset_connected_event(&none, HeadsetConnectedEvent));
    assert_eq!(CapturedHeadsetDataEvent::<f32>::NAME, "captured-headset-data");
}
