//! The BrainBit headband driver's rules: which board commands switch the
//! work mode, which rows of a board frame belong to which electrode, and
//! what each answer of the board means for the caller. The board session
//! itself is held by the application.

use vstd::prelude::*;
use crate::channels::{
    copy_samples, distinct_names, electrode_names, lemma_electrode_names_differ, samples,
    ImpedanceSample, SignalWindow,
};
use crate::inference::{required_channel, CHANNEL_COUNT};
use crate::models::WorkMode;
use crate::text::{concat2, concat3};

verus! {

/// The address of the headband when none is configured.
pub const DEFAULT_DEVICE_MAC: &'static str = "C8:8F:B6:6D:E1:E2";

/// How long, in seconds, the board waits for the headband.
pub const CONNECTION_TIMEOUT_SECONDS: u16 = 20;

/// How many samples the board's stream buffer holds.
pub const STREAM_BUFFER_SIZE: usize = 1000;

/// How many samples an impedance poll asks of the board.
pub const IMPEDANCE_POLL_SAMPLES: usize = 100;

/// The board command that stops what runs in `mode`: the resistance
/// measurement in calibration, the signal stream otherwise. A switch away
/// from `mode` sends it first.
pub open spec fn spec_stop_command(mode: WorkMode) -> Seq<char> {
    match mode {
        WorkMode::Calibration => "CommandStopResist"@,
        WorkMode::Extraction => "CommandStopSignal"@,
        WorkMode::Initialized => "CommandStopSignal"@,
    }
}

/// The board command that starts what runs in `mode`: the resistance
/// measurement in calibration, the signal stream otherwise. A switch to
/// `mode` sends it last.
pub open spec fn spec_start_command(mode: WorkMode) -> Seq<char> {
    match mode {
        WorkMode::Calibration => "CommandStartResist"@,
        WorkMode::Extraction => "CommandStartSignal"@,
        WorkMode::Initialized => "CommandStartSignal"@,
    }
}

/// The mode after a switch from `current` to `target` was tried: `target`
/// when the stop and the start command both went through, `current` in
/// every other case.
pub open spec fn spec_mode_after_switch(
    current: WorkMode,
    target: WorkMode,
    stopped: bool,
    started: bool,
) -> WorkMode {
    if current == target || (stopped && started) {
        target
    } else {
        current
    }
}

/// The row of a board frame that holds the resistance of required channel
/// `channel`.
pub open spec fn spec_resistance_row(channel: int) -> int {
    channel + 5
}

/// The row of a board frame that holds the signal of required channel
/// `channel`.
pub open spec fn spec_signal_row(channel: int) -> int {
    channel + 1
}

/// The reading of required channel `channel` in a frame of resistances:
/// the first value of its row, or 0 where the row is missing or empty.
pub open spec fn spec_reading(frame: Seq<Vec<u16>>, channel: int) -> u16 {
    let row = spec_resistance_row(channel);
    if row < frame.len() && frame[row]@.len() > 0 {
        frame[row]@[0]
    } else {
        0
    }
}

/// The impedance sample of a frame of resistances: one reading for each of
/// the four electrodes, in their order.
pub open spec fn spec_impedance_sample(frame: Seq<Vec<u16>>) -> Seq<(Seq<char>, u16)> {
    Seq::new(CHANNEL_COUNT as nat, |c: int| (electrode_names()[c], spec_reading(frame, c)))
}

/// The state of the driver: the mode the headband was last switched to.
#[derive(Debug, Clone, Copy)]
pub struct BrainFlowAdapter {
    pub work_mode: WorkMode,
}

impl Default for BrainFlowAdapter {
    /// A driver for a headband that has not been switched to any mode.
    fn default() -> (out: Self)
        ensures
            out.work_mode == WorkMode::Initialized,
    {
        BrainFlowAdapter { work_mode: WorkMode::Initialized }
    }
}

/// The board command that stops what runs in `mode`: the resistance
/// measurement in calibration, the signal stream otherwise. A switch away
/// from `mode` sends it first.
pub fn stop_command(mode: WorkMode) -> (command: &'static str)
    ensures
        command@ == spec_stop_command(mode),
{
    match mode {
        WorkMode::Calibration => "CommandStopResist",
        WorkMode::Extraction => "CommandStopSignal",
        WorkMode::Initialized => "CommandStopSignal",
    }
}

/// The board command that starts what runs in `mode`: the resistance
/// measurement in calibration, the signal stream otherwise. A switch to
/// `mode` sends it last.
pub fn start_command(mode: WorkMode) -> (command: &'static str)
    ensures
        command@ == spec_start_command(mode),
{
    match mode {
        WorkMode::Calibration => "CommandStartResist",
        WorkMode::Extraction => "CommandStartSignal",
        WorkMode::Initialized => "CommandStartSignal",
    }
}

/// The row that holds the resistance of required channel `channel`.
pub fn resistance_row(channel: usize) -> (row: usize)
    requires
        channel < CHANNEL_COUNT,
    ensures
        row == spec_resistance_row(channel as int),
{
    channel + 5
}

/// The row that holds the signal of required channel `channel`.
pub fn signal_row(channel: usize) -> (row: usize)
    requires
        channel < CHANNEL_COUNT,
    ensures
        row == spec_signal_row(channel as int),
{
    channel + 1
}

/// What the board's failure to take `command` is reported as.
pub fn command_failure(command: &str, reason: &str) -> (message: String)
    ensures
        message@ == "Error sending command '"@ + command@ + "': "@ + reason@,
{
    let mut message = concat3("Error sending command '", command, "': ");
    message.append(reason);
    message
}

/// What the board's refusal to start the stream is reported as.
pub fn stream_start_failure(reason: &str) -> (message: String)
    ensures
        message@ == "Failed to start stream: "@ + reason@,
{
    concat2("Failed to start stream: ", reason)
}

/// What the board's refusal to stop the stream is reported as.
pub fn stream_stop_failure(reason: &str) -> (message: String)
    ensures
        message@ == "Failed to stop stream: "@ + reason@,
{
    concat2("Failed to stop stream: ", reason)
}

/// What the board's refusal to release the session is reported as.
pub fn session_release_failure(reason: &str) -> (message: String)
    ensures
        message@ == "Failed to release session: "@ + reason@,
{
    concat2("Failed to release session: ", reason)
}

/// What a failed impedance poll is reported as.
pub fn impedance_read_failure(reason: &str) -> (message: String)
    ensures
        message@ == "Failed to get board data for impedance: "@ + reason@,
{
    concat2("Failed to get board data for impedance: ", reason)
}

/// What a failed signal read is reported as.
pub fn signal_read_failure(reason: &str) -> (message: String)
    ensures
        message@ == "Failed to get board data for raw extraction: "@ + reason@,
{
    concat2("Failed to get board data for raw extraction: ", reason)
}

/// What a connection attempt comes to once the stream runs: success when
/// the board took the start command, an error otherwise.
pub fn signal_start_verdict(started: bool) -> (r: Result<(), String>)
    ensures
        started ==> r is Ok,
        !started ==> r is Err && r->Err_0@ == "Failed to start signal command."@,
{
    if started {
        Ok(())
    } else {
        Err(String::from_str("Failed to start signal command."))
    }
}

/// Whether the headband is there, by the probe read: a prepared session
/// whose probe returned at least one column.
pub fn probe_verdict(prepared: bool, probe_columns: &Result<usize, String>) -> (connected: bool)
    ensures
        connected == (prepared && probe_columns is Ok && probe_columns->Ok_0 != 0),
{
    if !prepared {
        return false;
    }
    match probe_columns {
        Ok(columns) => *columns != 0,
        Err(_) => false,
    }
}

impl BrainFlowAdapter {
    /// The mode the headband was last switched to.
    pub fn get_work_mode(&self) -> (mode: WorkMode)
        ensures
            mode == self.work_mode,
    {
        self.work_mode
    }

    /// First step of a switch to `target`: the stop command to send, or
    /// nothing when the headband is in that mode already.
    pub fn begin_mode_change(&self, target: WorkMode) -> (stop: Option<&'static str>)
        ensures
            match stop {
                None => self.work_mode == target,
                Some(command) => self.work_mode != target && command@ == spec_stop_command(
                    self.work_mode,
                ),
            },
    {
        if self.work_mode == target {
            None
        } else {
            Some(stop_command(self.work_mode))
        }
    }

    /// Second step of a switch to `target`: the start command to send once
    /// the stop command went through, or nothing when it did not and the
    /// switch is given up.
    pub fn continue_mode_change(&self, target: WorkMode, stopped: bool) -> (start: Option<
        &'static str,
    >)
        ensures
            match start {
                None => !stopped,
                Some(command) => stopped && command@ == spec_start_command(target),
            },
    {
        if stopped {
            Some(start_command(target))
        } else {
            None
        }
    }

    /// Last step of a switch to `target`: the mode becomes `target` when
    /// the start command went through and stays otherwise.
    pub fn finish_mode_change(&mut self, target: WorkMode, started: bool)
        ensures
            final(self).work_mode == spec_mode_after_switch(
                old(self).work_mode,
                target,
                true,
                started,
            ),
            old(self).work_mode != target && !started ==> final(self).work_mode
                == old(self).work_mode,
    {
        if started {
            self.work_mode = target;
        }
    }

    /// Whether a connection attempt has anything to do: nothing on a
    /// prepared session.
    pub fn needs_session(&self, prepared: bool) -> (needed: bool)
        ensures
            needed == !prepared,
    {
        !prepared
    }

    /// Whether the session can be closed: only a prepared one.
    pub fn check_session(&self, prepared: bool) -> (r: Result<(), String>)
        ensures
            prepared ==> r is Ok,
            !prepared ==> r is Err && r->Err_0@ == "Device is not connected."@,
    {
        if prepared {
            Ok(())
        } else {
            Err(String::from_str("Device is not connected."))
        }
    }

    /// Whether impedance can be read: only in calibration mode.
    pub fn check_calibration_mode(&self) -> (r: Result<(), String>)
        ensures
            self.work_mode == WorkMode::Calibration ==> r is Ok,
            self.work_mode != WorkMode::Calibration ==> r is Err && r->Err_0@
                == "Device not in Calibration mode. Call change_work_mode first."@,
    {
        match self.work_mode {
            WorkMode::Calibration => Ok(()),
            _ => Err(
                String::from_str("Device not in Calibration mode. Call change_work_mode first."),
            ),
        }
    }

    /// Whether the signal can be read: only in extraction mode.
    pub fn check_extraction_mode(&self) -> (r: Result<(), String>)
        ensures
            self.work_mode == WorkMode::Extraction ==> r is Ok,
            self.work_mode != WorkMode::Extraction ==> r is Err && r->Err_0@
                == "Device not in Extraction mode. Call change_work_mode first."@,
    {
        match self.work_mode {
            WorkMode::Extraction => Ok(()),
            _ => Err(
                String::from_str("Device not in Extraction mode. Call change_work_mode first."),
            ),
        }
    }

    /// Records a disconnection: once the stream is stopped the headband is
    /// in no mode.
    pub fn mark_disconnected(&mut self)
        ensures
            final(self).work_mode == WorkMode::Initialized,
    {
        self.work_mode = WorkMode::Initialized;
    }
}

/// The impedance sample of a frame of resistances in kilo-ohms. A frame
/// without rows is an error; otherwise every electrode gets the first value
/// of its row, or 0 where the frame has no such row or the row is empty.
pub fn extract_impedance_sample(frame: &Vec<Vec<u16>>) -> (r: Result<ImpedanceSample, String>)
    ensures
        frame@.len() == 0 ==> r is Err && r->Err_0@
            == "No data returned from board for impedance check."@,
        frame@.len() > 0 ==> r is Ok && r->Ok_0@ == spec_impedance_sample(frame@),
{
    if frame.len() == 0 {
        return Err(String::from_str("No data returned from board for impedance check."));
    }
    let mut sample = ImpedanceSample::new();
    let mut c: usize = 0;
    proof {
        lemma_electrode_names_differ();
    }
    while c < CHANNEL_COUNT
        invariant
            c <= CHANNEL_COUNT,
            sample@.len() == c,
            forall|k: int|
                0 <= k < c ==> #[trigger] sample@[k] == (
                    electrode_names()[k],
                    spec_reading(frame@, k),
                ),
            forall|a: int, b: int|
                0 <= a < 4 && 0 <= b < 4 && a != b ==> #[trigger] electrode_names()[a]
                    != #[trigger] electrode_names()[b],
        decreases CHANNEL_COUNT - c,
    {
        let row = resistance_row(c);
        let reading: u16 = if row < frame.len() && frame[row].len() > 0 {
            frame[row][0]
        } else {
            0
        };
        let name = required_channel(c);
        proof {
            let key = electrode_names()[c as int];
            if crate::channels::has_name(sample@, key) {
                let at = crate::channels::index_of(sample@, key);
                assert(sample@[at].0 == key);
                assert(sample@[at].0 == electrode_names()[at]);
            }
        }
        sample.insert(String::from_str(name), reading);
        c += 1;
    }
    assert(sample@ =~= spec_impedance_sample(frame@));
    Ok(sample)
}

/// The signal window of a board frame: for each electrode whose row the
/// frame has, in the order of the electrodes, the samples of that row. A
/// frame without rows gives the empty window.
pub open spec fn spec_signal_window<T>(frame: Seq<Vec<T>>) -> Seq<(Seq<char>, Seq<T>)> {
    Seq::new(
        if frame.len() == 0 {
            0nat
        } else if frame.len() - 1 < CHANNEL_COUNT {
            (frame.len() - 1) as nat
        } else {
            CHANNEL_COUNT as nat
        },
        |c: int| (electrode_names()[c], frame[spec_signal_row(c)]@),
    )
}

/// The signal window of a board frame.
pub fn extract_signal_window<T: Copy>(frame: &Vec<Vec<T>>) -> (window: SignalWindow<T>)
    ensures
        samples(window@) == spec_signal_window(frame@),
        distinct_names(window@),
{
    let mut window: SignalWindow<T> = SignalWindow::new();
    let _ = window.len();
    assert(samples(window@) =~= Seq::<(Seq<char>, Seq<T>)>::empty());
    if frame.len() == 0 {
        assert(samples(window@) =~= spec_signal_window(frame@));
        return window;
    }
    proof {
        lemma_electrode_names_differ();
    }
    let mut c: usize = 0;
    while c < CHANNEL_COUNT && signal_row(c) < frame.len()
        invariant
            c <= CHANNEL_COUNT,
            frame@.len() > 0,
            c <= frame@.len() - 1,
            window@.len() == c,
            distinct_names(window@),
            forall|k: int|
                0 <= k < c ==> (#[trigger] window@[k]).0 == electrode_names()[k] && window@[k].1@
                    == frame@[spec_signal_row(k)]@,
            forall|a: int, b: int|
                0 <= a < 4 && 0 <= b < 4 && a != b ==> #[trigger] electrode_names()[a]
                    != #[trigger] electrode_names()[b],
        decreases CHANNEL_COUNT - c,
    {
        let row = signal_row(c);
        let values = copy_samples(&frame[row]);
        let name = required_channel(c);
        proof {
            let key = electrode_names()[c as int];
            if crate::channels::has_name(window@, key) {
                let at = crate::channels::index_of(window@, key);
                assert(window@[at].0 == key);
                assert(window@[at].0 == electrode_names()[at]);
            }
        }
        window.insert(String::from_str(name), values);
        c += 1;
    }
    assert(samples(window@) =~= spec_signal_window(frame@));
    window
}

/// How many stop and start pairs a switch from `current` to `target`
/// sends: none when the headband is in that mode already, one otherwise.
pub open spec fn spec_switch_pairs(current: WorkMode, target: WorkMode) -> nat {
    if current == target {
        0
    } else {
        1
    }
}

/// Switching to a mode twice, with the board taking its commands, leaves
/// the headband in that mode and sends at most one stop and start pair:
/// the second switch sends nothing.
pub proof fn lemma_mode_round_trip(current: WorkMode, target: WorkMode)
    ensures
        spec_mode_after_switch(current, target, true, true) == target,
        spec_mode_after_switch(
            spec_mode_after_switch(current, target, true, true),
            target,
            true,
            true,
        ) == target,
        spec_switch_pairs(current, target) + spec_switch_pairs(
            spec_mode_after_switch(current, target, true, true),
            target,
        ) <= 1,
{
}

/// A switch the board refuses leaves the mode as it was.
pub proof fn lemma_refused_switch_keeps_mode(
    current: WorkMode,
    target: WorkMode,
    stopped: bool,
    started: bool,
)
    requires
        !(stopped && started),
        current != target,
    ensures
        spec_mode_after_switch(current, target, stopped, started) == current,
{
}

} // verus!
