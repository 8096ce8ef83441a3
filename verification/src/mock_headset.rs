//! A simulated headband for running the pipeline without hardware.

use vstd::prelude::*;
use rand::Rng;
use crate::channels::{
    copy_samples, distinct_names, lookup, samples, ImpedanceSample, SignalWindow,
};
use crate::models::WorkMode;
use crate::ports::EegHeadsetPort;
use crate::text::same_text;

verus! {

/// How many samples a simulated channel keeps.
pub const SIMULATED_SAMPLES: usize = 500;

/// The lowest impedance the simulation reports, in kilo-ohms.
pub const IMPEDANCE_FLOOR: u16 = 1;

/// The highest impedance the simulation reports, in kilo-ohms.
pub const IMPEDANCE_CEILING: u16 = 20;

/// A value of `rand::Rng::gen_range` over `low..high`, drawn from the
/// thread's generator: some value of the half-open range, and nothing more
/// is known of it.
#[verifier::external_body]
fn draw_in_range(low: i16, high: i16) -> (value: i16)
    requires
        low < high,
    ensures
        low <= value < high,
{
    rand::thread_rng().gen_range(low..high)
}

/// A value of `rand::Rng::gen_ratio`, drawn from the thread's generator:
/// true with the given odds; nothing is known of a single draw.
#[verifier::external_body]
fn draw_with_odds(numerator: u32, denominator: u32) -> bool
    requires
        0 < denominator,
        numerator <= denominator,
{
    rand::thread_rng().gen_ratio(numerator, denominator)
}

/// An impedance after a change, kept within `[1, 20]`.
pub open spec fn spec_drifted(value: u16, change: i16) -> u16 {
    if value + change < IMPEDANCE_FLOOR {
        IMPEDANCE_FLOOR
    } else if value + change > IMPEDANCE_CEILING {
        IMPEDANCE_CEILING
    } else {
        (value + change) as u16
    }
}

/// A channel after one more sample: appended, with the oldest sample
/// dropped first once `SIMULATED_SAMPLES` are held.
pub open spec fn spec_advanced<T>(values: Seq<T>, value: T) -> Seq<T> {
    if values.len() >= SIMULATED_SAMPLES {
        values.subrange(1, values.len() as int).push(value)
    } else {
        values.push(value)
    }
}

/// A sample with one reading within `[1, 20]` for each of the four
/// electrodes.
pub open spec fn plausible(pairs: Seq<(Seq<char>, u16)>) -> bool {
    &&& pairs.len() == 4
    &&& pairs[0].0 == "T3"@
    &&& pairs[1].0 == "T4"@
    &&& pairs[2].0 == "O1"@
    &&& pairs[3].0 == "O2"@
    &&& forall|i: int|
        0 <= i < 4 ==> IMPEDANCE_FLOOR <= (#[trigger] pairs[i]).1 <= IMPEDANCE_CEILING
}

/// Each reading of `after` is the reading of `before` moved by some change
/// in `[-2, 2]` and kept within `[1, 20]`.
pub open spec fn drifted_from(before: Seq<(Seq<char>, u16)>, after: Seq<(Seq<char>, u16)>) -> bool {
    forall|i: int|
        0 <= i < 4 ==> exists|change: i16|
            -2 <= change <= 2 && (#[trigger] after[i]).1 == spec_drifted(before[i].1, change)
}

/// An impedance after a change, kept within `[1, 20]`.
pub fn drifted_impedance(value: u16, change: i16) -> (out: u16)
    ensures
        out == spec_drifted(value, change),
        IMPEDANCE_FLOOR <= out <= IMPEDANCE_CEILING,
{
    let moved: i32 = value as i32 + change as i32;
    if moved < 1 {
        IMPEDANCE_FLOOR
    } else if moved > 20 {
        IMPEDANCE_CEILING
    } else {
        moved as u16
    }
}

/// One channel after one more sample.
pub fn advanced_channel<T: Copy>(values: &Vec<T>, value: T) -> (out: Vec<T>)
    ensures
        out@ == spec_advanced(values@, value),
{
    let mut out = copy_samples(values);
    if out.len() >= SIMULATED_SAMPLES {
        let _ = out.remove(0);
    }
    out.push(value);
    assert(out@ =~= spec_advanced(values@, value));
    out
}

/// The simulated readings: a signal buffer per channel and one impedance
/// per electrode.
#[derive(Debug)]
pub struct SimulatedEegData<T> {
    raw_data_buffer: SignalWindow<T>,
    impedance_values: ImpedanceSample,
}

impl<T> SimulatedEegData<T> {
    #[verifier::type_invariant]
    spec fn impedances_are_plausible(&self) -> bool {
        plausible(self.impedance_values@)
    }

    /// The simulated impedances.
    pub closed spec fn impedances(&self) -> Seq<(Seq<char>, u16)> {
        self.impedance_values@
    }

    /// The simulated signal buffers.
    pub closed spec fn signal(&self) -> Seq<(Seq<char>, Vec<T>)> {
        self.raw_data_buffer@
    }

}

impl<T: Copy> SimulatedEegData<T> {
    /// A simulation around the given signal buffers, with an impedance
    /// drawn from `[1, 14]` for each electrode.
    pub fn new(raw_data_buffer: SignalWindow<T>) -> (out: Self)
        ensures
            out.signal() == raw_data_buffer@,
            plausible(out.impedances()),
            forall|i: int| 0 <= i < 4 ==> (#[trigger] out.impedances()[i]).1 < 15,
    {
        let t3 = draw_in_range(1, 15) as u16;
        let t4 = draw_in_range(1, 15) as u16;
        let o1 = draw_in_range(1, 15) as u16;
        let o2 = draw_in_range(1, 15) as u16;
        let impedance_values = ImpedanceSample::of_electrodes(t3, t4, o1, o2);
        SimulatedEegData { raw_data_buffer, impedance_values }
    }

    /// The reading at position `at` of the simulated impedances.
    fn reading(&self, at: usize) -> (value: u16)
        requires
            at < 4,
        ensures
            value == self.impedances()[at as int].1,
            plausible(self.impedances()),
    {
        proof {
            use_type_invariant(self);
        }
        match self.impedance_values.entry_at(at) {
            Some((_, value)) => *value,
            None => 0,
        }
    }

    /// Lets the impedances drift: one time in ten every reading moves by a
    /// change in `[-2, 2]` and is kept within `[1, 20]`; else nothing
    /// changes. The signal buffers are left alone.
    pub fn refresh_impedance(&mut self)
        ensures
            final(self).signal() == old(self).signal(),
            plausible(final(self).impedances()),
            final(self).impedances() == old(self).impedances() || drifted_from(
                old(self).impedances(),
                final(self).impedances(),
            ),
    {
        proof {
            use_type_invariant(&*self);
        }
        if draw_with_odds(1, 10) {
            let ghost before = self.impedances();
            let c0 = draw_in_range(-2, 3);
            let c1 = draw_in_range(-2, 3);
            let c2 = draw_in_range(-2, 3);
            let c3 = draw_in_range(-2, 3);
            let t3 = drifted_impedance(self.reading(0), c0);
            let t4 = drifted_impedance(self.reading(1), c1);
            let o1 = drifted_impedance(self.reading(2), c2);
            let o2 = drifted_impedance(self.reading(3), c3);
            let moved = ImpedanceSample::of_electrodes(t3, t4, o1, o2);
            proof {
                let after = moved@;
                assert(after[0].1 == spec_drifted(before[0].1, c0));
                assert(after[1].1 == spec_drifted(before[1].1, c1));
                assert(after[2].1 == spec_drifted(before[2].1, c2));
                assert(after[3].1 == spec_drifted(before[3].1, c3));
                assert(drifted_from(before, after));
            }
            self.impedance_values = moved;
        }
    }

    /// Appends `value` to the buffer of `channel`, dropping the oldest
    /// sample first once `SIMULATED_SAMPLES` are held. A channel the
    /// simulation does not have is not created. The impedances are left
    /// alone.
    pub fn push_sample(&mut self, channel: &str, value: T)
        ensures
            final(self).impedances() == old(self).impedances(),
            match lookup(old(self).signal(), channel@) {
                Some(values) => {
                    &&& lookup(final(self).signal(), channel@) is Some
                    &&& lookup(final(self).signal(), channel@)->0@ == spec_advanced(
                        values@,
                        value,
                    )
                    &&& forall|other: Seq<char>|
                        other != channel@ ==> #[trigger] lookup(final(self).signal(), other)
                            == lookup(old(self).signal(), other)
                },
                None => final(self).signal() == old(self).signal(),
            },
    {
        proof {
            use_type_invariant(&*self);
        }
        let advanced = match self.raw_data_buffer.get(channel) {
            Some(values) => advanced_channel(values, value),
            None => {
                return ;
            },
        };
        let mut buffer: SignalWindow<T> = SignalWindow::new();
        core::mem::swap(&mut buffer, &mut self.raw_data_buffer);
        buffer.insert(String::from_str(channel), advanced);
        self.raw_data_buffer = buffer;
    }

    /// The newest sample of `channel`, if the channel exists and holds one.
    pub fn last_sample(&self, channel: &str) -> (r: Option<T>)
        ensures
            match lookup(self.signal(), channel@) {
                Some(values) => if values@.len() > 0 {
                    r == Some(values@.last())
                } else {
                    r is None
                },
                None => r is None,
            },
    {
        match self.raw_data_buffer.get(channel) {
            Some(values) => {
                if values.len() > 0 {
                    Some(values[values.len() - 1])
                } else {
                    None
                }
            },
            None => None,
        }
    }

    /// A copy of the simulated impedances.
    pub fn impedance_sample(&self) -> (out: ImpedanceSample)
        ensures
            out@ == self.impedances(),
            plausible(out@),
    {
        proof {
            use_type_invariant(self);
        }
        self.impedance_values.duplicate()
    }

    /// A copy of the simulated signal buffers.
    pub fn signal_window(&self) -> (out: SignalWindow<T>)
        ensures
            samples(out@) == samples(self.signal()),
            distinct_names(out@),
    {
        self.raw_data_buffer.duplicate()
    }
}

/// The message of a read asked of a headband that is not in `mode`.
pub open spec fn spec_wrong_mode_message(mode: WorkMode) -> Seq<char> {
    match mode {
        WorkMode::Calibration => "Device not in Calibration mode. Call change_work_mode first."@,
        _ => "Device not in Extraction mode. Call change_work_mode first."@,
    }
}

/// Whether the simulated headband stands in for the real one: always,
/// unless the setting says `false`.
pub fn uses_mock_headset(configured: &Option<String>) -> (r: bool)
    ensures
        r == !(configured is Some && configured->0@ == "false"@),
{
    match configured {
        Some(value) => !same_text(value.as_str(), "false"),
        None => true,
    }
}

/// The simulated headband: always there, in whatever mode it was last
/// switched to.
#[derive(Debug)]
pub struct MockHeadsetAdapter<T> {
    pub work_mode: WorkMode,
    pub is_connected: bool,
    pub simulated: SimulatedEegData<T>,
}

impl<T: Copy> MockHeadsetAdapter<T> {
    /// What one impedance poll does: outside calibration mode, or on a
    /// headband that is not there, it fails with the message for that and
    /// changes nothing; else the impedances drift, each staying within
    /// `[1, 20]`, and the sample that comes back holds them as they are
    /// then. Mode, link and signal buffers stay as they were.
    pub open spec fn impedance_polled(
        before: Self,
        after: Self,
        r: Result<ImpedanceSample, String>,
    ) -> bool {
        &&& after.work_mode == before.work_mode
        &&& after.is_connected == before.is_connected
        &&& after.simulated.signal() == before.simulated.signal()
        &&& before.work_mode != WorkMode::Calibration ==> r is Err && r->Err_0@
            == "Device not in Calibration mode. Call change_work_mode first."@
        &&& before.work_mode == WorkMode::Calibration && !before.is_connected ==> r is Err
            && r->Err_0@ == "Device is not connected"@
        &&& before.work_mode == WorkMode::Calibration && before.is_connected ==> r is Ok
            && r->Ok_0@ == after.simulated.impedances() && plausible(r->Ok_0@)
        &&& after.simulated.impedances() == before.simulated.impedances() || drifted_from(
            before.simulated.impedances(),
            after.simulated.impedances(),
        )
        &&& r is Err ==> after.simulated == before.simulated
    }

    /// What one signal read does: outside extraction mode, or on a headband
    /// that is not there, it fails with the message for that and changes
    /// nothing; else the impedances drift and a copy of the signal buffers
    /// comes back. Mode, link and signal buffers stay as they were.
    pub open spec fn signal_read(
        before: Self,
        after: Self,
        r: Result<SignalWindow<T>, String>,
    ) -> bool {
        &&& after.work_mode == before.work_mode
        &&& after.is_connected == before.is_connected
        &&& after.simulated.signal() == before.simulated.signal()
        &&& before.work_mode != WorkMode::Extraction ==> r is Err && r->Err_0@
            == "Device not in Extraction mode. Call change_work_mode first."@
        &&& before.work_mode == WorkMode::Extraction && !before.is_connected ==> r is Err
            && r->Err_0@ == "Device is not connected"@
        &&& before.work_mode == WorkMode::Extraction && before.is_connected ==> r is Ok
            && samples(r->Ok_0@) == samples(before.simulated.signal())
        &&& after.simulated.impedances() == before.simulated.impedances() || drifted_from(
            before.simulated.impedances(),
            after.simulated.impedances(),
        )
        &&& r is Err ==> after.simulated == before.simulated
    }

    /// A connected headband in calibration mode around the given
    /// simulation.
    pub fn new(simulated: SimulatedEegData<T>) -> (out: Self)
        ensures
            out.work_mode == WorkMode::Calibration,
            out.is_connected,
            out.simulated == simulated,
    {
        MockHeadsetAdapter { work_mode: WorkMode::Calibration, is_connected: true, simulated }
    }

    /// Always succeeds; the simulated link is not touched.
    pub fn connect(&self) -> (r: Result<(), String>)
        ensures
            r is Ok,
    {
        Ok(())
    }

    /// Whether the simulated headband is there.
    pub fn is_connected(&self) -> (connected: bool)
        ensures
            connected == self.is_connected,
    {
        self.is_connected
    }

    /// Succeeds on a connected headband and fails on one that is not; the
    /// simulated link is not touched.
    pub fn disconnect(&mut self) -> (r: Result<(), String>)
        ensures
            *final(self) == *old(self),
            old(self).is_connected ==> r is Ok,
            !old(self).is_connected ==> r is Err && r->Err_0@ == "Device is not connected"@,
    {
        if !self.is_connected {
            return Err(String::from_str("Device is not connected"));
        }
        Ok(())
    }

    /// Switches to `mode`.
    pub fn change_work_mode(&mut self, mode: WorkMode)
        ensures
            final(self).work_mode == mode,
            final(self).is_connected == old(self).is_connected,
            final(self).simulated == old(self).simulated,
    {
        self.work_mode = mode;
    }

    /// The mode the headband is in.
    pub fn get_work_mode(&self) -> (mode: WorkMode)
        ensures
            mode == self.work_mode,
    {
        self.work_mode
    }

    /// Whether a read that needs `mode` can be served: the headband must be
    /// in that mode and connected.
    pub fn check_readable(&self, mode: WorkMode) -> (r: Result<(), String>)
        requires
            mode != WorkMode::Initialized,
        ensures
            self.work_mode == mode && self.is_connected ==> r is Ok,
            self.work_mode != mode ==> r is Err && r->Err_0@ == spec_wrong_mode_message(mode),
            self.work_mode == mode && !self.is_connected ==> r is Err && r->Err_0@
                == "Device is not connected"@,
    {
        if self.work_mode != mode {
            return Err(
                match mode {
                    WorkMode::Calibration => String::from_str(
                        "Device not in Calibration mode. Call change_work_mode first.",
                    ),
                    _ => String::from_str(
                        "Device not in Extraction mode. Call change_work_mode first.",
                    ),
                },
            );
        }
        if !self.is_connected {
            return Err(String::from_str("Device is not connected"));
        }
        Ok(())
    }

    /// One impedance poll: an error outside calibration mode or on a
    /// headband that is not there; else the impedances after their drift,
    /// each within `[1, 20]`.
    pub fn extract_impedance_data(&mut self) -> (r: Result<ImpedanceSample, String>)
        ensures
            Self::impedance_polled(*old(self), *final(self), r),
    {
        match self.check_readable(WorkMode::Calibration) {
            Err(message) => {
                return Err(message);
            },
            Ok(_) => {},
        }
        self.simulated.refresh_impedance();
        Ok(self.simulated.impedance_sample())
    }

    /// One signal read: an error outside extraction mode or on a headband
    /// that is not there; else a copy of the signal buffers, after the
    /// impedances drifted.
    pub fn extract_raw_data(&mut self) -> (r: Result<SignalWindow<T>, String>)
        ensures
            Self::signal_read(*old(self), *final(self), r),
    {
        match self.check_readable(WorkMode::Extraction) {
            Err(message) => {
                return Err(message);
            },
            Ok(_) => {},
        }
        self.simulated.refresh_impedance();
        Ok(self.simulated.signal_window())
    }
}

impl<T: Copy> Default for MockHeadsetAdapter<T> {
    /// A connected headband in calibration mode with no signal channel.
    fn default() -> (out: Self)
        ensures
            out.work_mode == WorkMode::Calibration,
            out.is_connected,
            out.simulated.signal() == Seq::<(Seq<char>, Vec<T>)>::empty(),
    {
        MockHeadsetAdapter::new(SimulatedEegData::new(SignalWindow::new()))
    }
}

impl<T: Copy> EegHeadsetPort<T> for MockHeadsetAdapter<T> {
    /// Always succeeds; the simulated link is not touched.
    fn connect(&self) -> (r: Result<(), String>)
        ensures
            r is Ok,
    {
        MockHeadsetAdapter::connect(self)
    }

    /// Whether the simulated headband is there.
    fn is_connected(&self) -> (connected: bool)
        ensures
            connected == self.is_connected,
    {
        MockHeadsetAdapter::is_connected(self)
    }

    /// Succeeds on a connected headband and fails on one that is not; the
    /// simulated link is not touched.
    fn disconnect(&mut self) -> (r: Result<(), String>)
        ensures
            *final(self) == *old(self),
            old(self).is_connected ==> r is Ok,
            !old(self).is_connected ==> r is Err && r->Err_0@ == "Device is not connected"@,
    {
        MockHeadsetAdapter::disconnect(self)
    }

    /// One impedance poll, as `impedance_polled` says.
    fn extract_impedance_data(&mut self) -> (r: Result<ImpedanceSample, String>)
        ensures
            Self::impedance_polled(*old(self), *final(self), r),
    {
        MockHeadsetAdapter::extract_impedance_data(self)
    }

    /// One signal read, as `signal_read` says.
    fn extract_raw_data(&mut self) -> (r: Result<SignalWindow<T>, String>)
        ensures
            Self::signal_read(*old(self), *final(self), r),
    {
        MockHeadsetAdapter::extract_raw_data(self)
    }

    /// Switches to `mode`; link and simulation stay as they were.
    fn change_work_mode(&mut self, mode: WorkMode)
        ensures
            final(self).work_mode == mode,
            final(self).is_connected == old(self).is_connected,
            final(self).simulated == old(self).simulated,
    {
        MockHeadsetAdapter::change_work_mode(self, mode)
    }

    /// The mode the headband is in.
    fn get_work_mode(&self) -> (mode: WorkMode)
        ensures
            mode == self.work_mode,
    {
        MockHeadsetAdapter::get_work_mode(self)
    }
}

} // verus!
