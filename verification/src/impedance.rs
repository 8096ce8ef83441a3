//! Electrode contact quality: per-electrode status and the calibration rule.

use vstd::prelude::*;
use crate::channels::ImpedanceSample;

verus! {

/// The lowest reading, in kilo-ohms, that counts as calibrated.
pub const CALIBRATED_MIN: u16 = 1;

/// The highest reading, in kilo-ohms, that counts as calibrated.
pub const CALIBRATED_MAX: u16 = 1000;

/// Contact quality of one electrode.
#[derive(Debug, PartialEq, Eq, Clone, Copy, Structural)]
pub enum ElectrodeStatus {
    Good,
    Acceptable,
    Poor,
}

/// What is reported of one electrode after a calibration poll.
#[derive(Debug)]
pub struct ElectrodeReport {
    pub electrode: String,
    pub kilo_ohms: u16,
    pub status: ElectrodeStatus,
}

/// Contact quality by reading: above 2 kilo-ohms poor, 1 or 2 acceptable,
/// 0 good.
pub open spec fn spec_electrode_status(kilo_ohms: u16) -> ElectrodeStatus {
    if kilo_ohms > 2 {
        ElectrodeStatus::Poor
    } else if kilo_ohms >= 1 {
        ElectrodeStatus::Acceptable
    } else {
        ElectrodeStatus::Good
    }
}

/// A reading that lets calibration finish: within `[1, 1000]`.
pub open spec fn within_calibrated_range(kilo_ohms: u16) -> bool {
    CALIBRATED_MIN <= kilo_ohms <= CALIBRATED_MAX
}

/// Some electrode of the sample reads outside `[1, 1000]`.
pub open spec fn spec_needs_more_calibration(pairs: Seq<(Seq<char>, u16)>) -> bool {
    exists|i: int| 0 <= i < pairs.len() && !within_calibrated_range((#[trigger] pairs[i]).1)
}

/// Contact quality of one reading.
pub fn electrode_status(kilo_ohms: u16) -> (status: ElectrodeStatus)
    ensures
        status == spec_electrode_status(kilo_ohms),
{
    if kilo_ohms > 2 {
        ElectrodeStatus::Poor
    } else if kilo_ohms >= 1 {
        ElectrodeStatus::Acceptable
    } else {
        ElectrodeStatus::Good
    }
}

/// The line that describes a status to an operator.
pub fn status_label(status: ElectrodeStatus) -> (label: &'static str)
    ensures
        label@ == match status {
            ElectrodeStatus::Poor => "ERROR: Poor connection"@,
            ElectrodeStatus::Acceptable => "WARNING: Acceptable connection"@,
            ElectrodeStatus::Good => "OK: Good connection"@,
        },
{
    match status {
        ElectrodeStatus::Poor => "ERROR: Poor connection",
        ElectrodeStatus::Acceptable => "WARNING: Acceptable connection",
        ElectrodeStatus::Good => "OK: Good connection",
    }
}

/// One report per electrode of the sample, in the sample's order, with the
/// reading and its contact quality.
pub fn process_impedance_data(data: &ImpedanceSample) -> (reports: Vec<ElectrodeReport>)
    ensures
        reports@.len() == data@.len(),
        forall|i: int|
            0 <= i < data@.len() ==> {
                &&& (#[trigger] reports@[i]).electrode@ == data@[i].0
                &&& reports@[i].kilo_ohms == data@[i].1
                &&& reports@[i].status == spec_electrode_status(data@[i].1)
            },
{
    let n: usize = data.len();
    let mut reports: Vec<ElectrodeReport> = Vec::new();
    let mut i: usize = 0;
    while i < n
        invariant
            n == data@.len(),
            i <= n,
            reports@.len() == i,
            forall|k: int|
                0 <= k < i ==> {
                    &&& (#[trigger] reports@[k]).electrode@ == data@[k].0
                    &&& reports@[k].kilo_ohms == data@[k].1
                    &&& reports@[k].status == spec_electrode_status(data@[k].1)
                },
        decreases n - i,
    {
        match data.entry_at(i) {
            Some((name, value)) => {
                let kilo_ohms: u16 = *value;
                reports.push(
                    ElectrodeReport {
                        electrode: String::from_str(name),
                        kilo_ohms,
                        status: electrode_status(kilo_ohms),
                    },
                );
            },
            None => {
                assert(false);
            },
        }
        i += 1;
    }
    reports
}

/// Whether calibration has to go on: true exactly when some electrode reads
/// below 1 or above 1000 kilo-ohms.
pub fn needs_more_calibration(data: &ImpedanceSample) -> (r: bool)
    ensures
        r == spec_needs_more_calibration(data@),
{
    let n: usize = data.len();
    let mut i: usize = 0;
    while i < n
        invariant
            n == data@.len(),
            i <= n,
            forall|k: int| 0 <= k < i ==> within_calibrated_range((#[trigger] data@[k]).1),
        decreases n - i,
    {
        match data.entry_at(i) {
            Some((_, value)) => {
                if *value > CALIBRATED_MAX || *value < CALIBRATED_MIN {
                    return true;
                }
            },
            None => {
                assert(false);
            },
        }
        i += 1;
    }
    false
}

} // verus!
