//! The inference engine's integer work: which channels a window must have,
//! how its samples are laid out for the classifier, and which label a class
//! index stands for. The numeric work itself is behind `InferenceEngine`.

use vstd::prelude::*;
use crate::channels::{electrode_names, has_name, lookup, SignalWindow};
use crate::text::{concat2, concat3, decimal, spec_decimal};

verus! {

/// How many samples of each channel the classifier takes.
pub const EXPECTED_SAMPLES: usize = 62;

/// How many channels the classifier takes.
pub const CHANNEL_COUNT: usize = 4;

/// The length of the classifier's input: 62 time steps of 4 channels.
pub const INPUT_LENGTH: usize = 248;

/// Where the model is looked for when no path is given.
pub const DEFAULT_MODEL_PATH: &'static str = "assets/neural_analytics.onnx";

/// The message for a window that lacks the channel `name`.
pub open spec fn missing_channel_message(name: Seq<char>) -> Seq<char> {
    "Required channel '"@ + name + "' not found in EEG data"@
}

/// The message for a window whose channel `name` holds no sample.
pub open spec fn empty_channel_message(name: Seq<char>) -> Seq<char> {
    "Channel '"@ + name + "' has no data"@
}

/// The message of a prediction asked of a service without a model.
pub open spec fn model_not_loaded_message() -> Seq<char> {
    "Model is not loaded. Call load_model first."@
}

/// The first required channel at or after `from` that the window lacks, or
/// `CHANNEL_COUNT` if there is none.
pub open spec fn first_missing<T>(pairs: Seq<(Seq<char>, Vec<T>)>, from: int) -> int
    decreases CHANNEL_COUNT - from,
{
    if from < 0 || from >= CHANNEL_COUNT {
        CHANNEL_COUNT as int
    } else if !has_name(pairs, electrode_names()[from]) {
        from
    } else {
        first_missing(pairs, from + 1)
    }
}

/// The first required channel at or after `from` that is present without a
/// sample, or `CHANNEL_COUNT` if there is none.
pub open spec fn first_empty<T>(pairs: Seq<(Seq<char>, Vec<T>)>, from: int) -> int
    decreases CHANNEL_COUNT - from,
{
    if from < 0 || from >= CHANNEL_COUNT {
        CHANNEL_COUNT as int
    } else if lookup(pairs, electrode_names()[from]) matches Some(values) && values@.len() == 0 {
        from
    } else {
        first_empty(pairs, from + 1)
    }
}

/// Whether a window can be classified: `Ok` when all four channels are
/// present and none is empty; else the message for the first missing
/// channel, or, if none is missing, for the first empty one.
pub open spec fn spec_check_channels<T>(pairs: Seq<(Seq<char>, Vec<T>)>) -> Result<
    (),
    Seq<char>,
> {
    if first_missing(pairs, 0) < CHANNEL_COUNT {
        Err(missing_channel_message(electrode_names()[first_missing(pairs, 0)]))
    } else if first_empty(pairs, 0) < CHANNEL_COUNT {
        Err(empty_channel_message(electrode_names()[first_empty(pairs, 0)]))
    } else {
        Ok(())
    }
}

/// A channel brought to exactly `EXPECTED_SAMPLES` samples: cut after the
/// first 62, or padded with copies of its last sample.
pub open spec fn spec_resized<T>(values: Seq<T>) -> Seq<T> {
    Seq::new(
        EXPECTED_SAMPLES as nat,
        |t: int|
            if t < values.len() {
                values[t]
            } else {
                values[values.len() - 1]
            },
    )
}

/// The samples of required channel `channel` of the window.
pub open spec fn channel_samples<T>(pairs: Seq<(Seq<char>, Vec<T>)>, channel: int) -> Seq<T> {
    lookup(pairs, electrode_names()[channel])->0@
}

/// The classifier's input: time step by time step, and within a time step
/// the four channels in the order T3, T4, O1, O2.
pub open spec fn spec_arranged<T>(pairs: Seq<(Seq<char>, Vec<T>)>) -> Seq<T> {
    Seq::new(
        INPUT_LENGTH as nat,
        |k: int|
            spec_resized(channel_samples(pairs, k % (CHANNEL_COUNT as int)))[k / (
            CHANNEL_COUNT as int)],
    )
}

/// The label of class `index`, for the three classes the model knows.
pub open spec fn spec_color_label(index: nat) -> Option<Seq<char>> {
    if index == 0 {
        Some("red"@)
    } else if index == 1 {
        Some("green"@)
    } else if index == 2 {
        Some("trash"@)
    } else {
        None
    }
}

/// One of the three labels the classifier can give.
pub open spec fn is_color_label(label: Seq<char>) -> bool {
    label == "red"@ || label == "green"@ || label == "trash"@
}

/// The name of required channel `index`.
pub fn required_channel(index: usize) -> (name: &'static str)
    requires
        index < CHANNEL_COUNT,
    ensures
        name@ == electrode_names()[index as int],
{
    if index == 0 {
        "T3"
    } else if index == 1 {
        "T4"
    } else if index == 2 {
        "O1"
    } else {
        "O2"
    }
}

/// Checks that a window has the four channels and that none is empty.
pub fn check_channels<T>(eeg_data: &SignalWindow<T>) -> (r: Result<(), String>)
    ensures
        match r {
            Ok(_) => spec_check_channels(eeg_data@) is Ok,
            Err(message) => spec_check_channels(eeg_data@) == Err::<(), Seq<char>>(message@),
        },
{
    let mut c: usize = 0;
    while c < CHANNEL_COUNT
        invariant
            c <= CHANNEL_COUNT,
            first_missing(eeg_data@, 0) == first_missing(eeg_data@, c as int),
        decreases CHANNEL_COUNT - c,
    {
        let name = required_channel(c);
        if !eeg_data.contains_key(name) {
            return Err(concat3("Required channel '", name, "' not found in EEG data"));
        }
        c += 1;
    }
    let mut c: usize = 0;
    while c < CHANNEL_COUNT
        invariant
            c <= CHANNEL_COUNT,
            first_missing(eeg_data@, 0) == CHANNEL_COUNT,
            first_empty(eeg_data@, 0) == first_empty(eeg_data@, c as int),
        decreases CHANNEL_COUNT - c,
    {
        let name = required_channel(c);
        match eeg_data.get(name) {
            Some(values) => {
                if values.len() == 0 {
                    return Err(concat3("Channel '", name, "' has no data"));
                }
            },
            None => {},
        }
        c += 1;
    }
    Ok(())
}

/// A window that passes the check has every required channel, with at
/// least one sample.
pub proof fn lemma_checked_channels<T>(pairs: Seq<(Seq<char>, Vec<T>)>, channel: int)
    requires
        spec_check_channels(pairs) is Ok,
        0 <= channel < CHANNEL_COUNT,
    ensures
        has_name(pairs, electrode_names()[channel]),
        lookup(pairs, electrode_names()[channel]) is Some,
        channel_samples(pairs, channel).len() > 0,
{
    reveal_with_fuel(first_missing, 5);
    reveal_with_fuel(first_empty, 5);
}

/// Brings one channel to exactly `EXPECTED_SAMPLES` samples.
pub fn resize_channel<T: Copy>(values: &Vec<T>) -> (out: Vec<T>)
    requires
        values@.len() > 0,
    ensures
        out@ == spec_resized(values@),
{
    let n: usize = values.len();
    let last: T = values[n - 1];
    let mut out: Vec<T> = Vec::new();
    let mut t: usize = 0;
    while t < EXPECTED_SAMPLES
        invariant
            n == values@.len(),
            n > 0,
            last == values@[n - 1],
            t <= EXPECTED_SAMPLES,
            out@.len() == t,
            forall|k: int| 0 <= k < t ==> #[trigger] out@[k] == spec_resized(values@)[k],
        decreases EXPECTED_SAMPLES - t,
    {
        if t < n {
            out.push(values[t]);
        } else {
            out.push(last);
        }
        t += 1;
    }
    assert(out@ =~= spec_resized(values@));
    out
}

/// Lays a window out for the classifier: every channel resized to 62
/// samples, then interleaved time step by time step. Fails, with the
/// message of `spec_check_channels`, where a channel is missing or empty.
pub fn preprocess_data<T: Copy>(eeg_data: &SignalWindow<T>) -> (r: Result<Vec<T>, String>)
    ensures
        match r {
            Ok(processed) => {
                &&& spec_check_channels(eeg_data@) is Ok
                &&& processed@ == spec_arranged(eeg_data@)
                &&& processed@.len() == INPUT_LENGTH
            },
            Err(message) => spec_check_channels(eeg_data@) == Err::<(), Seq<char>>(message@),
        },
{
    match check_channels(eeg_data) {
        Err(message) => {
            return Err(message);
        },
        Ok(_) => {},
    }
    let mut channels: Vec<Vec<T>> = Vec::new();
    let mut c: usize = 0;
    while c < CHANNEL_COUNT
        invariant
            spec_check_channels(eeg_data@) is Ok,
            c <= CHANNEL_COUNT,
            channels@.len() == c,
            forall|k: int|
                0 <= k < c ==> (#[trigger] channels@[k])@ == spec_resized(
                    channel_samples(eeg_data@, k),
                ),
        decreases CHANNEL_COUNT - c,
    {
        proof {
            lemma_checked_channels(eeg_data@, c as int);
        }
        match eeg_data.get(required_channel(c)) {
            Some(values) => {
                channels.push(resize_channel(values));
            },
            None => {
                assert(false);
            },
        }
        c += 1;
    }
    let mut processed: Vec<T> = Vec::new();
    let mut t: usize = 0;
    while t < EXPECTED_SAMPLES
        invariant
            t <= EXPECTED_SAMPLES,
            channels@.len() == CHANNEL_COUNT,
            forall|k: int|
                0 <= k < CHANNEL_COUNT ==> (#[trigger] channels@[k])@ == spec_resized(
                    channel_samples(eeg_data@, k),
                ),
            processed@.len() == t * CHANNEL_COUNT,
            forall|k: int|
                0 <= k < t * CHANNEL_COUNT ==> #[trigger] processed@[k] == spec_arranged(
                    eeg_data@,
                )[k],
        decreases EXPECTED_SAMPLES - t,
    {
        let mut j: usize = 0;
        while j < CHANNEL_COUNT
            invariant
                t < EXPECTED_SAMPLES,
                j <= CHANNEL_COUNT,
                channels@.len() == CHANNEL_COUNT,
                forall|k: int|
                    0 <= k < CHANNEL_COUNT ==> (#[trigger] channels@[k])@ == spec_resized(
                        channel_samples(eeg_data@, k),
                    ),
                processed@.len() == t * CHANNEL_COUNT + j,
                forall|k: int|
                    0 <= k < t * CHANNEL_COUNT + j ==> #[trigger] processed@[k] == spec_arranged(
                        eeg_data@,
                    )[k],
            decreases CHANNEL_COUNT - j,
        {
            let ghost k = (t * CHANNEL_COUNT + j) as int;
            assert(k % 4 == j && k / 4 == t);
            assert(channels@[j as int]@ == spec_resized(channel_samples(eeg_data@, j as int)));
            processed.push(channels[j][t]);
            j += 1;
        }
        t += 1;
    }
    assert(processed@ =~= spec_arranged(eeg_data@));
    Ok(processed)
}

/// What the engine reports when the input does not fit the tensor.
pub fn tensor_failure(reason: &str) -> (message: String)
    ensures
        message@ == "Error creating input tensor: "@ + reason@,
{
    concat2("Error creating input tensor: ", reason)
}

/// What the engine reports when the graph fails to run.
pub fn inference_failure(reason: &str) -> (message: String)
    ensures
        message@ == "Error during inference: "@ + reason@,
{
    concat2("Error during inference: ", reason)
}

/// What the engine reports when the output cannot be read.
pub fn output_failure(reason: &str) -> (message: String)
    ensures
        message@ == "Error converting output to array: "@ + reason@,
{
    concat2("Error converting output to array: ", reason)
}

/// What the engine reports of a graph that returns nothing.
pub const NO_OUTPUTS: &'static str = "No outputs returned from model";

/// What the engine reports of an output without values.
pub const NO_PROBABILITIES: &'static str = "No probabilities obtained from the model";

/// The label of class `index`; an index past the three known classes is an
/// error that names the index.
pub fn color_for_class(index: usize) -> (r: Result<String, String>)
    ensures
        match r {
            Ok(label) => spec_color_label(index as nat) == Some(label@) && is_color_label(
                label@,
            ),
            Err(message) => index >= 3 && message@ == "Prediction index out of range: "@
                + spec_decimal(index as nat),
        },
{
    if index == 0 {
        Ok(String::from_str("red"))
    } else if index == 1 {
        Ok(String::from_str("green"))
    } else if index == 2 {
        Ok(String::from_str("trash"))
    } else {
        let digits = decimal(index);
        Err(concat2("Prediction index out of range: ", digits.as_str()))
    }
}

} // verus!
