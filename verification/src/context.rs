//! The shared context: the latest readings, the rolling buffer of
//! predictions, and the three collaborators of the pipeline.

use vstd::prelude::*;
use std::collections::VecDeque;
use crate::channels::{ImpedanceSample, SignalWindow};
use crate::events::InternalEvent;

verus! {

/// How many predictions the buffer holds at most.
pub const BUFFER_SIZE: usize = 6;

/// The label reported while the buffer is empty or not unanimous.
pub open spec fn unknown_label() -> Seq<char> {
    "unknown"@
}

/// Every label of `labels` equals the first one.
pub open spec fn unanimous(labels: Seq<Seq<char>>) -> bool {
    forall|i: int| 0 <= i < labels.len() ==> #[trigger] labels[i] == labels[0]
}

/// The consensus of a sequence of predictions: their common label when there
/// is at least one and all are equal, `unknown` otherwise.
pub open spec fn effective_label(labels: Seq<Seq<char>>) -> Seq<char> {
    if labels.len() > 0 && unanimous(labels) {
        labels[0]
    } else {
        unknown_label()
    }
}

/// `labels` after one more prediction: appended at the tail, the head dropped
/// first when the buffer is full.
pub open spec fn pushed(labels: Seq<Seq<char>>, label: Seq<char>) -> Seq<Seq<char>> {
    if labels.len() >= BUFFER_SIZE {
        labels.subrange(1, labels.len() as int).push(label)
    } else {
        labels.push(label)
    }
}

/// `labels` after `count` predictions of the same `label`.
pub open spec fn pushed_times(labels: Seq<Seq<char>>, label: Seq<char>, count: nat) -> Seq<
    Seq<char>,
>
    decreases count,
{
    if count == 0 {
        labels
    } else {
        pushed(pushed_times(labels, label, (count - 1) as nat), label)
    }
}

/// The data fields of the context as plain values.
pub ghost struct DataModel<T> {
    pub headset_data: Option<SignalWindow<T>>,
    pub impedance_data: Option<ImpedanceSample>,
    pub labels: Seq<Seq<char>>,
}

/// What holds of the data fields at every moment: the window and the sample
/// are never both present, and the buffer holds at most `BUFFER_SIZE`
/// predictions.
pub open spec fn consistent<T>(model: DataModel<T>) -> bool {
    &&& model.impedance_data is Some ==> model.headset_data is None
    &&& model.headset_data is Some ==> model.impedance_data is None
    &&& model.labels.len() <= BUFFER_SIZE
}

/// The data after one handler event: a calibration sample replaces the
/// window, a window replaces the sample, a prediction enters the buffer and
/// clears the sample.
pub open spec fn spec_write<T>(model: DataModel<T>, event: InternalEvent<T>) -> DataModel<T> {
    match event {
        InternalEvent::ReceivedCalibrationData(sample) => DataModel {
            headset_data: None,
            impedance_data: Some(sample),
            labels: model.labels,
        },
        InternalEvent::ReceivedGeneralistData(window) => DataModel {
            headset_data: Some(window),
            impedance_data: None,
            labels: model.labels,
        },
        InternalEvent::ReceivedPredictColorThinkingData(label) => DataModel {
            headset_data: model.headset_data,
            impedance_data: None,
            labels: pushed(model.labels, label@),
        },
    }
}

/// The data after a run of handler events, folded in from first to last.
pub open spec fn spec_write_all<T>(model: DataModel<T>, events: Seq<InternalEvent<T>>) -> DataModel<
    T,
>
    decreases events.len(),
{
    if events.len() == 0 {
        model
    } else {
        spec_write_all(spec_write(model, events[0]), events.subrange(1, events.len() as int))
    }
}

/// Folding an event in keeps the data consistent.
pub proof fn lemma_write_keeps_consistent<T>(model: DataModel<T>, event: InternalEvent<T>)
    requires
        consistent(model),
    ensures
        consistent(spec_write(model, event)),
{
}

/// Folding any run of events in keeps the data consistent: at no moment are
/// the window and the sample both present, and at no moment does the buffer
/// hold more than `BUFFER_SIZE` predictions.
pub proof fn lemma_write_all_keeps_consistent<T>(model: DataModel<T>, events: Seq<InternalEvent<T>>)
    requires
        consistent(model),
    ensures
        consistent(spec_write_all(model, events)),
    decreases events.len(),
{
    if events.len() > 0 {
        lemma_write_keeps_consistent(model, events[0]);
        lemma_write_all_keeps_consistent(
            spec_write(model, events[0]),
            events.subrange(1, events.len() as int),
        );
    }
}

/// The data fields of the context. The signal window and the impedance
/// sample are never both present, and the buffer never holds more than
/// `BUFFER_SIZE` predictions.
#[derive(Debug)]
pub struct PipelineData<T> {
    headset_data: Option<SignalWindow<T>>,
    color_thinking: VecDeque<String>,
    impedance_data: Option<ImpedanceSample>,
}

impl<T> PipelineData<T> {
    #[verifier::type_invariant]
    spec fn well_formed(&self) -> bool {
        &&& !(self.headset_data is Some && self.impedance_data is Some)
        &&& self.color_thinking@.len() <= BUFFER_SIZE
    }

    /// The data as plain values.
    pub closed spec fn model(&self) -> DataModel<T> {
        DataModel {
            headset_data: self.headset_data,
            impedance_data: self.impedance_data,
            labels: self.color_thinking@.map_values(|s: String| s@),
        }
    }

    /// The buffered predictions, oldest first.
    pub open spec fn labels(&self) -> Seq<Seq<char>> {
        self.model().labels
    }

    /// Empty data: no window, no sample, no prediction.
    pub fn new() -> (out: Self)
        ensures
            out.model().headset_data is None,
            out.model().impedance_data is None,
            out.model().labels == Seq::<Seq<char>>::empty(),
    {
        let out = PipelineData {
            headset_data: None,
            color_thinking: VecDeque::with_capacity(BUFFER_SIZE),
            impedance_data: None,
        };
        assert(out.labels() =~= Seq::<Seq<char>>::empty());
        out
    }

    /// The current signal window, if there is one.
    pub fn headset_data(&self) -> (r: &Option<SignalWindow<T>>)
        ensures
            *r == self.model().headset_data,
            consistent(self.model()),
    {
        proof {
            use_type_invariant(self);
        }
        &self.headset_data
    }

    /// The current impedance sample, if there is one.
    pub fn impedance_data(&self) -> (r: &Option<ImpedanceSample>)
        ensures
            *r == self.model().impedance_data,
            consistent(self.model()),
    {
        proof {
            use_type_invariant(self);
        }
        &self.impedance_data
    }

    /// How many predictions are buffered; never more than `BUFFER_SIZE`.
    pub fn prediction_count(&self) -> (n: usize)
        ensures
            n == self.labels().len(),
            n <= BUFFER_SIZE,
            consistent(self.model()),
    {
        proof {
            use_type_invariant(self);
        }
        self.color_thinking.len()
    }

    /// The buffered prediction at position `at`, oldest first.
    pub fn prediction_at(&self, at: usize) -> (r: Option<&String>)
        ensures
            match r {
                Some(label) => at < self.labels().len() && label@ == self.labels()[at as int],
                None => at >= self.labels().len(),
            },
    {
        if at < self.color_thinking.len() {
            Some(&self.color_thinking[at])
        } else {
            None
        }
    }

    /// The consensus label: the common label of the buffered predictions
    /// when there is at least one and all are equal, `unknown` otherwise.
    pub fn get_color_thinking(&self) -> (label: String)
        ensures
            label@ == effective_label(self.labels()),
    {
        let n: usize = self.color_thinking.len();
        if n == 0 {
            return String::from_str("unknown");
        }
        let first: &String = &self.color_thinking[0];
        let mut i: usize = 1;
        while i < n
            invariant
                n == self.color_thinking@.len(),
                n == self.labels().len(),
                1 <= i <= n,
                first@ == self.labels()[0],
                forall|k: int| 0 <= k < i ==> #[trigger] self.labels()[k] == self.labels()[0],
            decreases n - i,
        {
            if self.color_thinking[i] != *first {
                assert(self.labels()[i as int] != self.labels()[0]);
                return String::from_str("unknown");
            }
            i += 1;
        }
        first.clone()
    }

    /// Folds one handler event into the data: a calibration sample replaces
    /// the window, a window replaces the sample, a prediction enters the
    /// buffer and clears the sample.
    pub fn write(&mut self, event: InternalEvent<T>)
        ensures
            final(self).model() == spec_write(old(self).model(), event),
            consistent(final(self).model()),
    {
        proof {
            use_type_invariant(&*self);
        }
        let ghost before = self.model();
        match event {
            InternalEvent::ReceivedCalibrationData(sample) => {
                self.headset_data = None;
                self.impedance_data = Some(sample);
            },
            InternalEvent::ReceivedGeneralistData(window) => {
                self.impedance_data = None;
                self.headset_data = Some(window);
            },
            InternalEvent::ReceivedPredictColorThinkingData(label) => {
                let mut buffer: VecDeque<String> = VecDeque::new();
                core::mem::swap(&mut buffer, &mut self.color_thinking);
                if buffer.len() >= BUFFER_SIZE {
                    let _ = buffer.pop_front();
                }
                buffer.push_back(label);
                assert(buffer@.map_values(|s: String| s@) =~= pushed(before.labels, label@));
                self.color_thinking = buffer;
                self.impedance_data = None;
            },
        }
    }
}

/// The shared context: the data fields and the three collaborators, each
/// owned once.
#[derive(Debug)]
pub struct NeuralAnalyticsContext<T, H, B, M> {
    pub data: PipelineData<T>,
    pub eeg_headset_adapter: H,
    pub smart_bulb_adapter: B,
    pub model_service: M,
}

impl<T, H, B, M> NeuralAnalyticsContext<T, H, B, M> {
    /// The data fields as plain values.
    pub open spec fn model(&self) -> DataModel<T> {
        self.data.model()
    }

    /// A context around the given collaborators, with empty data.
    pub fn new(eeg_headset_adapter: H, smart_bulb_adapter: B, model_service: M) -> (out: Self)
        ensures
            out.model().headset_data is None,
            out.model().impedance_data is None,
            out.model().labels == Seq::<Seq<char>>::empty(),
            out.eeg_headset_adapter == eeg_headset_adapter,
            out.smart_bulb_adapter == smart_bulb_adapter,
            out.model_service == model_service,
    {
        NeuralAnalyticsContext {
            data: PipelineData::new(),
            eeg_headset_adapter,
            smart_bulb_adapter,
            model_service,
        }
    }

    /// The consensus label of the buffered predictions.
    pub fn get_color_thinking(&self) -> (label: String)
        ensures
            label@ == effective_label(self.data.labels()),
    {
        self.data.get_color_thinking()
    }

    /// Folds one handler event into the data fields; the collaborators are
    /// left alone.
    pub fn write(&mut self, event: InternalEvent<T>)
        ensures
            final(self).model() == spec_write(old(self).model(), event),
            consistent(final(self).model()),
            final(self).eeg_headset_adapter == old(self).eeg_headset_adapter,
            final(self).smart_bulb_adapter == old(self).smart_bulb_adapter,
            final(self).model_service == old(self).model_service,
    {
        self.data.write(event);
    }
}

/// `count` copies of `label`.
pub open spec fn repeated(label: Seq<char>, count: nat) -> Seq<Seq<char>> {
    Seq::new(count, |i: int| label)
}

/// The last `BUFFER_SIZE` entries of `labels`, or all of them if there are
/// fewer.
pub open spec fn newest(labels: Seq<Seq<char>>) -> Seq<Seq<char>> {
    if labels.len() > BUFFER_SIZE {
        labels.subrange(labels.len() - BUFFER_SIZE, labels.len() as int)
    } else {
        labels
    }
}

/// After `count` predictions of `label`, the buffer holds the newest
/// entries of the old buffer followed by `count` copies of `label`.
pub proof fn lemma_pushed_times(labels: Seq<Seq<char>>, label: Seq<char>, count: nat)
    requires
        labels.len() <= BUFFER_SIZE,
    ensures
        pushed_times(labels, label, count) == newest(labels + repeated(label, count)),
    decreases count,
{
    if count == 0 {
        assert(labels + repeated(label, 0) =~= labels);
    } else {
        let fewer = (count - 1) as nat;
        lemma_pushed_times(labels, label, fewer);
        let all_before = labels + repeated(label, fewer);
        let all_after = labels + repeated(label, count);
        assert(all_after =~= all_before.push(label));
        assert(pushed(newest(all_before), label) =~= newest(all_after));
    }
}

/// Six predictions of one label give that label as the consensus, whatever
/// the buffer held before.
pub proof fn lemma_consensus_after_six(labels: Seq<Seq<char>>, label: Seq<char>)
    requires
        labels.len() <= BUFFER_SIZE,
    ensures
        pushed_times(labels, label, BUFFER_SIZE as nat) == repeated(label, BUFFER_SIZE as nat),
        effective_label(pushed_times(labels, label, BUFFER_SIZE as nat)) == label,
{
    lemma_pushed_times(labels, label, BUFFER_SIZE as nat);
    let all = labels + repeated(label, BUFFER_SIZE as nat);
    assert(newest(all) =~= repeated(label, BUFFER_SIZE as nat));
}

/// Once six predictions of `label` are in, between one and five predictions
/// of a different label `other` give `unknown` as the consensus.
pub proof fn lemma_consensus_broken(
    labels: Seq<Seq<char>>,
    label: Seq<char>,
    other: Seq<char>,
    count: nat,
)
    requires
        labels.len() <= BUFFER_SIZE,
        other != label,
        1 <= count < BUFFER_SIZE,
    ensures
        effective_label(
            pushed_times(pushed_times(labels, label, BUFFER_SIZE as nat), other, count),
        ) == unknown_label(),
{
    lemma_consensus_after_six(labels, label);
    let full = repeated(label, BUFFER_SIZE as nat);
    lemma_pushed_times(full, other, count);
    let all = full + repeated(other, count);
    let kept = newest(all);
    assert(kept.len() == BUFFER_SIZE);
    assert(kept[0] == label);
    assert(kept[BUFFER_SIZE - 1] == other);
    assert(!unanimous(kept));
}

/// The buffer never grows beyond `BUFFER_SIZE`.
pub proof fn lemma_pushed_is_bounded(labels: Seq<Seq<char>>, label: Seq<char>)
    requires
        labels.len() <= BUFFER_SIZE,
    ensures
        pushed(labels, label).len() <= BUFFER_SIZE,
        pushed(labels, label).len() >= 1,
        pushed(labels, label).last() == label,
{
}

} // verus!
