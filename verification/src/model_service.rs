//! The inference service: an optional engine behind the classifier
//! interface.

use vstd::prelude::*;
use crate::channels::SignalWindow;
use crate::errors::failed_with;
use crate::inference::{
    check_channels, color_for_class, is_color_label, model_not_loaded_message, preprocess_data,
    spec_check_channels, DEFAULT_MODEL_PATH,
};
use crate::ports::ModelInferenceInterface;
use crate::text::concat2;

verus! {

/// The numeric part of the classifier. `normalize` scales every channel of a
/// window to zero mean and unit deviation; `classify` runs the graph on an
/// input of `INPUT_LENGTH` samples and gives the index of the most probable
/// class. Nothing is assumed of either answer.
pub trait InferenceEngine<T> {
    fn normalize(&self, eeg_data: &SignalWindow<T>) -> SignalWindow<T>;

    fn classify(&self, input: &Vec<T>) -> Result<usize, String>;
}

/// The start of the message for a model file that is not there.
pub open spec fn missing_file_prefix() -> Seq<char> {
    "Model file does not exist at path: "@
}

/// The stage at which turning a model file into an engine failed.
#[derive(Debug, PartialEq, Eq, Clone, Copy, Structural)]
pub enum LoadStage {
    Reading,
    Optimizing,
    Planning,
}

/// The start of the message for a load that failed at `stage`.
pub open spec fn spec_load_failure_prefix(stage: LoadStage) -> Seq<char> {
    match stage {
        LoadStage::Reading => "Error loading the model: "@,
        LoadStage::Optimizing => "Error optimizing the model: "@,
        LoadStage::Planning => "Error creating runnable model: "@,
    }
}

/// What a load that failed at `stage` for `reason` is reported as.
pub fn load_failure(stage: LoadStage, reason: &str) -> (message: String)
    ensures
        message@ == spec_load_failure_prefix(stage) + reason@,
{
    match stage {
        LoadStage::Reading => concat2("Error loading the model: ", reason),
        LoadStage::Optimizing => concat2("Error optimizing the model: ", reason),
        LoadStage::Planning => concat2("Error creating runnable model: ", reason),
    }
}

/// What an attempt to load the model from `model_path` came to.
#[derive(Debug)]
pub enum LoadOutcome<E> {
    /// There is no file at the path.
    FileMissing,
    /// The file could not be turned into an engine; the reason.
    Failed(String),
    /// The engine that was built from the file.
    Loaded(E),
}

/// The classifier service. Without an engine it answers every prediction
/// with an error.
#[derive(Debug)]
pub struct ModelInferenceService<E> {
    engine: Option<E>,
    model_path: String,
}

impl<E> ModelInferenceService<E> {
    /// The engine, if a model is loaded.
    pub closed spec fn spec_engine(&self) -> Option<E> {
        self.engine
    }

    /// The path the model is loaded from.
    pub closed spec fn spec_model_path(&self) -> Seq<char> {
        self.model_path@
    }

    /// What a prediction on `eeg_data` can come to: without a model, the
    /// not-loaded error; with a model and a window that has a missing or an
    /// empty channel, the message of `spec_check_channels`; and a label
    /// only with a model, for a complete window, and only one of red, green
    /// and trash.
    pub open spec fn predicted<T>(
        &self,
        eeg_data: Seq<(Seq<char>, Vec<T>)>,
        r: Result<String, String>,
    ) -> bool {
        &&& self.spec_engine() is None ==> failed_with(r, model_not_loaded_message())
        &&& self.spec_engine() is Some && spec_check_channels(eeg_data) is Err ==> failed_with(
            r,
            spec_check_channels(eeg_data)->Err_0,
        )
        &&& r is Ok ==> is_color_label(r->Ok_0@) && self.spec_engine() is Some
            && spec_check_channels(eeg_data) is Ok
    }

    /// A service for the model at `model_path`, with no model loaded yet.
    pub fn new(model_path: &str) -> (out: Self)
        ensures
            out.spec_engine() is None,
            out.spec_model_path() == model_path@,
    {
        ModelInferenceService { engine: None, model_path: String::from_str(model_path) }
    }

    /// The path the model is loaded from.
    pub fn model_path(&self) -> (path: &String)
        ensures
            path@ == self.spec_model_path(),
    {
        &self.model_path
    }

    /// Takes in the outcome of a load attempt: a built engine is installed,
    /// a failure is reported and leaves the service as it was.
    pub fn load_model(&mut self, outcome: LoadOutcome<E>) -> (r: Result<(), String>)
        ensures
            final(self).spec_model_path() == old(self).spec_model_path(),
            match outcome {
                LoadOutcome::FileMissing => {
                    &&& r matches Err(message)
                    &&& message@ == missing_file_prefix() + old(self).spec_model_path()
                    &&& final(self).spec_engine() == old(self).spec_engine()
                },
                LoadOutcome::Failed(reason) => {
                    &&& r matches Err(message)
                    &&& message@ == reason@
                    &&& final(self).spec_engine() == old(self).spec_engine()
                },
                LoadOutcome::Loaded(engine) => {
                    &&& r is Ok
                    &&& final(self).spec_engine() == Some(engine)
                },
            },
    {
        match outcome {
            LoadOutcome::FileMissing => Err(
                concat2("Model file does not exist at path: ", self.model_path.as_str()),
            ),
            LoadOutcome::Failed(reason) => Err(reason),
            LoadOutcome::Loaded(engine) => {
                self.engine = Some(engine);
                Ok(())
            },
        }
    }

    /// Whether a model is loaded.
    pub fn is_model_loaded(&self) -> (r: bool)
        ensures
            r == self.spec_engine().is_some(),
    {
        self.engine.is_some()
    }

    /// Classifies one window. Without a model the answer is the
    /// not-loaded error; a window with a missing or empty channel is
    /// refused with the message of `spec_check_channels`; whatever the
    /// engine computes, a label that comes back is one of red, green and
    /// trash.
    pub fn predict_color<T: Copy>(&self, eeg_data: &SignalWindow<T>) -> (r: Result<
        String,
        String,
    >) where E: InferenceEngine<T>
        ensures
            self.predicted(eeg_data@, r),
    {
        let engine = match &self.engine {
            Some(engine) => engine,
            None => {
                return Err(String::from_str("Model is not loaded. Call load_model first."));
            },
        };
        match check_channels(eeg_data) {
            Err(message) => {
                return Err(message);
            },
            Ok(_) => {},
        }
        let normalized = engine.normalize(eeg_data);
        let processed = match preprocess_data(&normalized) {
            Ok(processed) => processed,
            Err(message) => {
                return Err(message);
            },
        };
        let index = match engine.classify(&processed) {
            Ok(index) => index,
            Err(message) => {
                return Err(message);
            },
        };
        match color_for_class(index) {
            Ok(label) => Ok(label),
            Err(message) => Err(message),
        }
    }
}

impl<E> Default for ModelInferenceService<E> {
    /// A service for the model at `DEFAULT_MODEL_PATH`, not loaded yet.
    fn default() -> (out: Self)
        ensures
            out.spec_engine() is None,
            out.spec_model_path() == DEFAULT_MODEL_PATH@,
    {
        ModelInferenceService::new(DEFAULT_MODEL_PATH)
    }
}

impl<T: Copy, E: InferenceEngine<T>> ModelInferenceInterface<T> for ModelInferenceService<E> {
    /// Classifies one window, as `predicted` says.
    fn predict_color(&self, eeg_data: &SignalWindow<T>) -> (r: Result<String, String>)
        ensures
            self.predicted(eeg_data@, r),
    {
        ModelInferenceService::predict_color(self, eeg_data)
    }

    /// Whether a model is loaded.
    fn is_model_loaded(&self) -> (r: bool)
        ensures
            r == self.spec_engine().is_some(),
    {
        ModelInferenceService::is_model_loaded(self)
    }
}

} // verus!
