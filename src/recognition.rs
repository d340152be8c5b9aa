//! The decisions of one recognition run. The caller performs each step the
//! run asks for (decode the image, create the engine, run recognition) and
//! reports what came of it; the run answers with the next step or with the
//! final outcome.

use vstd::prelude::*;
use vstd::string::*;

verus! {

/// Where the image of a request comes from.
pub enum ImageInput {
    FilePath(String),
    ImageBytes(Vec<u8>),
}

#[derive(Clone, Copy, Debug, PartialEq, Eq, Structural)]
pub enum FailureKind {
    /// The file at the path could not be opened or decoded.
    ImageOpenError,
    /// The bytes are no image that the decoder knows.
    ImageDecodeError,
    /// No recognition engine could be created.
    EngineInitError,
    /// The backend failed during recognition, a timeout included.
    RecognitionError,
}

/// A failed run: its kind and the diagnostic of the step that failed.
pub struct Failure {
    pub kind: FailureKind,
    pub diagnostic: String,
}

/// Recognised text and the backend's confidence for it.
pub struct RecognizeResult {
    pub text: String,
    pub confidence: String,
}

pub open spec fn prefix_of(kind: FailureKind) -> Seq<char> {
    match kind {
        FailureKind::ImageOpenError => "Failed to open image file: "@,
        FailureKind::ImageDecodeError => "Failed to decode image buffer: "@,
        FailureKind::EngineInitError => "Failed to create OCR engine: "@,
        FailureKind::RecognitionError => "Recognition failed: "@,
    }
}

impl Failure {
    /// The message shown to a caller: a sentence for the kind, then the
    /// diagnostic.
    pub fn reason(&self) -> (r: String)
        ensures
            r@ == prefix_of(self.kind) + self.diagnostic@,
    {
        let mut r = match self.kind {
            FailureKind::ImageOpenError => String::from_str("Failed to open image file: "),
            FailureKind::ImageDecodeError => String::from_str("Failed to decode image buffer: "),
            FailureKind::EngineInitError => String::from_str("Failed to create OCR engine: "),
            FailureKind::RecognitionError => String::from_str("Recognition failed: "),
        };
        r.append(self.diagnostic.as_str());
        r
    }
}

/// The step a run is waiting on.
#[derive(Clone, Copy, Debug, PartialEq, Eq, Structural)]
pub enum Stage {
    LoadingImage,
    CreatingEngine,
    Recognizing,
    Finished,
}

/// What came of the step the run asked for.
pub enum Event {
    ImageLoaded,
    ImageFailed(String),
    EngineCreated,
    EngineFailed(String),
    Recognized(String, String),
    RecognitionFailed(String),
}

/// What the run asks for next.
pub enum Action {
    CreateEngine,
    RunRecognition,
    /// The run is over, with this outcome.
    Report(Result<RecognizeResult, Failure>),
}

/// The state of one run.
pub struct Recognition {
    /// Whether the image comes from a path rather than from bytes.
    pub from_path: bool,
    pub stage: Stage,
}

/// The kind of failure for an image that could not be loaded.
pub open spec fn load_failure_kind(from_path: bool) -> FailureKind {
    if from_path {
        FailureKind::ImageOpenError
    } else {
        FailureKind::ImageDecodeError
    }
}

/// Whether `e` reports on the step that a run at `stage` waits on.
pub open spec fn event_fits(stage: Stage, e: Event) -> bool {
    match e {
        Event::ImageLoaded | Event::ImageFailed(_) => stage == Stage::LoadingImage,
        Event::EngineCreated | Event::EngineFailed(_) => stage == Stage::CreatingEngine,
        Event::Recognized(_, _) | Event::RecognitionFailed(_) => stage == Stage::Recognizing,
    }
}

/// The stage after `e`.
pub open spec fn next_stage(e: Event) -> Stage {
    match e {
        Event::ImageLoaded => Stage::CreatingEngine,
        Event::EngineCreated => Stage::Recognizing,
        _ => Stage::Finished,
    }
}

/// Whether `a` is the right answer to `e` for a run whose image comes from a
/// path (`from_path`) or from bytes.
pub open spec fn answers(from_path: bool, e: Event, a: Action) -> bool {
    match e {
        Event::ImageLoaded => a is CreateEngine,
        Event::EngineCreated => a is RunRecognition,
        Event::ImageFailed(d) => a matches Action::Report(Err(f)) && f.kind == load_failure_kind(
            from_path,
        ) && f.diagnostic@ == d@,
        Event::EngineFailed(d) => a matches Action::Report(Err(f)) && f.kind
            == FailureKind::EngineInitError && f.diagnostic@ == d@,
        Event::RecognitionFailed(d) => a matches Action::Report(Err(f)) && f.kind
            == FailureKind::RecognitionError && f.diagnostic@ == d@,
        Event::Recognized(t, c) => a matches Action::Report(Ok(res)) && res.text@ == t@
            && res.confidence@ == c@,
    }
}

/// Success or failure, and the kind of a failure.
pub open spec fn classification(a: Action) -> Option<Option<FailureKind>> {
    match a {
        Action::Report(Ok(_)) => Some(None),
        Action::Report(Err(f)) => Some(Some(f.kind)),
        _ => None,
    }
}

/// Whether two events report on the same step with the same success.
pub open spec fn same_variant(e1: Event, e2: Event) -> bool {
    match (e1, e2) {
        (Event::ImageLoaded, Event::ImageLoaded) => true,
        (Event::ImageFailed(_), Event::ImageFailed(_)) => true,
        (Event::EngineCreated, Event::EngineCreated) => true,
        (Event::EngineFailed(_), Event::EngineFailed(_)) => true,
        (Event::Recognized(_, _), Event::Recognized(_, _)) => true,
        (Event::RecognitionFailed(_), Event::RecognitionFailed(_)) => true,
        _ => false,
    }
}

impl Recognition {
    /// A run for `input`, waiting on its image.
    pub fn new(input: &ImageInput) -> (r: Recognition)
        ensures
            r.from_path == (input is FilePath),
            r.stage == Stage::LoadingImage,
    {
        let from_path = match input {
            ImageInput::FilePath(_) => true,
            ImageInput::ImageBytes(_) => false,
        };
        Recognition { from_path, stage: Stage::LoadingImage }
    }

    /// Whether `e` reports on the step that this run waits on.
    pub fn expects(&self, e: &Event) -> (r: bool)
        ensures
            r == event_fits(self.stage, *e),
    {
        match e {
            Event::ImageLoaded | Event::ImageFailed(_) => self.stage == Stage::LoadingImage,
            Event::EngineCreated | Event::EngineFailed(_) => self.stage == Stage::CreatingEngine,
            Event::Recognized(_, _) | Event::RecognitionFailed(_) => self.stage
                == Stage::Recognizing,
        }
    }

    /// Takes in what came of the awaited step. A loaded image leads to the
    /// engine, a created engine to recognition; recognised text ends the run
    /// in success, and a failure at any step ends it with the failure's kind
    /// and diagnostic. Nothing is retried.
    pub fn step(&mut self, e: Event) -> (a: Action)
        requires
            event_fits(old(self).stage, e),
        ensures
            final(self).from_path == old(self).from_path,
            final(self).stage == next_stage(e),
            answers(old(self).from_path, e, a),
    {
        match e {
            Event::ImageLoaded => {
                self.stage = Stage::CreatingEngine;
                Action::CreateEngine
            },
            Event::EngineCreated => {
                self.stage = Stage::Recognizing;
                Action::RunRecognition
            },
            Event::ImageFailed(d) => {
                self.stage = Stage::Finished;
                let kind = if self.from_path {
                    FailureKind::ImageOpenError
                } else {
                    FailureKind::ImageDecodeError
                };
                Action::Report(Err(Failure { kind, diagnostic: d }))
            },
            Event::EngineFailed(d) => {
                self.stage = Stage::Finished;
                Action::Report(Err(Failure { kind: FailureKind::EngineInitError, diagnostic: d }))
            },
            Event::Recognized(text, confidence) => {
                self.stage = Stage::Finished;
                Action::Report(Ok(RecognizeResult { text, confidence }))
            },
            Event::RecognitionFailed(d) => {
                self.stage = Stage::Finished;
                Action::Report(Err(Failure { kind: FailureKind::RecognitionError, diagnostic: d }))
            },
        }
    }
}

/// A run ends in the same class, success or a failure of one kind, whenever
/// each step succeeds or fails as it did before: only the text and the
/// diagnostics that the backend and decoder hand back can differ.
pub proof fn lemma_classification_repeats(from_path: bool, e1: Event, e2: Event, a1: Action, a2: Action)
    requires
        same_variant(e1, e2),
        answers(from_path, e1, a1),
        answers(from_path, e2, a2),
    ensures
        classification(a1) == classification(a2),
        next_stage(e1) == next_stage(e2),
{
}

} // verus!
