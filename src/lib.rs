//! Recognition requests for an OCR backend: language resolution, option
//! normalisation, image decoding and the decisions of one recognition run.

pub mod language;
pub mod image_loader;
pub mod options;
pub mod recognition;

pub use image_loader::decode_buffer;
pub use language::{from_language_code, Language};
pub use options::{normalize, ResolvedOptions, UniOcrOptions};
pub use recognition::{
    Action, Event, Failure, FailureKind, ImageInput, RecognizeResult, Recognition, Stage,
};
