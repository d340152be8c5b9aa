//! Decodes an image handed over as bytes in memory.

use vstd::prelude::*;

verus! {

#[verifier::external_type_specification]
#[verifier::external_body]
pub struct ExDynamicImage(image::DynamicImage);

/// Relies on image::load_from_memory to guess the format and decode the
/// bytes. Which decoders run also depends on hooks that any code in the
/// process may register, so nothing is stated of the outcome.
#[verifier::external_body]
fn load_from_memory(bytes: &[u8]) -> (r: Result<image::DynamicImage, String>) {
    image::load_from_memory(bytes).map_err(|e| format!("{:?}", e))
}

/// Decodes an in-memory image. No format is refused beyond those the decoder
/// does not know, and no size limit is added; on failure the decoder's
/// diagnostic comes back, for the run to report as it stands.
pub fn decode_buffer(bytes: &[u8]) -> (r: Result<image::DynamicImage, String>) {
    load_from_memory(bytes)
}

} // verus!
