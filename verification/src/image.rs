//! Whether uploaded bytes are an image, as the `image` crate decides.

use vstd::prelude::*;

verus! {

/// Whether `image::load_from_memory` decodes these bytes (it guesses the
/// format from the bytes, then decodes).
pub uninterp spec fn image_decodes(bytes: Seq<u8>) -> bool;

/// Calls `image::load_from_memory` and reports whether it decoded the bytes.
///
/// Trusted: the answer is `image_decodes` of the bytes, a function of the
/// bytes alone; nothing more is claimed about which bytes decode.
#[verifier::external_body]
pub(crate) fn decodes_as_image(bytes: &[u8]) -> (r: bool)
    ensures
        r == image_decodes(bytes@),
{
    image::load_from_memory(bytes).is_ok()
}

} // verus!
