//! The window icon: a picture decoded into RGBA pixels.
use vstd::prelude::*;

verus! {

/// A decoded picture: RGBA pixels, four bytes each, row by row.
#[derive(Debug)]
pub struct IconPixels {
    pub rgba: Vec<u8>,
    pub width: u32,
    pub height: u32,
}

/// The pixel buffer is large enough for the picture: four bytes for each of its
/// `width * height` pixels.
pub open spec fn holds_all_pixels(p: IconPixels) -> bool {
    p.rgba@.len() >= 4 * (p.width as int) * (p.height as int)
}

/// Decodes a picture with `image::load_from_memory` (format guessed from the
/// bytes) and converts it with `into_rgba8`. What comes back also depends on
/// decoding hooks that any code in the process may register with the `image`
/// crate, so the contract says nothing of which pixels come back or whether
/// decoding succeeds; it states only that a decoded buffer covers every pixel,
/// which `ImageBuffer` keeps as its invariant (`from_raw` refuses a shorter
/// buffer, `into_raw` hands the buffer back).
#[verifier::external_body]
fn decode_rgba(bytes: &[u8]) -> (r: Option<IconPixels>)
    ensures
        r matches Some(p) ==> holds_all_pixels(p),
{
    let image = image::load_from_memory(bytes).ok()?.into_rgba8();
    let (width, height) = image.dimensions();
    Some(IconPixels { rgba: image.into_raw(), width, height })
}

/// The window icon decoded from the picture bundled with the updater; `None`
/// when the picture cannot be decoded.
pub fn load_window_icon(bytes: &[u8]) -> (r: Option<IconPixels>)
    ensures
        r matches Some(p) ==> holds_all_pixels(p),
{
    decode_rgba(bytes)
}

} // verus!
