use crate::pixel::blue_byte;
use crate::pixel::green_byte;
use crate::pixel::is_rgba_of;
use crate::pixel::red_byte;
use crate::pixel::ALPHA_OPAQUE;
use crate::web::after_present;
use crate::web::age_of;
use crate::web::resize_accepts;
use crate::web::resized;
use crate::web::view_valid;
use crate::web::with_pixel;
use crate::web::SurfaceView;
use vstd::prelude::*;

verus! {

/// After a resize to positive dimensions, the buffer holds exactly
/// `width * height` pixels, the invariant holds, and a freshly acquired
/// handle reports age 0.
///
/// The one state left out: a surface already presented at exactly these
/// dimensions, where the resize is a no-op and the age stays 1.
pub proof fn lemma_resize_fresh_buffer(s: SurfaceView, width: u32, height: u32)
    requires
        view_valid(s),
        resize_accepts(width, height),
        width != s.width || height != s.height || !s.presented,
    ensures
        resized(s, width, height).pixels.len() == width * height,
        age_of(resized(s, width, height)) == 0,
        view_valid(resized(s, width, height)),
{
}

/// Resizing to the same dimensions twice is a no-op: the second resize
/// changes neither the buffer contents nor the staleness flag.
pub proof fn lemma_resize_idempotent(s: SurfaceView, width: u32, height: u32)
    requires
        resize_accepts(width, height),
    ensures
        resized(resized(s, width, height), width, height) == resized(s, width, height),
{
}

/// After any present, a new handle reports age 1; pixel writes keep it at
/// 1; the next resize resets it to 0.
///
/// The one state left out of the reset clause: a resize to the surface's
/// current dimensions, which is a no-op and leaves the age at 1.
pub proof fn lemma_present_sets_age(s: SurfaceView, width: u32, height: u32)
    requires
        resize_accepts(width, height),
        width != s.width || height != s.height,
    ensures
        age_of(after_present(s)) == 1,
        forall|i: int, value: u32| age_of(#[trigger] with_pixel(after_present(s), i, value)) == 1,
        age_of(resized(after_present(s), width, height)) == 0,
{
}

/// A pixel written at index `i` reaches the presented image exactly: the
/// byte quadruple at its position holds the pixel's red, green and blue
/// channels followed by the fully-opaque alpha byte.
pub proof fn lemma_present_emits_written_pixel(bytes: Seq<u8>, s: SurfaceView, i: int, value: u32)
    requires
        0 <= i < s.pixels.len(),
        is_rgba_of(bytes, with_pixel(s, i, value).pixels),
    ensures
        bytes[4 * i] == red_byte(value),
        bytes[4 * i + 1] == green_byte(value),
        bytes[4 * i + 2] == blue_byte(value),
        bytes[4 * i + 3] == ALPHA_OPAQUE,
{
    assert(with_pixel(s, i, value).pixels[i] == value);
}

} // verus!
