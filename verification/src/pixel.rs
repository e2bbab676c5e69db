use vstd::prelude::*;

verus! {

/// The alpha byte emitted for every pixel: fully opaque, whatever the bits
/// outside the colour channels of the packed value hold.
pub const ALPHA_OPAQUE: u8 = 255;

/// The red channel of a packed pixel: bits 16 to 23.
pub open spec fn red_byte(pixel: u32) -> u8 {
    (((pixel >> 16) & 0xff) as u8)
}

/// The green channel of a packed pixel: bits 8 to 15.
pub open spec fn green_byte(pixel: u32) -> u8 {
    (((pixel >> 8) & 0xff) as u8)
}

/// The blue channel of a packed pixel: bits 0 to 7.
pub open spec fn blue_byte(pixel: u32) -> u8 {
    ((pixel & 0xff) as u8)
}

/// `bytes` is the interleaved RGBA image of `pixels`: four bytes per pixel,
/// in pixel order, holding the red, green and blue channels of the packed
/// value followed by a fully-opaque alpha byte.
pub open spec fn is_rgba_of(bytes: Seq<u8>, pixels: Seq<u32>) -> bool {
    &&& bytes.len() == 4 * pixels.len()
    &&& forall|i: int|
        0 <= i < pixels.len() ==> {
            &&& bytes[4 * i] == red_byte(#[trigger] pixels[i])
            &&& bytes[4 * i + 1] == green_byte(pixels[i])
            &&& bytes[4 * i + 2] == blue_byte(pixels[i])
            &&& bytes[4 * i + 3] == ALPHA_OPAQUE
        }
}

/// The low byte of a channel value already shifted into place.
fn channel_byte(value: u32) -> (r: u8)
    ensures
        r == ((value & 0xff) as u8),
{
    proof {
        assert(value & 0xff < 256) by (bit_vector);
    }
    (value & 0xff) as u8
}

/// Convert the whole pixel buffer into the interleaved RGBA byte image that
/// the host image-data object is built from. The conversion always covers
/// the full buffer, so one conversion can serve many partial paints.
pub fn rgba_bitmap(pixels: &Vec<u32>) -> (bytes: Vec<u8>)
    ensures
        is_rgba_of(bytes@, pixels@),
{
    let mut bytes: Vec<u8> = Vec::new();
    let mut i: usize = 0;
    while i < pixels.len()
        invariant
            i <= pixels@.len(),
            bytes@.len() == 4 * i,
            forall|j: int|
                0 <= j < i ==> {
                    &&& bytes@[4 * j] == red_byte(#[trigger] pixels@[j])
                    &&& bytes@[4 * j + 1] == green_byte(pixels@[j])
                    &&& bytes@[4 * j + 2] == blue_byte(pixels@[j])
                    &&& bytes@[4 * j + 3] == ALPHA_OPAQUE
                },
        decreases pixels@.len() - i,
    {
        let pixel = pixels[i];
        bytes.push(channel_byte(pixel >> 16));
        bytes.push(channel_byte(pixel >> 8));
        bytes.push(channel_byte(pixel));
        bytes.push(ALPHA_OPAQUE);
        i += 1;
    }
    bytes
}

} // verus!
