//! Raster layout: where a pixel lives in the flat image buffer, and how the
//! finished pixels flatten into the byte buffer handed to the image writer.
//!
//! The renderer draws the image bottom-to-top: a full image layer visits rows
//! from the top row of the scene (largest `y`) down to `y == 0`, and pixels
//! within a row from `x == 0` to `x == width - 1`.  The flat buffer therefore
//! stores the pixel `(x, y)` at slot `(height - 1 - y) * width + x`.

use vstd::prelude::*;

verus! {

/// One display-ready pixel: an 8-bit red, green and blue channel.
#[derive(Copy, Clone, PartialEq, Eq, Structural, Debug)]
pub struct Rgb8 {
    pub red: u8,
    pub green: u8,
    pub blue: u8,
}

/// The flat-buffer slot of the pixel at column `x` of row `y`, rows counted
/// from the bottom of the image as the camera's `t` coordinate does.
pub open spec fn spec_pixel_slot(width: nat, height: nat, x: nat, y: nat) -> int {
    (height - 1 - y) * width + x
}

/// Flat-buffer slot of pixel `(x, y)` in a `width` by `height` raster.
pub fn pixel_slot(width: u32, height: u32, x: u32, y: u32) -> (slot: usize)
    requires
        x < width,
        y < height,
        width * height <= usize::MAX,
    ensures
        slot == spec_pixel_slot(width as nat, height as nat, x as nat, y as nat),
        slot < width * height,
{
    proof {
        assert((height - 1 - y) * width + x < width * height) by (nonlinear_arith)
            requires
                x < width,
                y < height,
        ;
    }
    (height as usize - 1 - y as usize) * width as usize + x as usize
}

/// Distinct pixels of the raster never share a slot.
pub proof fn lemma_pixel_slot_injective(width: nat, height: nat, x1: nat, y1: nat, x2: nat, y2: nat)
    requires
        x1 < width,
        y1 < height,
        x2 < width,
        y2 < height,
        spec_pixel_slot(width, height, x1, y1) == spec_pixel_slot(width, height, x2, y2),
    ensures
        x1 == x2,
        y1 == y2,
{
    assert((height - 1 - y1) * width + x1 == (height - 1 - y2) * width + x2
        && x1 < width && x2 < width ==> x1 == x2 && y1 == y2) by (nonlinear_arith)
        requires
            y1 < height,
            y2 < height,
    ;
}

/// The raster's flat bytes: every pixel's three channels, red then green
/// then blue, pixels in slot order.
pub open spec fn raster_bytes(pixels: Seq<Rgb8>) -> Seq<u8> {
    Seq::new(
        3 * pixels.len(),
        |i: int|
            if i % 3 == 0 {
                pixels[i / 3].red
            } else if i % 3 == 1 {
                pixels[i / 3].green
            } else {
                pixels[i / 3].blue
            },
    )
}

/// Flattens the finished pixels into the raw byte buffer the image writer
/// takes: three bytes per pixel, red then green then blue, pixels in slot
/// order.
pub fn flatten_pixels(pixels: &Vec<Rgb8>) -> (bytes: Vec<u8>)
    ensures
        bytes@ == raster_bytes(pixels@),
        bytes@.len() == 3 * pixels@.len(),
{
    let mut bytes: Vec<u8> = Vec::new();
    let mut k: usize = 0;
    while k < pixels.len()
        invariant
            k <= pixels@.len(),
            bytes@.len() == 3 * k,
            forall|i: int| 0 <= i < k ==> {
                &&& bytes@[3 * i] == pixels@[i].red
                &&& bytes@[3 * i + 1] == pixels@[i].green
                &&& bytes@[3 * i + 2] == pixels@[i].blue
            },
        decreases pixels@.len() - k,
    {
        let pixel = pixels[k];
        bytes.push(pixel.red);
        bytes.push(pixel.green);
        bytes.push(pixel.blue);
        k = k + 1;
    }
    proof {
        assert forall|j: int| 0 <= j < bytes@.len() implies bytes@[j] == raster_bytes(pixels@)[j] by {
            let i = j / 3;
            vstd::arithmetic::div_mod::lemma_fundamental_div_mod(j, 3);
            assert(j == 3 * i + j % 3);
            if j % 3 == 0 {
                assert(bytes@[3 * i] == pixels@[i].red);
            } else if j % 3 == 1 {
                assert(bytes@[3 * i + 1] == pixels@[i].green);
            } else {
                assert(bytes@[3 * i + 2] == pixels@[i].blue);
            }
        }
        assert(bytes@ =~= raster_bytes(pixels@));
    }
    bytes
}

} // verus!
