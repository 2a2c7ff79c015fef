//! Binary portable-pixmap framing: the dependency-free way to write the
//! finished raster.
//!
//! The format is a short text header — the magic `P6`, the width and height
//! in decimal, and the maximum channel value `255` — followed by the raw
//! pixel bytes, three per pixel.

use vstd::prelude::*;

verus! {

/// The decimal digits of `n`, most significant first, as ASCII bytes.
pub open spec fn decimal_digits(n: nat) -> Seq<u8>
    decreases n,
{
    if n < 10 {
        seq![(n + 48) as u8]
    } else {
        decimal_digits(n / 10) + seq![((n % 10) + 48) as u8]
    }
}

/// The header bytes: `P6\n`, the width, a space, the height, `\n255\n`.
pub open spec fn spec_header(width: nat, height: nat) -> Seq<u8> {
    seq![80u8, 54u8, 10u8] + decimal_digits(width) + seq![32u8] + decimal_digits(height)
        + seq![10u8, 50u8, 53u8, 53u8, 10u8]
}

/// A whole image file: the header, then the raw pixel bytes.
pub open spec fn spec_image(width: nat, height: nat, pixels: Seq<u8>) -> Seq<u8> {
    spec_header(width, height) + pixels
}

/// Writes `n` in decimal, most significant digit first.
pub fn format_decimal(n: u32) -> (digits: Vec<u8>)
    ensures
        digits@ == decimal_digits(n as nat),
    decreases n,
{
    if n < 10 {
        let mut digits: Vec<u8> = Vec::new();
        digits.push(n as u8 + 48);
        assert(digits@ =~= decimal_digits(n as nat));
        digits
    } else {
        let mut digits = format_decimal(n / 10);
        digits.push((n % 10) as u8 + 48);
        assert(digits@ =~= decimal_digits(n as nat));
        digits
    }
}

/// Builds the header for a `width` by `height` image.
pub fn encode_header(width: u32, height: u32) -> (header: Vec<u8>)
    ensures
        header@ == spec_header(width as nat, height as nat),
{
    let mut header: Vec<u8> = Vec::new();
    header.push(80);
    header.push(54);
    header.push(10);
    let mut digits = format_decimal(width);
    header.append(&mut digits);
    header.push(32);
    let mut digits = format_decimal(height);
    header.append(&mut digits);
    header.push(10);
    header.push(50);
    header.push(53);
    header.push(53);
    header.push(10);
    assert(header@ =~= spec_header(width as nat, height as nat));
    header
}

/// Frames the raw pixel bytes of a `width` by `height` raster as a binary
/// portable pixmap.
pub fn encode_image(width: u32, height: u32, pixels: &Vec<u8>) -> (image: Vec<u8>)
    requires
        pixels@.len() == 3 * width * height,
    ensures
        image@ == spec_image(width as nat, height as nat, pixels@),
{
    let mut image = encode_header(width, height);
    let mut k: usize = 0;
    while k < pixels.len()
        invariant
            k <= pixels@.len(),
            image@ == spec_header(width as nat, height as nat) + pixels@.take(k as int),
        decreases pixels@.len() - k,
    {
        image.push(pixels[k]);
        assert(image@ =~= spec_header(width as nat, height as nat) + pixels@.take(k + 1 as int));
        k = k + 1;
    }
    assert(pixels@.take(pixels@.len() as int) =~= pixels@);
    image
}

} // verus!
