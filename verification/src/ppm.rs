//! The image as a plain-text pixmap.
//!
//! The text starts with the line that marks a plain pixmap, a line with the
//! width and the height and the line `255`. One line for each pixel follows, with its red, green
//! and blue byte in decimal, from the top row down and in each row from the
//! left.

use crate::renderer::{spec_blue, spec_green, spec_red};
use vstd::prelude::*;

verus! {

/// The line feed.
pub const NEWLINE: u8 = 10;

/// The blank.
pub const SPACE: u8 = 32;

/// The digit `0`.
pub const DIGIT_ZERO: u8 = 48;

/// The decimal digits of `n`, without leading zeros.
pub open spec fn decimal(n: nat) -> Seq<u8>
    decreases n,
{
    if n < 10 {
        seq![(DIGIT_ZERO + n) as u8]
    } else {
        decimal(n / 10).push((DIGIT_ZERO + n % 10) as u8)
    }
}

/// The mark of a plain pixmap, the width and the height, and the greatest
/// value of a byte.
pub open spec fn header(width: usize, height: usize) -> Seq<u8> {
    seq![80u8, 51u8, NEWLINE] + decimal(width as nat) + seq![SPACE] + decimal(height as nat)
        + seq![NEWLINE, 50u8, 53u8, 53u8, NEWLINE]
}

/// The line of a pixel: its red, green and blue byte.
pub open spec fn pixel_line(pixel: u32) -> Seq<u8> {
    decimal(spec_red(pixel) as nat) + seq![SPACE] + decimal(spec_green(pixel) as nat) + seq![SPACE]
        + decimal(spec_blue(pixel) as nat) + seq![NEWLINE]
}

/// The lines of the first `n` pixels of the row `y` of the image.
pub open spec fn row_text(pixels: Seq<u32>, width: usize, y: int, n: nat) -> Seq<u8>
    decreases n,
{
    if n == 0 {
        Seq::empty()
    } else {
        row_text(pixels, width, y, (n - 1) as nat) + pixel_line(pixels[(n - 1) + y * width])
    }
}

/// The lines of the `n` topmost rows. The image holds its rows from the
/// bottom, so the topmost row is the last one.
pub open spec fn rows_text(pixels: Seq<u32>, width: usize, height: usize, n: nat) -> Seq<u8>
    decreases n,
{
    if n == 0 {
        Seq::empty()
    } else {
        rows_text(pixels, width, height, (n - 1) as nat) + row_text(
            pixels,
            width,
            height - n,
            width as nat,
        )
    }
}

/// The text of the whole image.
pub open spec fn spec_encode(pixels: Seq<u32>, width: usize, height: usize) -> Seq<u8> {
    header(width, height) + rows_text(pixels, width, height, height as nat)
}

/// Appends the decimal digits of `n`.
pub fn push_decimal(out: &mut Vec<u8>, n: usize)
    ensures
        final(out)@ == old(out)@ + decimal(n as nat),
    decreases n,
{
    if n < 10 {
        out.push(DIGIT_ZERO + n as u8);
        assert(out@ =~= old(out)@ + decimal(n as nat));
    } else {
        push_decimal(out, n / 10);
        out.push(DIGIT_ZERO + (n % 10) as u8);
        assert(out@ =~= old(out)@ + decimal(n as nat));
    }
}

/// Appends the header.
pub fn push_header(out: &mut Vec<u8>, width: usize, height: usize)
    ensures
        final(out)@ == old(out)@ + header(width, height),
{
    out.push(80u8);
    out.push(51u8);
    out.push(NEWLINE);
    push_decimal(out, width);
    out.push(SPACE);
    push_decimal(out, height);
    out.push(NEWLINE);
    out.push(50u8);
    out.push(53u8);
    out.push(53u8);
    out.push(NEWLINE);
    assert(out@ =~= old(out)@ + header(width, height));
}

/// Appends the line of a pixel.
pub fn push_pixel_line(out: &mut Vec<u8>, pixel: u32)
    ensures
        final(out)@ == old(out)@ + pixel_line(pixel),
{
    let r = (pixel >> 0) & 0xFF;
    let g = (pixel >> 8) & 0xFF;
    let b = (pixel >> 16) & 0xFF;
    push_decimal(out, r as usize);
    out.push(SPACE);
    push_decimal(out, g as usize);
    out.push(SPACE);
    push_decimal(out, b as usize);
    out.push(NEWLINE);
    assert(out@ =~= old(out)@ + pixel_line(pixel));
}

/// The text of an image of `width` by `height` pixels, which `pixels` holds
/// row by row from the bottom.
pub fn encode(pixels: &Vec<u32>, width: usize, height: usize) -> (out: Vec<u8>)
    requires
        pixels@.len() == width * height,
    ensures
        out@ == spec_encode(pixels@, width, height),
{
    let total = pixels.len();
    let mut out: Vec<u8> = Vec::new();
    push_header(&mut out, width, height);
    assert(out@ =~= header(width, height));
    let mut j: usize = 0;
    while j < height
        invariant
            j <= height,
            total == pixels@.len(),
            total == width * height,
            out@ == header(width, height) + rows_text(pixels@, width, height, j as nat),
        decreases height - j,
    {
        let y = height - 1 - j;
        let ghost rows = out@;
        let mut i: usize = 0;
        while i < width
            invariant
                i <= width,
                y < height,
                total == pixels@.len(),
                total == width * height,
                out@ == rows + row_text(pixels@, width, y as int, i as nat),
            decreases width - i,
        {
            proof {
                crate::renderer::lemma_flat_index(i as int, y as int, width as int, height as int);
            }
            push_pixel_line(&mut out, pixels[i + y * width]);
            assert(out@ =~= rows + row_text(pixels@, width, y as int, (i + 1) as nat));
            i += 1;
        }
        assert(out@ =~= header(width, height) + rows_text(
            pixels@,
            width,
            height,
            (j + 1) as nat,
        ));
        j += 1;
    }
    out
}

} // verus!
