//! The pixel stream of a gradient image and its plain-text form: a header
//! with the format's token, the width and height and the largest channel
//! value, then one line of three channel values for each pixel, row by row
//! from the top, each row from the left.

use vstd::prelude::*;
use vstd::arithmetic::div_mod::lemma_fundamental_div_mod_converse;
use vstd::string::StringExecFns;
use crate::text::{blank, decimal, push_blank, push_decimal};

verus! {

/// One pixel: three channel values, each from 0 to 255.
#[derive(Debug, Clone, Copy, PartialEq, Eq)]
pub struct Rgb {
    pub r: u8,
    pub g: u8,
    pub b: u8,
}

/// The channel value of the intensity `num / den`: the whole part of
/// 255.999 times the intensity, so that 0 gives 0 and 1 gives 255.
pub open spec fn level(num: int, den: int) -> int {
    (255999 * num) / (1000 * den)
}

/// An intensity between 0 and 1 has a channel value between 0 and 255.
pub proof fn level_in_range(num: int, den: int)
    requires
        0 <= num <= den,
        0 < den,
    ensures
        0 <= level(num, den) <= 255,
{
    assert(0 <= (255999 * num) / (1000 * den) <= 255) by (nonlinear_arith)
        requires
            0 <= num <= den,
            0 < den,
    ;
}

/// No intensity gives channel value 0 and full intensity gives 255.
pub proof fn level_at_ends(den: int)
    requires
        0 < den,
    ensures
        level(0, den) == 0,
        level(den, den) == 255,
{
    assert((255999 * 0int) / (1000 * den) == 0 && (255999 * den) / (1000 * den) == 255)
        by (nonlinear_arith)
        requires
            0 < den,
    ;
}

/// The channel value is the largest whole number that is not above 255.999
/// times the intensity.
pub proof fn level_is_floor(num: int, den: int)
    requires
        0 <= num,
        0 < den,
    ensures
        1000 * den * level(num, den) <= 255999 * num < 1000 * den * (level(num, den) + 1),
{
    let q = (255999 * num) / (1000 * den);
    assert(1000 * den * q <= 255999 * num < 1000 * den * (q + 1)) by (nonlinear_arith)
        requires
            0 <= num,
            0 < den,
            q == (255999 * num) / (1000 * den),
    ;
}

/// The channel value of the intensity `num / den`, which lies between 0 and 1.
pub fn channel_level(num: u32, den: u32) -> (c: u8)
    requires
        num <= den,
        0 < den,
    ensures
        c == level(num as int, den as int),
        1000 * den * c <= 255999 * num < 1000 * den * (c + 1),
{
    proof {
        level_in_range(num as int, den as int);
        level_is_floor(num as int, den as int);
    }
    let scaled: u64 = 255999 * (num as u64);
    let parts: u64 = 1000 * (den as u64);
    (scaled / parts) as u8
}

/// The channel value at position `pos` of a ramp that rises from 0 at the
/// first position to 255 at the last of `extent` positions. A ramp of one
/// position has nowhere to rise to and stays at 0.
pub open spec fn ramp(pos: int, extent: int) -> int {
    if extent <= 1 {
        0
    } else {
        level(pos, extent - 1)
    }
}

/// The colour of the pixel in column `i` and row `j` of a gradient image:
/// red rises from left to right, green from top to bottom, blue is absent.
pub open spec fn gradient_color(i: int, j: int, width: int, height: int) -> Rgb {
    Rgb { r: ramp(i, width) as u8, g: ramp(j, height) as u8, b: 0 }
}

/// The pixels of a gradient image in raster order: the pixel at index `k` is
/// the one in column `k % width` of row `k / width`.
pub open spec fn gradient_pixels(width: int, height: int) -> Seq<Rgb> {
    Seq::new((width * height) as nat, |k: int| gradient_color(k % width, k / width, width, height))
}

/// Raster order: rows from the top, each row from the left, so the pixel in
/// column `i` of row `j` stands at index `j * width + i`.
pub proof fn gradient_pixels_by_position(i: int, j: int, width: int, height: int)
    requires
        0 <= i < width,
        0 <= j < height,
    ensures
        gradient_pixels(width, height).len() == width * height,
        0 <= j * width + i < width * height,
        gradient_pixels(width, height)[j * width + i] == gradient_color(i, j, width, height),
{
    assert(0 <= j * width + i < width * height) by (nonlinear_arith)
        requires
            0 <= i < width,
            0 <= j < height,
    ;
    lemma_fundamental_div_mod_converse(j * width + i, width, j, i);
}

/// The channel value at position `pos` of a ramp over `extent` positions.
pub fn ramp_level(pos: u16, extent: u16) -> (c: u8)
    requires
        pos < extent,
    ensures
        c == ramp(pos as int, extent as int),
{
    if extent <= 1 {
        0
    } else {
        channel_level(pos as u32, (extent - 1) as u32)
    }
}

/// The colour of the pixel in column `i` and row `j` of a gradient image.
pub fn gradient_pixel(i: u16, j: u16, width: u16, height: u16) -> (p: Rgb)
    requires
        i < width,
        j < height,
    ensures
        p == gradient_color(i as int, j as int, width as int, height as int),
{
    Rgb { r: ramp_level(i, width), g: ramp_level(j, height), b: 0 }
}

/// All pixels of a gradient image of the given size, in raster order.
pub fn gradient_image(width: u16, height: u16) -> (pixels: Vec<Rgb>)
    ensures
        pixels@ == gradient_pixels(width as int, height as int),
{
    let mut pixels: Vec<Rgb> = Vec::new();
    let mut j: u16 = 0;
    while j < height
        invariant
            j <= height,
            pixels@.len() == j * width,
            forall|k: int|
                0 <= k < pixels@.len() ==> #[trigger] pixels@[k] == gradient_color(
                    k % (width as int),
                    k / (width as int),
                    width as int,
                    height as int,
                ),
        decreases height - j,
    {
        let mut i: u16 = 0;
        while i < width
            invariant
                j < height,
                i <= width,
                pixels@.len() == j * width + i,
                forall|k: int|
                    0 <= k < pixels@.len() ==> #[trigger] pixels@[k] == gradient_color(
                        k % (width as int),
                        k / (width as int),
                        width as int,
                        height as int,
                    ),
            decreases width - i,
        {
            proof {
                lemma_fundamental_div_mod_converse(
                    j * width + i,
                    width as int,
                    j as int,
                    i as int,
                );
            }
            pixels.push(gradient_pixel(i, j, width, height));
            i = i + 1;
        }
        assert((j + 1) * width == j * width + width) by (nonlinear_arith);
        j = j + 1;
    }
    proof {
        assert(j * width == width * height) by (nonlinear_arith)
            requires
                j == height,
        ;
        assert(pixels@ =~= gradient_pixels(width as int, height as int));
    }
    pixels
}

/// The header of the plain-text image: the token `P3`, on the next line the
/// width and the height, on the third the largest channel value, 255.
pub open spec fn header_text(width: int, height: int) -> Seq<char> {
    seq!['P', '3', '\n'] + decimal(width as nat) + blank() + decimal(height as nat) + seq![
        '\n',
        '2',
        '5',
        '5',
    ]
}

/// The line of one pixel: red, green and blue in decimal, separated by single
/// blanks.
pub open spec fn pixel_text(p: Rgb) -> Seq<char> {
    decimal(p.r as nat) + blank() + decimal(p.g as nat) + blank() + decimal(p.b as nat)
}

/// The lines of the given pixels, each closed by a line feed.
pub open spec fn body_text(pixels: Seq<Rgb>) -> Seq<char>
    decreases pixels.len(),
{
    if pixels.len() == 0 {
        Seq::empty()
    } else {
        body_text(pixels.drop_last()) + pixel_text(pixels.last()) + seq!['\n']
    }
}

/// The whole image as text: the header, a line feed, and the pixels' lines.
pub open spec fn image_text(width: int, height: int, pixels: Seq<Rgb>) -> Seq<char> {
    header_text(width, height) + seq!['\n'] + body_text(pixels)
}

/// The header of the plain-text image.
pub fn ppm_header(width: u16, height: u16) -> (s: String)
    ensures
        s@ == header_text(width as int, height as int),
{
    proof {
        reveal_strlit("P3\n");
        reveal_strlit("\n255");
    }
    let mut s = String::from_str("P3\n");
    push_decimal(&mut s, width as u64);
    push_blank(&mut s);
    push_decimal(&mut s, height as u64);
    s.append("\n255");
    assert(s@ =~= header_text(width as int, height as int));
    s
}

/// Appends the line of one pixel, without a line feed, to `out`.
pub fn push_pixel(out: &mut String, p: Rgb)
    ensures
        final(out)@ == old(out)@ + pixel_text(p),
{
    push_decimal(out, p.r as u64);
    push_blank(out);
    push_decimal(out, p.g as u64);
    push_blank(out);
    push_decimal(out, p.b as u64);
    assert(final(out)@ =~= old(out)@ + pixel_text(p));
}

/// The line of one pixel, without a line feed.
pub fn pixel_line(p: Rgb) -> (s: String)
    ensures
        s@ == pixel_text(p),
{
    let mut s = String::new();
    push_pixel(&mut s, p);
    assert(s@ =~= pixel_text(p));
    s
}

/// The whole image as text, for pixels given in raster order.
pub fn render_ppm(width: u16, height: u16, pixels: &Vec<Rgb>) -> (s: String)
    ensures
        s@ == image_text(width as int, height as int, pixels@),
{
    proof {
        reveal_strlit("\n");
    }
    let mut s = ppm_header(width, height);
    s.append("\n");
    let ghost head = s@;
    assert(head =~= header_text(width as int, height as int) + seq!['\n']);
    let mut k: usize = 0;
    assert(s@ =~= head + body_text(pixels@.take(0)));
    while k < pixels.len()
        invariant
            k <= pixels@.len(),
            s@ == head + body_text(pixels@.take(k as int)),
        decreases pixels@.len() - k,
    {
        let ghost before = s@;
        push_pixel(&mut s, pixels[k]);
        s.append("\n");
        proof {
            reveal_strlit("\n");
            let next = pixels@.take(k + 1);
            assert(next.drop_last() =~= pixels@.take(k as int));
            assert(next.last() == pixels@[k as int]);
            assert(body_text(next) == body_text(pixels@.take(k as int)) + pixel_text(
                pixels@[k as int],
            ) + seq!['\n']);
            assert(s@ =~= before + pixel_text(pixels@[k as int]) + seq!['\n']);
            assert(s@ =~= head + body_text(next));
        }
        k = k + 1;
    }
    assert(pixels@.take(k as int) =~= pixels@);
    s
}

/// The gradient image of the given size as text.
pub fn gradient_ppm(width: u16, height: u16) -> (s: String)
    ensures
        s@ == image_text(
            width as int,
            height as int,
            gradient_pixels(width as int, height as int),
        ),
{
    let pixels = gradient_image(width, height);
    render_ppm(width, height, &pixels)
}

} // verus!
