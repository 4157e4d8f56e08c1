//! The plain-text PPM (P3) image format.
//!
//! A P3 file is the line `P3`, the line `<width> <height>`, the line `255`,
//! then one line per pixel holding its three channels as decimal integers
//! separated by single spaces, row-major, first row at the top of the image.
use vstd::prelude::*;

verus! {

/// The ASCII digits of `n` in base ten, most significant first, no leading zero.
pub open spec fn decimal(n: nat) -> Seq<u8>
    decreases n,
{
    if n < 10 {
        seq![(48 + n) as u8]
    } else {
        decimal(n / 10).push((48 + n % 10) as u8)
    }
}

/// Appends the decimal digits of `n` to `out`.
pub fn push_decimal(out: &mut Vec<u8>, n: u32)
    ensures
        final(out)@ == old(out)@ + decimal(n as nat),
    decreases n,
{
    if n < 10 {
        out.push((48 + n) as u8);
        assert(old(out)@ + decimal(n as nat) =~= old(out)@.push((48 + n) as u8));
    } else {
        push_decimal(out, n / 10);
        out.push((48 + n % 10) as u8);
        assert(old(out)@ + decimal(n as nat) =~= old(out)@ + decimal((n / 10) as nat) + seq![
            (48 + n % 10) as u8,
        ]);
    }
}

/// One pixel as three 8-bit channels.
#[derive(Clone, Copy, Debug, PartialEq, Eq, Structural)]
pub struct Rgb8 {
    pub r: u8,
    pub g: u8,
    pub b: u8,
}

/// Why an image could not be encoded.
#[derive(Clone, Copy, Debug, PartialEq, Eq, Structural)]
pub enum PpmError {
    /// The number of pixels given is not `width * height`.
    PixelCount,
}

pub open spec fn space() -> Seq<u8> {
    seq![32u8]
}

pub open spec fn newline() -> Seq<u8> {
    seq![10u8]
}

/// `P3\n<width> <height>\n255\n`
pub open spec fn header_text(width: nat, height: nat) -> Seq<u8> {
    seq![80u8, 51u8] + newline() + decimal(width) + space() + decimal(height) + newline()
        + decimal(255) + newline()
}

/// `<r> <g> <b>\n`
pub open spec fn pixel_text(p: Rgb8) -> Seq<u8> {
    decimal(p.r as nat) + space() + decimal(p.g as nat) + space() + decimal(p.b as nat)
        + newline()
}

/// The pixel lines of `pixels`, one after the other.
pub open spec fn pixels_text(pixels: Seq<Rgb8>) -> Seq<u8>
    decreases pixels.len(),
{
    if pixels.len() == 0 {
        Seq::empty()
    } else {
        pixels_text(pixels.drop_last()) + pixel_text(pixels.last())
    }
}

/// The whole file for an image of `width` by `height` pixels.
pub open spec fn image_text(width: nat, height: nat, pixels: Seq<Rgb8>) -> Seq<u8> {
    header_text(width, height) + pixels_text(pixels)
}

/// Appends the header of a `width` by `height` image to `out`.
pub fn push_header(out: &mut Vec<u8>, width: u32, height: u32)
    ensures
        final(out)@ == old(out)@ + header_text(width as nat, height as nat),
{
    out.push(80u8);
    out.push(51u8);
    out.push(10u8);
    push_decimal(out, width);
    out.push(32u8);
    push_decimal(out, height);
    out.push(10u8);
    push_decimal(out, 255u32);
    out.push(10u8);
    assert(final(out)@ =~= old(out)@ + header_text(width as nat, height as nat));
}

/// Appends the line of one pixel to `out`.
pub fn push_pixel(out: &mut Vec<u8>, p: Rgb8)
    ensures
        final(out)@ == old(out)@ + pixel_text(p),
{
    push_decimal(out, p.r as u32);
    out.push(32u8);
    push_decimal(out, p.g as u32);
    out.push(32u8);
    push_decimal(out, p.b as u32);
    out.push(10u8);
    assert(final(out)@ =~= old(out)@ + pixel_text(p));
}

/// The header of a `width` by `height` image.
pub fn ppm_header(width: u32, height: u32) -> (r: Vec<u8>)
    ensures
        r@ == header_text(width as nat, height as nat),
{
    let mut out: Vec<u8> = Vec::new();
    push_header(&mut out, width, height);
    assert(out@ =~= header_text(width as nat, height as nat));
    out
}

/// The line of one pixel.
pub fn ppm_pixel(p: Rgb8) -> (r: Vec<u8>)
    ensures
        r@ == pixel_text(p),
{
    let mut out: Vec<u8> = Vec::new();
    push_pixel(&mut out, p);
    assert(out@ =~= pixel_text(p));
    out
}

/// The whole file of an image whose pixels are given row-major, top row first.
pub fn encode_ppm(width: u32, height: u32, pixels: &Vec<Rgb8>) -> (r: Result<Vec<u8>, PpmError>)
    ensures
        pixels@.len() != width as int * height as int <==> r is Err,
        r matches Ok(bytes) ==> bytes@ == image_text(width as nat, height as nat, pixels@),
        r matches Err(e) ==> e == PpmError::PixelCount,
{
    assert(width as int * height as int <= 0xffff_ffff_ffff_ffff) by (nonlinear_arith)
        requires
            width <= 0xffff_ffff,
            height <= 0xffff_ffff,
    ;
    if pixels.len() as u64 != width as u64 * height as u64 {
        return Err(PpmError::PixelCount);
    }
    let mut out: Vec<u8> = Vec::new();
    push_header(&mut out, width, height);
    let mut k: usize = 0;
    while k < pixels.len()
        invariant
            k <= pixels@.len(),
            out@ == header_text(width as nat, height as nat) + pixels_text(pixels@.take(k as int)),
        decreases pixels@.len() - k,
    {
        push_pixel(&mut out, pixels[k]);
        assert(pixels@.take(k as int + 1).drop_last() =~= pixels@.take(k as int));
        k = k + 1;
    }
    assert(pixels@.take(k as int) =~= pixels@);
    Ok(out)
}

} // verus!
