//! The plain-text pixel format: a format tag line, a line with the image size
//! and the largest channel value, then one line of three decimal channel values
//! per pixel.

use vstd::prelude::*;

verus! {

/// One quantized pixel: red, green and blue channels in `0..=255`.
#[derive(Clone, Copy, Debug, PartialEq, Eq, Structural)]
pub struct Pixel {
    pub r: u8,
    pub g: u8,
    pub b: u8,
}

/// The ASCII decimal digits of `n`, most significant first, without leading zeros.
pub open spec fn decimal(n: nat) -> Seq<u8>
    decreases n,
{
    if n < 10 {
        seq![(48 + n) as u8]
    } else {
        decimal(n / 10).push((48 + n % 10) as u8)
    }
}

/// `P3\n<width> <height> 255\n`
pub open spec fn header_bytes(width: nat, height: nat) -> Seq<u8> {
    seq![80u8, 51u8, 10u8] + decimal(width) + seq![32u8] + decimal(height) + seq![
        32u8,
        50u8,
        53u8,
        53u8,
        10u8,
    ]
}

/// `<r> <g> <b>\n`
pub open spec fn pixel_bytes(p: Pixel) -> Seq<u8> {
    decimal(p.r as nat) + seq![32u8] + decimal(p.g as nat) + seq![32u8] + decimal(p.b as nat)
        + seq![10u8]
}

/// The lines of all pixels, in the order given.
pub open spec fn body_bytes(pixels: Seq<Pixel>) -> Seq<u8>
    decreases pixels.len(),
{
    if pixels.len() == 0 {
        seq![]
    } else {
        body_bytes(pixels.drop_last()) + pixel_bytes(pixels.last())
    }
}

/// A whole image file.
pub open spec fn ppm_bytes(width: nat, height: nat, pixels: Seq<Pixel>) -> Seq<u8> {
    header_bytes(width, height) + body_bytes(pixels)
}

/// Appends the decimal digits of `n`.
pub fn push_decimal(out: &mut Vec<u8>, n: usize)
    ensures
        final(out)@ == old(out)@ + decimal(n as nat),
    decreases n,
{
    if n >= 10 {
        push_decimal(out, n / 10);
    }
    let digit: u8 = (n % 10) as u8;
    out.push(48u8 + digit);
    assert(final(out)@ =~= old(out)@ + decimal(n as nat));
}

/// Appends the header line pair for an image of the given size.
pub fn push_header(out: &mut Vec<u8>, width: usize, height: usize)
    ensures
        final(out)@ == old(out)@ + header_bytes(width as nat, height as nat),
{
    out.push(80u8);
    out.push(51u8);
    out.push(10u8);
    push_decimal(out, width);
    out.push(32u8);
    push_decimal(out, height);
    out.push(32u8);
    out.push(50u8);
    out.push(53u8);
    out.push(53u8);
    out.push(10u8);
    assert(final(out)@ =~= old(out)@ + header_bytes(width as nat, height as nat));
}

/// Appends the line of one pixel.
pub fn push_pixel(out: &mut Vec<u8>, p: Pixel)
    ensures
        final(out)@ == old(out)@ + pixel_bytes(p),
{
    push_decimal(out, p.r as usize);
    out.push(32u8);
    push_decimal(out, p.g as usize);
    out.push(32u8);
    push_decimal(out, p.b as usize);
    out.push(10u8);
    assert(final(out)@ =~= old(out)@ + pixel_bytes(p));
}

/// The whole file for `pixels`, which must number `width * height` and run
/// row by row from the top, each row from the left.
pub fn encode_ppm(width: usize, height: usize, pixels: &Vec<Pixel>) -> (r: Option<Vec<u8>>)
    ensures
        r is Some <==> pixels@.len() == width as int * height as int,
        r matches Some(v) ==> v@ == ppm_bytes(width as nat, height as nat, pixels@),
{
    let len: usize = pixels.len();
    match width.checked_mul(height) {
        None => {
            return None;
        },
        Some(n) => {
            if n != len {
                return None;
            }
        },
    }
    let mut out: Vec<u8> = Vec::new();
    push_header(&mut out, width, height);
    let mut i: usize = 0;
    while i < pixels.len()
        invariant
            i <= pixels@.len(),
            out@ == header_bytes(width as nat, height as nat) + body_bytes(pixels@.take(i as int)),
        decreases pixels@.len() - i,
    {
        proof {
            assert(pixels@.take(i + 1).drop_last() =~= pixels@.take(i as int));
        }
        push_pixel(&mut out, pixels[i]);
        i = i + 1;
        assert(out@ =~= header_bytes(width as nat, height as nat) + body_bytes(pixels@.take(i as int)));
    }
    assert(pixels@.take(i as int) =~= pixels@);
    Some(out)
}

} // verus!
