use vstd::prelude::*;
use crate::schedule::Rgb;

verus! {

/// The ASCII digits of `n` in base ten, most significant first.
pub open spec fn decimal(n: nat) -> Seq<u8>
    decreases n,
{
    if n < 10 {
        seq![(48 + n) as u8]
    } else {
        decimal(n / 10).push((48 + n % 10) as u8)
    }
}

/// One pixel of a plain-text image: its three channels in decimal, separated
/// by spaces, then a line break.
pub open spec fn pixel_line(p: Rgb) -> Seq<u8> {
    decimal(p.r as nat) + seq![32u8] + decimal(p.g as nat) + seq![32u8] + decimal(p.b as nat)
        + seq![10u8]
}

pub open spec fn pixel_lines(pixels: Seq<Rgb>) -> Seq<u8>
    decreases pixels.len(),
{
    if pixels.len() == 0 {
        Seq::empty()
    } else {
        pixel_lines(pixels.drop_last()) + pixel_line(pixels.last())
    }
}

/// The header of a plain-text image: the magic `P3`, the width and height,
/// and the largest channel value, 255.
pub open spec fn ppm_header(width: nat, height: nat) -> Seq<u8> {
    seq![80u8, 51u8, 10u8] + decimal(width) + seq![32u8] + decimal(height) + seq![
        10u8,
        50u8,
        53u8,
        53u8,
        10u8,
    ]
}

pub open spec fn ppm_text(width: nat, height: nat, pixels: Seq<Rgb>) -> Seq<u8> {
    ppm_header(width, height) + pixel_lines(pixels)
}

/// Appends the decimal digits of `n`.
pub fn write_decimal(out: &mut Vec<u8>, n: usize)
    ensures
        final(out)@ == old(out)@ + decimal(n as nat),
    decreases n,
{
    if n >= 10 {
        write_decimal(out, n / 10);
    }
    out.push((48 + n % 10) as u8);
    proof {
        assert(final(out)@ =~= old(out)@ + decimal(n as nat));
    }
}

fn write_pixel(out: &mut Vec<u8>, p: Rgb)
    ensures
        final(out)@ == old(out)@ + pixel_line(p),
{
    write_decimal(out, p.r as usize);
    out.push(32);
    write_decimal(out, p.g as usize);
    out.push(32);
    write_decimal(out, p.b as usize);
    out.push(10);
    assert(final(out)@ =~= old(out)@ + pixel_line(p));
}

/// The image as plain-text PPM: the header, then one line per pixel in the
/// order of `pixels` (row-major, top row first).
pub fn to_ppm(width: usize, height: usize, pixels: &Vec<Rgb>) -> (r: Vec<u8>)
    requires
        pixels@.len() == width * height,
    ensures
        r@ == ppm_text(width as nat, height as nat, pixels@),
{
    let mut out: Vec<u8> = Vec::new();
    out.push(80);
    out.push(51);
    out.push(10);
    write_decimal(&mut out, width);
    out.push(32);
    write_decimal(&mut out, height);
    out.push(10);
    out.push(50);
    out.push(53);
    out.push(53);
    out.push(10);
    assert(out@ =~= ppm_header(width as nat, height as nat));
    let mut i: usize = 0;
    while i < pixels.len()
        invariant
            i <= pixels@.len(),
            out@ == ppm_header(width as nat, height as nat) + pixel_lines(pixels@.subrange(0, i as int)),
        decreases pixels@.len() - i,
    {
        let ghost before = out@;
        write_pixel(&mut out, pixels[i]);
        proof {
            let s = pixels@.subrange(0, i + 1);
            assert(s.drop_last() =~= pixels@.subrange(0, i as int));
            assert(out@ =~= ppm_header(width as nat, height as nat) + pixel_lines(s));
        }
        i = i + 1;
    }
    assert(pixels@.subrange(0, pixels@.len() as int) =~= pixels@);
    out
}

} // verus!
