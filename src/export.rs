//! Plain-text PPM encoding of a finished pixel buffer.
use vstd::prelude::*;

verus! {

/// One pixel: red, green, blue and alpha channels.
#[derive(Clone, Copy, Debug, PartialEq, Eq, Structural)]
pub struct ColorRGBA {
    pub r: u8,
    pub g: u8,
    pub b: u8,
    pub a: u8,
}

/// A rendered image: `width * height` pixels, row by row.
#[derive(Clone, Debug)]
pub struct Surface {
    pub width: usize,
    pub height: usize,
    pub buffer: Vec<ColorRGBA>,
}

/// The largest value of a channel.
pub const CHANNEL_MAX: u8 = 255;

/// The ASCII decimal digits of `n`, most significant first.
pub open spec fn decimal(n: nat) -> Seq<u8>
    decreases n,
{
    if n < 10 {
        seq![(48 + n) as u8]
    } else {
        decimal(n / 10).push((48 + n % 10) as u8)
    }
}

/// The plain-text PPM magic, then `<width> <height> <max>` and a newline.
pub open spec fn ppm_header(width: nat, height: nat) -> Seq<u8> {
    seq![80u8, 51u8, 32u8] + decimal(width) + seq![32u8] + decimal(height) + seq![32u8]
        + decimal(CHANNEL_MAX as nat) + seq![10u8]
}

/// `<r> <g> <b> ` for one pixel.
pub open spec fn ppm_pixel(p: ColorRGBA) -> Seq<u8> {
    decimal(p.r as nat) + seq![32u8] + decimal(p.g as nat) + seq![32u8] + decimal(p.b as nat)
        + seq![32u8]
}

/// The text of the first `n` pixels.
pub open spec fn ppm_pixels(pixels: Seq<ColorRGBA>, n: nat) -> Seq<u8>
    decreases n,
{
    if n == 0 || n > pixels.len() {
        Seq::empty()
    } else {
        ppm_pixels(pixels, (n - 1) as nat) + ppm_pixel(pixels[n - 1])
    }
}

/// The whole file: the header, then every pixel in buffer order.
pub open spec fn ppm_spec(s: Surface) -> Seq<u8> {
    ppm_header(s.width as nat, s.height as nat) + ppm_pixels(s.buffer@, s.buffer@.len())
}

fn push_decimal(out: &mut Vec<u8>, n: u64)
    ensures
        final(out)@ == old(out)@ + decimal(n as nat),
    decreases n,
{
    if n >= 10 {
        push_decimal(out, n / 10);
    }
    out.push(48 + (n % 10) as u8);
    proof {
        if n < 10 {
            assert(n % 10 == n);
        }
    }
}

fn push_space(out: &mut Vec<u8>)
    ensures
        final(out)@ == old(out)@ + seq![32u8],
{
    out.push(32);
}

/// The plain-text PPM of `surface`: the magic and
/// `<width> <height> 255\n`, then `<r> <g> <b> ` for each pixel.
pub fn ppm_bytes(surface: &Surface) -> (r: Vec<u8>)
    ensures
        r@ == ppm_spec(*surface),
{
    let mut out: Vec<u8> = Vec::new();
    out.push(80);
    out.push(51);
    push_space(&mut out);
    push_decimal(&mut out, surface.width as u64);
    push_space(&mut out);
    push_decimal(&mut out, surface.height as u64);
    push_space(&mut out);
    push_decimal(&mut out, CHANNEL_MAX as u64);
    out.push(10);
    let ghost header = out@;
    proof {
        assert(header =~= ppm_header(surface.width as nat, surface.height as nat));
    }
    let mut i: usize = 0;
    while i < surface.buffer.len()
        invariant
            i <= surface.buffer@.len(),
            out@ == header + ppm_pixels(surface.buffer@, i as nat),
        decreases surface.buffer.len() - i,
    {
        let p = surface.buffer[i];
        let ghost before = out@;
        push_decimal(&mut out, p.r as u64);
        push_space(&mut out);
        push_decimal(&mut out, p.g as u64);
        push_space(&mut out);
        push_decimal(&mut out, p.b as u64);
        push_space(&mut out);
        proof {
            assert(out@ =~= before + ppm_pixel(p));
            assert(ppm_pixels(surface.buffer@, (i + 1) as nat) == ppm_pixels(
                surface.buffer@,
                i as nat,
            ) + ppm_pixel(p));
        }
        i += 1;
    }
    out
}

} // verus!
