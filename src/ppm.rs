use vstd::prelude::*;

verus! {

/// ASCII `0`; the digits follow it in order.
pub const DIGIT_ZERO: u8 = 48;

/// ASCII space.
pub const SPACE: u8 = 32;

/// ASCII line feed.
pub const NEWLINE: u8 = 10;

/// ASCII `P`, which begins the magic of a PPM image.
pub const MAGIC_LETTER: u8 = 80;

/// The format number after the magic letter: 3 marks plain-text pixels.
pub const PLAIN_FORMAT: u16 = 3;

/// The largest channel value that the header announces.
pub const MAX_CHANNEL: u16 = 255;

/// The ASCII decimal digits of `n`, without leading zeros.
pub open spec fn decimal(n: nat) -> Seq<u8>
    decreases n,
{
    if n < 10 {
        seq![(n + DIGIT_ZERO) as u8]
    } else {
        decimal(n / 10).push((n % 10 + DIGIT_ZERO) as u8)
    }
}

/// The header of a plain-text PPM image: the magic letter and the format
/// number, the width and the height, and the largest channel value, each on
/// its own line.
pub open spec fn header_spec(width: nat, height: nat) -> Seq<u8> {
    seq![MAGIC_LETTER] + decimal(PLAIN_FORMAT as nat) + seq![NEWLINE] + decimal(width) + seq![SPACE]
        + decimal(height) + seq![NEWLINE] + decimal(MAX_CHANNEL as nat) + seq![NEWLINE]
}

/// One pixel of a plain-text PPM image: its three channels, separated by
/// spaces, on a line of their own.
pub open spec fn pixel_spec(r: nat, g: nat, b: nat) -> Seq<u8> {
    decimal(r) + seq![SPACE] + decimal(g) + seq![SPACE] + decimal(b) + seq![NEWLINE]
}

fn push_decimal(out: &mut Vec<u8>, n: u16)
    ensures
        final(out)@ == old(out)@ + decimal(n as nat),
    decreases n,
{
    let ghost start = out@;
    if n >= 10 {
        push_decimal(out, n / 10);
    }
    out.push((n % 10) as u8 + DIGIT_ZERO);
    proof {
        if n >= 10 {
            assert(out@ =~= start + decimal(n as nat));
        } else {
            assert(out@ =~= start + decimal(n as nat));
        }
    }
}

/// The header of a plain-text PPM image of the given size.
pub fn header(width: u16, height: u16) -> (r: Vec<u8>)
    ensures
        r@ == header_spec(width as nat, height as nat),
{
    let mut out: Vec<u8> = Vec::new();
    out.push(MAGIC_LETTER);
    push_decimal(&mut out, PLAIN_FORMAT);
    out.push(NEWLINE);
    push_decimal(&mut out, width);
    out.push(SPACE);
    push_decimal(&mut out, height);
    out.push(NEWLINE);
    push_decimal(&mut out, MAX_CHANNEL);
    out.push(NEWLINE);
    assert(out@ =~= header_spec(width as nat, height as nat));
    out
}

/// The line of a plain-text PPM image that holds one pixel.
pub fn pixel_line(r: u8, g: u8, b: u8) -> (line: Vec<u8>)
    ensures
        line@ == pixel_spec(r as nat, g as nat, b as nat),
{
    let mut out: Vec<u8> = Vec::new();
    push_decimal(&mut out, r as u16);
    out.push(SPACE);
    push_decimal(&mut out, g as u16);
    out.push(SPACE);
    push_decimal(&mut out, b as u16);
    out.push(NEWLINE);
    assert(out@ =~= pixel_spec(r as nat, g as nat, b as nat));
    out
}

/// The column and the row of the pixel that stands at position `index` of
/// the image's pixel stream. Rows run from the top of the image (the largest
/// row number) down to row 0, each from column 0 rightwards.
pub fn pixel_position(index: u32, width: u16, height: u16) -> (r: (u16, u16))
    requires
        0 < width,
        index < width as int * height as int,
    ensures
        r.0 == index as int % width as int,
        r.1 == height as int - 1 - index as int / width as int,
        (r.0 as int) < (width as int),
        (r.1 as int) < (height as int),
{
    let w: u32 = width as u32;
    proof {
        assert((index as int) / (w as int) < (height as int)) by (nonlinear_arith)
            requires
                0 < w,
                index < w as int * height as int,
                0 <= index,
        ;
    }
    let row_from_top: u32 = index / w;
    ((index % w) as u16, (height as u32 - 1 - row_from_top) as u16)
}

} // verus!
