use vstd::prelude::*;

verus! {

/// ASCII codes of the characters that the image text is made of.
pub const ZERO: u8 = 48;
pub const SPACE: u8 = 32;
pub const NEWLINE: u8 = 10;
pub const LETTER_P: u8 = 80;

/// The largest channel value of the image, written in its header.
pub const MAX_CHANNEL: u64 = 255;

/// The decimal digits of `n`, as ASCII, without leading zeros.
pub open spec fn decimal(n: nat) -> Seq<u8>
    decreases n,
{
    if n < 10 {
        seq![(ZERO + n) as u8]
    } else {
        decimal(n / 10).push((ZERO + n % 10) as u8)
    }
}

/// The header of a plain-text colour image of the given size: the magic
/// `P3`, the width and the height, and the largest channel value, one to a line.
pub open spec fn header_text(width: nat, height: nat) -> Seq<u8> {
    seq![LETTER_P, (ZERO + 3) as u8, NEWLINE] + decimal(width) + seq![SPACE] + decimal(height) + seq![NEWLINE]
        + decimal(MAX_CHANNEL as nat) + seq![NEWLINE]
}

/// The line of one pixel: its three channels in decimal, separated by spaces.
pub open spec fn pixel_text(r: nat, g: nat, b: nat) -> Seq<u8> {
    decimal(r) + seq![SPACE] + decimal(g) + seq![SPACE] + decimal(b) + seq![NEWLINE]
}

/// Appends the decimal digits of `n` to `out`.
fn push_decimal(out: &mut Vec<u8>, n: u64)
    ensures
        final(out)@ == old(out)@ + decimal(n as nat),
    decreases n,
{
    if n >= 10 {
        push_decimal(out, n / 10);
    }
    out.push(ZERO + (n % 10) as u8);
    proof {
        assert(final(out)@ =~= old(out)@ + decimal(n as nat));
    }
}

/// The header that starts an image of `width` by `height` pixels.
pub fn header(width: usize, height: usize) -> (r: Vec<u8>)
    ensures
        r@ == header_text(width as nat, height as nat),
{
    let mut out: Vec<u8> = Vec::new();
    out.push(LETTER_P);
    out.push(ZERO + 3);
    out.push(NEWLINE);
    push_decimal(&mut out, width as u64);
    out.push(SPACE);
    push_decimal(&mut out, height as u64);
    out.push(NEWLINE);
    push_decimal(&mut out, MAX_CHANNEL);
    out.push(NEWLINE);
    proof {
        assert(out@ =~= header_text(width as nat, height as nat));
    }
    out
}

/// The line that a pixel with channels `r`, `g` and `b` takes in the image.
pub fn pixel_line(r: u8, g: u8, b: u8) -> (line: Vec<u8>)
    ensures
        line@ == pixel_text(r as nat, g as nat, b as nat),
{
    let mut out: Vec<u8> = Vec::new();
    push_decimal(&mut out, r as u64);
    out.push(SPACE);
    push_decimal(&mut out, g as u64);
    out.push(SPACE);
    push_decimal(&mut out, b as u64);
    out.push(NEWLINE);
    proof {
        assert(out@ =~= pixel_text(r as nat, g as nat, b as nat));
    }
    out
}

} // verus!
