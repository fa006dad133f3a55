//! The plain-text PPM encoding of an RGB image.
use vstd::prelude::*;
use vstd::string::StringExecFns;
use crate::text::{decimal, decimal_text};

verus! {

/// The line for one pixel: its red, green and blue values in decimal.
pub open spec fn pixel_line(r: u8, g: u8, b: u8) -> Seq<char> {
    decimal_text(r as nat) + " "@ + decimal_text(g as nat) + " "@ + decimal_text(b as nat) + "\n"@
}

/// The lines of the first `n` pixels of `data`, three bytes each.
pub open spec fn pixels_text(data: Seq<u8>, n: nat) -> Seq<char>
    decreases n,
{
    if n == 0 {
        Seq::empty()
    } else {
        let k = 3 * (n - 1);
        pixels_text(data, (n - 1) as nat) + pixel_line(data[k], data[k + 1], data[k + 2])
    }
}

/// The header: the format tag, the size, and the largest channel value.
pub open spec fn ppm_header(width: nat, height: nat) -> Seq<char> {
    "P3\n"@ + decimal_text(width) + " "@ + decimal_text(height) + "\n"@ + "255\n"@
}

/// The PPM text of a `width` by `height` image whose pixels are stored row by row.
pub open spec fn ppm_text(width: nat, height: nat, data: Seq<u8>) -> Seq<char> {
    ppm_header(width, height) + pixels_text(data, width * height)
}

/// The PPM text of a `width` by `height` image, whose pixels `data` holds row by row,
/// three bytes (red, green, blue) each. Bytes past the last pixel are ignored.
pub fn encode_ppm(width: u16, height: u16, data: &[u8]) -> (r: String)
    requires
        3 * width * height <= data@.len(),
    ensures
        r@ == ppm_text(width as nat, height as nat, data@),
{
    let mut s = String::from_str("P3\n");
    let w = decimal(width as u64);
    s.append(w.as_str());
    s.append(" ");
    let h = decimal(height as u64);
    s.append(h.as_str());
    s.append("\n");
    s.append("255\n");
    let len = data.len();
    assert(width * height <= 3 * (width * height) == 3 * width * height) by (nonlinear_arith);
    let n = width as usize * height as usize;
    for k in 0..n
        invariant
            n == width * height,
            len == data@.len(),
            3 * n <= data@.len(),
            s@ == ppm_header(width as nat, height as nat) + pixels_text(data@, k as nat),
    {
        let index = 3 * k;
        let red = decimal(data[index] as u64);
        let green = decimal(data[index + 1] as u64);
        let blue = decimal(data[index + 2] as u64);
        s.append(red.as_str());
        s.append(" ");
        s.append(green.as_str());
        s.append(" ");
        s.append(blue.as_str());
        s.append("\n");
        assert(pixels_text(data@, (k + 1) as nat) == pixels_text(data@, k as nat) + pixel_line(
            data@[3 * k],
            data@[3 * k + 1],
            data@[3 * k + 2],
        ));
    }
    s
}

} // verus!
