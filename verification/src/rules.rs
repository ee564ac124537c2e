//! The validity rules shared by the high-level API and the shim layer, and the
//! IEEE-754 binary32 reading of a distance bit pattern.

use vstd::prelude::*;
use vstd::arithmetic::power2::{pow2, lemma2_to64, lemma_pow2_adds, lemma_pow2_pos, lemma_pow2_strictly_increases};

verus! {

/// Sign bit of a binary32 bit pattern.
pub open spec fn f32_sign(bits: u32) -> nat {
    (bits / 0x8000_0000u32) as nat
}

/// Biased exponent field (bits 23..31) of a binary32 bit pattern.
pub open spec fn f32_exponent(bits: u32) -> nat {
    ((bits % 0x8000_0000u32) / 0x80_0000u32) as nat
}

/// Fraction field (bits 0..23) of a binary32 bit pattern.
pub open spec fn f32_fraction(bits: u32) -> nat {
    (bits % 0x80_0000u32) as nat
}

/// The pattern encodes a finite number (neither an infinity nor a NaN).
pub open spec fn f32_is_finite(bits: u32) -> bool {
    f32_exponent(bits) != 255
}

/// The absolute value of a finite pattern, multiplied by `2^149`, which makes it
/// an integer for every finite pattern (subnormals included).
pub open spec fn f32_scaled_magnitude(bits: u32) -> nat {
    if f32_exponent(bits) == 0 {
        f32_fraction(bits)
    } else {
        (f32_fraction(bits) + 0x80_0000) * pow2((f32_exponent(bits) - 1) as nat)
    }
}

/// The pattern is a number `d` with `0.0 <= d <= 25.0` (so `-0.0` counts, NaN does not).
pub open spec fn f32_within_zero_to_25(bits: u32) -> bool {
    &&& f32_is_finite(bits)
    &&& (f32_sign(bits) == 0 || f32_scaled_magnitude(bits) == 0)
    &&& f32_scaled_magnitude(bits) <= 25 * pow2(149)
}

/// Why an encoder configuration is refused, as the message the library reports,
/// or `None` when it is accepted. The checks come in this order.
pub open spec fn config_fault(
    quality: Option<u8>,
    distance: Option<u32>,
    progressive: bool,
    optimize_coding: bool,
    icc_profile: Option<Seq<u8>>,
) -> Option<Seq<char>> {
    if quality is Some && distance is Some {
        Some("quality and distance are mutually exclusive"@)
    } else if progressive && !optimize_coding {
        Some("progressive encoding requires optimize_coding=true"@)
    } else if quality matches Some(q) && !(1 <= q <= 100) {
        Some("quality must be in the range 1..=100"@)
    } else if distance matches Some(d) && !f32_within_zero_to_25(d) {
        Some("distance must be finite and in the range 0.0..=25.0"@)
    } else if icc_profile matches Some(p) && p.len() == 0 {
        Some("icc_profile must not be empty"@)
    } else {
        None
    }
}

/// Number of bytes that a row of `width` pixels of `bytes_per_pixel` bytes takes.
pub open spec fn row_bytes(width: u32, bytes_per_pixel: nat) -> int {
    width * bytes_per_pixel
}

/// Number of bytes from the first byte of the first row to the last byte of
/// the last row: every row but the last takes a full stride.
pub open spec fn span_bytes(width: u32, height: u32, bytes_per_pixel: nat, stride: usize) -> int {
    stride * (height - 1) + row_bytes(width, bytes_per_pixel)
}

/// Why an image view is refused, as the message the library reports, or
/// `None` when it is accepted. The checks come in this order.
pub open spec fn image_fault(
    width: u32,
    height: u32,
    bytes_per_pixel: nat,
    stride: usize,
    data_len: nat,
) -> Option<Seq<char>> {
    if width == 0 || height == 0 {
        Some("width and height must be non-zero"@)
    } else if row_bytes(width, bytes_per_pixel) > usize::MAX {
        Some("image row size overflow"@)
    } else if stride < row_bytes(width, bytes_per_pixel) {
        Some("stride must be at least width * bytes_per_pixel"@)
    } else if span_bytes(width, height, bytes_per_pixel, stride) > usize::MAX {
        Some("image buffer size overflow"@)
    } else if data_len < span_bytes(width, height, bytes_per_pixel, stride) {
        Some("input buffer is too small for the image view"@)
    } else {
        None
    }
}

/// Decides `0.0 <= d <= 25.0` for the binary32 number `d` whose bits are given.
pub fn distance_in_range(bits: u32) -> (ok: bool)
    ensures
        ok == f32_within_zero_to_25(bits),
{
    let negative = bits >= 0x8000_0000u32;
    let magnitude = bits % 0x8000_0000u32;
    proof {
        lemma_magnitude_order(bits);
    }
    (!negative || magnitude == 0) && magnitude <= 0x41C8_0000u32
}

/// A binary32 number lies in `0.0..=25.0` exactly when its bit pattern is at
/// most that of `25.0` (`0x41C8_0000`) or is that of `-0.0` (`0x8000_0000`).
pub proof fn lemma_distance_range_by_bits(bits: u32)
    ensures
        f32_within_zero_to_25(bits) <==> (bits <= 0x41C8_0000u32 || bits == 0x8000_0000u32),
{
    lemma_magnitude_order(bits);
}

/// On binary32 patterns of non-negative sign, the order of the bits is the
/// order of the numbers; here against `25.0`, whose pattern is `0x41C8_0000`.
proof fn lemma_magnitude_order(bits: u32)
    ensures
        (bits % 0x8000_0000u32 <= 0x41C8_0000u32) == (f32_is_finite(bits)
            && f32_scaled_magnitude(bits) <= 25 * pow2(149)),
        (bits % 0x8000_0000u32 == 0) == (f32_scaled_magnitude(bits) == 0),
        f32_sign(bits) == 0 <==> bits < 0x8000_0000u32,
{
    let mag: int = (bits % 0x8000_0000u32) as int;
    let e: nat = f32_exponent(bits);
    let m: nat = f32_fraction(bits);
    assert(mag == e * 0x80_0000 + m && e < 256 && m < 0x80_0000);
    lemma2_to64();
    lemma_pow2_adds(19, 130);
    lemma_pow2_adds(24, 129);
    lemma_pow2_adds(23, 131);
    lemma_pow2_adds(4, 149);
    lemma_pow2_adds(5, 149);
    lemma_pow2_pos(130);
    let p130 = pow2(130);
    assert(25 * pow2(149) == 13107200 * p130) by {
        assert(pow2(19) == 524288);
    }
    if e == 0 {
        lemma_pow2_pos(149);
        assert(f32_scaled_magnitude(bits) == m);
    } else {
        let s: nat = m + 0x80_0000;
        let k: nat = (e - 1) as nat;
        lemma_pow2_pos(k);
        assert(f32_scaled_magnitude(bits) == s * pow2(k));
        assert(s * pow2(k) > 0) by (nonlinear_arith)
            requires s > 0, pow2(k) > 0;
        if e <= 130 {
            if k < 129 {
                lemma_pow2_strictly_increases(k, 129);
            }
            assert(s * pow2(k) <= 0x100_0000 * pow2(129)) by (nonlinear_arith)
                requires s <= 0x100_0000, pow2(k) <= pow2(129);
            assert(0x100_0000 * pow2(129) == 16 * pow2(149));
            lemma_pow2_pos(149);
        } else if e == 131 {
            assert(s * p130 <= 13107200 * p130 <==> s <= 13107200) by (nonlinear_arith)
                requires p130 > 0;
        } else {
            if k > 131 {
                lemma_pow2_strictly_increases(131, k);
            }
            assert(s * pow2(k) >= 0x80_0000 * pow2(131)) by (nonlinear_arith)
                requires s >= 0x80_0000, pow2(k) >= pow2(131);
            assert(0x80_0000 * pow2(131) == 32 * pow2(149));
            lemma_pow2_pos(149);
        }
    }
}

} // verus!
