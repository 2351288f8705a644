use vstd::prelude::*;
use vstd::arithmetic::power2::{pow2, lemma2_to64, lemma_pow2_strictly_increases, lemma_pow2_unfold};
use vstd::arithmetic::div_mod::{lemma_basic_div, lemma_div_is_ordered, lemma_div_is_ordered_by_denominator};

verus! {

// A captured sample arrives as the bit pattern of an IEEE-754 single-precision
// value. The encoder clamps it to [-1.0, 1.0], scales it by 32767 with a
// round-to-nearest-even multiplication, and truncates toward zero to a 16-bit
// signed integer. The functions below state that pipeline exactly over the
// bit pattern, so that the quantization is a verified integer computation.

/// Sign field of a single-precision bit pattern (0 or 1).
pub open spec fn f32_sign(bits: u32) -> int {
    bits as int / 0x80000000
}

/// Biased exponent field of a single-precision bit pattern (0..=255).
pub open spec fn f32_exp(bits: u32) -> int {
    (bits as int / 0x800000) % 256
}

/// Fraction field of a single-precision bit pattern (0..0x800000).
pub open spec fn f32_frac(bits: u32) -> int {
    bits as int % 0x800000
}

/// True on the bit patterns that denote NaN.
pub open spec fn f32_is_nan(bits: u32) -> bool {
    f32_exp(bits) == 255 && f32_frac(bits) != 0
}

/// `s / d` rounded to the nearest integer, ties to even, for even `d > 0`.
pub open spec fn round_half_even(s: int, d: int) -> int {
    let q = s / d;
    let r = s % d;
    if r > d / 2 || (r == d / 2 && q % 2 == 1) {
        q + 1
    } else {
        q
    }
}

/// Magnitude quantized from a normal value below full scale
/// (`1 <= e <= 126`, fraction `m`): the significand is widened to
/// `(m + 2^23) * 32767`, rounded back to 24 significant bits exactly as the
/// scaling multiplication rounds, and the result truncated toward zero.
pub open spec fn quantize_mag(e: int, m: int) -> int {
    let s = (m + 0x800000) * 32767;
    // the widened significand spans 38 or 39 bits; rounding keeps the top 24
    let drop = if s < 0x4000000000 { 14int } else { 15int };
    let q = round_half_even(s, pow2(drop as nat) as int);
    let shift = 150 - e - drop;
    q / pow2(shift as nat) as int
}

/// The 16-bit value the encoder stores for a sample with the given bit
/// pattern: clamp to [-1.0, 1.0], scale by 32767, truncate toward zero.
/// NaN is clamped to NaN and truncates to zero; zero and subnormal inputs
/// scale to magnitudes far below one and truncate to zero as well.
pub open spec fn quantize_spec(bits: u32) -> int {
    let mag = if f32_is_nan(bits) {
        0
    } else if f32_exp(bits) >= 127 {
        32767
    } else if f32_exp(bits) == 0 {
        0
    } else {
        quantize_mag(f32_exp(bits), f32_frac(bits))
    };
    if f32_sign(bits) == 1 {
        -mag
    } else {
        mag
    }
}

/// A whole buffer of sample bit patterns, quantized in order.
pub open spec fn quantized(s: Seq<u32>) -> Seq<i16> {
    s.map_values(|b: u32| quantize_spec(b) as i16)
}

/// The quantized magnitude of a below-full-scale normal value never exceeds
/// full scale, so the result always fits in an `i16`.
pub proof fn lemma_quantize_mag_bounds(e: int, m: int)
    requires
        1 <= e <= 126,
        0 <= m < 0x800000,
    ensures
        0 <= quantize_mag(e, m) <= 32767,
{
    lemma2_to64();
    let s = (m + 0x800000) * 32767;
    assert(0x800000 * 32767 <= s <= 0xffffff * 32767) by (nonlinear_arith)
        requires 0 <= m < 0x800000, s == (m + 0x800000) * 32767;
    let drop = if s < 0x4000000000 { 14int } else { 15int };
    let d = pow2(drop as nat) as int;
    let q0 = s / d;
    let q = round_half_even(s, d);
    assert(q == q0 || q == q0 + 1);
    let shift = 150 - e - drop;
    assert(9 <= shift <= 135);
    if drop == 14 {
        assert(d == 0x4000);
        lemma_div_is_ordered(s, 0x3fffffffffint, 0x4000int);
        assert(q0 <= 0x3fffffffffint / 0x4000int);
        assert(q <= 0xffffff + 1);
        assert(shift >= 10);
    } else {
        assert(d == 0x8000);
        lemma_div_is_ordered(s, 0xffffffint * 32767, 0x8000int);
        assert(q0 <= (0xffffffint * 32767) / 0x8000int);
        assert(q <= 0xfffe00);
    }
    // q fits in 25 bits; dividing by at least 2^9 keeps it within full scale
    assert(q <= 0x1000000);
    if shift >= 25 {
        assert(pow2(shift as nat) >= pow2(25nat)) by {
            if shift > 25 {
                lemma_pow2_strictly_increases(25, shift as nat);
            }
        }
        assert(q < pow2(25));
        lemma_basic_div(q, pow2(shift as nat) as int);
        assert(quantize_mag(e, m) == 0);
    } else {
        assert(pow2(shift as nat) >= pow2(9nat)) by {
            if shift > 9 {
                lemma_pow2_strictly_increases(9, shift as nat);
            }
        }
        lemma_div_is_ordered_by_denominator(q, 512, pow2(shift as nat) as int);
        assert(q / pow2(shift as nat) as int <= q / 512);
        if drop == 14 {
            assert(pow2(shift as nat) >= pow2(10nat)) by {
                if shift > 10 {
                    lemma_pow2_strictly_increases(10, shift as nat);
                }
            }
            lemma_div_is_ordered_by_denominator(q, 1024, pow2(shift as nat) as int);
            lemma_div_is_ordered(q, 0x1000000int, 1024int);
            assert(q / pow2(shift as nat) as int <= 0x1000000int / 1024int);
        } else {
            lemma_div_is_ordered(q, 0xfffe00int, 512int);
            assert(q / pow2(shift as nat) as int <= 0xfffe00int / 512int);
        }
        lemma_div_pos(q, pow2(shift as nat) as int);
    }
}

proof fn lemma_div_pos(x: int, d: int)
    requires
        x >= 0,
        d > 0,
    ensures
        x / d >= 0,
{
    lemma_div_is_ordered(0, x, d);
}

/// 2^n for small n, for the truncation step of the quantizer.
fn pow2_small(n: u64) -> (r: u64)
    requires
        n <= 24,
    ensures
        r == pow2(n as nat),
{
    let mut r: u64 = 1;
    let mut i: u64 = 0;
    proof {
        lemma2_to64();
    }
    while i < n
        invariant
            i <= n <= 24,
            r == pow2(i as nat),
        decreases n - i,
    {
        proof {
            lemma2_to64();
            lemma_pow2_unfold((i + 1) as nat);
            if i < 24 {
                lemma_pow2_strictly_increases(i as nat, 24);
            }
        }
        r = r * 2;
        i = i + 1;
    }
    r
}

/// Quantize one captured sample: the bit pattern of a single-precision
/// value becomes the 16-bit integer the container stores, by clamping to
/// [-1.0, 1.0], scaling by 32767, and truncating toward zero.
pub fn quantize_sample(bits: u32) -> (r: i16)
    ensures
        r as int == quantize_spec(bits),
{
    let sign: u32 = bits / 0x80000000;
    let e: u32 = (bits / 0x800000) % 256;
    let m: u32 = bits % 0x800000;
    if e == 255 && m != 0 {
        // NaN stays NaN through the clamp and truncates to zero
        return 0;
    }
    if e >= 127 {
        // magnitude at or beyond 1.0 (infinity included): clamped to full scale
        return if sign == 0 {
            32767
        } else {
            -32767
        };
    }
    if e == 0 {
        // zero or subnormal: the scaled magnitude is far below one
        return 0;
    }
    let s: u64 = ((m + 0x800000) as u64) * 32767;
    let (d, drop): (u64, u64) = if s < 0x4000000000 {
        (0x4000u64, 14u64)
    } else {
        (0x8000u64, 15u64)
    };
    proof {
        lemma2_to64();
    }
    let q0: u64 = s / d;
    let rem: u64 = s % d;
    let half: u64 = d / 2;
    let q: u64 = if rem > half || (rem == half && q0 % 2 == 1) {
        q0 + 1
    } else {
        q0
    };
    let shift: u64 = 150 - (e as u64) - drop;
    proof {
        lemma_quantize_mag_bounds(e as int, m as int);
        assert(q == round_half_even(s as int, pow2(drop as nat) as int));
        if shift >= 25 {
            assert(q0 <= s / 0x4000) by {
                lemma_div_is_ordered_by_denominator(s as int, 0x4000, d as int);
            }
            lemma_div_is_ordered(s as int, 0xffffffint * 32767, 0x4000int);
            assert(q <= 0x1000000);
            assert(pow2(shift as nat) >= pow2(25nat)) by {
                if shift > 25 {
                    lemma_pow2_strictly_increases(25, shift as nat);
                }
            }
            lemma_basic_div(q as int, pow2(shift as nat) as int);
        }
    }
    let mag: u64 = if shift >= 25 {
        0
    } else {
        q / pow2_small(shift)
    };
    proof {
        assert(mag == quantize_mag(e as int, m as int));
    }
    let mag16: i16 = mag as i16;
    if sign == 0 {
        mag16
    } else {
        -mag16
    }
}

/// Quantize a whole buffer of captured sample bit patterns, in order.
pub fn quantize_all(samples: &Vec<u32>) -> (r: Vec<i16>)
    ensures
        r@ == quantized(samples@),
{
    let mut r: Vec<i16> = Vec::new();
    let mut i: usize = 0;
    while i < samples.len()
        invariant
            i <= samples@.len(),
            r@ == quantized(samples@.take(i as int)),
        decreases samples@.len() - i,
    {
        let v: i16 = quantize_sample(samples[i]);
        r.push(v);
        proof {
            assert(samples@.take(i + 1int) =~= samples@.take(i as int).push(samples@[i as int]));
            assert(quantized(samples@.take(i + 1int)) =~= quantized(samples@.take(i as int)).push(quantize_spec(samples@[i as int]) as i16));
        }
        i = i + 1;
    }
    proof {
        assert(samples@.take(samples@.len() as int) =~= samples@);
    }
    r
}

/// Law: quantization is deterministic — the stored 16-bit value is a
/// function of the sample's bit pattern alone, so encoding the same sample
/// twice produces byte-identical output.
pub proof fn lemma_quantize_deterministic(a: u32, b: u32)
    requires
        a == b,
    ensures
        quantize_spec(a) == quantize_spec(b),
{
}

/// Law: the reference points of the quantization — 1.0 maps to 32767,
/// -1.0 maps to -32767 (truncation after scaling, not -32768), and both
/// zeroes map to 0.
pub proof fn lemma_quantize_reference_points()
    ensures
        quantize_spec(0x3f800000) == 32767,
        quantize_spec(0xbf800000) == -32767,
        quantize_spec(0x00000000) == 0,
        quantize_spec(0x80000000) == 0,
{
}

/// Law: out-of-range values are clamped before quantization — every
/// non-NaN bit pattern whose magnitude is at least 1.0 quantizes exactly
/// as full scale of the same sign does (2.0 and 1.0 coincide).
pub proof fn lemma_quantize_clamps(bits: u32)
    requires
        !f32_is_nan(bits),
        f32_exp(bits) >= 127,
    ensures
        quantize_spec(bits) == (if f32_sign(bits) == 1 {
            quantize_spec(0xbf800000)
        } else {
            quantize_spec(0x3f800000)
        }),
{
}

} // verus!
