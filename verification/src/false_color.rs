//! False-colour rendering of 32-bit float samples.
//!
//! A sample is read by its IEEE 754 bit pattern: a sign bit, eight exponent
//! bits and twenty-three fraction bits. Its magnitude is clamped to 100,
//! divided by 100 and multiplied by 255 as single-precision arithmetic does
//! it, each step rounded to the nearest float with ties to even, and the
//! integer part of the product is the level. A positive sample lights the
//! red channel, a negative one the green channel.

use crate::layout::le_u32_at;
use crate::layout::read_le_u32;
use vstd::arithmetic::power2::lemma2_to64;
use vstd::arithmetic::power2::lemma_pow2_strictly_increases;
use vstd::arithmetic::power2::lemma_pow2_unfold;
use vstd::arithmetic::power2::pow2;
use vstd::prelude::*;

verus! {

/// The biased exponent field of a bit pattern.
pub open spec fn exponent(bits: u32) -> nat {
    ((bits / 0x80_0000) % 256) as nat
}

/// The fraction field of a bit pattern.
pub open spec fn fraction(bits: u32) -> nat {
    (bits % 0x80_0000) as nat
}

/// The sign bit of a bit pattern is set.
pub open spec fn is_negative(bits: u32) -> bool {
    bits >= 0x8000_0000
}

/// The bit pattern stands for a NaN.
pub open spec fn is_nan(bits: u32) -> bool {
    exponent(bits) == 255 && fraction(bits) != 0
}

/// The bit pattern without its sign bit. Among patterns that are no NaN, a
/// larger one stands for a float of larger magnitude.
pub open spec fn magnitude_bits(bits: u32) -> nat {
    (bits % 0x8000_0000) as nat
}

/// The bit pattern of the float 100.0.
pub const HUNDRED: u32 = 0x42C8_0000;

/// The integer nearest to `a / b`, the even one of two that are equally near.
pub open spec fn nearest(a: nat, b: nat) -> nat {
    let q = a / b;
    let r = a % b;
    if 2 * r < b {
        q
    } else if 2 * r > b {
        q + 1
    } else if q % 2 == 0 {
        q
    } else {
        q + 1
    }
}

/// The integer part of `(v / 100) * 255` in single precision, for a float of
/// magnitude `v = m * 2^(e - 150)` with `1/4 <= v < 100`, where `m` is the
/// 24-bit significand `2^23 + fraction` and `e` the biased exponent.
///
/// The quotient `v / 100` rounds to the float `q * 2^(e - 157 + a)`: `q` is
/// `m * 2^(7 - a) / 100` rounded, and `a` is 1 where `m / 100` reaches `2^17`,
/// so that `q` has 24 bits. The product `q * 255` has 31 or 32 bits and
/// rounds to the float `s * 2^(e - 150 + a + b)`, where `b` is 1 for 32 bits.
pub open spec fn scaled_level(e: nat, m: nat) -> nat {
    let a: nat = if m < 0xC8_0000 {
        0
    } else {
        1
    };
    let q = if a == 0 {
        nearest(m * 32, 25)
    } else {
        nearest(m * 16, 25)
    };
    let p = q * 255;
    let b: nat = if p < 0x8000_0000 {
        0
    } else {
        1
    };
    let s = if b == 0 {
        nearest(p, 128)
    } else {
        nearest(p, 256)
    };
    s / pow2((150 - e - a - b) as nat)
}

/// The level of the float `v` with this bit pattern: the integer part of
/// `(min(|v|, 100) / 100) * 255`, computed in single precision and capped at
/// 255.
///
/// A NaN gives 0. A magnitude of 100 or more, an infinity too, is clamped
/// to 100 and gives exactly 255. A magnitude below 1/4 gives a product
/// below 1, so 0.
pub open spec fn intensity(bits: u32) -> nat {
    let e = exponent(bits);
    if is_nan(bits) {
        0
    } else if magnitude_bits(bits) >= HUNDRED {
        255
    } else if e < 125 {
        0
    } else {
        let level = scaled_level(e, 0x80_0000 + fraction(bits));
        if level >= 255 {
            255
        } else {
            level
        }
    }
}

/// The RGBA pixel that stands for one float sample.
pub open spec fn false_color_pixel(bits: u32) -> Seq<u8> {
    let level = intensity(bits) as u8;
    if is_negative(bits) {
        seq![0u8, level, 0u8, 255u8]
    } else {
        seq![level, 0u8, 0u8, 255u8]
    }
}

/// One RGBA pixel for each four bytes, read as a little-endian float.
/// Trailing bytes that make no full sample are dropped.
pub open spec fn false_color(data: Seq<u8>) -> Seq<u8> {
    Seq::new(4 * (data.len() / 4), |i: int| false_color_pixel(le_u32_at(data, i / 4))[i % 4])
}

/// Every false-colour pixel is opaque, has no blue, and lights at most one
/// of red and green: red for a sample without the sign bit, green for one
/// with it.
pub proof fn false_color_pixel_shape(bits: u32)
    ensures
        intensity(bits) <= 255,
        false_color_pixel(bits).len() == 4,
        false_color_pixel(bits)[0] == (if is_negative(bits) {
            0
        } else {
            intensity(bits)
        }),
        false_color_pixel(bits)[1] == (if is_negative(bits) {
            intensity(bits)
        } else {
            0
        }),
        false_color_pixel(bits)[2] == 0,
        false_color_pixel(bits)[3] == 255,
{
}

/// The level is full exactly for the samples of magnitude 100 or more, the
/// infinities among them.
pub proof fn intensity_is_full_from_a_hundred(bits: u32)
    ensures
        intensity(bits) == 255 <==> !is_nan(bits) && magnitude_bits(bits) >= HUNDRED,
{
    let e = exponent(bits);
    let m = 0x80_0000 + fraction(bits);
    assert(magnitude_bits(bits) == e * 0x80_0000 + fraction(bits));
    if !is_nan(bits) && magnitude_bits(bits) < HUNDRED && e >= 125 {
        let a: nat = if m < 0xC8_0000 {
            0
        } else {
            1
        };
        let q = if a == 0 {
            nearest(m * 32, 25)
        } else {
            nearest(m * 16, 25)
        };
        let p = q * 255;
        let b: nat = if p < 0x8000_0000 {
            0
        } else {
            1
        };
        let s = if b == 0 {
            nearest(p, 128)
        } else {
            nearest(p, 256)
        };
        let d = pow2((150 - e - a - b) as nat);
        lemma2_to64();
        if e == 133 {
            assert(a == 0 && b == 1);
            assert(d == 0x1_0000);
            assert(s <= 16711679);
        } else if a == 1 && b == 1 {
            if 150 - e - a - b > 16 {
                lemma_pow2_strictly_increases(16, (150 - e - a - b) as nat);
            }
            assert(s <= 10695476);
            assert(s as int / d as int <= 254) by (nonlinear_arith)
                requires
                    0 <= s <= 10695476,
                    d >= 0x1_0000,
            ;
        } else {
            if 150 - e - a - b > 17 {
                lemma_pow2_strictly_increases(17, (150 - e - a - b) as nat);
            }
            assert(s <= 0x100_0000);
            assert(s as int / d as int <= 254) by (nonlinear_arith)
                requires
                    0 <= s <= 0x100_0000,
                    d >= 0x2_0000,
            ;
        }
    }
}

/// Flipping the sign of a sample swaps red and green and changes nothing
/// else: the level depends on the magnitude alone.
pub proof fn intensity_ignores_sign(bits: u32)
    requires
        !is_negative(bits),
    ensures
        intensity((bits + 0x8000_0000) as u32) == intensity(bits),
{
}

/// Computes the integer nearest to `a / b`, ties to even.
pub fn round_nearest(a: u64, b: u64) -> (n: u64)
    requires
        b > 0,
    ensures
        n == nearest(a as nat, b as nat),
        a / b <= n <= a / b + 1,
{
    let q: u64 = a / b;
    let r: u64 = a % b;
    let rest: u64 = b - r;
    proof {
        if r >= rest {
            assert(q * b <= a) by (nonlinear_arith)
                requires
                    q == a / b,
                    b > 0,
            ;
            assert(2 * q <= q * b) by (nonlinear_arith)
                requires
                    b >= 2,
            ;
        }
    }
    if r < rest {
        q
    } else if r > rest {
        q + 1
    } else if q % 2 == 0 {
        q
    } else {
        q + 1
    }
}

/// Computes a power of two.
fn power_of_two(k: u32) -> (p: u64)
    requires
        k <= 32,
    ensures
        p == pow2(k as nat),
        1 <= p <= 0x1_0000_0000,
{
    let mut p: u64 = 1;
    let mut i: u32 = 0;
    proof {
        lemma2_to64();
    }
    while i < k
        invariant
            i <= k <= 32,
            p == pow2(i as nat),
            1 <= p <= 0x1_0000_0000,
            pow2(32) == 0x1_0000_0000,
        decreases k - i,
    {
        proof {
            lemma_pow2_unfold((i + 1) as nat);
            if i + 1 < 32 {
                lemma_pow2_strictly_increases((i + 1) as nat, 32);
            }
        }
        p = p * 2;
        i += 1;
    }
    p
}

/// Computes the integer part of the scaled magnitude of a float between
/// 1/4 and 128 from its biased exponent and 24-bit significand.
fn scale_magnitude(e: u32, m: u64) -> (level: u64)
    requires
        125 <= e <= 133,
        0x80_0000 <= m < 0x100_0000,
    ensures
        level == scaled_level(e as nat, m as nat),
{
    let a: u32 = if m < 0xC8_0000 {
        0
    } else {
        1
    };
    let q: u64 = if a == 0 {
        round_nearest(m * 32, 25)
    } else {
        round_nearest(m * 16, 25)
    };
    let p: u64 = q * 255;
    let b: u32 = if p < 0x8000_0000 {
        0
    } else {
        1
    };
    let s: u64 = if b == 0 {
        round_nearest(p, 128)
    } else {
        round_nearest(p, 256)
    };
    let divisor: u64 = power_of_two(150 - e - a - b);
    s / divisor
}

/// Computes the level of a float sample from its bit pattern.
pub fn sample_intensity(bits: u32) -> (level: u8)
    ensures
        level == intensity(bits),
{
    let e: u32 = (bits / 0x80_0000) % 256;
    let f: u32 = bits % 0x80_0000;
    if e == 255 && f != 0 {
        0
    } else if bits % 0x8000_0000 >= HUNDRED {
        255
    } else if e < 125 {
        0
    } else {
        assert(bits % 0x8000_0000 == e * 0x80_0000 + f);
        let level: u64 = scale_magnitude(e, (0x80_0000 + f) as u64);
        if level >= 255 {
            255
        } else {
            level as u8
        }
    }
}

/// Renders each little-endian float sample of `data` as one RGBA pixel.
pub fn render_false_color(data: &Vec<u8>) -> (out: Vec<u8>)
    ensures
        out@ == false_color(data@),
{
    let mut out: Vec<u8> = Vec::new();
    let texels: usize = data.len() / 4;
    let mut p: usize = 0;
    while p < texels
        invariant
            texels == data.len() / 4,
            p <= texels,
            out@.len() == 4 * p,
            forall|j: int| 0 <= j < out@.len() ==> out@[j] == false_color(data@)[j],
        decreases texels - p,
    {
        let bits: u32 = read_le_u32(data, p);
        let level: u8 = sample_intensity(bits);
        if bits >= 0x8000_0000 {
            out.push(0);
            out.push(level);
        } else {
            out.push(level);
            out.push(0);
        }
        out.push(0);
        out.push(255);
        p += 1;
    }
    assert(out@ =~= false_color(data@));
    out
}

} // verus!
