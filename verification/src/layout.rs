//! Channel expansion and little-endian byte layout of sample buffers.

use vstd::prelude::*;

verus! {

/// Byte `k` (0 is the lowest) of `v` in little-endian order.
pub open spec fn le_byte(v: nat, k: int) -> u8 {
    if k == 0 {
        (v % 256) as u8
    } else if k == 1 {
        ((v / 0x100) % 256) as u8
    } else if k == 2 {
        ((v / 0x1_0000) % 256) as u8
    } else {
        ((v / 0x100_0000) % 256) as u8
    }
}

/// Each gray sample becomes an opaque pixel with red, green and blue equal to it.
pub open spec fn luma_to_rgba(samples: Seq<u8>) -> Seq<u8> {
    Seq::new(
        4 * samples.len(),
        |i: int|
            if i % 4 == 3 {
                255u8
            } else {
                samples[i / 4]
            },
    )
}

/// Each (gray, alpha) pair becomes a pixel with red, green and blue equal to
/// the gray sample and the pair's alpha. A trailing odd sample is dropped.
pub open spec fn luma_alpha_to_rgba(samples: Seq<u8>) -> Seq<u8> {
    Seq::new(
        4 * (samples.len() / 2),
        |i: int|
            if i % 4 == 3 {
                samples[2 * (i / 4) + 1]
            } else {
                samples[2 * (i / 4)]
            },
    )
}

/// Each run of three samples becomes a run of four, the fourth being `fill`.
/// Trailing samples that make no full run are dropped.
pub open spec fn pad_alpha<T>(samples: Seq<T>, fill: T) -> Seq<T> {
    Seq::new(
        4 * (samples.len() / 3),
        |i: int|
            if i % 4 == 3 {
                fill
            } else {
                samples[3 * (i / 4) + i % 4]
            },
    )
}

/// Number of whole pixels that an image shows: width × height of them, or
/// as many as the buffer holds where it is too short for that.
pub open spec fn visible_pixels(len: nat, width: u32, height: u32, channels: nat) -> nat {
    if width * height <= len / channels {
        (width * height) as nat
    } else {
        len / channels
    }
}

/// The samples of the pixels that an image shows. Samples beyond
/// width × height pixels belong to no pixel.
pub open spec fn visible<T>(samples: Seq<T>, width: u32, height: u32, channels: nat) -> Seq<T> {
    samples.take((channels * visible_pixels(samples.len(), width, height, channels)) as int)
}

/// The samples as bytes, two per sample, low byte first.
pub open spec fn le_bytes_u16(samples: Seq<u16>) -> Seq<u8> {
    Seq::new(2 * samples.len(), |i: int| le_byte(samples[i / 2] as nat, i % 2))
}

/// The samples as bytes, four per sample, lowest byte first.
pub open spec fn le_bytes_u32(samples: Seq<u32>) -> Seq<u8> {
    Seq::new(4 * samples.len(), |i: int| le_byte(samples[i / 4] as nat, i % 4))
}

/// The value whose four little-endian bytes start at `4 * index`.
pub open spec fn le_u32_at(bytes: Seq<u8>, index: int) -> u32 {
    (bytes[4 * index] + bytes[4 * index + 1] * 0x100 + bytes[4 * index + 2] * 0x1_0000 + bytes[4
        * index + 3] * 0x100_0000) as u32
}

/// A buffer that holds exactly width × height pixels is shown whole.
pub proof fn visible_of_exact_buffer<T>(samples: Seq<T>, width: u32, height: u32, channels: nat)
    requires
        channels > 0,
        samples.len() == width * height * channels,
    ensures
        visible(samples, width, height, channels) == samples,
{
    let area = width * height;
    assert(area * channels / channels as int == area) by (nonlinear_arith)
        requires
            channels > 0,
    ;
    assert(channels * area == area * channels) by (nonlinear_arith);
    assert(visible(samples, width, height, channels) =~= samples);
}

/// Reading back the four bytes that a 32-bit sample was laid out as gives
/// the sample.
pub proof fn le_u32_round_trip(samples: Seq<u32>, index: int)
    requires
        0 <= index < samples.len(),
    ensures
        le_bytes_u32(samples).len() == 4 * samples.len(),
        le_u32_at(le_bytes_u32(samples), index) == samples[index],
{
}

/// Cuts a buffer down to the samples of the pixels that the image shows.
pub fn keep_visible<T>(samples: &mut Vec<T>, width: u32, height: u32, channels: usize)
    requires
        channels > 0,
    ensures
        final(samples)@ == visible(old(samples)@, width, height, channels as nat),
{
    let len: usize = samples.len();
    let whole: usize = len / channels;
    assert(width * height <= 0xFFFF_FFFF * 0xFFFF_FFFF) by (nonlinear_arith)
        requires
            width <= 0xFFFF_FFFF,
            height <= 0xFFFF_FFFF,
    ;
    let area: u64 = width as u64 * height as u64;
    let pixels: usize = if area <= whole as u64 {
        area as usize
    } else {
        whole
    };
    assert(channels * pixels <= len) by (nonlinear_arith)
        requires
            pixels <= whole,
            whole == len / channels,
            channels > 0,
    ;
    samples.truncate(channels * pixels);
}

/// Expands gray samples to opaque RGBA pixels.
pub fn expand_luma(samples: &Vec<u8>) -> (out: Vec<u8>)
    ensures
        out@ == luma_to_rgba(samples@),
{
    let mut out: Vec<u8> = Vec::new();
    let mut i: usize = 0;
    while i < samples.len()
        invariant
            i <= samples.len(),
            out@.len() == 4 * i,
            forall|j: int| 0 <= j < out@.len() ==> out@[j] == luma_to_rgba(samples@)[j],
        decreases samples.len() - i,
    {
        let v: u8 = samples[i];
        out.push(v);
        out.push(v);
        out.push(v);
        out.push(255);
        i += 1;
    }
    assert(out@ =~= luma_to_rgba(samples@));
    out
}

/// Expands (gray, alpha) pairs to RGBA pixels.
pub fn expand_luma_alpha(samples: &Vec<u8>) -> (out: Vec<u8>)
    ensures
        out@ == luma_alpha_to_rgba(samples@),
{
    let mut out: Vec<u8> = Vec::new();
    let pixels: usize = samples.len() / 2;
    let mut p: usize = 0;
    while p < pixels
        invariant
            pixels == samples.len() / 2,
            p <= pixels,
            out@.len() == 4 * p,
            forall|j: int| 0 <= j < out@.len() ==> out@[j] == luma_alpha_to_rgba(samples@)[j],
        decreases pixels - p,
    {
        let v: u8 = samples[2 * p];
        let a: u8 = samples[2 * p + 1];
        out.push(v);
        out.push(v);
        out.push(v);
        out.push(a);
        p += 1;
    }
    assert(out@ =~= luma_alpha_to_rgba(samples@));
    out
}

/// Pads each run of three samples with `fill` as the fourth.
pub fn pad_with_alpha<T: Copy>(samples: &Vec<T>, fill: T) -> (out: Vec<T>)
    ensures
        out@ == pad_alpha(samples@, fill),
{
    let mut out: Vec<T> = Vec::new();
    let pixels: usize = samples.len() / 3;
    let mut p: usize = 0;
    while p < pixels
        invariant
            pixels == samples.len() / 3,
            p <= pixels,
            out@.len() == 4 * p,
            forall|j: int| 0 <= j < out@.len() ==> out@[j] == pad_alpha(samples@, fill)[j],
        decreases pixels - p,
    {
        out.push(samples[3 * p]);
        out.push(samples[3 * p + 1]);
        out.push(samples[3 * p + 2]);
        out.push(fill);
        p += 1;
    }
    assert(out@ =~= pad_alpha(samples@, fill));
    out
}

/// Lays 16-bit samples out as bytes, low byte first.
pub fn bytes_of_u16(samples: &Vec<u16>) -> (out: Vec<u8>)
    ensures
        out@ == le_bytes_u16(samples@),
{
    let mut out: Vec<u8> = Vec::new();
    let mut i: usize = 0;
    while i < samples.len()
        invariant
            i <= samples.len(),
            out@.len() == 2 * i,
            forall|j: int| 0 <= j < out@.len() ==> out@[j] == le_bytes_u16(samples@)[j],
        decreases samples.len() - i,
    {
        let v: u16 = samples[i];
        out.push((v % 256) as u8);
        out.push((v / 256) as u8);
        i += 1;
    }
    assert(out@ =~= le_bytes_u16(samples@));
    out
}

/// Lays 32-bit samples out as bytes, lowest byte first.
pub fn bytes_of_u32(samples: &Vec<u32>) -> (out: Vec<u8>)
    ensures
        out@ == le_bytes_u32(samples@),
{
    let mut out: Vec<u8> = Vec::new();
    let mut i: usize = 0;
    while i < samples.len()
        invariant
            i <= samples.len(),
            out@.len() == 4 * i,
            forall|j: int| 0 <= j < out@.len() ==> out@[j] == le_bytes_u32(samples@)[j],
        decreases samples.len() - i,
    {
        let v: u32 = samples[i];
        out.push((v % 256) as u8);
        out.push(((v / 0x100) % 256) as u8);
        out.push(((v / 0x1_0000) % 256) as u8);
        out.push((v / 0x100_0000) as u8);
        i += 1;
    }
    assert(out@ =~= le_bytes_u32(samples@));
    out
}

/// Reads the 32-bit value whose little-endian bytes start at `4 * index`.
pub fn read_le_u32(bytes: &Vec<u8>, index: usize) -> (v: u32)
    requires
        4 * index + 4 <= bytes.len(),
    ensures
        v == le_u32_at(bytes@, index as int),
{
    let at: usize = 4 * index;
    let b0: u32 = bytes[at] as u32;
    let b1: u32 = bytes[at + 1] as u32;
    let b2: u32 = bytes[at + 2] as u32;
    let b3: u32 = bytes[at + 3] as u32;
    b0 + b1 * 0x100 + b2 * 0x1_0000 + b3 * 0x100_0000
}

} // verus!
