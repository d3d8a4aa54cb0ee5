//! Decoding of captured audio.
//!
//! A capture stream hands over chunks of raw bytes: interleaved frames of
//! 32-bit little-endian samples, one sample for each channel. Only the
//! first channel is kept. A sample is handed on as its 32 bits.

use vstd::prelude::*;

verus! {

/// Bytes in one sample.
pub const SAMPLE_BYTES: usize = 4;

/// The 32 bits that the four bytes of `bytes` from `at` on spell, least
/// significant byte first.
pub open spec fn le_bits(bytes: Seq<u8>, at: int) -> int {
    bytes[at] + 256 * bytes[at + 1] + 65536 * bytes[at + 2] + 16777216 * bytes[at + 3]
}

/// The number of whole samples that a chunk of `chunk_size` bytes holds in
/// a buffer of `len` bytes.
pub open spec fn usable_samples(len: nat, chunk_size: nat) -> nat {
    if chunk_size / 4 <= len / 4 {
        chunk_size / 4
    } else {
        len / 4
    }
}

/// The number of frames that `samples` interleaved samples of `channels`
/// channels begin: one for each `channels` samples, and one for what is
/// left.
pub open spec fn frame_count(samples: nat, channels: nat) -> nat {
    if samples == 0 {
        0
    } else {
        ((samples - 1) / (channels as int) + 1) as nat
    }
}

/// Reads the 32 bits at `at`.
fn read_le(bytes: &[u8], at: usize) -> (r: u32)
    requires
        at + 4 <= bytes@.len(),
    ensures
        r as int == le_bits(bytes@, at as int),
{
    let b0: u32 = bytes[at] as u32;
    let b1: u32 = bytes[at + 1] as u32;
    let b2: u32 = bytes[at + 2] as u32;
    let b3: u32 = bytes[at + 3] as u32;
    b0 + 256 * b1 + 65536 * b2 + 16777216 * b3
}

/// The samples of the first channel in a chunk of `chunk_size` bytes at the
/// start of `bytes`, which holds interleaved frames of `channels` channels.
///
/// Samples that the chunk size announces but the buffer does not hold are
/// left out, and so are bytes that do not make a whole sample.
pub fn first_channel(bytes: &[u8], chunk_size: u32, channels: u32) -> (r: Vec<u32>)
    requires
        channels > 0,
    ensures
        r@.len() == frame_count(
            usable_samples(bytes@.len(), chunk_size as nat),
            channels as nat,
        ),
        forall|k: int|
            0 <= k < r@.len() ==> (#[trigger] r@[k]) as int == le_bits(bytes@, 4 * (k * channels)),
{
    let announced: usize = (chunk_size / 4) as usize;
    let held: usize = bytes.len() / 4;
    let usable: usize = if announced <= held {
        announced
    } else {
        held
    };
    let step: usize = channels as usize;
    let frames: usize = if usable == 0 {
        0
    } else {
        (usable - 1) / step + 1
    };
    let mut samples: Vec<u32> = Vec::new();
    let mut n: usize = 0;
    while samples.len() < frames
        invariant
            step == channels,
            step > 0,
            usable <= bytes.len() / 4,
            frames as nat == frame_count(usable as nat, step as nat),
            samples@.len() <= frames,
            samples@.len() < frames ==> n == samples@.len() * step,
            forall|k: int|
                0 <= k < samples@.len() ==> (#[trigger] samples@[k]) as int == le_bits(
                    bytes@,
                    4 * (k * channels),
                ),
        decreases frames - samples@.len(),
    {
        proof {
            lemma_frame_start(samples@.len(), usable as nat, step as nat);
        }
        samples.push(read_le(bytes, n * 4));
        if samples.len() < frames {
            proof {
                lemma_frame_start(samples@.len(), usable as nat, step as nat);
                assert(samples@.len() * step == (samples@.len() - 1) * step + step)
                    by (nonlinear_arith);
            }
            n = n + step;
        }
    }
    samples
}

/// A frame that the samples begin starts below their number.
proof fn lemma_frame_start(frame: nat, samples: nat, channels: nat)
    requires
        channels > 0,
        frame < frame_count(samples, channels),
    ensures
        frame * channels < samples,
{
    let full = (samples - 1) / (channels as int);
    vstd::arithmetic::div_mod::lemma_fundamental_div_mod(samples - 1, channels as int);
    vstd::arithmetic::div_mod::lemma_mod_bound(samples - 1, channels as int);
    assert(frame * channels <= full * channels) by (nonlinear_arith)
        requires
            frame <= full,
            channels > 0,
    ;
    assert(channels * full == full * channels) by (nonlinear_arith);
}

} // verus!
