//! Pulse-density modulation (PDM) encoder.
//!
//! A waveform sampled at `n` points is turned into a bitstream whose local
//! density of 1-bits tracks the waveform's amplitude, and the bits are packed
//! eight per byte, most significant bit first.
//!
//! Amplitudes are fixed-point: a sample value of `FULL_SCALE` stands for the
//! real amplitude 1.0 and `-FULL_SCALE` for -1.0, so the first-order
//! delta-sigma quantizer runs in exact integer arithmetic.

use vstd::prelude::*;

pub mod pack;
pub mod quantize;

verus! {

/// Fixed-point amplitude unit: a sample of `FULL_SCALE` stands for the real
/// amplitude 1.0, and `-FULL_SCALE` for -1.0.
pub const FULL_SCALE: i64 = 0x1_0000_0000;

/// The byte stream that encoding `samples` produces: the delta-sigma bit
/// sequence, packed eight bits per byte, most significant bit first.
pub open spec fn spec_pdm_bytes(samples: Seq<i64>) -> Seq<u8> {
    pack::spec_bytes(quantize::spec_bits(samples))
}

/// What `generate` returns: the packed encoding when the sample count is a
/// multiple of 8, and nothing otherwise.
pub open spec fn generate_spec(samples: Seq<i64>) -> Option<Seq<u8>> {
    if samples.len() % 8 == 0 {
        Some(spec_pdm_bytes(samples))
    } else {
        None
    }
}

/// Encode `samples` as a pulse-density-modulated byte stream.
///
/// Each sample is a fixed-point amplitude (`FULL_SCALE` stands for 1.0).
/// The sample count must be a multiple of 8 so that the bits pack evenly;
/// on any other count the call fails fast and returns nothing rather than a
/// truncated stream. Samples beyond full scale are accepted; they only make
/// the quantizer's error accumulator drift.
pub fn generate(samples: &Vec<i64>) -> (r: Option<Vec<u8>>)
    requires
        samples@.len() <= quantize::MAX_SAMPLES,
        forall|j: int|
            0 <= j < samples@.len() ==> -quantize::MAX_SAMPLE_MAGNITUDE <= #[trigger] samples@[j]
                <= quantize::MAX_SAMPLE_MAGNITUDE,
    ensures
        r is Some <==> samples@.len() % 8 == 0,
        (r matches Some(bytes) ==> bytes@.len() == samples@.len() / 8),
        (r matches Some(bytes) ==> bytes@ == spec_pdm_bytes(samples@)),
        (match r {
            Some(bytes) => Some(bytes@),
            None => None,
        }) == generate_spec(samples@),
{
    if samples.len() % 8 != 0 {
        return None;
    }
    let bits = quantize::quantize(samples);
    Some(pack::pack_bits(&bits))
}

/// Determinism: the encoder's output is a function of the samples alone, so
/// any two results that meet `generate`'s contract on the same samples are
/// byte-identical.
pub proof fn lemma_generate_deterministic(
    samples: Seq<i64>,
    r1: Option<Seq<u8>>,
    r2: Option<Seq<u8>>,
)
    requires
        r1 == generate_spec(samples),
        r2 == generate_spec(samples),
    ensures
        r1 == r2,
{
}

/// Packing order of the encoder's output: modulation bit `8k + j` of the
/// stream for `samples` is found at position `7 - j` of output byte `k`,
/// counting positions from the least significant bit. In particular the
/// first modulation bit is the most significant bit of byte 0, and the
/// eighth is its least significant bit.
pub proof fn lemma_output_bit_position(samples: Seq<i64>, k: int, j: int)
    requires
        0 <= k,
        0 <= j < 8,
        8 * k + 7 < samples.len(),
    ensures
        (spec_pdm_bytes(samples)[k] >> ((7 - j) as u8)) & 1 == pack::bit_val(
            quantize::spec_bit(samples, 8 * k + j),
        ),
{
    pack::lemma_packing_order(quantize::spec_bits(samples), k, j);
}

/// Square wave curve with period `N`: negative full scale on the first half
/// of each period, positive full scale on the second half.
pub fn square_idx<const N: usize>(index: usize) -> (v: i64)
    requires
        N >= 1,
    ensures
        v == (if (index as int) % (N as int) < (N as int) / 2 {
            -FULL_SCALE as int
        } else {
            FULL_SCALE as int
        }),
{
    if index % N < N / 2 {
        -FULL_SCALE
    } else {
        FULL_SCALE
    }
}

} // verus!
