//! First-order delta-sigma quantizer: turns fixed-point samples into the
//! pre-packing bit sequence, one bit per sample.

use vstd::prelude::*;
use crate::FULL_SCALE;

verus! {

/// Largest number of samples one call accepts; keeps the error accumulator
/// far from the limits of its machine integer type.
pub const MAX_SAMPLES: u64 = 0x1_0000_0000;

/// Largest sample magnitude one call accepts; together with `MAX_SAMPLES`
/// this keeps the error accumulator far from the limits of its machine
/// integer type. Samples beyond `FULL_SCALE` are accepted: they only make
/// the error accumulator drift.
pub const MAX_SAMPLE_MAGNITUDE: i64 = 0x4000_0000_0000_0000;

/// Running quantization error after the first `i` samples have been encoded:
/// each step adds the sample, then feeds back minus or plus `FULL_SCALE`
/// depending on the bit that was emitted.
pub open spec fn spec_qe(samples: Seq<i64>, i: int) -> int
    decreases i,
{
    if i <= 0 {
        0
    } else if spec_qe(samples, i - 1) + samples[i - 1] > 0 {
        spec_qe(samples, i - 1) + samples[i - 1] - FULL_SCALE
    } else {
        spec_qe(samples, i - 1) + samples[i - 1] + FULL_SCALE
    }
}

/// The bit emitted for sample `i`: 1 exactly when the accumulated error is
/// strictly positive after adding the sample; an error of exactly zero
/// emits 0.
pub open spec fn spec_bit(samples: Seq<i64>, i: int) -> bool {
    spec_qe(samples, i) + samples[i] > 0
}

/// The whole pre-packing bit sequence for `samples`.
pub open spec fn spec_bits(samples: Seq<i64>) -> Seq<bool> {
    Seq::new(samples.len(), |i: int| spec_bit(samples, i))
}

/// Sum of the first `i` samples.
pub open spec fn sum_samples(samples: Seq<i64>, i: int) -> int
    decreases i,
{
    if i <= 0 {
        0
    } else {
        sum_samples(samples, i - 1) + samples[i - 1]
    }
}

/// Number of 1-bits emitted for the first `i` samples.
pub open spec fn ones(samples: Seq<i64>, i: int) -> int
    decreases i,
{
    if i <= 0 {
        0
    } else {
        ones(samples, i - 1) + (if spec_bit(samples, i - 1) {
            1int
        } else {
            0int
        })
    }
}

/// The running error grows by at most one sample magnitude plus one
/// feedback step per sample, so it stays within a linear envelope.
proof fn lemma_qe_step_bound(samples: Seq<i64>, i: int)
    requires
        0 <= i,
        forall|j: int|
            0 <= j < i ==> -MAX_SAMPLE_MAGNITUDE <= #[trigger] samples[j] <= MAX_SAMPLE_MAGNITUDE,
    ensures
        -((MAX_SAMPLE_MAGNITUDE + FULL_SCALE) * i) <= spec_qe(samples, i)
            <= (MAX_SAMPLE_MAGNITUDE + FULL_SCALE) * i,
    decreases i,
{
    if i > 0 {
        lemma_qe_step_bound(samples, i - 1);
        assert((MAX_SAMPLE_MAGNITUDE + FULL_SCALE) * i == (MAX_SAMPLE_MAGNITUDE + FULL_SCALE) * (
        i - 1) + (MAX_SAMPLE_MAGNITUDE + FULL_SCALE)) by (nonlinear_arith);
    }
}

/// Error-feedback identity: after `i` steps the running error equals the
/// sample sum minus `FULL_SCALE` times (ones minus zeros) among the bits
/// emitted so far.
pub proof fn lemma_error_feedback(samples: Seq<i64>, i: int)
    requires
        0 <= i <= samples.len(),
    ensures
        spec_qe(samples, i) == sum_samples(samples, i) - FULL_SCALE * (2 * ones(samples, i) - i),
    decreases i,
{
    if i > 0 {
        lemma_error_feedback(samples, i - 1);
    }
}

/// With every sample within full scale, the running error stays in the
/// interval (-2·FULL_SCALE, FULL_SCALE].
pub proof fn lemma_qe_in_range(samples: Seq<i64>, i: int)
    requires
        0 <= i <= samples.len(),
        forall|j: int| 0 <= j < i ==> -FULL_SCALE <= #[trigger] samples[j] <= FULL_SCALE,
    ensures
        -2 * FULL_SCALE < spec_qe(samples, i) <= FULL_SCALE,
    decreases i,
{
    if i > 0 {
        lemma_qe_in_range(samples, i - 1);
    }
}

/// Density law: when every sample lies within full scale, the count of
/// 1-bits tracks the mean sample value. `FULL_SCALE` times (ones minus
/// zeros) differs from the sample sum by less than two full-scale steps,
/// however many samples there are, so the deviation of the bit density from
/// the mean amplitude shrinks as the sample count grows.
pub proof fn lemma_bit_density(samples: Seq<i64>, i: int)
    requires
        0 <= i <= samples.len(),
        forall|j: int| 0 <= j < i ==> -FULL_SCALE <= #[trigger] samples[j] <= FULL_SCALE,
    ensures
        -2 * FULL_SCALE < sum_samples(samples, i) - FULL_SCALE * (2 * ones(samples, i) - i),
        sum_samples(samples, i) - FULL_SCALE * (2 * ones(samples, i) - i) <= FULL_SCALE,
{
    lemma_error_feedback(samples, i);
    lemma_qe_in_range(samples, i);
}

/// Tie-break exactness: when the accumulated error is exactly zero after a
/// sample has been added, the emitted bit is 0, not 1.
pub proof fn lemma_tie_break_zero(samples: Seq<i64>, i: int)
    requires
        0 <= i < samples.len(),
        spec_qe(samples, i) + samples[i] == 0,
    ensures
        !spec_bit(samples, i),
{
}

/// Run the first-order delta-sigma quantizer over `samples`, emitting one
/// bit per sample in index order.
pub fn quantize(samples: &Vec<i64>) -> (bits: Vec<bool>)
    requires
        samples@.len() <= MAX_SAMPLES,
        forall|j: int|
            0 <= j < samples@.len() ==> -MAX_SAMPLE_MAGNITUDE <= #[trigger] samples@[j]
                <= MAX_SAMPLE_MAGNITUDE,
    ensures
        bits@ == spec_bits(samples@),
{
    let n = samples.len();
    let mut bits: Vec<bool> = Vec::new();
    let mut qe: i128 = 0;
    let mut i: usize = 0;
    while i < n
        invariant
            n == samples@.len(),
            n <= MAX_SAMPLES,
            forall|j: int|
                0 <= j < n ==> -MAX_SAMPLE_MAGNITUDE <= #[trigger] samples@[j]
                    <= MAX_SAMPLE_MAGNITUDE,
            0 <= i <= n,
            bits@.len() == i,
            forall|j: int| 0 <= j < i ==> bits@[j] == spec_bit(samples@, j),
            qe == spec_qe(samples@, i as int),
        decreases n - i,
    {
        proof {
            lemma_qe_step_bound(samples@, i as int);
            assert((MAX_SAMPLE_MAGNITUDE + FULL_SCALE) * (i as int)
                <= 0x4000_0001_0000_0000_0000_0000) by (nonlinear_arith)
                requires
                    0 <= i as int <= 0x1_0000_0000,
                    MAX_SAMPLE_MAGNITUDE + FULL_SCALE == 0x4000_0001_0000_0000,
            ;
        }
        let v: i128 = samples[i] as i128;
        let acc: i128 = qe + v;
        if acc > 0 {
            bits.push(true);
            qe = acc - (FULL_SCALE as i128);
        } else {
            bits.push(false);
            qe = acc + (FULL_SCALE as i128);
        }
        i += 1;
    }
    proof {
        assert(bits@ =~= spec_bits(samples@));
    }
    bits
}

} // verus!
