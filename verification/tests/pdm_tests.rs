use pdm::{generate, square_idx, FULL_SCALE};

fn square_samples(period_4: bool, n: usize) -> Vec<i64> {
    let mut samples: Vec<i64> = Vec::new();
    for i in 0..n {
        if period_4 {
            samples.push(square_idx::<4>(i));
        } else {
            samples.push(square_idx::<6>(i));
        }
    }
    samples
}

#[test]
fn square_wave() {
    let samples = square_samples(false, 32);
    let square: [u8; 4] = generate(&samples).unwrap().as_slice().try_into().unwrap();
    assert!(matches!(
        square,
        [0b00011100, 0b01110001, 0b11000111, 0b00011100]
    ));
}

#[test]
fn sine_wave() {
    let mut samples: Vec<i64> = Vec::new();
    for i in 0..32 {
        let v = libm::sin((i as f64) / 32.0 * 2.0 * core::f64::consts::PI);
        samples.push((v * FULL_SCALE as f64).round() as i64);
    }
    let sine: [u8; 4] = generate(&samples).unwrap().as_slice().try_into().unwrap();
    assert!(matches!(
        sine,
        [0b01110111, 0b11111101, 0b10010000, 0b00000010]
    ));
}

#[test]
fn square_wave_short_period() {
    let samples = square_samples(true, 16);
    let bytes = generate(&samples).unwrap();
    assert_eq!(bytes, vec![0b00110011, 0b00110011]);
}

#[test]
fn repeated_calls_are_identical() {
    let samples = square_samples(false, 48);
    let first = generate(&samples).unwrap();
    let second = generate(&samples).unwrap();
    assert_eq!(first, second);
}

#[test]
fn output_length_is_an_eighth() {
    for n in [0usize, 8, 16, 64, 8000] {
        let samples: Vec<i64> = vec![0; n];
        let bytes = generate(&samples).unwrap();
        assert_eq!(bytes.len(), n / 8);
    }
}

#[test]
fn empty_input_gives_empty_output() {
    let samples: Vec<i64> = Vec::new();
    let bytes = generate(&samples).unwrap();
    assert!(bytes.is_empty());
}

#[test]
fn bit_density_tracks_mean() {
    // Half-scale constant curve over 64 samples: full scale times
    // (ones - zeros) must be within two full-scale steps of the sample sum.
    let n: i64 = 64;
    let samples: Vec<i64> = vec![FULL_SCALE / 2; n as usize];
    let bytes = generate(&samples).unwrap();
    let ones: i64 = bytes.iter().map(|b| b.count_ones() as i64).sum();
    let sum: i64 = samples.iter().sum();
    let deviation = sum - FULL_SCALE * (2 * ones - n);
    assert!(-2 * FULL_SCALE < deviation && deviation <= FULL_SCALE);
}

#[test]
fn balanced_square_has_equal_bit_counts() {
    let samples = square_samples(true, 64);
    let bytes = generate(&samples).unwrap();
    let ones: u32 = bytes.iter().map(|b| b.count_ones()).sum();
    assert_eq!(ones, 32);
}

#[test]
fn exact_zero_error_emits_zero_bit() {
    // An all-zero curve drives the accumulated error to exactly zero on the
    // very first sample and on every second one after it; each such tie must
    // emit a 0 bit, giving bytes of alternating bits that start with 0.
    let samples: Vec<i64> = vec![0; 16];
    let bytes = generate(&samples).unwrap();
    assert_eq!(bytes, vec![0b01010101, 0b01010101]);
}

#[test]
fn tie_after_full_scale_step_emits_zero_bit() {
    // The second sample lands the accumulated error on exactly zero again;
    // were the tie resolved towards 1, the second bit would flip.
    let samples: Vec<i64> = vec![FULL_SCALE, 0, 0, 0, 0, 0, 0, 0];
    let bytes = generate(&samples).unwrap();
    assert_eq!(bytes, vec![0b10101010]);
}

#[test]
fn non_multiple_of_eight_is_rejected() {
    for n in [1usize, 7, 9, 12, 31] {
        let samples: Vec<i64> = vec![0; n];
        assert!(generate(&samples).is_none());
    }
}

#[test]
fn first_bit_lands_in_msb_and_eighth_in_lsb() {
    // This curve forces the bit sequence 10000000 00000001: a 1 first, then
    // fourteen 0s, then a final 1. The first bit must appear as the most
    // significant bit of byte 0 and the eighth as its least significant bit.
    let mut samples: Vec<i64> = vec![FULL_SCALE, 0];
    for _ in 2..15 {
        samples.push(-FULL_SCALE);
    }
    samples.push(0);
    let bytes = generate(&samples).unwrap();
    assert_eq!(bytes, vec![0b10000000, 0b00000001]);
}

#[test]
fn square_curve_values() {
    let expected: [i64; 8] = [
        -FULL_SCALE,
        -FULL_SCALE,
        FULL_SCALE,
        FULL_SCALE,
        -FULL_SCALE,
        -FULL_SCALE,
        FULL_SCALE,
        FULL_SCALE,
    ];
    for i in 0..8 {
        assert_eq!(square_idx::<4>(i), expected[i]);
    }
}

#[test]
fn out_of_range_samples_are_accepted() {
    // Samples beyond full scale only make the accumulator drift: a curve
    // stuck at twice full scale saturates the bitstream at all ones.
    let samples: Vec<i64> = vec![2 * FULL_SCALE; 16];
    let bytes = generate(&samples).unwrap();
    assert_eq!(bytes, vec![0b11111111, 0b11111111]);
}
