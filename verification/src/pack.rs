//! Packing of the emitted bit sequence into bytes, eight consecutive bits
//! per byte with the first bit of each group in the most significant
//! position.

use vstd::prelude::*;

verus! {

/// The numeric value of one bit.
pub open spec fn bit_val(b: bool) -> int {
    if b {
        1
    } else {
        0
    }
}

/// The byte packed from bits `8k .. 8k+8` of `bits`: the first bit of the
/// group lands in the most significant position, the eighth in the least
/// significant.
pub open spec fn spec_byte(bits: Seq<bool>, k: int) -> u8 {
    (128 * bit_val(bits[8 * k]) + 64 * bit_val(bits[8 * k + 1]) + 32 * bit_val(bits[8 * k + 2])
        + 16 * bit_val(bits[8 * k + 3]) + 8 * bit_val(bits[8 * k + 4]) + 4 * bit_val(
        bits[8 * k + 5],
    ) + 2 * bit_val(bits[8 * k + 6]) + bit_val(bits[8 * k + 7])) as u8
}

/// The byte sequence packed from `bits`, one byte per group of eight bits,
/// groups in emission order.
pub open spec fn spec_bytes(bits: Seq<bool>) -> Seq<u8> {
    Seq::new(bits.len() / 8, |k: int| spec_byte(bits, k))
}

/// Packing order: bit `8k + j` of the bit sequence is found at position
/// `7 - j` of byte `k`, counting positions from the least significant bit.
/// In particular, the first bit of a group is the most significant bit of
/// its byte and the eighth bit is its least significant bit.
pub proof fn lemma_packing_order(bits: Seq<bool>, k: int, j: int)
    requires
        0 <= k,
        0 <= j < 8,
        8 * k + 7 < bits.len(),
    ensures
        (spec_byte(bits, k) >> ((7 - j) as u8)) & 1 == bit_val(bits[8 * k + j]),
{
    let b0: u8 = if bits[8 * k] { 1 } else { 0 };
    let b1: u8 = if bits[8 * k + 1] { 1 } else { 0 };
    let b2: u8 = if bits[8 * k + 2] { 1 } else { 0 };
    let b3: u8 = if bits[8 * k + 3] { 1 } else { 0 };
    let b4: u8 = if bits[8 * k + 4] { 1 } else { 0 };
    let b5: u8 = if bits[8 * k + 5] { 1 } else { 0 };
    let b6: u8 = if bits[8 * k + 6] { 1 } else { 0 };
    let b7: u8 = if bits[8 * k + 7] { 1 } else { 0 };
    let x: u8 = spec_byte(bits, k);
    assert(x == 128 * b0 + 64 * b1 + 32 * b2 + 16 * b3 + 8 * b4 + 4 * b5 + 2 * b6 + b7);
    let s: u8 = (7 - j) as u8;
    assert((x >> s) & 1 == (if s == 7 {
        b0
    } else if s == 6 {
        b1
    } else if s == 5 {
        b2
    } else if s == 4 {
        b3
    } else if s == 3 {
        b4
    } else if s == 2 {
        b5
    } else if s == 1 {
        b6
    } else {
        b7
    })) by (bit_vector)
        requires
            x == 128 * b0 + 64 * b1 + 32 * b2 + 16 * b3 + 8 * b4 + 4 * b5 + 2 * b6 + b7,
            b0 <= 1,
            b1 <= 1,
            b2 <= 1,
            b3 <= 1,
            b4 <= 1,
            b5 <= 1,
            b6 <= 1,
            b7 <= 1,
            s <= 7,
    ;
}

/// Pack a bit sequence whose length is a multiple of 8 into bytes, eight
/// consecutive bits per byte, first bit of each group in the most
/// significant position.
pub fn pack_bits(bits: &Vec<bool>) -> (bytes: Vec<u8>)
    requires
        bits@.len() % 8 == 0,
    ensures
        bytes@ == spec_bytes(bits@),
{
    let n = bits.len();
    let m = n / 8;
    let mut bytes: Vec<u8> = Vec::new();
    let mut k: usize = 0;
    while k < m
        invariant
            n == bits@.len(),
            n % 8 == 0,
            m == n / 8,
            0 <= k <= m,
            bytes@.len() == k,
            forall|t: int| 0 <= t < k ==> bytes@[t] == spec_byte(bits@, t),
        decreases m - k,
    {
        let base = 8 * k;
        let b: u8 = (if bits[base] {
            128
        } else {
            0
        }) + (if bits[base + 1] {
            64
        } else {
            0
        }) + (if bits[base + 2] {
            32
        } else {
            0
        }) + (if bits[base + 3] {
            16
        } else {
            0
        }) + (if bits[base + 4] {
            8
        } else {
            0
        }) + (if bits[base + 5] {
            4
        } else {
            0
        }) + (if bits[base + 6] {
            2
        } else {
            0
        }) + (if bits[base + 7] {
            1
        } else {
            0
        });
        bytes.push(b);
        k += 1;
    }
    proof {
        assert(bytes@ =~= spec_bytes(bits@));
    }
    bytes
}

} // verus!
