//! The condition flags and the bit-level rules that derive them from a
//! comparison.

use vstd::prelude::*;

verus! {

/// The five condition flags. Each one is a pure function of the most recent
/// comparison's two inputs; nothing else in this crate ever sets one.
#[derive(Clone, Copy, PartialEq, Eq, Structural, Debug)]
pub struct CpuFlags {
    pub sign: bool,
    pub zero: bool,
    pub aux_carry: bool,
    pub parity: bool,
    pub carry: bool,
}

/// Number of set bits in a byte.
pub open spec fn popcount(x: u8) -> int {
    (x & 1) + ((x >> 1) & 1) + ((x >> 2) & 1) + ((x >> 3) & 1) + ((x >> 4) & 1) + ((x >> 5) & 1)
        + ((x >> 6) & 1) + ((x >> 7) & 1)
}

/// The discarded difference of a comparison: `a - operand` with 8-bit
/// wrap-around.
pub open spec fn cmp_diff(a: u8, operand: u8) -> u8 {
    vstd::wrapping::u8_specs::wrapping_sub(a, operand)
}

/// `sign` is set iff bit 7 of the difference is set.
pub open spec fn sign_spec(a: u8, operand: u8) -> bool {
    cmp_diff(a, operand) & 0x80 == 0x80
}

/// `zero` is set iff the difference is zero.
pub open spec fn zero_spec(a: u8, operand: u8) -> bool {
    cmp_diff(a, operand) == 0
}

/// `aux_carry` is set iff no borrow leaves the low nibble: the low four bits
/// of `a` are at least the low four bits of the operand.
pub open spec fn aux_carry_spec(a: u8, operand: u8) -> bool {
    (a & 0x0f) >= (operand & 0x0f)
}

/// `parity` is set iff the difference has an even number of set bits.
pub open spec fn parity_spec(a: u8, operand: u8) -> bool {
    popcount(cmp_diff(a, operand)) % 2 == 0
}

/// `carry` is set iff the subtraction borrows: `a` is strictly below the
/// operand as unsigned bytes.
pub open spec fn carry_spec(a: u8, operand: u8) -> bool {
    a < operand
}

/// All five flags of a comparison of `a` against `operand`.
pub open spec fn flags_of_cmp(a: u8, operand: u8) -> CpuFlags {
    CpuFlags {
        sign: sign_spec(a, operand),
        zero: zero_spec(a, operand),
        aux_carry: aux_carry_spec(a, operand),
        parity: parity_spec(a, operand),
        carry: carry_spec(a, operand),
    }
}

fn popcount8(x: u8) -> (r: u8)
    ensures
        r == popcount(x),
{
    proof {
        assert(x & 1 <= 1 && (x >> 1) & 1 <= 1 && (x >> 2) & 1 <= 1 && (x >> 3) & 1 <= 1 && (x
            >> 4) & 1 <= 1 && (x >> 5) & 1 <= 1 && (x >> 6) & 1 <= 1 && (x >> 7) & 1 <= 1)
            by (bit_vector);
    }
    (x & 1) + ((x >> 1) & 1) + ((x >> 2) & 1) + ((x >> 3) & 1) + ((x >> 4) & 1) + ((x >> 5) & 1) + (
    (x >> 6) & 1) + ((x >> 7) & 1)
}

/// Derive the five flags of a comparison of `a` against `operand`.
pub fn derive_flags(a: u8, operand: u8) -> (f: CpuFlags)
    ensures
        f == flags_of_cmp(a, operand),
        f.zero == (a == operand),
        f.carry == (a < operand),
        f.parity == (popcount(cmp_diff(a, operand)) % 2 == 0),
        f.sign == (cmp_diff(a, operand) & 0x80 == 0x80),
        f.aux_carry == ((a & 0x0f) >= (operand & 0x0f)),
{
    let result = a.wrapping_sub(operand);
    let bits = popcount8(result);
    CpuFlags {
        sign: result & 0x80 == 0x80,
        zero: result == 0,
        aux_carry: (a & 0x0f) >= (operand & 0x0f),
        parity: bits % 2 == 0,
        carry: a < operand,
    }
}

/// Comparing the accumulator with itself always gives a zero difference, so
/// the flags are fixed: `zero`, `parity` and `aux_carry` set, `sign` and
/// `carry` clear.
pub proof fn lemma_cmp_self_flags(a: u8)
    ensures
        flags_of_cmp(a, a) == (CpuFlags {
            sign: false,
            zero: true,
            aux_carry: true,
            parity: true,
            carry: false,
        }),
{
    assert(cmp_diff(a, a) == 0);
    assert(popcount(0) == 0) by (bit_vector);
    assert(0u8 & 0x80 == 0) by (bit_vector);
}

} // verus!
