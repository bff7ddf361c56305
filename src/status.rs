//! The status byte: flag bits, the generic flag updater, and the precise
//! add-with-carry path of `ADC` and `SBC`.

use vstd::prelude::*;

verus! {

/// Negative.
pub const N_FLAG: u8 = 0b1000_0000;

/// Overflow.
pub const V_FLAG: u8 = 0b0100_0000;

/// Bit 5: unused, always set in a pushed status byte.
pub const F_FLAG: u8 = 0b0010_0000;

/// Break: set in a status byte pushed by `BRK` or `PHP`.
pub const B_FLAG: u8 = 0b0001_0000;

/// Decimal mode.
pub const D_FLAG: u8 = 0b0000_1000;

/// Interrupt disable.
pub const I_FLAG: u8 = 0b0000_0100;

/// Zero.
pub const Z_FLAG: u8 = 0b0000_0010;

/// Carry.
pub const C_FLAG: u8 = 0b0000_0001;

/// Sign bit of a byte.
pub const SIGN_BIT: u8 = 0b1000_0000;

/// `status` with the bits of `flag` set when `on`, cleared otherwise.
pub open spec fn merge_flag(status: u8, flag: u8, on: bool) -> u8 {
    if on {
        status | flag
    } else {
        status & !flag
    }
}

/// Signed overflow as the generic updater sees it: `m` and `n` agree in
/// sign and `result` does not.
pub open spec fn generic_overflow(m: u8, n: u8, result: u8) -> bool {
    (m ^ n) & SIGN_BIT == 0 && (m ^ result) & SIGN_BIT != 0
}

/// The generic status update: each flag named in `flags` is recomputed
/// from `m`, `n` and `result`, in the order C, Z, N, V; the other bits of
/// `status` are kept.
pub open spec fn generic_status(status: u8, m: u8, n: u8, result: u8, flags: u8) -> u8 {
    let s1 = if flags & C_FLAG != 0 {
        merge_flag(status, C_FLAG, m + n > 0xFF)
    } else {
        status
    };
    let s2 = if flags & Z_FLAG != 0 {
        merge_flag(s1, Z_FLAG, result == 0)
    } else {
        s1
    };
    let s3 = if flags & N_FLAG != 0 {
        merge_flag(s2, N_FLAG, result & SIGN_BIT != 0)
    } else {
        s2
    };
    if flags & V_FLAG != 0 {
        merge_flag(s3, V_FLAG, generic_overflow(m, n, result))
    } else {
        s3
    }
}

/// Sets or clears `flag` in `status` by `on`.
pub fn merge_status(status: u8, flag: u8, on: bool) -> (r: u8)
    ensures
        r == merge_flag(status, flag, on),
{
    if on {
        status | flag
    } else {
        status & !flag
    }
}

/// Generic status updater: recomputes each flag of `flags` from the
/// operands `m`, `n` and the `result` of an operation.
pub fn generic_update(status: u8, m: u8, n: u8, result: u8, flags: u8) -> (r: u8)
    ensures
        r == generic_status(status, m, n, result, flags),
{
    let mut new_status = status;
    if flags & C_FLAG != 0 {
        new_status = merge_status(new_status, C_FLAG, m as u16 + n as u16 > 0xFF);
    }
    if flags & Z_FLAG != 0 {
        new_status = merge_status(new_status, Z_FLAG, result == 0);
    }
    if flags & N_FLAG != 0 {
        new_status = merge_status(new_status, N_FLAG, result & SIGN_BIT != 0);
    }
    // The operands agree in sign and the result does not.
    if flags & V_FLAG != 0 {
        let operands_match = (m ^ n) & SIGN_BIT == 0;
        let result_operands_match = (m ^ result) & SIGN_BIT == 0;
        new_status = merge_status(new_status, V_FLAG, operands_match && !result_operands_match);
    }
    new_status
}

/// `lhs + operand + carry_in` as a mathematical sum.
pub open spec fn add_sum(lhs: u8, operand: u8, carry_in: bool) -> int {
    lhs + operand + if carry_in {
        1int
    } else {
        0int
    }
}

/// Signed overflow of the precise add path.
pub open spec fn add_overflow(lhs: u8, operand: u8, result: u8) -> bool {
    (!(lhs ^ operand) & (lhs ^ result) & 0x80) != 0
}

/// The outcome of an 8-bit add with carry.
pub struct AddResult {
    pub result: u8,
    pub carry: bool,
    pub overflow: bool,
}

/// Precise add path of `ADC` and `SBC`: two chained 8-bit additions, the
/// carry out of either one giving the final carry.
pub fn add_with_carry(lhs: u8, operand: u8, carry_in: bool) -> (r: AddResult)
    ensures
        r.result == add_sum(lhs, operand, carry_in) % 256,
        r.carry == (add_sum(lhs, operand, carry_in) > 0xFF),
        r.overflow == add_overflow(lhs, operand, r.result),
{
    let first: u16 = lhs as u16 + operand as u16;
    let carry_first = first > 0xFF;
    let partial = (first % 256) as u8;
    let second: u16 = partial as u16 + if carry_in {
        1u16
    } else {
        0u16
    };
    let carry_second = second > 0xFF;
    let result = (second % 256) as u8;
    AddResult {
        result,
        carry: carry_first || carry_second,
        overflow: (!(lhs ^ operand) & (lhs ^ result) & 0x80) != 0,
    }
}

/// Status after the precise add path: N and Z from `result`, C and V as
/// computed.
pub open spec fn add_status(status: u8, result: u8, carry: bool, overflow: bool) -> u8 {
    merge_flag(
        merge_flag(
            merge_flag(merge_flag(status, C_FLAG, carry), Z_FLAG, result == 0),
            N_FLAG,
            result & SIGN_BIT != 0,
        ),
        V_FLAG,
        overflow,
    )
}

/// Status after an `ADC`/`SBC` on `r`.
pub fn precise_update(status: u8, r: &AddResult) -> (s: u8)
    ensures
        s == add_status(status, r.result, r.carry, r.overflow),
{
    let s1 = merge_status(status, C_FLAG, r.carry);
    let s2 = merge_status(s1, Z_FLAG, r.result == 0);
    let s3 = merge_status(s2, N_FLAG, r.result & SIGN_BIT != 0);
    merge_status(s3, V_FLAG, r.overflow)
}

} // verus!
