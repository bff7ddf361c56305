//! Single instructions as pure functions from one register snapshot to the
//! next.

use vstd::prelude::*;
use crate::base::{add_cycles, charged, wrap16};
use crate::status::{
    add_overflow, add_status, add_sum, add_with_carry, generic_status, generic_update,
    precise_update, C_FLAG, N_FLAG, Z_FLAG,
};

verus! {

/// An operation as the generic status updater sees it: the two operands,
/// the result, and the mask of flags to recompute.
pub type Operation = (u8, u8, u8, u8);

/// A register snapshot that carries its own cycle count; the functions of
/// this module map one snapshot to the next.
#[derive(Copy, Clone)]
pub struct State {
    pub a: u8,
    pub pc: usize,
    pub x: u8,
    pub y: u8,
    pub status: u8,
    pub cycles: u32,
}

/// The status byte after `op`: each flag of its mask recomputed.
pub fn calc_status(status: u8, op: Operation) -> (r: u8)
    ensures
        r == generic_status(status, op.0, op.1, op.2, op.3),
{
    let (m, n, result, flags) = op;
    generic_update(status, m, n, result, flags)
}

/// `ADC #operand` on a snapshot: A + operand + C by the precise path,
/// flags N, Z, C, V; two bytes and two cycles.
pub fn adc(state: State, operand: u8) -> (r: State)
    requires
        state.pc < 0x10000,
    ensures
        ({
            let sum = add_sum(state.a, operand, state.status & C_FLAG != 0);
            let result = (sum % 256) as u8;
            r == State {
                a: result,
                pc: wrap16(state.pc + 2) as usize,
                status: add_status(
                    state.status,
                    result,
                    sum > 0xFF,
                    add_overflow(state.a, operand, result),
                ),
                cycles: add_cycles(state.cycles, 2),
                ..state
            }
        }),
{
    let carry = state.status & C_FLAG != 0;
    let sum = add_with_carry(state.a, operand, carry);
    State {
        a: sum.result,
        pc: (state.pc + 2) % 0x10000,
        status: precise_update(state.status, &sum),
        cycles: charged(state.cycles, 2),
        ..state
    }
}

/// `AND #operand` on a snapshot: A & operand, flags N, Z; two bytes and two
/// cycles.
pub fn and(state: State, operand: u8) -> (r: State)
    requires
        state.pc < 0x10000,
    ensures
        r == (State {
            a: state.a & operand,
            pc: wrap16(state.pc + 2) as usize,
            status: generic_status(
                state.status,
                state.a,
                operand,
                state.a & operand,
                N_FLAG | Z_FLAG,
            ),
            cycles: add_cycles(state.cycles, 2),
            ..state
        }),
{
    let result = state.a & operand;
    State {
        a: result,
        pc: (state.pc + 2) % 0x10000,
        status: calc_status(state.status, (state.a, operand, result, N_FLAG | Z_FLAG)),
        cycles: charged(state.cycles, 2),
        ..state
    }
}

/// `NOP` on a snapshot: one byte and one cycle, nothing else.
pub fn nop(state: State, _operand: u8) -> (r: State)
    requires
        state.pc < 0x10000,
    ensures
        r == (State {
            pc: wrap16(state.pc + 1) as usize,
            cycles: add_cycles(state.cycles, 1),
            ..state
        }),
{
    State { pc: (state.pc + 1) % 0x10000, cycles: charged(state.cycles, 1), ..state }
}

} // verus!
