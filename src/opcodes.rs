//! The instruction set and the decoding of opcode bytes.

use vstd::prelude::*;
use crate::addressing::Mode;
use crate::base::Processor;

verus! {

/// The instructions this core executes; `Jam` stands for every opcode that
/// locks the bus.
#[derive(Copy, Clone, Debug, PartialEq, Eq, Structural)]
pub enum Instruction {
    Adc,
    And,
    Asl,
    Bcc,
    Bcs,
    Beq,
    Bit,
    Bmi,
    Bne,
    Bpl,
    Brk,
    Bvc,
    Bvs,
    Clc,
    Cld,
    Cli,
    Clv,
    Cmp,
    Cpx,
    Cpy,
    Dcp,
    Dec,
    Dex,
    Dey,
    Eor,
    Inc,
    Inx,
    Iny,
    Jam,
    Jmp,
    Jsr,
    Lda,
    Ldx,
    Ldy,
    Lsr,
    Nop,
    Ora,
    Pha,
    Php,
    Pla,
    Plp,
    Rol,
    Ror,
    Rti,
    Rts,
    Sbc,
    Sec,
    Sed,
    Sei,
    Sta,
    Stx,
    Sty,
    Tax,
    Tay,
    Tsx,
    Txa,
    Txs,
    Tya,
}

/// A fault that stops execution.
#[derive(Copy, Clone, Debug, PartialEq, Eq, Structural)]
pub enum Fault {
    /// An opcode that locks the bus was fetched at `pc`.
    Jam { opcode: u8, pc: usize },
    /// An instruction at `pc` left PC where it was.
    Stalled { pc: usize },
}

/// Bits 7..5 of an opcode.
pub open spec fn field_a(value: u8) -> u8 {
    (value & 0b1110_0000) >> 5u8
}

/// Bits 4..2 of an opcode.
pub open spec fn field_b(value: u8) -> u8 {
    (value & 0b0001_1100) >> 2u8
}

/// Bits 1..0 of an opcode.
pub open spec fn field_c(value: u8) -> u8 {
    value & 0b0000_0011
}

/// Addressing mode selected by `b` in the `c == 1` and `c == 3` groups.
pub open spec fn group_mode(b: u8) -> Mode {
    if b == 0 {
        Mode::IndexedX
    } else if b == 1 {
        Mode::ZeroPage
    } else if b == 2 {
        Mode::Immediate
    } else if b == 3 {
        Mode::Absolute
    } else if b == 4 {
        Mode::IndexedY
    } else if b == 5 {
        Mode::ZeroPageX
    } else if b == 6 {
        Mode::AbsoluteY
    } else {
        Mode::AbsoluteX
    }
}

/// Operation selected by `a` in the `c == 1` group.
pub open spec fn alu_instruction(a: u8) -> Instruction {
    if a == 0 {
        Instruction::Ora
    } else if a == 1 {
        Instruction::And
    } else if a == 2 {
        Instruction::Eor
    } else if a == 3 {
        Instruction::Adc
    } else if a == 4 {
        Instruction::Sta
    } else if a == 5 {
        Instruction::Lda
    } else if a == 6 {
        Instruction::Cmp
    } else {
        Instruction::Sbc
    }
}

/// Branch selected by `a` when `c == 0` and `b == 4`.
pub open spec fn branch_instruction(a: u8) -> Instruction {
    if a == 0 {
        Instruction::Bpl
    } else if a == 1 {
        Instruction::Bmi
    } else if a == 2 {
        Instruction::Bvc
    } else if a == 3 {
        Instruction::Bvs
    } else if a == 4 {
        Instruction::Bcc
    } else if a == 5 {
        Instruction::Bcs
    } else if a == 6 {
        Instruction::Bne
    } else {
        Instruction::Beq
    }
}

/// Shift or rotate selected by `a` when `c == 2`.
pub open spec fn shift_instruction(a: u8) -> Instruction {
    if a == 0 {
        Instruction::Asl
    } else if a == 1 {
        Instruction::Rol
    } else if a == 2 {
        Instruction::Lsr
    } else {
        Instruction::Ror
    }
}

/// Addressing mode selected by `b` for a shift or rotate.
pub open spec fn shift_mode(b: u8) -> Mode {
    if b == 1 {
        Mode::ZeroPage
    } else if b == 2 {
        Mode::Accumulator
    } else if b == 3 {
        Mode::Absolute
    } else if b == 5 {
        Mode::ZeroPageX
    } else {
        Mode::AbsoluteX
    }
}

/// Addressing mode selected by `b` for `CPX` and `CPY`.
pub open spec fn index_compare_mode(b: u8) -> Mode {
    if b == 0 {
        Mode::Immediate
    } else if b == 1 {
        Mode::ZeroPage
    } else {
        Mode::Absolute
    }
}

/// Addressing mode selected by `b` for the index register loads and stores;
/// indexing uses the other index register (`Y` when `by_y`).
pub open spec fn index_mode(b: u8, by_y: bool) -> Mode {
    if b == 0 {
        Mode::Immediate
    } else if b == 1 {
        Mode::ZeroPage
    } else if b == 3 {
        Mode::Absolute
    } else if b == 5 {
        if by_y {
            Mode::ZeroPageY
        } else {
            Mode::ZeroPageX
        }
    } else {
        if by_y {
            Mode::AbsoluteY
        } else {
            Mode::AbsoluteX
        }
    }
}

/// Decoding of the `aaabbbcc` opcode layout into an instruction and a mode.
#[verifier::opaque]
pub open spec fn decode_fields(c: u8, b: u8, a: u8) -> (Instruction, Mode) {
    if c == 0 {
        if b == 0 && a == 0 {
            (Instruction::Brk, Mode::Implied)
        } else if b == 0 && a == 1 {
            (Instruction::Jsr, Mode::Absolute)
        } else if b == 0 && a == 2 {
            (Instruction::Rti, Mode::Implied)
        } else if b == 0 && a == 3 {
            (Instruction::Rts, Mode::Implied)
        } else if b == 2 && a == 0 {
            (Instruction::Php, Mode::Implied)
        } else if b == 2 && a == 1 {
            (Instruction::Plp, Mode::Implied)
        } else if b == 2 && a == 2 {
            (Instruction::Pha, Mode::Implied)
        } else if b == 2 && a == 3 {
            (Instruction::Pla, Mode::Implied)
        } else if b == 1 && a == 1 {
            (Instruction::Bit, Mode::ZeroPage)
        } else if b == 3 && a == 1 {
            (Instruction::Bit, Mode::Absolute)
        } else if b == 3 && a == 2 {
            (Instruction::Jmp, Mode::Absolute)
        } else if b == 3 && a == 3 {
            (Instruction::Jmp, Mode::Indirect)
        } else if b == 4 {
            (branch_instruction(a), Mode::Relative)
        } else if a == 4 && (b == 1 || b == 3 || b == 5) {
            (Instruction::Sty, index_mode(b, false))
        } else if a == 4 && b == 2 {
            (Instruction::Dey, Mode::Implied)
        } else if a == 4 && b == 6 {
            (Instruction::Tya, Mode::Implied)
        } else if a == 5 && (b == 0 || b == 1 || b == 3 || b == 5 || b == 7) {
            (Instruction::Ldy, index_mode(b, false))
        } else if a == 5 && b == 2 {
            (Instruction::Tay, Mode::Implied)
        } else if a == 6 && b == 2 {
            (Instruction::Iny, Mode::Implied)
        } else if a == 7 && b == 2 {
            (Instruction::Inx, Mode::Implied)
        } else if a == 6 && (b == 0 || b == 1 || b == 3) {
            (Instruction::Cpy, index_compare_mode(b))
        } else if a == 7 && (b == 0 || b == 1 || b == 3) {
            (Instruction::Cpx, index_compare_mode(b))
        } else if b == 6 && a == 0 {
            (Instruction::Clc, Mode::Implied)
        } else if b == 6 && a == 1 {
            (Instruction::Sec, Mode::Implied)
        } else if b == 6 && a == 2 {
            (Instruction::Cli, Mode::Implied)
        } else if b == 6 && a == 3 {
            (Instruction::Sei, Mode::Implied)
        } else if b == 6 && a == 5 {
            (Instruction::Clv, Mode::Implied)
        } else if b == 6 && a == 6 {
            (Instruction::Cld, Mode::Implied)
        } else if b == 6 && a == 7 {
            (Instruction::Sed, Mode::Implied)
        } else {
            (Instruction::Jam, Mode::Implied)
        }
    } else if c == 1 {
        if b == 2 && a == 4 {
            (Instruction::Jam, Mode::Implied)
        } else {
            (alu_instruction(a), group_mode(b))
        }
    } else if c == 2 {
        if a <= 3 && (b == 1 || b == 2 || b == 3 || b == 5 || b == 7) {
            (shift_instruction(a), shift_mode(b))
        } else if a == 4 && (b == 1 || b == 3 || b == 5) {
            (Instruction::Stx, index_mode(b, true))
        } else if a == 4 && b == 2 {
            (Instruction::Txa, Mode::Implied)
        } else if a == 4 && b == 6 {
            (Instruction::Txs, Mode::Implied)
        } else if a == 5 && (b == 0 || b == 1 || b == 3 || b == 5 || b == 7) {
            (Instruction::Ldx, index_mode(b, true))
        } else if a == 5 && b == 2 {
            (Instruction::Tax, Mode::Implied)
        } else if a == 5 && b == 6 {
            (Instruction::Tsx, Mode::Implied)
        } else if a == 6 && (b == 1 || b == 3 || b == 5 || b == 7) {
            (Instruction::Dec, shift_mode(b))
        } else if a == 6 && b == 2 {
            (Instruction::Dex, Mode::Implied)
        } else if a == 7 && (b == 1 || b == 3 || b == 5 || b == 7) {
            (Instruction::Inc, shift_mode(b))
        } else if a == 7 && b == 2 {
            (Instruction::Nop, Mode::Implied)
        } else {
            (Instruction::Jam, Mode::Implied)
        }
    } else {
        if a == 6 && b != 2 {
            (Instruction::Dcp, group_mode(b))
        } else {
            (Instruction::Jam, Mode::Implied)
        }
    }
}

/// The instruction and mode an opcode byte decodes to.
pub open spec fn decode_spec(value: u8) -> (Instruction, Mode) {
    decode_fields(field_c(value), field_b(value), field_a(value))
}

/// Addressing mode selected by `b` in the `c == 1` and `c == 3` groups.
fn mode_for_group(b: u8) -> (r: Mode)
    ensures
        r == group_mode(b),
{
    match b {
        0 => Mode::IndexedX,
        1 => Mode::ZeroPage,
        2 => Mode::Immediate,
        3 => Mode::Absolute,
        4 => Mode::IndexedY,
        5 => Mode::ZeroPageX,
        6 => Mode::AbsoluteY,
        _ => Mode::AbsoluteX,
    }
}

/// Operation selected by `a` in the `c == 1` group.
fn alu_for(a: u8) -> (r: Instruction)
    ensures
        r == alu_instruction(a),
{
    match a {
        0 => Instruction::Ora,
        1 => Instruction::And,
        2 => Instruction::Eor,
        3 => Instruction::Adc,
        4 => Instruction::Sta,
        5 => Instruction::Lda,
        6 => Instruction::Cmp,
        _ => Instruction::Sbc,
    }
}

/// Shift or rotate selected by `a`.
fn shift_for(a: u8) -> (r: Instruction)
    ensures
        r == shift_instruction(a),
{
    match a {
        0 => Instruction::Asl,
        1 => Instruction::Rol,
        2 => Instruction::Lsr,
        _ => Instruction::Ror,
    }
}

/// Addressing mode selected by `b` for a shift or rotate.
fn shift_mode_for(b: u8) -> (r: Mode)
    ensures
        r == shift_mode(b),
{
    match b {
        1 => Mode::ZeroPage,
        2 => Mode::Accumulator,
        3 => Mode::Absolute,
        5 => Mode::ZeroPageX,
        _ => Mode::AbsoluteX,
    }
}

/// Addressing mode selected by `b` for `CPX` and `CPY`.
fn index_compare_mode_for(b: u8) -> (r: Mode)
    ensures
        r == index_compare_mode(b),
{
    match b {
        0 => Mode::Immediate,
        1 => Mode::ZeroPage,
        _ => Mode::Absolute,
    }
}

/// Addressing mode selected by `b` for the index register loads and stores.
fn index_mode_for(b: u8, by_y: bool) -> (r: Mode)
    ensures
        r == index_mode(b, by_y),
{
    match b {
        0 => Mode::Immediate,
        1 => Mode::ZeroPage,
        3 => Mode::Absolute,
        5 => if by_y {
            Mode::ZeroPageY
        } else {
            Mode::ZeroPageX
        },
        _ => if by_y {
            Mode::AbsoluteY
        } else {
            Mode::AbsoluteX
        },
    }
}

/// Branch selected by `a`.
fn branch_for(a: u8) -> (r: Instruction)
    ensures
        r == branch_instruction(a),
{
    match a {
        0 => Instruction::Bpl,
        1 => Instruction::Bmi,
        2 => Instruction::Bvc,
        3 => Instruction::Bvs,
        4 => Instruction::Bcc,
        5 => Instruction::Bcs,
        6 => Instruction::Bne,
        _ => Instruction::Beq,
    }
}

/// Decodes an opcode byte by its `aaabbbcc` fields; every opcode that
/// this core does not execute decodes to `Jam`.
pub fn decode_opcode(value: u8) -> (r: (Instruction, Mode))
    ensures
        r == decode_spec(value),
{
    proof {
        reveal(decode_fields);
    }
    let a = (value & 0b1110_0000) >> 5u8;
    let b = (value & 0b0001_1100) >> 2u8;
    let c = value & 0b0000_0011;
    match (c, b, a) {
        (0, 0, 0) => (Instruction::Brk, Mode::Implied),
        (0, 0, 1) => (Instruction::Jsr, Mode::Absolute),
        (0, 0, 2) => (Instruction::Rti, Mode::Implied),
        (0, 0, 3) => (Instruction::Rts, Mode::Implied),
        (0, 2, 0) => (Instruction::Php, Mode::Implied),
        (0, 2, 1) => (Instruction::Plp, Mode::Implied),
        (0, 2, 2) => (Instruction::Pha, Mode::Implied),
        (0, 2, 3) => (Instruction::Pla, Mode::Implied),
        (0, 1, 1) => (Instruction::Bit, Mode::ZeroPage),
        (0, 3, 1) => (Instruction::Bit, Mode::Absolute),
        (0, 3, 2) => (Instruction::Jmp, Mode::Absolute),
        (0, 3, 3) => (Instruction::Jmp, Mode::Indirect),
        (0, 4, _) => (branch_for(a), Mode::Relative),
        (0, 1, 4) | (0, 3, 4) | (0, 5, 4) => (Instruction::Sty, index_mode_for(b, false)),
        (0, 2, 4) => (Instruction::Dey, Mode::Implied),
        (0, 6, 4) => (Instruction::Tya, Mode::Implied),
        (0, 0, 5) | (0, 1, 5) | (0, 3, 5) | (0, 5, 5) | (0, 7, 5) => {
            (Instruction::Ldy, index_mode_for(b, false))
        },
        (0, 2, 5) => (Instruction::Tay, Mode::Implied),
        (0, 2, 6) => (Instruction::Iny, Mode::Implied),
        (0, 2, 7) => (Instruction::Inx, Mode::Implied),
        (0, 0, 6) | (0, 1, 6) | (0, 3, 6) => (Instruction::Cpy, index_compare_mode_for(b)),
        (0, 0, 7) | (0, 1, 7) | (0, 3, 7) => (Instruction::Cpx, index_compare_mode_for(b)),
        (0, 6, 0) => (Instruction::Clc, Mode::Implied),
        (0, 6, 1) => (Instruction::Sec, Mode::Implied),
        (0, 6, 2) => (Instruction::Cli, Mode::Implied),
        (0, 6, 3) => (Instruction::Sei, Mode::Implied),
        (0, 6, 5) => (Instruction::Clv, Mode::Implied),
        (0, 6, 6) => (Instruction::Cld, Mode::Implied),
        (0, 6, 7) => (Instruction::Sed, Mode::Implied),
        (0, _, _) => (Instruction::Jam, Mode::Implied),
        // STA has no immediate form.
        (1, 2, 4) => (Instruction::Jam, Mode::Implied),
        (1, _, _) => (alu_for(a), mode_for_group(b)),
        (2, _, _) if a <= 3 && (b == 1 || b == 2 || b == 3 || b == 5 || b == 7) => {
            (shift_for(a), shift_mode_for(b))
        },
        (2, 1, 4) | (2, 3, 4) | (2, 5, 4) => (Instruction::Stx, index_mode_for(b, true)),
        (2, 2, 4) => (Instruction::Txa, Mode::Implied),
        (2, 6, 4) => (Instruction::Txs, Mode::Implied),
        (2, 0, 5) | (2, 1, 5) | (2, 3, 5) | (2, 5, 5) | (2, 7, 5) => {
            (Instruction::Ldx, index_mode_for(b, true))
        },
        (2, 2, 5) => (Instruction::Tax, Mode::Implied),
        (2, 6, 5) => (Instruction::Tsx, Mode::Implied),
        (2, 1, 6) | (2, 3, 6) | (2, 5, 6) | (2, 7, 6) => (Instruction::Dec, shift_mode_for(b)),
        (2, 2, 6) => (Instruction::Dex, Mode::Implied),
        (2, 1, 7) | (2, 3, 7) | (2, 5, 7) | (2, 7, 7) => (Instruction::Inc, shift_mode_for(b)),
        (2, 2, 7) => (Instruction::Nop, Mode::Implied),
        (2, _, _) => (Instruction::Jam, Mode::Implied),
        // Of the illegal group only DCP (decrement, then compare) is executed.
        (_, 2, 6) => (Instruction::Jam, Mode::Implied),
        (_, _, 6) => (Instruction::Dcp, mode_for_group(b)),
        _ => (Instruction::Jam, Mode::Implied),
    }
}

impl Processor {
    /// Decodes an opcode byte by its `aaabbbcc` fields; every opcode that
    /// this core does not execute decodes to `Jam`. Decoding reads nothing
    /// of the processor.
    pub fn decode(&self, value: u8) -> (r: (Instruction, Mode))
        ensures
            r == decode_spec(value),
    {
        decode_opcode(value)
    }

}

/// The bit fields of an opcode byte are in range, and `0xEA` is the only
/// byte with `c == 2`, `b == 2`, `a == 7`.
proof fn lemma_fields(value: u8)
    ensures
        field_a(value) < 8,
        field_b(value) < 8,
        field_c(value) < 4,
        (field_c(value) == 2 && field_b(value) == 2 && field_a(value) == 7) <==> value == 0xEA,
{
    assert((value & 0b1110_0000) >> 5u8 < 8) by (bit_vector);
    assert((value & 0b0001_1100) >> 2u8 < 8) by (bit_vector);
    assert(value & 0b0000_0011 < 4) by (bit_vector);
    assert(((value & 0b0000_0011) == 2 && (value & 0b0001_1100) >> 2u8 == 2 && (value
        & 0b1110_0000) >> 5u8 == 7) <==> value == 0xEA) by (bit_vector);
}

/// Decode totality: every byte decodes to an instruction and a mode; the
/// bytes this core does not execute decode to `Jam`, always in `Implied`
/// mode, and the single `NOP` slot is `0xEA`. Among the bytes that decode
/// to `Jam`: the illegal group (`c == 3`) but for `DCP`; `c == 2, b == 0`
/// but for `LDX #`; `c == 2, b == 4`; the `c == 2, b == 6` slots below
/// `TXS`; and `0x80`.
pub proof fn lemma_decode_total(value: u8)
    ensures
        decode_spec(value).0 == Instruction::Nop <==> value == 0xEA,
        decode_spec(value).0 == Instruction::Jam ==> decode_spec(value).1 == Mode::Implied,
        field_c(value) == 3 && field_a(value) != 6 ==> decode_spec(value).0 == Instruction::Jam,
        field_c(value) == 2 && field_b(value) == 0 && field_a(value) != 5 ==> decode_spec(value).0
            == Instruction::Jam,
        field_c(value) == 2 && (field_b(value) == 4 || field_b(value) == 6) && field_a(value) < 4
            ==> decode_spec(value).0 == Instruction::Jam,
        field_c(value) == 0 && field_b(value) == 0 && field_a(value) == 4 ==> decode_spec(
            value,
        ).0 == Instruction::Jam,
{
    reveal(decode_fields);
    lemma_fields(value);
}

} // verus!
