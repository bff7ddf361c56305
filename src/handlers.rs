//! What each instruction does, as a step of the machine model, and the
//! handlers that perform it on a processor.

use vstd::prelude::*;
use crate::addressing::{opcode_len, Mode};
use crate::base::{word, wrap16, Machine, Processor, Reg, State};
use crate::memory::{IRQ_VECTOR, MEMORY_MAX};
use crate::opcodes::{decode_fields, decode_spec, Fault, Instruction};
use crate::status::{
    add_overflow, add_status, add_sum, add_with_carry, generic_status, merge_flag, merge_status,
    precise_update, B_FLAG, C_FLAG, D_FLAG, F_FLAG, I_FLAG, N_FLAG, V_FLAG, Z_FLAG,
};

verus! {

/// The data an instruction operates on: the accumulator in `Accumulator`
/// mode, else the byte at the effective address.
pub open spec fn operand_of(m: Machine, mode: Mode) -> u8 {
    if mode == Mode::Accumulator {
        m.state.a
    } else {
        m.read(m.address_of(mode))
    }
}

/// `ADC` (or, with the operand complemented, `SBC`) through the precise path.
pub open spec fn add_step(m: Machine, mode: Mode, complement: bool) -> Machine {
    let v = if complement {
        !operand_of(m, mode)
    } else {
        operand_of(m, mode)
    };
    let a = m.state.a;
    let sum = add_sum(a, v, m.state.status & C_FLAG != 0);
    let result = (sum % 256) as u8;
    m.resolved(mode).with_a(result).advance(mode).with_status(
        add_status(m.state.status, result, sum > 0xFF, add_overflow(a, v, result)),
    ).charge(2)
}

/// `AND`, `ORA` or `EOR`: the accumulator combined with the operand; N and
/// Z by the generic updater.
pub open spec fn logic_step(m: Machine, mode: Mode, ins: Instruction) -> Machine {
    let v = operand_of(m, mode);
    let a = m.state.a;
    let result = if ins == Instruction::And {
        a & v
    } else if ins == Instruction::Ora {
        a | v
    } else {
        a ^ v
    };
    m.resolved(mode).with_a(result).advance(mode).with_status(
        generic_status(m.state.status, a, v, result, N_FLAG | Z_FLAG),
    ).charge(2)
}

/// Status after comparing `register` with `v`: N and Z of the difference
/// by the generic updater, C when `register >= v`.
pub open spec fn compare_status(status: u8, register: u8, v: u8) -> u8 {
    let difference = ((register - v + 256) % 256) as u8;
    merge_flag(
        generic_status(status, register, v, difference, N_FLAG | Z_FLAG),
        C_FLAG,
        register >= v,
    )
}

/// The result and carry out of shifting or rotating `v`, with `carry_in`
/// entering the rotations.
pub open spec fn shifted(ins: Instruction, v: u8, carry_in: bool) -> (u8, bool) {
    let c: int = if carry_in {
        1
    } else {
        0
    };
    match ins {
        Instruction::Asl => (((v * 2) % 256) as u8, v >= 128),
        Instruction::Rol => (((v * 2 + c) % 256) as u8, v >= 128),
        Instruction::Lsr => ((v / 2) as u8, v % 2 == 1),
        _ => ((v / 2 + c * 128) as u8, v % 2 == 1),
    }
}

/// Status after a shift or rotate of `v` into `result`: left shifts take
/// N, Z and C from the generic updater; right shifts take N and Z from it
/// and C from the bit shifted out.
pub open spec fn shift_status(status: u8, ins: Instruction, v: u8, result: u8, carry: bool) -> u8 {
    if ins == Instruction::Asl || ins == Instruction::Rol {
        generic_status(status, v, v, result, N_FLAG | Z_FLAG | C_FLAG)
    } else {
        merge_flag(generic_status(status, v, v, result, N_FLAG | Z_FLAG), C_FLAG, carry)
    }
}

/// `ASL`, `LSR`, `ROL` or `ROR`: the operand shifted, into A in
/// `Accumulator` mode, else back into memory.
pub open spec fn shift_step(m: Machine, mode: Mode, ins: Instruction) -> Machine {
    let v = operand_of(m, mode);
    let (result, carry) = shifted(ins, v, m.state.status & C_FLAG != 0);
    let r = m.resolved(mode);
    let stored = if mode == Mode::Accumulator {
        r.with_a(result)
    } else {
        r.write(m.address_of(mode), result)
    };
    stored.with_status(shift_status(m.state.status, ins, v, result, carry)).advance(mode).charge(
        if mode == Mode::Accumulator {
            2
        } else {
            4
        },
    )
}

/// The value an index or transfer instruction puts in its target register.
pub open spec fn register_value(m: Machine, ins: Instruction) -> u8 {
    let st = m.state;
    match ins {
        Instruction::Inx => ((st.x + 1) % 256) as u8,
        Instruction::Iny => ((st.y + 1) % 256) as u8,
        Instruction::Dex => ((st.x + 255) % 256) as u8,
        Instruction::Dey => ((st.y + 255) % 256) as u8,
        Instruction::Tax | Instruction::Tay => st.a,
        Instruction::Txa => st.x,
        Instruction::Tya => st.y,
        _ => st.sp,
    }
}

/// `INX`, `INY`, `DEX`, `DEY` or a transfer other than `TXS`: the target
/// register takes the new value; flags N, Z.
pub open spec fn register_step(m: Machine, mode: Mode, ins: Instruction) -> Machine {
    let v = register_value(m, ins);
    let target = match ins {
        Instruction::Inx | Instruction::Dex | Instruction::Tax | Instruction::Tsx => m.with_x(v),
        Instruction::Iny | Instruction::Dey | Instruction::Tay => m.with_y(v),
        _ => m.with_a(v),
    };
    target.with_status(generic_status(m.state.status, v, v, v, N_FLAG | Z_FLAG)).advance(
        mode,
    ).charge(2)
}

/// `INC` or `DEC`: memory moved by one; flags N, Z.
pub open spec fn step_memory_step(m: Machine, mode: Mode, up: bool) -> Machine {
    let v = operand_of(m, mode);
    let r = if up {
        ((v + 1) % 256) as u8
    } else {
        ((v + 255) % 256) as u8
    };
    m.resolved(mode).write(m.address_of(mode), r).with_status(
        generic_status(m.state.status, r, r, r, N_FLAG | Z_FLAG),
    ).advance(mode).charge(4)
}

/// A conditional branch: taken, it resolves its target (paying for that)
/// and jumps; else PC moves past it. Two cycles either way.
pub open spec fn branch_step(m: Machine, mode: Mode, taken: bool) -> Machine {
    if taken {
        m.resolved(mode).jump(m.address_of(mode)).charge(2)
    } else {
        m.advance(mode).charge(2)
    }
}

/// Whether the branch `ins` is taken under `status`.
pub open spec fn branch_taken(ins: Instruction, status: u8) -> bool {
    match ins {
        Instruction::Bcc => status & C_FLAG == 0,
        Instruction::Bcs => status & C_FLAG != 0,
        Instruction::Beq => status & Z_FLAG != 0,
        Instruction::Bne => status & Z_FLAG == 0,
        Instruction::Bmi => status & N_FLAG != 0,
        Instruction::Bpl => status & N_FLAG == 0,
        Instruction::Bvc => status & V_FLAG == 0,
        _ => status & V_FLAG != 0,
    }
}

/// A flag instruction: sets or clears one status flag.
pub open spec fn flag_step(m: Machine, mode: Mode, flag: u8, on: bool) -> Machine {
    m.with_status(merge_flag(m.state.status, flag, on)).advance(mode).charge(2)
}

/// The return address `JSR` and `BRK` push: two bytes past the opcode.
pub open spec fn return_address(m: Machine) -> int {
    wrap16(m.state.pc + 2)
}

/// What executing `ins` in `mode` does to `m`.
#[verifier::opaque]
pub open spec fn execute(m: Machine, ins: Instruction, mode: Mode) -> Machine {
    let status = m.state.status;
    match ins {
        Instruction::Adc => add_step(m, mode, false),
        Instruction::Sbc => add_step(m, mode, true),
        Instruction::And | Instruction::Ora | Instruction::Eor => logic_step(m, mode, ins),
        Instruction::Asl | Instruction::Lsr | Instruction::Rol | Instruction::Ror => shift_step(
            m,
            mode,
            ins,
        ),
        Instruction::Bcc | Instruction::Bcs | Instruction::Beq | Instruction::Bne
        | Instruction::Bmi | Instruction::Bpl | Instruction::Bvc | Instruction::Bvs => {
            branch_step(m, mode, branch_taken(ins, status))
        },
        Instruction::Bit => {
            let v = operand_of(m, mode);
            let copied = (status & !(N_FLAG | V_FLAG)) | (v & (N_FLAG | V_FLAG));
            m.resolved(mode).with_status(
                generic_status(copied, m.state.a, v, m.state.a & v, Z_FLAG),
            ).advance(mode).charge(2)
        },
        Instruction::Brk => {
            let ret = return_address(m);
            let pushed = m.push((ret / 256) as u8).push((ret % 256) as u8).push(
                status | B_FLAG | F_FLAG,
            );
            pushed.with_status(status | I_FLAG).jump(m.vector(IRQ_VECTOR as int)).charge(7)
        },
        Instruction::Clc => flag_step(m, mode, C_FLAG, false),
        Instruction::Sec => flag_step(m, mode, C_FLAG, true),
        Instruction::Cli => flag_step(m, mode, I_FLAG, false),
        Instruction::Sei => flag_step(m, mode, I_FLAG, true),
        Instruction::Clv => flag_step(m, mode, V_FLAG, false),
        Instruction::Cld => flag_step(m, mode, D_FLAG, false),
        Instruction::Sed => flag_step(m, mode, D_FLAG, true),
        Instruction::Cmp => {
            let v = operand_of(m, mode);
            m.resolved(mode).with_status(compare_status(status, m.state.a, v)).advance(
                mode,
            ).charge(2)
        },
        Instruction::Cpx => {
            let v = operand_of(m, mode);
            m.resolved(mode).with_status(compare_status(status, m.state.x, v)).advance(
                mode,
            ).charge(2)
        },
        Instruction::Cpy => {
            let v = operand_of(m, mode);
            m.resolved(mode).with_status(compare_status(status, m.state.y, v)).advance(
                mode,
            ).charge(2)
        },
        Instruction::Dcp => {
            let d = ((operand_of(m, mode) + 255) % 256) as u8;
            m.resolved(mode).write(m.address_of(mode), d).with_status(
                compare_status(status, m.state.a, d),
            ).advance(mode).charge(4)
        },
        Instruction::Jam => m,
        Instruction::Ldx => {
            let v = operand_of(m, mode);
            m.resolved(mode).with_x(v).advance(mode).with_status(
                generic_status(status, v, v, v, Z_FLAG | N_FLAG),
            ).charge(2)
        },
        Instruction::Ldy => {
            let v = operand_of(m, mode);
            m.resolved(mode).with_y(v).advance(mode).with_status(
                generic_status(status, v, v, v, Z_FLAG | N_FLAG),
            ).charge(2)
        },
        Instruction::Stx => m.resolved(mode).write(m.address_of(mode), m.state.x).advance(
            mode,
        ).charge(2),
        Instruction::Sty => m.resolved(mode).write(m.address_of(mode), m.state.y).advance(
            mode,
        ).charge(2),
        Instruction::Inc => step_memory_step(m, mode, true),
        Instruction::Dec => step_memory_step(m, mode, false),
        Instruction::Inx | Instruction::Iny | Instruction::Dex | Instruction::Dey
        | Instruction::Tax | Instruction::Tay | Instruction::Txa | Instruction::Tya
        | Instruction::Tsx => register_step(m, mode, ins),
        Instruction::Txs => m.with_state(State { sp: m.state.x, ..m.state }).advance(mode).charge(
            2,
        ),
        Instruction::Jmp => m.resolved(mode).jump(m.address_of(mode)).charge(1),
        Instruction::Jsr => {
            let ret = return_address(m);
            m.resolved(mode).push((ret / 256) as u8).push((ret % 256) as u8).jump(
                m.address_of(mode),
            ).charge(4)
        },
        Instruction::Lda => {
            let v = operand_of(m, mode);
            m.resolved(mode).with_a(v).advance(mode).with_status(
                generic_status(status, v, v, v, Z_FLAG | N_FLAG),
            ).charge(2)
        },
        Instruction::Nop => m.advance(mode).charge(1),
        Instruction::Pha => m.push(m.state.a).advance(mode).charge(2),
        Instruction::Php => m.push(status | B_FLAG | F_FLAG).advance(mode).charge(2),
        Instruction::Pla => {
            let v = m.pop_value();
            m.popped().with_a(v).with_status(
                generic_status(status, v, v, v, N_FLAG | Z_FLAG),
            ).advance(mode).charge(3)
        },
        Instruction::Plp => {
            let v = m.pop_value();
            m.popped().with_status((v | F_FLAG) & !B_FLAG).advance(mode).charge(3)
        },
        Instruction::Rti => {
            let m1 = m.popped();
            let m2 = m1.popped();
            let m3 = m2.popped();
            m3.with_status(m.pop_value() & !(B_FLAG | F_FLAG)).jump(
                word(m2.pop_value(), m1.pop_value()),
            ).charge(6)
        },
        Instruction::Rts => {
            let m1 = m.popped();
            let m2 = m1.popped();
            m2.jump(wrap16(word(m1.pop_value(), m.pop_value()) + 1)).charge(6)
        },
        Instruction::Sta => m.resolved(mode).write(m.address_of(mode), m.state.a).advance(
            mode,
        ).charge(2),
    }
}

/// Instructions that move or combine data.
pub open spec fn in_data_group(ins: Instruction) -> bool {
    match ins {
        Instruction::Adc | Instruction::Sbc | Instruction::And | Instruction::Ora | Instruction::Eor | Instruction::Bit | Instruction::Lda | Instruction::Sta => true,
        _ => false,
    }
}

/// Shifts, rotates and compares.
pub open spec fn in_shift_compare_group(ins: Instruction) -> bool {
    match ins {
        Instruction::Asl | Instruction::Lsr | Instruction::Rol | Instruction::Ror
        | Instruction::Cmp | Instruction::Cpx | Instruction::Cpy | Instruction::Dcp => true,
        _ => false,
    }
}

/// Index register loads and stores, memory increments and `TXS`.
pub open spec fn in_load_store_group(ins: Instruction) -> bool {
    match ins {
        Instruction::Ldx | Instruction::Ldy | Instruction::Stx | Instruction::Sty | Instruction::Inc | Instruction::Dec | Instruction::Txs => true,
        _ => false,
    }
}

/// Register increments, decrements and transfers.
pub open spec fn in_register_group(ins: Instruction) -> bool {
    match ins {
        Instruction::Inx | Instruction::Iny | Instruction::Dex | Instruction::Dey | Instruction::Tax | Instruction::Tay | Instruction::Txa | Instruction::Tya | Instruction::Tsx => true,
        _ => false,
    }
}

/// Conditional branches.
pub open spec fn in_branch_group(ins: Instruction) -> bool {
    match ins {
        Instruction::Bcc | Instruction::Bcs | Instruction::Beq | Instruction::Bne | Instruction::Bmi | Instruction::Bpl | Instruction::Bvc | Instruction::Bvs => true,
        _ => false,
    }
}

/// Flag instructions and `NOP`.
pub open spec fn in_flag_group(ins: Instruction) -> bool {
    match ins {
        Instruction::Clc | Instruction::Sec | Instruction::Cli | Instruction::Sei | Instruction::Clv | Instruction::Cld | Instruction::Sed | Instruction::Nop => true,
        _ => false,
    }
}

/// Jumps, stack instructions and traps.
pub open spec fn in_control_group(ins: Instruction) -> bool {
    match ins {
        Instruction::Brk | Instruction::Jmp | Instruction::Jsr | Instruction::Rti | Instruction::Rts | Instruction::Pha | Instruction::Php | Instruction::Pla | Instruction::Plp => true,
        _ => false,
    }
}

/// One fetch-decode-execute step.
pub open spec fn step(m: Machine) -> Machine {
    let (ins, mode) = decode_spec(m.read(m.state.pc as int));
    execute(m, ins, mode)
}

impl Processor {
    /// Moves PC past an instruction of the given mode.
    fn advance(&mut self, mode: Mode)
        requires
            old(self).wf(),
        ensures
            final(self).wf(),
            final(self)@ == old(self)@.advance(mode),
    {
        self.update_pc(opcode_len(mode));
    }

    /// Resolves `mode` and returns the effective address with the operand.
    fn fetch(&mut self, mode: Mode) -> (r: (usize, u8))
        requires
            old(self).wf(),
        ensures
            final(self).wf(),
            final(self)@ == old(self)@.resolved(mode),
            r.0 == old(self)@.address_of(mode),
            r.0 < MEMORY_MAX,
            r.1 == operand_of(old(self)@, mode),
    {
        let address = self.lookup(mode);
        let operand = match mode {
            Mode::Accumulator => self.state.a,
            _ => self.mem.read(address),
        };
        (address, operand)
    }

    /// Adds `operand` (complemented when `complement`) and the carry to A.
    fn add(&mut self, mode: Mode, complement: bool)
        requires
            old(self).wf(),
        ensures
            final(self).wf(),
            final(self)@ == add_step(old(self)@, mode, complement),
    {
        let (_, fetched) = self.fetch(mode);
        let operand = if complement {
            !fetched
        } else {
            fetched
        };
        let accumulator = self.state.a;
        let carry = self.state.status & C_FLAG != 0;
        let sum = add_with_carry(accumulator, operand, carry);
        self.set_reg(Reg::A, sum.result);
        self.advance(mode);
        self.state.status = precise_update(self.state.status, &sum);
        self.update_cycles(2);
    }

    /// `ADC`: A + operand + C, flags N, Z, C, V by the precise path.
    pub fn adc(&mut self, mode: Mode)
        requires
            old(self).wf(),
        ensures
            final(self).wf(),
            final(self)@ == execute(old(self)@, Instruction::Adc, mode),
    {
        proof {
            reveal(execute);
        }
        self.add(mode, false);
    }

    /// `SBC`: ADC of the complemented operand.
    pub fn sbc(&mut self, mode: Mode)
        requires
            old(self).wf(),
        ensures
            final(self).wf(),
            final(self)@ == execute(old(self)@, Instruction::Sbc, mode),
    {
        proof {
            reveal(execute);
        }
        self.add(mode, true);
    }

    /// Combines A with the operand by the logic operation `ins`.
    fn combine(&mut self, mode: Mode, ins: Instruction)
        requires
            old(self).wf(),
        ensures
            final(self).wf(),
            final(self)@ == logic_step(old(self)@, mode, ins),
    {
        let (_, operand) = self.fetch(mode);
        let accumulator = self.get_reg(Reg::A);
        let result = match ins {
            Instruction::And => accumulator & operand,
            Instruction::Ora => accumulator | operand,
            _ => accumulator ^ operand,
        };
        self.set_reg(Reg::A, result);
        self.advance(mode);
        self.update_status(accumulator, operand, result, N_FLAG | Z_FLAG);
        self.update_cycles(2);
    }

    /// `AND`: A & operand, flags N, Z.
    pub fn and(&mut self, mode: Mode)
        requires
            old(self).wf(),
        ensures
            final(self).wf(),
            final(self)@ == execute(old(self)@, Instruction::And, mode),
    {
        proof {
            reveal(execute);
        }
        self.combine(mode, Instruction::And);
    }

    /// `ORA`: A | operand, flags N, Z.
    pub fn ora(&mut self, mode: Mode)
        requires
            old(self).wf(),
        ensures
            final(self).wf(),
            final(self)@ == execute(old(self)@, Instruction::Ora, mode),
    {
        proof {
            reveal(execute);
        }
        self.combine(mode, Instruction::Ora);
    }

    /// `EOR`: A ^ operand, flags N, Z.
    pub fn eor(&mut self, mode: Mode)
        requires
            old(self).wf(),
        ensures
            final(self).wf(),
            final(self)@ == execute(old(self)@, Instruction::Eor, mode),
    {
        proof {
            reveal(execute);
        }
        self.combine(mode, Instruction::Eor);
    }

    /// Shifts or rotates the operand by `ins`, into A in `Accumulator`
    /// mode, else back into memory.
    fn shift(&mut self, mode: Mode, ins: Instruction)
        requires
            old(self).wf(),
        ensures
            final(self).wf(),
            final(self)@ == shift_step(old(self)@, mode, ins),
    {
        let (address, operand) = self.fetch(mode);
        let carry_in: u16 = if self.state.status & C_FLAG != 0 {
            1
        } else {
            0
        };
        let (result, carry) = match ins {
            Instruction::Asl => (((operand as u16 * 2) % 256) as u8, operand >= 128),
            Instruction::Rol => (((operand as u16 * 2 + carry_in) % 256) as u8, operand >= 128),
            Instruction::Lsr => (operand / 2, operand % 2 == 1),
            _ => ((operand as u16 / 2 + carry_in * 128) as u8, operand % 2 == 1),
        };
        let cost: u32 = match mode {
            Mode::Accumulator => {
                self.set_reg(Reg::A, result);
                2
            },
            _ => {
                self.mem.write(address, result);
                4
            },
        };
        match ins {
            Instruction::Asl | Instruction::Rol => {
                self.update_status(operand, operand, result, N_FLAG | Z_FLAG | C_FLAG);
            },
            _ => {
                self.update_status(operand, operand, result, N_FLAG | Z_FLAG);
                self.state.status = merge_status(self.state.status, C_FLAG, carry);
            },
        }
        self.advance(mode);
        self.update_cycles(cost);
    }

    /// `ASL`: shifts left; bit 7 goes to C; flags N, Z, C.
    pub fn asl(&mut self, mode: Mode)
        requires
            old(self).wf(),
        ensures
            final(self).wf(),
            final(self)@ == execute(old(self)@, Instruction::Asl, mode),
    {
        proof {
            reveal(execute);
        }
        self.shift(mode, Instruction::Asl);
    }

    /// `LSR`: shifts right; bit 0 goes to C; flags N, Z, C.
    pub fn lsr(&mut self, mode: Mode)
        requires
            old(self).wf(),
        ensures
            final(self).wf(),
            final(self)@ == execute(old(self)@, Instruction::Lsr, mode),
    {
        proof {
            reveal(execute);
        }
        self.shift(mode, Instruction::Lsr);
    }

    /// `ROL`: rotates left through C; flags N, Z, C.
    pub fn rol(&mut self, mode: Mode)
        requires
            old(self).wf(),
        ensures
            final(self).wf(),
            final(self)@ == execute(old(self)@, Instruction::Rol, mode),
    {
        proof {
            reveal(execute);
        }
        self.shift(mode, Instruction::Rol);
    }

    /// `ROR`: rotates right through C; flags N, Z, C.
    pub fn ror(&mut self, mode: Mode)
        requires
            old(self).wf(),
        ensures
            final(self).wf(),
            final(self)@ == execute(old(self)@, Instruction::Ror, mode),
    {
        proof {
            reveal(execute);
        }
        self.shift(mode, Instruction::Ror);
    }

    /// A conditional branch: the target is resolved, and paid for, only
    /// when the branch is taken.
    fn branch(&mut self, mode: Mode, taken: bool)
        requires
            old(self).wf(),
        ensures
            final(self).wf(),
            final(self)@ == branch_step(old(self)@, mode, taken),
    {
        if taken {
            let address = self.lookup(mode);
            self.jump(address);
        } else {
            self.advance(mode);
        }
        self.update_cycles(2);
    }

    /// `BCC`: branch when C is clear.
    pub fn bcc(&mut self, mode: Mode)
        requires
            old(self).wf(),
        ensures
            final(self).wf(),
            final(self)@ == execute(old(self)@, Instruction::Bcc, mode),
    {
        proof {
            reveal(execute);
        }
        let taken = self.state.status & C_FLAG == 0;
        self.branch(mode, taken);
    }

    /// `BCS`: branch when C is set.
    pub fn bcs(&mut self, mode: Mode)
        requires
            old(self).wf(),
        ensures
            final(self).wf(),
            final(self)@ == execute(old(self)@, Instruction::Bcs, mode),
    {
        proof {
            reveal(execute);
        }
        let taken = self.state.status & C_FLAG != 0;
        self.branch(mode, taken);
    }

    /// `BEQ`: branch when Z is set.
    pub fn beq(&mut self, mode: Mode)
        requires
            old(self).wf(),
        ensures
            final(self).wf(),
            final(self)@ == execute(old(self)@, Instruction::Beq, mode),
    {
        proof {
            reveal(execute);
        }
        let taken = self.state.status & Z_FLAG != 0;
        self.branch(mode, taken);
    }

    /// `BNE`: branch when Z is clear.
    pub fn bne(&mut self, mode: Mode)
        requires
            old(self).wf(),
        ensures
            final(self).wf(),
            final(self)@ == execute(old(self)@, Instruction::Bne, mode),
    {
        proof {
            reveal(execute);
        }
        let taken = self.state.status & Z_FLAG == 0;
        self.branch(mode, taken);
    }

    /// `BMI`: branch when N is set.
    pub fn bmi(&mut self, mode: Mode)
        requires
            old(self).wf(),
        ensures
            final(self).wf(),
            final(self)@ == execute(old(self)@, Instruction::Bmi, mode),
    {
        proof {
            reveal(execute);
        }
        let taken = self.state.status & N_FLAG != 0;
        self.branch(mode, taken);
    }

    /// `BPL`: branch when N is clear.
    pub fn bpl(&mut self, mode: Mode)
        requires
            old(self).wf(),
        ensures
            final(self).wf(),
            final(self)@ == execute(old(self)@, Instruction::Bpl, mode),
    {
        proof {
            reveal(execute);
        }
        let taken = self.state.status & N_FLAG == 0;
        self.branch(mode, taken);
    }

    /// `BVC`: branch when V is clear.
    pub fn bvc(&mut self, mode: Mode)
        requires
            old(self).wf(),
        ensures
            final(self).wf(),
            final(self)@ == execute(old(self)@, Instruction::Bvc, mode),
    {
        proof {
            reveal(execute);
        }
        let taken = self.state.status & V_FLAG == 0;
        self.branch(mode, taken);
    }

    /// `BVS`: branch when V is set.
    pub fn bvs(&mut self, mode: Mode)
        requires
            old(self).wf(),
        ensures
            final(self).wf(),
            final(self)@ == execute(old(self)@, Instruction::Bvs, mode),
    {
        proof {
            reveal(execute);
        }
        let taken = self.state.status & V_FLAG != 0;
        self.branch(mode, taken);
    }

    /// `BIT`: Z from A & operand; N and V copied from the operand itself.
    pub fn bit(&mut self, mode: Mode)
        requires
            old(self).wf(),
        ensures
            final(self).wf(),
            final(self)@ == execute(old(self)@, Instruction::Bit, mode),
    {
        proof {
            reveal(execute);
        }
        let (_, operand) = self.fetch(mode);
        let accumulator = self.state.a;
        let result = accumulator & operand;
        self.state.status = (self.state.status & !(N_FLAG | V_FLAG)) | (operand & (N_FLAG
            | V_FLAG));
        self.update_status(accumulator, operand, result, Z_FLAG);
        self.advance(mode);
        self.update_cycles(2);
    }

    /// `BRK`: pushes the return address and the status with B and bit 5
    /// set, sets I, and jumps through the IRQ/BRK vector.
    pub fn brk(&mut self, mode: Mode)
        requires
            old(self).wf(),
        ensures
            final(self).wf(),
            final(self)@ == execute(old(self)@, Instruction::Brk, mode),
    {
        proof {
            reveal(execute);
        }
        let target = self.read_vector(IRQ_VECTOR);
        let ret = (self.state.pc + 2) % 0x10000;
        let status = self.state.status;
        self.stack_push((ret / 256) as u8);
        self.stack_push((ret % 256) as u8);
        self.stack_push(status | B_FLAG | F_FLAG);
        self.state.status = status | I_FLAG;
        self.jump(target);
        self.update_cycles(7);
    }

    /// Sets (`on`) or clears one status flag.
    fn set_flag(&mut self, mode: Mode, flag: u8, on: bool)
        requires
            old(self).wf(),
        ensures
            final(self).wf(),
            final(self)@ == flag_step(old(self)@, mode, flag, on),
    {
        self.state.status = merge_status(self.state.status, flag, on);
        self.advance(mode);
        self.update_cycles(2);
    }

    /// `CLC`: clears C.
    pub fn clc(&mut self, mode: Mode)
        requires
            old(self).wf(),
        ensures
            final(self).wf(),
            final(self)@ == execute(old(self)@, Instruction::Clc, mode),
    {
        proof {
            reveal(execute);
        }
        self.set_flag(mode, C_FLAG, false);
    }

    /// `SEC`: sets C.
    pub fn sec(&mut self, mode: Mode)
        requires
            old(self).wf(),
        ensures
            final(self).wf(),
            final(self)@ == execute(old(self)@, Instruction::Sec, mode),
    {
        proof {
            reveal(execute);
        }
        self.set_flag(mode, C_FLAG, true);
    }

    /// `CLI`: clears I.
    pub fn cli(&mut self, mode: Mode)
        requires
            old(self).wf(),
        ensures
            final(self).wf(),
            final(self)@ == execute(old(self)@, Instruction::Cli, mode),
    {
        proof {
            reveal(execute);
        }
        self.set_flag(mode, I_FLAG, false);
    }

    /// `SEI`: sets I.
    pub fn sei(&mut self, mode: Mode)
        requires
            old(self).wf(),
        ensures
            final(self).wf(),
            final(self)@ == execute(old(self)@, Instruction::Sei, mode),
    {
        proof {
            reveal(execute);
        }
        self.set_flag(mode, I_FLAG, true);
    }

    /// `CLV`: clears V.
    pub fn clv(&mut self, mode: Mode)
        requires
            old(self).wf(),
        ensures
            final(self).wf(),
            final(self)@ == execute(old(self)@, Instruction::Clv, mode),
    {
        proof {
            reveal(execute);
        }
        self.set_flag(mode, V_FLAG, false);
    }

    /// `CLD`: clears D.
    pub fn cld(&mut self, mode: Mode)
        requires
            old(self).wf(),
        ensures
            final(self).wf(),
            final(self)@ == execute(old(self)@, Instruction::Cld, mode),
    {
        proof {
            reveal(execute);
        }
        self.set_flag(mode, D_FLAG, false);
    }

    /// `SED`: sets D.
    pub fn sed(&mut self, mode: Mode)
        requires
            old(self).wf(),
        ensures
            final(self).wf(),
            final(self)@ == execute(old(self)@, Instruction::Sed, mode),
    {
        proof {
            reveal(execute);
        }
        self.set_flag(mode, D_FLAG, true);
    }

    /// Status after comparing `register` with `value`.
    fn compare(&mut self, register: u8, value: u8)
        ensures
            final(self)@ == old(self)@.with_status(
                compare_status(old(self).state.status, register, value),
            ),
            final(self).mem == old(self).mem,
    {
        let difference = ((register as u16 + 256 - value as u16) % 256) as u8;
        let status = crate::status::generic_update(
            self.state.status,
            register,
            value,
            difference,
            N_FLAG | Z_FLAG,
        );
        self.state.status = merge_status(status, C_FLAG, register >= value);
    }

    /// `CMP`: compares A with the operand; flags N, Z, C.
    pub fn cmp(&mut self, mode: Mode)
        requires
            old(self).wf(),
        ensures
            final(self).wf(),
            final(self)@ == execute(old(self)@, Instruction::Cmp, mode),
    {
        proof {
            reveal(execute);
        }
        let (_, operand) = self.fetch(mode);
        let accumulator = self.state.a;
        self.compare(accumulator, operand);
        self.advance(mode);
        self.update_cycles(2);
    }

    /// `CPX`: compares X with the operand; flags N, Z, C.
    pub fn cpx(&mut self, mode: Mode)
        requires
            old(self).wf(),
        ensures
            final(self).wf(),
            final(self)@ == execute(old(self)@, Instruction::Cpx, mode),
    {
        proof {
            reveal(execute);
        }
        let (_, operand) = self.fetch(mode);
        let register = self.state.x;
        self.compare(register, operand);
        self.advance(mode);
        self.update_cycles(2);
    }

    /// `CPY`: compares Y with the operand; flags N, Z, C.
    pub fn cpy(&mut self, mode: Mode)
        requires
            old(self).wf(),
        ensures
            final(self).wf(),
            final(self)@ == execute(old(self)@, Instruction::Cpy, mode),
    {
        proof {
            reveal(execute);
        }
        let (_, operand) = self.fetch(mode);
        let register = self.state.y;
        self.compare(register, operand);
        self.advance(mode);
        self.update_cycles(2);
    }

    /// `DCP` (illegal): decrements memory, then compares A with the result.
    pub fn dcp(&mut self, mode: Mode)
        requires
            old(self).wf(),
        ensures
            final(self).wf(),
            final(self)@ == execute(old(self)@, Instruction::Dcp, mode),
    {
        proof {
            reveal(execute);
        }
        let (address, operand) = self.fetch(mode);
        let decremented = ((operand as u16 + 255) % 256) as u8;
        self.mem.write(address, decremented);
        let accumulator = self.state.a;
        self.compare(accumulator, decremented);
        self.advance(mode);
        self.update_cycles(4);
    }

    /// `JMP`: PC takes the effective address.
    pub fn jmp(&mut self, mode: Mode)
        requires
            old(self).wf(),
        ensures
            final(self).wf(),
            final(self)@ == execute(old(self)@, Instruction::Jmp, mode),
    {
        proof {
            reveal(execute);
        }
        let address = self.lookup(mode);
        self.jump(address);
        self.update_cycles(1);
    }

    /// `JSR`: pushes PC + 2, high byte first, and jumps to the target.
    pub fn jsr(&mut self, mode: Mode)
        requires
            old(self).wf(),
        ensures
            final(self).wf(),
            final(self)@ == execute(old(self)@, Instruction::Jsr, mode),
    {
        proof {
            reveal(execute);
        }
        let address = self.lookup(mode);
        let ret = (self.state.pc + 2) % 0x10000;
        self.stack_push((ret / 256) as u8);
        self.stack_push((ret % 256) as u8);
        self.jump(address);
        self.update_cycles(4);
    }

    /// `LDA`: loads A; flags N, Z.
    pub fn lda(&mut self, mode: Mode)
        requires
            old(self).wf(),
        ensures
            final(self).wf(),
            final(self)@ == execute(old(self)@, Instruction::Lda, mode),
    {
        proof {
            reveal(execute);
        }
        let (_, operand) = self.fetch(mode);
        self.set_reg(Reg::A, operand);
        self.advance(mode);
        self.update_status(operand, operand, operand, Z_FLAG | N_FLAG);
        self.update_cycles(2);
    }

    /// `NOP`.
    pub fn nop(&mut self, mode: Mode)
        requires
            old(self).wf(),
        ensures
            final(self).wf(),
            final(self)@ == execute(old(self)@, Instruction::Nop, mode),
    {
        proof {
            reveal(execute);
        }
        self.advance(mode);
        self.update_cycles(1);
    }

    /// `PHA`: pushes A.
    pub fn pha(&mut self, mode: Mode)
        requires
            old(self).wf(),
        ensures
            final(self).wf(),
            final(self)@ == execute(old(self)@, Instruction::Pha, mode),
    {
        proof {
            reveal(execute);
        }
        let a = self.state.a;
        self.stack_push(a);
        self.advance(mode);
        self.update_cycles(2);
    }

    /// `PHP`: pushes the status with B and bit 5 set; the status itself is
    /// unchanged.
    pub fn php(&mut self, mode: Mode)
        requires
            old(self).wf(),
        ensures
            final(self).wf(),
            final(self)@ == execute(old(self)@, Instruction::Php, mode),
    {
        proof {
            reveal(execute);
        }
        let pushed = self.state.status | B_FLAG | F_FLAG;
        self.stack_push(pushed);
        self.advance(mode);
        self.update_cycles(2);
    }

    /// `PLA`: pops A; flags N, Z.
    pub fn pla(&mut self, mode: Mode)
        requires
            old(self).wf(),
        ensures
            final(self).wf(),
            final(self)@ == execute(old(self)@, Instruction::Pla, mode),
    {
        proof {
            reveal(execute);
        }
        let value = self.stack_pop();
        self.set_reg(Reg::A, value);
        self.update_status(value, value, value, N_FLAG | Z_FLAG);
        self.advance(mode);
        self.update_cycles(3);
    }

    /// `PLP`: pops the status, with bit 5 set and B cleared.
    pub fn plp(&mut self, mode: Mode)
        requires
            old(self).wf(),
        ensures
            final(self).wf(),
            final(self)@ == execute(old(self)@, Instruction::Plp, mode),
    {
        proof {
            reveal(execute);
        }
        let value = self.stack_pop();
        self.state.status = (value | F_FLAG) & !B_FLAG;
        self.advance(mode);
        self.update_cycles(3);
    }

    /// `RTI`: pops the status (B and bit 5 masked out), then PC low and high.
    pub fn rti(&mut self, _mode: Mode)
        requires
            old(self).wf(),
        ensures
            final(self).wf(),
            final(self)@ == execute(old(self)@, Instruction::Rti, _mode),
    {
        proof {
            reveal(execute);
        }
        let status = self.stack_pop();
        self.state.status = status & !(B_FLAG | F_FLAG);
        let pcl = self.stack_pop() as usize;
        let pch = self.stack_pop() as usize;
        self.jump(pch * 256 + pcl);
        self.update_cycles(6);
    }

    /// `RTS`: pops PC low and high, then moves one past it.
    pub fn rts(&mut self, _mode: Mode)
        requires
            old(self).wf(),
        ensures
            final(self).wf(),
            final(self)@ == execute(old(self)@, Instruction::Rts, _mode),
    {
        proof {
            reveal(execute);
        }
        let pcl = self.stack_pop() as usize;
        let pch = self.stack_pop() as usize;
        self.jump((pch * 256 + pcl + 1) % 0x10000);
        self.update_cycles(6);
    }

    /// `STA`: stores A at the effective address.
    pub fn sta(&mut self, mode: Mode)
        requires
            old(self).wf(),
        ensures
            final(self).wf(),
            final(self)@ == execute(old(self)@, Instruction::Sta, mode),
    {
        proof {
            reveal(execute);
        }
        let address = self.lookup(mode);
        let a = self.get_reg(Reg::A);
        self.mem.write(address, a);
        self.advance(mode);
        self.update_cycles(2);
    }

    /// `LDX`: loads X; flags N, Z.
    pub fn ldx(&mut self, mode: Mode)
        requires
            old(self).wf(),
        ensures
            final(self).wf(),
            final(self)@ == execute(old(self)@, Instruction::Ldx, mode),
    {
        proof {
            reveal(execute);
        }
        let (_, operand) = self.fetch(mode);
        self.set_reg(Reg::X, operand);
        self.advance(mode);
        self.update_status(operand, operand, operand, Z_FLAG | N_FLAG);
        self.update_cycles(2);
    }

    /// `LDY`: loads Y; flags N, Z.
    pub fn ldy(&mut self, mode: Mode)
        requires
            old(self).wf(),
        ensures
            final(self).wf(),
            final(self)@ == execute(old(self)@, Instruction::Ldy, mode),
    {
        proof {
            reveal(execute);
        }
        let (_, operand) = self.fetch(mode);
        self.set_reg(Reg::Y, operand);
        self.advance(mode);
        self.update_status(operand, operand, operand, Z_FLAG | N_FLAG);
        self.update_cycles(2);
    }

    /// `STX`: stores X at the effective address.
    pub fn stx(&mut self, mode: Mode)
        requires
            old(self).wf(),
        ensures
            final(self).wf(),
            final(self)@ == execute(old(self)@, Instruction::Stx, mode),
    {
        proof {
            reveal(execute);
        }
        let address = self.lookup(mode);
        let x = self.get_reg(Reg::X);
        self.mem.write(address, x);
        self.advance(mode);
        self.update_cycles(2);
    }

    /// `STY`: stores Y at the effective address.
    pub fn sty(&mut self, mode: Mode)
        requires
            old(self).wf(),
        ensures
            final(self).wf(),
            final(self)@ == execute(old(self)@, Instruction::Sty, mode),
    {
        proof {
            reveal(execute);
        }
        let address = self.lookup(mode);
        let y = self.get_reg(Reg::Y);
        self.mem.write(address, y);
        self.advance(mode);
        self.update_cycles(2);
    }

    /// Moves the byte at the effective address up (`up`) or down by one.
    fn step_memory(&mut self, mode: Mode, up: bool)
        requires
            old(self).wf(),
        ensures
            final(self).wf(),
            final(self)@ == step_memory_step(old(self)@, mode, up),
    {
        let (address, operand) = self.fetch(mode);
        let result = if up {
            ((operand as u16 + 1) % 256) as u8
        } else {
            ((operand as u16 + 255) % 256) as u8
        };
        self.mem.write(address, result);
        self.update_status(result, result, result, N_FLAG | Z_FLAG);
        self.advance(mode);
        self.update_cycles(4);
    }

    /// `INC`: increments memory; flags N, Z.
    pub fn inc(&mut self, mode: Mode)
        requires
            old(self).wf(),
        ensures
            final(self).wf(),
            final(self)@ == execute(old(self)@, Instruction::Inc, mode),
    {
        proof {
            reveal(execute);
        }
        self.step_memory(mode, true);
    }

    /// `DEC`: decrements memory; flags N, Z.
    pub fn dec(&mut self, mode: Mode)
        requires
            old(self).wf(),
        ensures
            final(self).wf(),
            final(self)@ == execute(old(self)@, Instruction::Dec, mode),
    {
        proof {
            reveal(execute);
        }
        self.step_memory(mode, false);
    }

    /// Increments, decrements or transfers a register by `ins`.
    fn register_op(&mut self, mode: Mode, ins: Instruction)
        requires
            old(self).wf(),
            ins == Instruction::Inx || ins == Instruction::Iny || ins == Instruction::Dex || ins
                == Instruction::Dey || ins == Instruction::Tax || ins == Instruction::Tay || ins
                == Instruction::Txa || ins == Instruction::Tya || ins == Instruction::Tsx,
        ensures
            final(self).wf(),
            final(self)@ == register_step(old(self)@, mode, ins),
    {
        let st = self.state;
        let value = match ins {
            Instruction::Inx => ((st.x as u16 + 1) % 256) as u8,
            Instruction::Iny => ((st.y as u16 + 1) % 256) as u8,
            Instruction::Dex => ((st.x as u16 + 255) % 256) as u8,
            Instruction::Dey => ((st.y as u16 + 255) % 256) as u8,
            Instruction::Tax | Instruction::Tay => st.a,
            Instruction::Txa => st.x,
            Instruction::Tya => st.y,
            _ => st.sp,
        };
        match ins {
            Instruction::Inx | Instruction::Dex | Instruction::Tax | Instruction::Tsx => {
                self.set_reg(Reg::X, value)
            },
            Instruction::Iny | Instruction::Dey | Instruction::Tay => self.set_reg(Reg::Y, value),
            _ => self.set_reg(Reg::A, value),
        }
        self.update_status(value, value, value, N_FLAG | Z_FLAG);
        self.advance(mode);
        self.update_cycles(2);
    }

    /// `INX`: increments X; flags N, Z.
    pub fn inx(&mut self, mode: Mode)
        requires
            old(self).wf(),
        ensures
            final(self).wf(),
            final(self)@ == execute(old(self)@, Instruction::Inx, mode),
    {
        proof {
            reveal(execute);
        }
        self.register_op(mode, Instruction::Inx);
    }

    /// `INY`: increments Y; flags N, Z.
    pub fn iny(&mut self, mode: Mode)
        requires
            old(self).wf(),
        ensures
            final(self).wf(),
            final(self)@ == execute(old(self)@, Instruction::Iny, mode),
    {
        proof {
            reveal(execute);
        }
        self.register_op(mode, Instruction::Iny);
    }

    /// `DEX`: decrements X; flags N, Z.
    pub fn dex(&mut self, mode: Mode)
        requires
            old(self).wf(),
        ensures
            final(self).wf(),
            final(self)@ == execute(old(self)@, Instruction::Dex, mode),
    {
        proof {
            reveal(execute);
        }
        self.register_op(mode, Instruction::Dex);
    }

    /// `DEY`: decrements Y; flags N, Z.
    pub fn dey(&mut self, mode: Mode)
        requires
            old(self).wf(),
        ensures
            final(self).wf(),
            final(self)@ == execute(old(self)@, Instruction::Dey, mode),
    {
        proof {
            reveal(execute);
        }
        self.register_op(mode, Instruction::Dey);
    }

    /// `TAX`: copies A to X; flags N, Z.
    pub fn tax(&mut self, mode: Mode)
        requires
            old(self).wf(),
        ensures
            final(self).wf(),
            final(self)@ == execute(old(self)@, Instruction::Tax, mode),
    {
        proof {
            reveal(execute);
        }
        self.register_op(mode, Instruction::Tax);
    }

    /// `TAY`: copies A to Y; flags N, Z.
    pub fn tay(&mut self, mode: Mode)
        requires
            old(self).wf(),
        ensures
            final(self).wf(),
            final(self)@ == execute(old(self)@, Instruction::Tay, mode),
    {
        proof {
            reveal(execute);
        }
        self.register_op(mode, Instruction::Tay);
    }

    /// `TXA`: copies X to A; flags N, Z.
    pub fn txa(&mut self, mode: Mode)
        requires
            old(self).wf(),
        ensures
            final(self).wf(),
            final(self)@ == execute(old(self)@, Instruction::Txa, mode),
    {
        proof {
            reveal(execute);
        }
        self.register_op(mode, Instruction::Txa);
    }

    /// `TYA`: copies Y to A; flags N, Z.
    pub fn tya(&mut self, mode: Mode)
        requires
            old(self).wf(),
        ensures
            final(self).wf(),
            final(self)@ == execute(old(self)@, Instruction::Tya, mode),
    {
        proof {
            reveal(execute);
        }
        self.register_op(mode, Instruction::Tya);
    }

    /// `TSX`: copies SP to X; flags N, Z.
    pub fn tsx(&mut self, mode: Mode)
        requires
            old(self).wf(),
        ensures
            final(self).wf(),
            final(self)@ == execute(old(self)@, Instruction::Tsx, mode),
    {
        proof {
            reveal(execute);
        }
        self.register_op(mode, Instruction::Tsx);
    }

    /// `TXS`: copies X to SP; no flags.
    pub fn txs(&mut self, mode: Mode)
        requires
            old(self).wf(),
        ensures
            final(self).wf(),
            final(self)@ == execute(old(self)@, Instruction::Txs, mode),
    {
        proof {
            reveal(execute);
        }
        self.state.sp = self.state.x;
        self.advance(mode);
        self.update_cycles(2);
    }

    /// Runs the handler of an instruction that moves or combines data.
    fn dispatch_data(&mut self, instruction: Instruction, mode: Mode)
        requires
            old(self).wf(),
            in_data_group(instruction),
        ensures
            final(self).wf(),
            final(self)@ == execute(old(self)@, instruction, mode),
    {
        match instruction {
            Instruction::Adc => self.adc(mode),
            Instruction::Sbc => self.sbc(mode),
            Instruction::And => self.and(mode),
            Instruction::Ora => self.ora(mode),
            Instruction::Eor => self.eor(mode),
            Instruction::Bit => self.bit(mode),
            Instruction::Lda => self.lda(mode),
            Instruction::Sta => self.sta(mode),
            _ => {},
        }
    }

    /// Runs the handler of a shift, a rotate or a compare.
    fn dispatch_shift_compare(&mut self, instruction: Instruction, mode: Mode)
        requires
            old(self).wf(),
            in_shift_compare_group(instruction),
        ensures
            final(self).wf(),
            final(self)@ == execute(old(self)@, instruction, mode),
    {
        match instruction {
            Instruction::Asl => self.asl(mode),
            Instruction::Lsr => self.lsr(mode),
            Instruction::Rol => self.rol(mode),
            Instruction::Ror => self.ror(mode),
            Instruction::Cmp => self.cmp(mode),
            Instruction::Cpx => self.cpx(mode),
            Instruction::Cpy => self.cpy(mode),
            Instruction::Dcp => self.dcp(mode),
            _ => {},
        }
    }

    /// Runs the handler of an index register load or store, `INC`, `DEC` or `TXS`.
    fn dispatch_load_store(&mut self, instruction: Instruction, mode: Mode)
        requires
            old(self).wf(),
            in_load_store_group(instruction),
        ensures
            final(self).wf(),
            final(self)@ == execute(old(self)@, instruction, mode),
    {
        match instruction {
            Instruction::Ldx => self.ldx(mode),
            Instruction::Ldy => self.ldy(mode),
            Instruction::Stx => self.stx(mode),
            Instruction::Sty => self.sty(mode),
            Instruction::Inc => self.inc(mode),
            Instruction::Dec => self.dec(mode),
            Instruction::Txs => self.txs(mode),
            _ => {},
        }
    }

    /// Runs the handler of a register increment, decrement or transfer.
    fn dispatch_register(&mut self, instruction: Instruction, mode: Mode)
        requires
            old(self).wf(),
            in_register_group(instruction),
        ensures
            final(self).wf(),
            final(self)@ == execute(old(self)@, instruction, mode),
    {
        match instruction {
            Instruction::Inx => self.inx(mode),
            Instruction::Iny => self.iny(mode),
            Instruction::Dex => self.dex(mode),
            Instruction::Dey => self.dey(mode),
            Instruction::Tax => self.tax(mode),
            Instruction::Tay => self.tay(mode),
            Instruction::Txa => self.txa(mode),
            Instruction::Tya => self.tya(mode),
            Instruction::Tsx => self.tsx(mode),
            _ => {},
        }
    }

    /// Runs the handler of a conditional branch.
    fn dispatch_branch(&mut self, instruction: Instruction, mode: Mode)
        requires
            old(self).wf(),
            in_branch_group(instruction),
        ensures
            final(self).wf(),
            final(self)@ == execute(old(self)@, instruction, mode),
    {
        match instruction {
            Instruction::Bcc => self.bcc(mode),
            Instruction::Bcs => self.bcs(mode),
            Instruction::Beq => self.beq(mode),
            Instruction::Bne => self.bne(mode),
            Instruction::Bmi => self.bmi(mode),
            Instruction::Bpl => self.bpl(mode),
            Instruction::Bvc => self.bvc(mode),
            Instruction::Bvs => self.bvs(mode),
            _ => {},
        }
    }

    /// Runs the handler of a flag instruction or `NOP`.
    fn dispatch_flag(&mut self, instruction: Instruction, mode: Mode)
        requires
            old(self).wf(),
            in_flag_group(instruction),
        ensures
            final(self).wf(),
            final(self)@ == execute(old(self)@, instruction, mode),
    {
        match instruction {
            Instruction::Clc => self.clc(mode),
            Instruction::Sec => self.sec(mode),
            Instruction::Cli => self.cli(mode),
            Instruction::Sei => self.sei(mode),
            Instruction::Clv => self.clv(mode),
            Instruction::Cld => self.cld(mode),
            Instruction::Sed => self.sed(mode),
            Instruction::Nop => self.nop(mode),
            _ => {},
        }
    }

    /// Runs the handler of a jump, a stack instruction or a trap.
    fn dispatch_control(&mut self, instruction: Instruction, mode: Mode)
        requires
            old(self).wf(),
            in_control_group(instruction),
        ensures
            final(self).wf(),
            final(self)@ == execute(old(self)@, instruction, mode),
    {
        match instruction {
            Instruction::Brk => self.brk(mode),
            Instruction::Jmp => self.jmp(mode),
            Instruction::Jsr => self.jsr(mode),
            Instruction::Rti => self.rti(mode),
            Instruction::Rts => self.rts(mode),
            Instruction::Pha => self.pha(mode),
            Instruction::Php => self.php(mode),
            Instruction::Pla => self.pla(mode),
            Instruction::Plp => self.plp(mode),
            _ => {},
        }
    }

    /// Runs the handler of `instruction`.
    fn dispatch(&mut self, instruction: Instruction, mode: Mode)
        requires
            old(self).wf(),
            instruction != Instruction::Jam,
        ensures
            final(self).wf(),
            final(self)@ == execute(old(self)@, instruction, mode),
    {
        match instruction {
            Instruction::Adc | Instruction::Sbc | Instruction::And | Instruction::Ora | Instruction::Eor | Instruction::Bit | Instruction::Lda | Instruction::Sta => {
                self.dispatch_data(instruction, mode)
            },
            Instruction::Asl | Instruction::Lsr | Instruction::Rol | Instruction::Ror
            | Instruction::Cmp | Instruction::Cpx | Instruction::Cpy | Instruction::Dcp => {
                self.dispatch_shift_compare(instruction, mode)
            },
            Instruction::Ldx | Instruction::Ldy | Instruction::Stx | Instruction::Sty | Instruction::Inc | Instruction::Dec | Instruction::Txs => {
                self.dispatch_load_store(instruction, mode)
            },
            Instruction::Inx | Instruction::Iny | Instruction::Dex | Instruction::Dey | Instruction::Tax | Instruction::Tay | Instruction::Txa | Instruction::Tya | Instruction::Tsx => {
                self.dispatch_register(instruction, mode)
            },
            Instruction::Bcc | Instruction::Bcs | Instruction::Beq | Instruction::Bne | Instruction::Bmi | Instruction::Bpl | Instruction::Bvc | Instruction::Bvs => {
                self.dispatch_branch(instruction, mode)
            },
            Instruction::Clc | Instruction::Sec | Instruction::Cli | Instruction::Sei | Instruction::Clv | Instruction::Cld | Instruction::Sed | Instruction::Nop => {
                self.dispatch_flag(instruction, mode)
            },
            Instruction::Brk | Instruction::Jmp | Instruction::Jsr | Instruction::Rti | Instruction::Rts | Instruction::Pha | Instruction::Php | Instruction::Pla | Instruction::Plp => {
                self.dispatch_control(instruction, mode)
            },
            Instruction::Jam => {},
        }
    }

    /// Executes one instruction: fetches the opcode at PC, decodes it and
    /// runs its handler. An opcode that locks the bus is reported as a
    /// fault and changes nothing.
    pub fn exec(&mut self) -> (r: Result<(), Fault>)
        requires
            old(self).wf(),
        ensures
            final(self).wf(),
            final(self)@ == step(old(self)@),
            r == (if decode_spec(old(self)@.read(old(self).state.pc as int)).0 == Instruction::Jam {
                Err(
                    Fault::Jam {
                        opcode: old(self)@.read(old(self).state.pc as int),
                        pc: old(self).state.pc,
                    },
                )
            } else {
                Ok(())
            }),
    {
        let pc = self.state.pc;
        let value = self.mem.read(pc);
        let (instruction, mode) = self.decode(value);
        if instruction == Instruction::Jam {
            proof {
                reveal(execute);
            }
            return Err(Fault::Jam { opcode: value, pc });
        }
        self.dispatch(instruction, mode);
        Ok(())
    }
}

/// `JSR` is opcode `0x20` and `RTS` is opcode `0x60`.
proof fn lemma_decode_jsr_rts()
    ensures
        decode_spec(0x20) == (Instruction::Jsr, Mode::Absolute),
        decode_spec(0x60) == (Instruction::Rts, Mode::Implied),
{
    reveal(decode_fields);
    assert((0x20u8 & 0b1110_0000) >> 5u8 == 1) by (bit_vector);
    assert((0x20u8 & 0b0001_1100) >> 2u8 == 0) by (bit_vector);
    assert(0x20u8 & 0b0000_0011 == 0) by (bit_vector);
    assert((0x60u8 & 0b1110_0000) >> 5u8 == 3) by (bit_vector);
    assert((0x60u8 & 0b0001_1100) >> 2u8 == 0) by (bit_vector);
    assert(0x60u8 & 0b0000_0011 == 0) by (bit_vector);
}

/// JSR/RTS round trip: a `JSR` at `m`, then any code that leaves the stack
/// pointer and the two bytes on top of the stack as the `JSR` left them,
/// then an `RTS`: execution resumes at the instruction right after the
/// `JSR`.
pub proof fn lemma_jsr_rts(m: Machine, later: Machine)
    requires
        m.wf(),
        later.wf(),
        m.read(m.state.pc as int) == 0x20,
        later.read(later.state.pc as int) == 0x60,
        later.state.sp == step(m).state.sp,
        later.pop_value() == step(m).pop_value(),
        later.popped().pop_value() == step(m).popped().pop_value(),
    ensures
        step(later).state.pc == wrap16(m.state.pc + 3),
{
    reveal(execute);
    lemma_decode_jsr_rts();
    let ret = return_address(m);
    let hi = (ret / 256) as u8;
    let lo = (ret % 256) as u8;
    let r = m.resolved(Mode::Absolute);
    let pushed_high = r.push(hi);
    let pushed_both = pushed_high.push(lo);
    let j = step(m);
    assert(j == pushed_both.jump(m.address_of(Mode::Absolute)).charge(4));
    let top0 = r.stack_top();
    let top1 = pushed_high.stack_top();
    vstd::arithmetic::div_mod::lemma_small_mod(top0 as nat, 0x800);
    vstd::arithmetic::div_mod::lemma_small_mod(top1 as nat, 0x800);
    assert(top0 != top1);
    assert(j.popped().stack_top() == top1);
    assert(j.pop_value() == lo);
    assert(j.popped().popped().stack_top() == top0);
    assert(j.popped().pop_value() == hi);
    assert(word(hi, lo) == ret);
    lemma_wrap16_add(m.state.pc + 2, 1);
}

/// Wrapping twice is wrapping once.
proof fn lemma_wrap16_add(x: int, k: int)
    ensures
        wrap16(wrap16(x) + k) == wrap16(x + k),
{
    vstd::arithmetic::div_mod::lemma_add_mod_noop(x, k, 0x10000);
    vstd::arithmetic::div_mod::lemma_mod_twice(k, 0x10000);
    vstd::arithmetic::div_mod::lemma_add_mod_noop(x % 0x10000, k, 0x10000);
    vstd::arithmetic::div_mod::lemma_mod_twice(x, 0x10000);
}

} // verus!
