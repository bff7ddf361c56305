//! The thirteen addressing modes: effective addresses and their cycle cost.

use vstd::prelude::*;
use crate::base::{charged, word, wrap16, lemma_wrap16_shift, Machine, Processor};
use crate::memory::MEMORY_MAX;

verus! {

/// The thirteen 6502 addressing modes.
#[derive(Copy, Clone, Debug, PartialEq, Eq, Structural)]
pub enum Mode {
    ZeroPage,
    Absolute,
    Accumulator,
    Immediate,
    Implied,
    Indirect,
    IndexedY,
    IndexedX,
    ZeroPageX,
    ZeroPageY,
    AbsoluteX,
    AbsoluteY,
    Relative,
}

/// `from` and `to` lie on different 256-byte pages.
pub open spec fn page_crossed(from: int, to: int) -> bool {
    from / 256 != to / 256
}

/// One extra cycle when a page boundary is crossed.
pub open spec fn page_penalty(from: int, to: int) -> int {
    if page_crossed(from, to) {
        1
    } else {
        0
    }
}

/// A byte read as a two's complement displacement.
pub open spec fn signed_byte(b: u8) -> int {
    if b < 128 {
        b as int
    } else {
        b - 256
    }
}

/// Bytes an instruction occupies in the given mode.
pub open spec fn mode_len(mode: Mode) -> int {
    match mode {
        Mode::Absolute | Mode::AbsoluteX | Mode::AbsoluteY | Mode::Indirect => 3,
        Mode::ZeroPage
        | Mode::ZeroPageX
        | Mode::ZeroPageY
        | Mode::IndexedX
        | Mode::IndexedY
        | Mode::Relative
        | Mode::Immediate => 2,
        Mode::Accumulator | Mode::Implied => 1,
    }
}

impl Machine {
    /// The byte `k` places after the opcode.
    pub open spec fn operand_byte(self, k: int) -> u8 {
        self.read(wrap16(self.state.pc + k))
    }

    /// The two-byte operand, low byte first.
    pub open spec fn operand_word(self) -> int {
        word(self.operand_byte(2), self.operand_byte(1))
    }

    /// The pointer stored in the zero page at `z`, low byte first; the
    /// high byte wraps within the zero page.
    pub open spec fn zero_page_pointer(self, z: int) -> int {
        word(self.read((z + 1) % 256), self.read(z))
    }

    /// The effective address that `mode` resolves to (for `Accumulator`, the
    /// accumulator's value), and the cycles that resolving it costs.
    pub open spec fn resolve(self, mode: Mode) -> (int, int) {
        let pc = self.state.pc as int;
        let b1 = self.operand_byte(1);
        match mode {
            Mode::Accumulator => (self.state.a as int, 0),
            Mode::Absolute => (self.operand_word(), 2),
            Mode::AbsoluteX => {
                let address = wrap16(self.operand_word() + self.state.x);
                (address, 2 + page_penalty(self.operand_word(), address))
            },
            Mode::AbsoluteY => {
                let address = wrap16(self.operand_word() + self.state.y);
                (address, 2 + page_penalty(self.operand_word(), address))
            },
            Mode::Immediate => (wrap16(pc + 1), 0),
            Mode::Implied => (0, 1),
            Mode::Indirect => {
                let pointer = self.operand_word();
                (word(self.read(wrap16(pointer + 1)), self.read(pointer)), 5)
            },
            Mode::IndexedX => (self.zero_page_pointer((b1 + self.state.x) % 256), 4),
            Mode::IndexedY => {
                let pointer = self.zero_page_pointer(b1 as int);
                let address = wrap16(pointer + self.state.y);
                (address, 3 + page_penalty(pointer, address))
            },
            Mode::Relative => {
                let address = wrap16(pc + signed_byte(b1));
                (address, 1 + page_penalty(pc, address))
            },
            Mode::ZeroPage => (b1 as int, 1),
            Mode::ZeroPageX => ((b1 + self.state.x) % 256, 2),
            Mode::ZeroPageY => ((b1 + self.state.y) % 256, 2),
        }
    }

    /// The effective address of `mode`.
    pub open spec fn address_of(self, mode: Mode) -> int {
        self.resolve(mode).0
    }

    /// The machine after paying for resolving `mode`.
    pub open spec fn resolved(self, mode: Mode) -> Machine {
        self.charge(self.resolve(mode).1)
    }

    /// PC moved past an instruction of the given mode.
    pub open spec fn advance(self, mode: Mode) -> Machine {
        self.jump(wrap16(self.state.pc + mode_len(mode)))
    }
}

/// Bytes an instruction occupies in the given mode.
pub fn opcode_len(mode: Mode) -> (r: i32)
    ensures
        r == mode_len(mode),
{
    match mode {
        Mode::Absolute | Mode::AbsoluteX | Mode::AbsoluteY | Mode::Indirect => 3,
        Mode::ZeroPage
        | Mode::ZeroPageX
        | Mode::ZeroPageY
        | Mode::IndexedX
        | Mode::IndexedY
        | Mode::Relative
        | Mode::Immediate => 2,
        _ => 1,
    }
}

/// Every mode resolves inside the address space.
pub proof fn lemma_resolve_in_range(m: Machine, mode: Mode)
    ensures
        0 <= m.address_of(mode) < MEMORY_MAX,
{
}

impl Processor {
    /// The byte `k` places after the opcode.
    fn operand_byte(&self, k: usize) -> (r: u8)
        requires
            self.wf(),
            k <= 2,
        ensures
            r == self@.operand_byte(k as int),
    {
        self.mem.read((self.state.pc + k) % 0x10000)
    }

    /// The word whose low byte is at `low_at` and high byte at `high_at`.
    fn read_word(&self, low_at: usize, high_at: usize) -> (r: usize)
        requires
            self.wf(),
            low_at < MEMORY_MAX,
            high_at < MEMORY_MAX,
        ensures
            r == word(self@.read(high_at as int), self@.read(low_at as int)),
    {
        let high = self.mem.read(high_at) as usize;
        let low = self.mem.read(low_at) as usize;
        high * 256 + low
    }

    /// Resolves `mode` to its effective address (for `Accumulator`, the
    /// accumulator's value) and charges the cycles that resolving costs.
    pub fn lookup(&mut self, mode: Mode) -> (r: usize)
        requires
            old(self).wf(),
        ensures
            final(self).wf(),
            r == old(self)@.address_of(mode),
            r < MEMORY_MAX,
            final(self)@ == old(self)@.resolved(mode),
    {
        proof {
            lemma_resolve_in_range(self@, mode);
        }
        let pc = self.state.pc;
        match mode {
            Mode::Accumulator => self.state.a as usize,
            Mode::Absolute => {
                self.cycles = charged(self.cycles, 2);
                self.read_word((pc + 1) % 0x10000, (pc + 2) % 0x10000)
            },
            Mode::AbsoluteX => {
                let base = self.read_word((pc + 1) % 0x10000, (pc + 2) % 0x10000);
                let address = (base + self.state.x as usize) % 0x10000;
                let cost = if base / 256 != address / 256 {
                    3
                } else {
                    2
                };
                self.cycles = charged(self.cycles, cost);
                address
            },
            Mode::AbsoluteY => {
                let base = self.read_word((pc + 1) % 0x10000, (pc + 2) % 0x10000);
                let address = (base + self.state.y as usize) % 0x10000;
                let cost = if base / 256 != address / 256 {
                    3
                } else {
                    2
                };
                self.cycles = charged(self.cycles, cost);
                address
            },
            Mode::Immediate => (pc + 1) % 0x10000,
            Mode::Implied => {
                self.cycles = charged(self.cycles, 1);
                0
            },
            Mode::Indirect => {
                self.cycles = charged(self.cycles, 5);
                let pointer = self.read_word((pc + 1) % 0x10000, (pc + 2) % 0x10000);
                self.read_word(pointer, (pointer + 1) % 0x10000)
            },
            Mode::IndexedX => {
                self.cycles = charged(self.cycles, 4);
                let z = (self.operand_byte(1) as usize + self.state.x as usize) % 256;
                self.read_word(z, (z + 1) % 256)
            },
            Mode::IndexedY => {
                let z = self.operand_byte(1) as usize;
                let pointer = self.read_word(z, (z + 1) % 256);
                let address = (pointer + self.state.y as usize) % 0x10000;
                // Crossing into the next page costs a cycle.
                let cost = if pointer / 256 != address / 256 {
                    4
                } else {
                    3
                };
                self.cycles = charged(self.cycles, cost);
                address
            },
            Mode::Relative => {
                // The displacement is a signed byte.
                let offset = self.operand_byte(1);
                let address = if offset < 128 {
                    (pc + offset as usize) % 0x10000
                } else {
                    proof {
                        lemma_wrap16_shift(pc + offset - 256, 1);
                    }
                    (pc + 0x10000 + offset as usize - 256) % 0x10000
                };
                let cost = if pc / 256 != address / 256 {
                    2
                } else {
                    1
                };
                self.cycles = charged(self.cycles, cost);
                address
            },
            Mode::ZeroPage => {
                self.cycles = charged(self.cycles, 1);
                self.operand_byte(1) as usize
            },
            Mode::ZeroPageX => {
                self.cycles = charged(self.cycles, 2);
                (self.operand_byte(1) as usize + self.state.x as usize) % 256
            },
            Mode::ZeroPageY => {
                self.cycles = charged(self.cycles, 2);
                (self.operand_byte(1) as usize + self.state.y as usize) % 256
            },
        }
    }
}

} // verus!
