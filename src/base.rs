//! Registers, the processor, its mathematical model, and the stack.

use vstd::prelude::*;
use crate::memory::{mirrored_read, Memory, MEMORY_MAX, RESET_VECTOR, ZERO_PAGE_TOP};
use crate::status::{generic_status, generic_update};

verus! {

/// A register that `get_reg` and `set_reg` can name (`S` is the status byte).
pub enum Reg {
    A,
    X,
    Y,
    S,
}

/// The programmer-visible registers.
#[derive(Copy, Clone)]
pub struct State {
    pub a: u8,
    pub sp: u8,
    pub pc: usize,
    pub x: u8,
    pub y: u8,
    pub status: u8,
}

/// A processor: memory, registers and the count of clock cycles spent.
pub struct Processor {
    pub mem: Memory,
    pub state: State,
    pub cycles: u32,
}

/// The mathematical model of a processor.
pub struct Machine {
    pub state: State,
    pub ram: Seq<u8>,
    pub cycles: u32,
}

/// `x` reduced to the 16-bit address space.
pub open spec fn wrap16(x: int) -> int {
    x % 0x10000
}

/// The cycle counter `c` advanced by `k`; it wraps at 2^32.
pub open spec fn add_cycles(c: u32, k: int) -> u32 {
    ((c + k) % 0x1_0000_0000) as u32
}

/// Stack pointer after a push: decrement, `0x00` wrapping to `0xFF`.
pub open spec fn sp_after_push(sp: u8) -> u8 {
    if sp == 0 {
        0xFF
    } else {
        (sp - 1) as u8
    }
}

/// Stack pointer before a pop reads: increment, `0xFF` wrapping to `0x00`.
pub open spec fn sp_after_pop(sp: u8) -> u8 {
    if sp == 0xFF {
        0
    } else {
        (sp + 1) as u8
    }
}

/// The 16-bit value of a high and a low byte.
pub open spec fn word(high: u8, low: u8) -> int {
    high * 256 + low
}

impl Machine {
    /// Full address space and a program counter inside it.
    pub open spec fn wf(self) -> bool {
        self.ram.len() == MEMORY_MAX && self.state.pc < MEMORY_MAX
    }

    pub open spec fn read(self, address: int) -> u8 {
        mirrored_read(self.ram, address)
    }

    pub open spec fn write(self, address: int, value: u8) -> Machine {
        Machine { ram: self.ram.update(address, value), ..self }
    }

    pub open spec fn charge(self, k: int) -> Machine {
        Machine { cycles: add_cycles(self.cycles, k), ..self }
    }

    pub open spec fn with_state(self, state: State) -> Machine {
        Machine { state, ..self }
    }

    pub open spec fn jump(self, pc: int) -> Machine {
        self.with_state(State { pc: pc as usize, ..self.state })
    }

    pub open spec fn with_status(self, status: u8) -> Machine {
        self.with_state(State { status, ..self.state })
    }

    pub open spec fn with_a(self, a: u8) -> Machine {
        self.with_state(State { a, ..self.state })
    }

    pub open spec fn with_x(self, x: u8) -> Machine {
        self.with_state(State { x, ..self.state })
    }

    pub open spec fn with_y(self, y: u8) -> Machine {
        self.with_state(State { y, ..self.state })
    }

    pub open spec fn stack_top(self) -> int {
        ZERO_PAGE_TOP + self.state.sp
    }

    /// Writes `value` at the stack top, then moves the stack pointer down.
    pub open spec fn push(self, value: u8) -> Machine {
        let written = self.write(self.stack_top(), value);
        written.with_state(State { sp: sp_after_push(self.state.sp), ..self.state })
    }

    /// The machine after a pop: the stack pointer moved up.
    pub open spec fn popped(self) -> Machine {
        self.with_state(State { sp: sp_after_pop(self.state.sp), ..self.state })
    }

    /// The byte a pop returns: the one at the new stack top.
    pub open spec fn pop_value(self) -> u8 {
        self.popped().read(self.popped().stack_top())
    }

    /// The little-endian 16-bit word stored at `address`.
    pub open spec fn vector(self, address: int) -> int {
        word(self.read(address + 1), self.read(address))
    }
}

impl View for Processor {
    type V = Machine;

    open spec fn view(&self) -> Machine {
        Machine { state: self.state, ram: self.mem@, cycles: self.cycles }
    }
}

impl Processor {
    /// The memory holds the whole address space and PC lies inside it.
    pub open spec fn wf(&self) -> bool {
        self.mem.wf() && self@.wf()
    }

    /// A processor with cleared registers over `mem`, or over zeroed memory.
    pub fn new(mem: Option<Memory>) -> (p: Processor)
        requires
            mem matches Some(m) ==> m.wf(),
        ensures
            p.wf(),
            p.state == (State { a: 0, sp: 0, pc: 0, x: 0, y: 0, status: 0 }),
            p.cycles == 0,
            p.mem@ == match mem {
                Some(m) => m@,
                None => Seq::new(MEMORY_MAX as nat, |i: int| 0u8),
            },
    {
        let state = State { a: 0, sp: 0, pc: 0, x: 0, y: 0, status: 0 };
        let mem = match mem {
            Some(m) => m,
            None => Memory::new(),
        };
        Processor { mem, state, cycles: 0 }
    }

    pub fn get_pc(&self) -> (r: usize)
        ensures
            r == self.state.pc,
    {
        self.state.pc
    }

    /// Address of the next free stack cell.
    pub fn stack_top(&self) -> (r: usize)
        ensures
            r == self@.stack_top(),
    {
        ZERO_PAGE_TOP + self.state.sp as usize
    }

    /// Writes `value` at the stack top, then decrements SP (`0x00` wraps to `0xFF`).
    pub fn stack_push(&mut self, value: u8)
        requires
            old(self).wf(),
        ensures
            final(self).wf(),
            final(self)@ == old(self)@.push(value),
    {
        let top = self.stack_top();
        self.mem.write(top, value);
        self.state.sp = if self.state.sp == 0 {
            0xff
        } else {
            self.state.sp - 1
        };
    }

    /// Increments SP (`0xFF` wraps to `0x00`), then reads the new stack top.
    pub fn stack_pop(&mut self) -> (r: u8)
        requires
            old(self).wf(),
        ensures
            final(self).wf(),
            final(self)@ == old(self)@.popped(),
            r == old(self)@.pop_value(),
    {
        self.state.sp = if self.state.sp == 0xff {
            0
        } else {
            self.state.sp + 1
        };
        let top = self.stack_top();
        self.mem.read(top)
    }

    /// Moves PC by `delta`, wrapping within the 16-bit address space.
    pub fn update_pc(&mut self, delta: i32)
        requires
            old(self).wf(),
        ensures
            final(self).wf(),
            final(self)@ == old(self)@.jump(wrap16(old(self).state.pc + delta)),
    {
        let pc = self.state.pc as i64;
        let d = delta as i64;
        let q = d / 0x10000;
        let r = d - q * 0x10000;
        let next = (pc + r + 0x10000) % 0x10000;
        proof {
            lemma_wrap16_shift(pc + r, q as int);
            lemma_wrap16_shift(pc + r, 1);
            assert(pc + r + 0x10000 * q == pc + d);
        }
        self.state.pc = next as usize;
    }

    /// Sets PC to `address`.
    pub fn jump(&mut self, address: usize)
        requires
            old(self).wf(),
            address < MEMORY_MAX,
        ensures
            final(self).wf(),
            final(self)@ == old(self)@.jump(address as int),
    {
        self.state.pc = address;
    }

    pub fn get_reg(&self, reg: Reg) -> (r: u8)
        ensures
            r == match reg {
                Reg::A => self.state.a,
                Reg::X => self.state.x,
                Reg::Y => self.state.y,
                Reg::S => self.state.status,
            },
    {
        match reg {
            Reg::X => self.state.x,
            Reg::Y => self.state.y,
            Reg::A => self.state.a,
            Reg::S => self.state.status,
        }
    }

    pub fn set_reg(&mut self, reg: Reg, value: u8)
        ensures
            final(self).mem == old(self).mem,
            final(self).cycles == old(self).cycles,
            final(self).state == match reg {
                Reg::A => State { a: value, ..old(self).state },
                Reg::X => State { x: value, ..old(self).state },
                Reg::Y => State { y: value, ..old(self).state },
                Reg::S => State { status: value, ..old(self).state },
            },
    {
        match reg {
            Reg::X => self.state.x = value,
            Reg::Y => self.state.y = value,
            Reg::A => self.state.a = value,
            Reg::S => self.state.status = value,
        };
    }

    /// Adds `cycles` to the cycle counter, wrapping at 2^32.
    pub fn update_cycles(&mut self, cycles: u32)
        ensures
            final(self)@ == old(self)@.charge(cycles as int),
            final(self).mem == old(self).mem,
    {
        self.cycles = charged(self.cycles, cycles);
    }

    /// Generic status update of the flags in `flags` from `m`, `n`, `result`.
    pub fn update_status(&mut self, m: u8, n: u8, result: u8, flags: u8)
        ensures
            final(self)@ == old(self)@.with_status(
                generic_status(old(self).state.status, m, n, result, flags),
            ),
            final(self).mem == old(self).mem,
    {
        self.state.status = generic_update(self.state.status, m, n, result, flags);
    }

    /// Loads PC from the little-endian reset vector and sets SP to `0xFF`.
    pub fn reset(&mut self)
        requires
            old(self).wf(),
        ensures
            final(self).wf(),
            final(self)@ == old(self)@.with_state(
                State {
                    pc: old(self)@.vector(RESET_VECTOR as int) as usize,
                    sp: 0xFF,
                    ..old(self).state
                },
            ),
    {
        self.state.pc = self.read_vector(RESET_VECTOR);
        self.state.sp = 0xff;
    }

    /// The little-endian word stored at `address`.
    pub fn read_vector(&self, address: usize) -> (r: usize)
        requires
            self.wf(),
            address + 1 < MEMORY_MAX,
        ensures
            r == self@.vector(address as int),
            r < MEMORY_MAX,
    {
        let lower = self.mem.read(address) as usize;
        let upper = self.mem.read(address + 1) as usize;
        upper * 256 + lower
    }
}

/// The counter `cycles` advanced by `k`, wrapping at 2^32.
pub fn charged(cycles: u32, k: u32) -> (r: u32)
    ensures
        r == add_cycles(cycles, k as int),
{
    ((cycles as u64 + k as u64) % 0x1_0000_0000) as u32
}

/// Adding whole multiples of `0x10000` does not move a wrapped address.
pub proof fn lemma_wrap16_shift(x: int, k: int)
    ensures
        wrap16(x + 0x10000 * k) == wrap16(x),
{
    vstd::arithmetic::div_mod::lemma_mod_multiples_vanish(k, x, 0x10000);
    assert(0x10000 * k + x == x + 0x10000 * k);
}

/// Stack round trip: a pop right after `push(v)` returns `v` and restores
/// the stack pointer; the pointer wraps from `0x00` to `0xFF` on a push and
/// from `0xFF` to `0x00` on a pop.
pub proof fn lemma_stack_round_trip(m: Machine, v: u8)
    requires
        m.wf(),
    ensures
        m.push(v).pop_value() == v,
        m.push(v).popped().state == m.state,
        m.push(v).popped().ram == m.ram.update(m.stack_top(), v),
        m.state.sp == 0 ==> m.push(v).state.sp == 0xFF,
        m.state.sp == 0xFF ==> m.popped().state.sp == 0,
{
    let top = m.stack_top();
    vstd::arithmetic::div_mod::lemma_small_mod(top as nat, 0x800);
}

} // verus!
