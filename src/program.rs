//! Assembling a program text, loading it at `ROM_START`, and running it
//! until it stops.

use vstd::prelude::*;
use vstd::utf8::encode_utf8;
use crate::assembler::{assemble, assemble_text};
use crate::base::{Machine, Processor, State};
use crate::memory::{loaded, MEMORY_MAX, RESET_VECTOR, ROM_START};
use crate::handlers::{execute, step};
use crate::opcodes::{decode_spec, Fault, Instruction};

verus! {

/// The opcode that ends a program run (`BRK`).
pub const STOP_OPCODE: u8 = 0x00;

/// Why a program run did not finish normally.
#[derive(Copy, Clone, Debug, PartialEq, Eq, Structural)]
pub enum ProgramError {
    /// A line of the text does not assemble.
    Syntax,
    /// The program does not fit between `ROM_START` and the end of memory.
    TooLong,
    /// Execution faulted.
    Fault(Fault),
}

/// Runs from `m` until a stop: the opcode at PC is `BRK`, an opcode locks
/// the bus, an instruction leaves PC where it was, PC moves backwards (a
/// loop), or PC reaches `end`.
pub open spec fn run_until_stop(m: Machine, end: int) -> (Machine, Result<(), Fault>)
    decreases 0x10000 - m.state.pc,
{
    let opcode = m.read(m.state.pc as int);
    if opcode == STOP_OPCODE {
        (m, Ok(()))
    } else if decode_spec(opcode).0 == Instruction::Jam {
        (m, Err(Fault::Jam { opcode, pc: m.state.pc }))
    } else {
        let next = step(m);
        if next.state.pc == m.state.pc {
            (next, Err(Fault::Stalled { pc: m.state.pc }))
        } else if next.state.pc < m.state.pc || next.state.pc >= end || next.state.pc
            >= 0x10000 {
            (next, Ok(()))
        } else {
            run_until_stop(next, end)
        }
    }
}

/// `m` with `program` loaded at `ROM_START`, the reset vector pointing
/// there, and the processor reset.
pub open spec fn booted(m: Machine, program: Seq<u8>) -> Machine {
    let ram = loaded(
        loaded(m.ram, ROM_START as int, program),
        RESET_VECTOR as int,
        seq![0x00u8, 0x80u8],
    );
    Machine { ram, state: State { pc: ROM_START, sp: 0xFF, ..m.state }, ..m }
}

impl Processor {
    /// Runs until a stop, as `run_until_stop` describes.
    pub fn run_until_stop(&mut self, end: usize) -> (r: Result<(), Fault>)
        requires
            old(self).wf(),
        ensures
            final(self).wf(),
            (final(self)@, r) == run_until_stop(old(self)@, end as int),
    {
        loop
            invariant
                self.wf(),
                run_until_stop(old(self)@, end as int) == run_until_stop(self@, end as int),
            decreases 0x10000 - self.state.pc,
        {
            let old_pc = self.state.pc;
            let value = self.mem.read(old_pc);
            if value == STOP_OPCODE {
                return Ok(());
            }
            match self.exec() {
                Ok(()) => {},
                Err(fault) => {
                    proof {
                        reveal(execute);
                    }
                    return Err(fault);
                },
            }
            if self.state.pc == old_pc {
                return Err(Fault::Stalled { pc: old_pc });
            }
            // A backward jump closes a loop.
            if self.state.pc < old_pc || self.state.pc >= end {
                return Ok(());
            }
        }
    }

    /// Assembles `text`, loads it at `ROM_START`, points the reset vector
    /// there, resets, and runs until a stop.
    pub fn run_program(&mut self, text: &String) -> (r: Result<(), ProgramError>)
        requires
            old(self).wf(),
        ensures
            final(self).wf(),
            match assemble_text(encode_utf8(text@)) {
                None => r == Err::<(), ProgramError>(ProgramError::Syntax) && final(self)@
                    == old(self)@,
                Some(program) => if program.len() > MEMORY_MAX - ROM_START {
                    r == Err::<(), ProgramError>(ProgramError::TooLong) && final(self)@ == old(
                        self,
                    )@
                } else {
                    let (m, outcome) = run_until_stop(
                        booted(old(self)@, program),
                        ROM_START + program.len(),
                    );
                    &&& final(self)@ == m
                    &&& r == match outcome {
                        Ok(()) => Ok(()),
                        Err(fault) => Err(ProgramError::Fault(fault)),
                    }
                },
            },
    {
        let program = match assemble(text) {
            Some(p) => p,
            None => {
                return Err(ProgramError::Syntax);
            },
        };
        if program.len() > MEMORY_MAX - ROM_START {
            return Err(ProgramError::TooLong);
        }
        let reset_vector = [(ROM_START % 256) as u8, (ROM_START / 256) as u8];
        self.mem.load(ROM_START, program.as_slice());
        self.mem.load(RESET_VECTOR, &reset_vector);
        assert(reset_vector@ =~= seq![0x00u8, 0x80u8]);
        self.reset();
        match self.run_until_stop(ROM_START + program.len()) {
            Ok(()) => Ok(()),
            Err(fault) => Err(ProgramError::Fault(fault)),
        }
    }
}

} // verus!
