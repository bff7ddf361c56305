//! The console around the processor: iNES cartridge images, mapping the
//! PRG-ROM into memory, and a bounded run.

use vstd::prelude::*;
use vstd::slice::{slice_subrange, slice_to_vec};
use vstd::string::StringExecFns;
use crate::base::{Machine, Processor, State};
use crate::memory::{loaded, MEMORY_MAX, RESET_VECTOR, ROM_START};
use crate::handlers::{execute, step};
use crate::opcodes::{decode_spec, Fault, Instruction};

verus! {

/// PRG-ROM comes in units of 16KB.
pub const PRG_ROM_UNIT_SIZE: usize = 16384;

/// Size of the iNES header.
pub const HEADER_BYTE_SIZE: usize = 16;

/// An optional 512-byte trainer sits between the header and the PRG-ROM.
pub const TRAINER_BYTE_SIZE: usize = 512;

/// Instructions `Nes::run` executes at most.
pub const RUN_LIMIT: usize = 10001;

/// The text `String::from_utf8_lossy` makes of `bytes`.
pub uninterp spec fn lossy_text(bytes: Seq<u8>) -> Seq<char>;

/// Relies on `String::from_utf8_lossy`: decodes `bytes`, replacing invalid
/// sequences; the text depends on the bytes alone.
#[verifier::external_body]
fn lossy_utf8(bytes: &[u8]) -> (r: String)
    ensures
        r@ == lossy_text(bytes@),
{
    String::from_utf8_lossy(bytes).into_owned()
}

/// Where the PRG-ROM of an iNES image starts: after the header, and after
/// the trainer when bit 2 of header byte 6 is set.
pub open spec fn rom_start(data: Seq<u8>) -> int {
    HEADER_BYTE_SIZE + if data[6] & 0b0000_0100 != 0 {
        TRAINER_BYTE_SIZE as int
    } else {
        0
    }
}

/// PRG-ROM size of an iNES image: header byte 4 counts 16KB units.
pub open spec fn rom_size(data: Seq<u8>) -> int {
    data[4] * PRG_ROM_UNIT_SIZE
}

/// The image holds its header bytes and the whole PRG-ROM it announces.
pub open spec fn image_complete(data: Seq<u8>) -> bool {
    data.len() >= 7 && rom_start(data) + rom_size(data) <= data.len()
}

/// Why a cartridge image was refused.
#[derive(Copy, Clone, Debug, PartialEq, Eq, Structural)]
pub enum CartridgeError {
    /// The image is shorter than its header says.
    Truncated,
}

/// A cartridge: the magic of its header and its PRG-ROM.
pub struct Cartridge {
    pub header: String,
    pub rom: Vec<u8>,
}

impl Cartridge {
    pub fn new() -> (c: Cartridge)
        ensures
            c.header@ == "empty"@,
            c.rom@.len() == 0,
    {
        Cartridge { header: String::from_str("empty"), rom: Vec::new() }
    }

    /// Reads an iNES image: the 3-byte magic and the PRG-ROM. A truncated
    /// image is refused and leaves the cartridge as it was.
    pub fn load(&mut self, data: &Vec<u8>) -> (r: Result<(), CartridgeError>)
        ensures
            r is Ok <==> image_complete(data@),
            r is Ok ==> final(self).header@ == lossy_text(data@.take(3)) && final(self).rom@
                == data@.subrange(rom_start(data@), rom_start(data@) + rom_size(data@)),
            r is Err ==> *final(self) == *old(self),
    {
        if data.len() < 7 {
            return Err(CartridgeError::Truncated);
        }
        let control_byte_1 = data[6];
        let rom_start: usize = if control_byte_1 & 0b0000_0100 != 0 {
            HEADER_BYTE_SIZE + TRAINER_BYTE_SIZE
        } else {
            HEADER_BYTE_SIZE
        };
        let rom_size = data[4] as usize * PRG_ROM_UNIT_SIZE;
        if rom_size > data.len() || rom_start > data.len() - rom_size {
            return Err(CartridgeError::Truncated);
        }
        let rom_end = rom_start + rom_size;
        let bytes = data.as_slice();
        self.header = lossy_utf8(slice_subrange(bytes, 0, 3));
        self.rom = slice_to_vec(slice_subrange(bytes, rom_start, rom_end));
        Ok(())
    }
}

/// The console: a cartridge and the processor that runs it.
pub struct Nes {
    pub cartridge: Cartridge,
    pub cpu: Processor,
}

/// Memory after mapping `rom` at `ROM_START` (and, for a ROM of at most
/// 16KB, again at `ROM_START + 16KB`) and writing `start` into the reset
/// vector.
pub open spec fn mapped(ram: Seq<u8>, rom: Seq<u8>, start: int) -> Seq<u8> {
    let once = loaded(ram, ROM_START as int, rom);
    let both = if rom.len() <= PRG_ROM_UNIT_SIZE {
        loaded(once, ROM_START + PRG_ROM_UNIT_SIZE, rom)
    } else {
        once
    };
    loaded(both, RESET_VECTOR as int, seq![(start % 256) as u8, ((start / 256) % 256) as u8])
}

/// Up to `n` steps from `m`, stopping at an opcode that locks the bus.
pub open spec fn run_steps(m: Machine, n: nat) -> (Machine, Result<(), Fault>)
    decreases n,
{
    if n == 0 {
        (m, Ok(()))
    } else if decode_spec(m.read(m.state.pc as int)).0 == Instruction::Jam {
        (m, Err(Fault::Jam { opcode: m.read(m.state.pc as int), pc: m.state.pc }))
    } else {
        run_steps(step(m), (n - 1) as nat)
    }
}

impl Nes {
    pub fn new(cpu: Processor) -> (n: Nes)
        ensures
            n.cpu == cpu,
            n.cartridge.header@ == "empty"@,
            n.cartridge.rom@.len() == 0,
    {
        Nes { cpu, cartridge: Cartridge::new() }
    }

    /// Maps the cartridge's PRG-ROM, points the reset vector at `reset_pc`
    /// (by default `ROM_START`) and resets the processor.
    pub fn reset(&mut self, reset_pc: Option<usize>)
        requires
            old(self).cpu.wf(),
            old(self).cartridge.rom@.len() <= MEMORY_MAX - ROM_START,
        ensures
            final(self).cpu.wf(),
            final(self).cartridge == old(self).cartridge,
            final(self).cpu.cycles == old(self).cpu.cycles,
            ({
                let start = match reset_pc {
                    Some(pc) => pc as int,
                    None => ROM_START as int,
                };
                &&& final(self).cpu.mem@ == mapped(
                    old(self).cpu.mem@,
                    old(self).cartridge.rom@,
                    start,
                )
                &&& final(self).cpu.state == State {
                    pc: (start % 0x10000) as usize,
                    sp: 0xFF,
                    ..old(self).cpu.state
                }
            }),
    {
        let start = match reset_pc {
            Some(pc) => pc,
            None => ROM_START,
        };
        let reset_vector = [(start % 256) as u8, ((start / 256) % 256) as u8];
        let rom = self.cartridge.rom.as_slice();
        self.cpu.mem.load(ROM_START, rom);
        if rom.len() <= PRG_ROM_UNIT_SIZE {
            // A ROM of at most 16KB is mapped at 0xC000 too.
            self.cpu.mem.load(ROM_START + PRG_ROM_UNIT_SIZE, rom);
        }
        self.cpu.mem.load(RESET_VECTOR, &reset_vector);
        proof {
            let s = start as u64;
            assert(((s / 256) % 256) * 256 + s % 256 == s % 65536) by (bit_vector);
            assert(reset_vector@ =~= seq![(start % 256) as u8, ((start / 256) % 256) as u8]);
        }
        self.cpu.reset();
    }

    /// Executes up to `RUN_LIMIT` instructions, stopping early at an
    /// opcode that locks the bus.
    pub fn run(&mut self) -> (r: Result<(), Fault>)
        requires
            old(self).cpu.wf(),
        ensures
            final(self).cpu.wf(),
            final(self).cartridge == old(self).cartridge,
            (final(self).cpu@, r) == run_steps(old(self).cpu@, RUN_LIMIT as nat),
    {
        let mut limit: usize = RUN_LIMIT;
        while limit > 0
            invariant
                self.cpu.wf(),
                self.cartridge == old(self).cartridge,
                run_steps(old(self).cpu@, RUN_LIMIT as nat) == run_steps(self.cpu@, limit as nat),
            decreases limit,
        {
            match self.cpu.exec() {
                Ok(()) => {},
                Err(fault) => {
                    proof {
                        reveal(execute);
                    }
                    return Err(fault);
                },
            }
            limit = limit - 1;
        }
        Ok(())
    }
}

} // verus!
