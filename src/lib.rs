//! A MOS 6502 processor core as used in the NES: memory with mirroring,
//! registers and flag algebra, addressing modes, opcode decoding and the
//! instruction handlers, each stated against a mathematical machine model.
//!
//! Behaviour worth knowing:
//! - Reads below `0x2000` are folded into the 2KB RAM window; writes store
//!   at the literal address only, so a write into a mirror is not seen
//!   through the window.
//! - Every 16-bit value in memory is little-endian: instruction operands,
//!   pointers, and the reset and IRQ/BRK vectors.
//! - A relative branch is taken from the address of the branch itself.
//! - Every address computation wraps to 16 bits; the cycle counter wraps
//!   at 2^32.
//! - Opcodes the core does not execute lock the bus: `exec` reports them as
//!   `Fault::Jam` and changes nothing.

pub mod memory;
pub mod status;
pub mod base;
pub mod addressing;
pub mod opcodes;
pub mod handlers;
pub mod alu;
pub mod nes;
pub mod assembler;
pub mod program;
pub mod debug;
