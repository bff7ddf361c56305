//! The 64KB address space, with reads below `0x2000` mirrored into the
//! 2KB RAM window.

use vstd::prelude::*;

verus! {

/// Size of the address space.
pub const MEMORY_MAX: usize = 0x10000;

/// Size of the internal RAM window that the low addresses mirror.
pub const RAM_TOP: usize = 0x800;

/// Reads below this address are mirrored into the RAM window.
pub const MIRROR_TOP: usize = 0x2000;

/// First address past the zero page; also the base of the stack page.
pub const ZERO_PAGE_TOP: usize = 0x100;

/// First address past the stack page.
pub const STACK_TOP: usize = 0x200;

/// Little-endian address loaded into PC on reset.
pub const RESET_VECTOR: usize = 0xFFFC;

/// Little-endian address jumped to by `BRK`.
pub const IRQ_VECTOR: usize = 0xFFFE;

/// Where cartridge program code is loaded.
pub const ROM_START: usize = 0x8000;

/// The byte a read of `address` sees in the cells `ram`: below `MIRROR_TOP`
/// the address is folded into the RAM window.
pub open spec fn mirrored_read(ram: Seq<u8>, address: int) -> u8 {
    if address < MIRROR_TOP {
        ram[address % (RAM_TOP as int)]
    } else {
        ram[address]
    }
}

/// The cells `ram` with `data` copied over them from `address` on.
pub open spec fn loaded(ram: Seq<u8>, address: int, data: Seq<u8>) -> Seq<u8> {
    Seq::new(
        ram.len(),
        |i: int|
            if address <= i < address + data.len() {
                data[i - address]
            } else {
                ram[i]
            },
    )
}

/// The 64KB address space.
pub struct Memory {
    ram: Vec<u8>,
}

impl View for Memory {
    type V = Seq<u8>;

    closed spec fn view(&self) -> Seq<u8> {
        self.ram@
    }
}

impl Memory {
    /// A memory holds exactly `MEMORY_MAX` cells.
    pub open spec fn wf(&self) -> bool {
        self@.len() == MEMORY_MAX
    }

    /// A zero-filled address space.
    pub fn new() -> (m: Memory)
        ensures
            m.wf(),
            m@ == Seq::new(MEMORY_MAX as nat, |i: int| 0u8),
    {
        let ram: Vec<u8> = vec![0u8; MEMORY_MAX];
        let m = Memory { ram };
        assert(m@ =~= Seq::new(MEMORY_MAX as nat, |i: int| 0u8));
        m
    }

    /// Stores `value` at the literal `address`; mirrors are not updated.
    pub fn write(&mut self, address: usize, value: u8)
        requires
            old(self).wf(),
            address < MEMORY_MAX,
        ensures
            final(self).wf(),
            final(self)@ == old(self)@.update(address as int, value),
    {
        self.ram.set(address, value);
    }

    /// The byte at `address`, folded into the RAM window below `MIRROR_TOP`.
    pub fn read(&self, address: usize) -> (r: u8)
        requires
            self.wf(),
            address < MEMORY_MAX,
        ensures
            r == mirrored_read(self@, address as int),
    {
        if address < MIRROR_TOP {
            return self.ram[address % RAM_TOP];
        }
        self.ram[address]
    }

    /// Copies `data` into memory starting at `address`.
    pub fn load(&mut self, address: usize, data: &[u8])
        requires
            old(self).wf(),
            address + data@.len() <= MEMORY_MAX,
        ensures
            final(self).wf(),
            final(self)@ == loaded(old(self)@, address as int, data@),
    {
        let ghost start = self.ram@;
        let mut i: usize = 0;
        while i < data.len()
            invariant
                address + data@.len() <= MEMORY_MAX,
                self.ram.len() == MEMORY_MAX,
                i <= data@.len(),
                self.ram@ =~= loaded(start, address as int, data@.take(i as int)),
            decreases data@.len() - i,
        {
            self.ram.set(address + i, data[i]);
            i = i + 1;
            assert(self.ram@ =~= loaded(start, address as int, data@.take(i as int)));
        }
        assert(data@.take(i as int) =~= data@);
    }
}

/// Reads below `MIRROR_TOP` see the RAM window: whatever was written
/// before, `address` and `address % RAM_TOP` read the same byte.
pub proof fn lemma_mirror(mem: &Memory, address: int)
    requires
        0 <= address < MIRROR_TOP,
    ensures
        mirrored_read(mem@, address) == mirrored_read(mem@, address % (RAM_TOP as int)),
{
    let w = address % (RAM_TOP as int);
    assert(0 <= w < RAM_TOP);
    vstd::arithmetic::div_mod::lemma_small_mod(w as nat, RAM_TOP as nat);
}

} // verus!
