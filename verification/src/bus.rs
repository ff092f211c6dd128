//! The flat 64 KiB memory bus that the processor drives.
use vstd::prelude::*;

verus! {

/// Number of addressable bytes: the full 16-bit address space.
pub const RAM_SIZE: usize = 0x10000;

/// A flat 65 536-byte random-access memory. Every 16-bit address is backed,
/// so reads and writes always succeed.
pub struct Bus {
    pub ram: Vec<u8>,
}

impl Bus {
    /// The bus is well formed when it backs the whole 16-bit address space.
    pub open spec fn wf(&self) -> bool {
        self.ram@.len() == RAM_SIZE
    }

    /// A bus whose memory is cleared to zero.
    pub fn new() -> (r: Bus)
        ensures
            r.wf(),
            forall|i: int| 0 <= i < RAM_SIZE ==> r.ram@[i] == 0u8,
    {
        let ram: Vec<u8> = vec![0u8; RAM_SIZE];
        Bus { ram }
    }

    /// Stores `data` at `ram[addr]`; always succeeds.
    pub fn write(&mut self, addr: u16, data: u8)
        requires
            old(self).wf(),
        ensures
            final(self).wf(),
            final(self).ram@ == old(self).ram@.update(addr as int, data),
    {
        self.ram.set(addr as usize, data);
    }

    /// Returns `ram[addr]`. The `read_only` hint exists for the
    /// disassembler; for plain RAM it has no effect.
    pub fn read(&self, addr: u16, read_only: bool) -> (r: u8)
        requires
            self.wf(),
        ensures
            r == self.ram@[addr as int],
    {
        let _ = read_only;
        self.ram[addr as usize]
    }
}

} // verus!
