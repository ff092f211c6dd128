//! The processor itself: registers, instruction scratch state, and the bus
//! it owns, together with the small accessors that the addressing modes
//! and operations build on.
use vstd::prelude::*;
use crate::bus::Bus;
use crate::bus::RAM_SIZE;
use crate::flags::FLAGS6502;
use crate::flags::flag_mask;
use crate::flags::spec_get_flag;
use crate::flags::spec_set_flag;
use crate::isa::Mode;
use crate::isa::lookup;
use crate::model::CpuModel;
use crate::model::m_read;
use crate::model::m_set_flag;
use crate::model::m_write;
use crate::model::spec_pop;
use crate::model::spec_push;

verus! {

/// The MOS 6502 processor with the bus it drives.
pub struct cpu6502 {
    pub a: u8,
    pub x: u8,
    pub y: u8,
    pub stkp: u8,
    pub pc: u16,
    pub status: u8,
    pub fetched: u8,
    pub addr_abs: u16,
    pub addr_rel: u16,
    pub opcode: u8,
    pub cycles: u8,
    pub bus: Bus,
    pub clock_count: u32,
    pub temp: u16,
}

impl View for cpu6502 {
    type V = CpuModel;

    open spec fn view(&self) -> CpuModel {
        CpuModel {
            a: self.a,
            x: self.x,
            y: self.y,
            stkp: self.stkp,
            pc: self.pc,
            status: self.status,
            fetched: self.fetched,
            addr_abs: self.addr_abs,
            addr_rel: self.addr_rel,
            opcode: self.opcode,
            cycles: self.cycles,
            clock_count: self.clock_count,
            temp: self.temp,
            ram: self.bus.ram@,
        }
    }
}

/// Fetching the operand byte: when the addressing mode of the current
/// opcode is not implied, read it from the resolved effective address;
/// the implied mode has already placed the accumulator in `fetched`.
pub open spec fn spec_fetch(m: CpuModel) -> (CpuModel, u8) {
    if crate::isa::spec_instr(m.opcode).mode == Mode::IMP {
        (m, m.fetched)
    } else {
        let v = m_read(m, m.addr_abs);
        (CpuModel { fetched: v, ..m }, v)
    }
}

impl cpu6502 {
    /// The processor is well formed when its bus is.
    pub open spec fn wf(&self) -> bool {
        self.bus.wf()
    }

    /// A processor with all registers zero, no cycles pending, and cleared
    /// memory.
    pub fn new() -> (r: cpu6502)
        ensures
            r.wf(),
            r@.a == 0 && r@.x == 0 && r@.y == 0 && r@.stkp == 0,
            r@.pc == 0 && r@.status == 0,
            r@.fetched == 0 && r@.addr_abs == 0 && r@.addr_rel == 0,
            r@.opcode == 0 && r@.cycles == 0 && r@.clock_count == 0 && r@.temp == 0,
            forall|i: int| 0 <= i < RAM_SIZE ==> r@.ram[i] == 0u8,
    {
        cpu6502 {
            a: 0,
            x: 0,
            y: 0,
            stkp: 0,
            pc: 0,
            status: 0,
            fetched: 0,
            addr_abs: 0,
            addr_rel: 0,
            opcode: 0,
            cycles: 0,
            bus: Bus::new(),
            clock_count: 0,
            temp: 0,
        }
    }

    /// Returns the value (0 or 1) of one status flag.
    pub fn get_flag(&self, f: FLAGS6502) -> (r: u8)
        ensures
            r == spec_get_flag(self.status, f),
    {
        if (self.status & flag_mask(f)) > 0 {
            1
        } else {
            0
        }
    }

    /// Sets or clears exactly one status flag.
    pub fn set_flag(&mut self, f: FLAGS6502, v: bool)
        ensures
            final(self)@ == m_set_flag(old(self)@, f, v),
            final(self).wf() == old(self).wf(),
    {
        if v {
            self.status = self.status | flag_mask(f);
        } else {
            self.status = self.status & !flag_mask(f);
        }
    }

    /// Reads one byte of bus memory.
    pub fn read(&mut self, address: u16) -> (r: u8)
        requires
            old(self).wf(),
        ensures
            *final(self) == *old(self),
            r == m_read(old(self)@, address),
    {
        self.bus.read(address, false)
    }

    /// Writes one byte of bus memory.
    pub fn write(&mut self, address: u16, value: u8)
        requires
            old(self).wf(),
        ensures
            final(self).wf(),
            final(self)@ == m_write(old(self)@, address, value),
    {
        self.bus.write(address, value)
    }

    /// Pushes one byte onto the hardware stack; the stack grows downward
    /// and the stack pointer wraps within the stack page.
    pub fn stack_push(&mut self, v: u8)
        requires
            old(self).wf(),
        ensures
            final(self).wf(),
            final(self)@ == spec_push(old(self)@, v),
    {
        self.write(0x0100u16 + self.stkp as u16, v);
        self.stkp = self.stkp.wrapping_sub(1);
    }

    /// Pops one byte off the hardware stack.
    pub fn stack_pop(&mut self) -> (r: u8)
        requires
            old(self).wf(),
        ensures
            final(self).wf(),
            (final(self)@, r) == spec_pop(old(self)@),
    {
        self.stkp = self.stkp.wrapping_add(1);
        self.read(0x0100u16 + self.stkp as u16)
    }

    /// Fetches the operand byte of the current instruction into `fetched`
    /// and returns it.
    pub fn fetch(&mut self) -> (r: u8)
        requires
            old(self).wf(),
        ensures
            final(self).wf(),
            (final(self)@, r) == spec_fetch(old(self)@),
    {
        if !(lookup(self.opcode).mode == Mode::IMP) {
            self.fetched = self.read(self.addr_abs);
        }
        self.fetched
    }

    /// True exactly when the previous instruction has fully retired.
    pub fn complete(&mut self) -> (r: bool)
        ensures
            *final(self) == *old(self),
            r == (old(self)@.cycles == 0),
    {
        self.cycles == 0
    }

    /// Replaces the bus the processor drives.
    pub fn connect_bus(&mut self, bus: Bus)
        ensures
            final(self).bus == bus,
            final(self).a == old(self).a && final(self).x == old(self).x
                && final(self).y == old(self).y && final(self).stkp == old(self).stkp
                && final(self).pc == old(self).pc && final(self).status == old(self).status
                && final(self).fetched == old(self).fetched
                && final(self).addr_abs == old(self).addr_abs
                && final(self).addr_rel == old(self).addr_rel
                && final(self).opcode == old(self).opcode
                && final(self).cycles == old(self).cycles
                && final(self).clock_count == old(self).clock_count
                && final(self).temp == old(self).temp,
    {
        self.bus = bus
    }
}

} // verus!
