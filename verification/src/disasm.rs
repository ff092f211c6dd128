//! The disassembler: a reader-only walk over a memory range that yields
//! an address-keyed mapping of formatted instruction lines, so a caller
//! can look up the line for any program-counter value and iterate its
//! neighbours for a windowed view.
use std::collections::BTreeMap;
use vstd::prelude::*;
use crate::cpu::cpu6502;
use crate::hex::push_hex2;
use crate::hex::push_hex4;
use crate::hex::spec_hex2;
use crate::hex::spec_hex4;
use crate::isa::Mode;
use crate::isa::lookup;
use crate::isa::opcode_name;
use crate::isa::spec_instr;
use crate::isa::spec_opcode_name;
use crate::model::wadd16;

verus! {

broadcast use vstd::laws_cmp::group_laws_cmp;

/// How many operand bytes an addressing mode takes after the opcode.
pub open spec fn spec_operand_len(mode: Mode) -> int {
    match mode {
        Mode::IMP => 0,
        Mode::IMM => 1,
        Mode::ZP0 => 1,
        Mode::ZPX => 1,
        Mode::ZPY => 1,
        Mode::REL => 1,
        Mode::ABS => 2,
        Mode::ABX => 2,
        Mode::ABY => 2,
        Mode::IND => 2,
        Mode::IZX => 1,
        Mode::IZY => 1,
    }
}

/// Executable counterpart of [`spec_operand_len`].
pub fn operand_len(mode: Mode) -> (r: usize)
    ensures
        r == spec_operand_len(mode),
{
    match mode {
        Mode::IMP => 0,
        Mode::IMM => 1,
        Mode::ZP0 => 1,
        Mode::ZPX => 1,
        Mode::ZPY => 1,
        Mode::REL => 1,
        Mode::ABS => 2,
        Mode::ABX => 2,
        Mode::ABY => 2,
        Mode::IND => 2,
        Mode::IZX => 1,
        Mode::IZY => 1,
    }
}

/// The formatted line of the instruction whose opcode sits at
/// `line_addr`: the address, the mnemonic, the operand rendered after
/// its addressing mode, and the mode tag in braces. Operand bytes are
/// read with 16-bit address wrap.
pub open spec fn spec_disasm_line(ram: Seq<u8>, line_addr: u16) -> Seq<char> {
    let opcode = ram[line_addr as int];
    let instr = spec_instr(opcode);
    let o1 = ram[(line_addr + 1) % 0x10000];
    let o2 = ram[(line_addr + 2) % 0x10000];
    let word = ((o2 as u16) << 8) | (o1 as u16);
    let prefix = "$"@ + spec_hex4(line_addr) + ": "@ + spec_opcode_name(opcode) + " "@;
    match instr.mode {
        Mode::IMP => prefix + " {IMP}"@,
        Mode::IMM => prefix + "#$"@ + spec_hex2(o1) + " {IMM}"@,
        Mode::ZP0 => prefix + "$"@ + spec_hex2(o1) + " {ZP0}"@,
        Mode::ZPX => prefix + "$"@ + spec_hex2(o1) + " {ZPX}"@,
        Mode::ZPY => prefix + "$"@ + spec_hex2(o1) + ", Y {ZPY}"@,
        Mode::IZX => prefix + "($"@ + spec_hex2(o1) + ", X) {IZX}"@,
        Mode::IZY => prefix + "($"@ + spec_hex2(o1) + ", Y) {IZY}"@,
        Mode::ABS => prefix + "$"@ + spec_hex4(word) + " {ABS}"@,
        Mode::ABX => prefix + "$"@ + spec_hex4(word) + ", X {ABX}"@,
        Mode::ABY => prefix + "$"@ + spec_hex4(word) + ", Y {ABY}"@,
        Mode::IND => prefix + "$("@ + spec_hex4(word) + ") {IND}"@,
        Mode::REL => prefix + "$["@ + spec_hex4(wadd16(wadd16(line_addr, 2), o1 as u16))
            + "] {REL}"@,
    }
}

/// The set of line addresses the scan from `a` to `stop` records: each
/// instruction's own address, advancing past its operand bytes.
pub open spec fn spec_disasm_addr_set(ram: Seq<u8>, a: int, stop: int) -> Set<u16>
    decreases stop + 1 - a,
{
    if a > stop {
        Set::empty()
    } else {
        let next = a + 1 + spec_operand_len(spec_instr(ram[a % 0x10000]).mode);
        let clamped = if next > stop + 1 {
            stop + 1
        } else {
            next
        };
        spec_disasm_addr_set(ram, clamped, stop).insert((a % 0x10000) as u16)
    }
}

impl cpu6502 {
    /// Disassembles the memory range from `start` to `stop` inclusive
    /// into a mapping from each instruction's address to its formatted
    /// line. Uses read-only bus access and leaves the processor
    /// untouched.
    pub fn disassemble(&mut self, start: u16, stop: u16) -> (r: BTreeMap<u16, String>)
        requires
            old(self).wf(),
        ensures
            *final(self) == *old(self),
            r@.dom() == spec_disasm_addr_set(old(self)@.ram, start as int, stop as int),
            forall|k: u16| #[trigger]
                r@.contains_key(k) ==> r@[k]@ == spec_disasm_line(old(self)@.ram, k),
    {
        let ghost ram = self@.ram;
        let mut map_lines: BTreeMap<u16, String> = BTreeMap::new();
        let mut addr: u32 = start as u32;
        while addr <= stop as u32
            invariant
                self.wf(),
                *self == *old(self),
                ram == self@.ram,
                start as u32 <= addr,
                addr == start as u32 || addr <= stop as u32 + 3,
                map_lines@.dom().union(spec_disasm_addr_set(ram, addr as int, stop as int))
                    == spec_disasm_addr_set(ram, start as int, stop as int),
                forall|k: u16| #[trigger]
                    map_lines@.contains_key(k) ==> map_lines@[k]@ == spec_disasm_line(ram, k),
            decreases vstd::math::max(stop as int + 1 - addr as int, 0),
        {
            let ghost dom0 = map_lines@.dom();
            let ghost addr0 = addr as int;
            let line_addr: u16 = (addr % 0x10000) as u16;
            let opcode = self.bus.read(line_addr, true);
            let instr = lookup(opcode);

            let mut s = String::new();
            s.append("$");
            push_hex4(&mut s, line_addr);
            s.append(": ");
            s.append(opcode_name(opcode));
            s.append(" ");
            match instr.mode {
                Mode::IMP => {
                    s.append(" {IMP}");
                },
                Mode::IMM => {
                    s.append("#$");
                    let o1 = self.bus.read(line_addr.wrapping_add(1), true);
                    push_hex2(&mut s, o1);
                    s.append(" {IMM}");
                },
                Mode::ZP0 => {
                    s.append("$");
                    let o1 = self.bus.read(line_addr.wrapping_add(1), true);
                    push_hex2(&mut s, o1);
                    s.append(" {ZP0}");
                },
                Mode::ZPX => {
                    s.append("$");
                    let o1 = self.bus.read(line_addr.wrapping_add(1), true);
                    push_hex2(&mut s, o1);
                    s.append(" {ZPX}");
                },
                Mode::ZPY => {
                    s.append("$");
                    let o1 = self.bus.read(line_addr.wrapping_add(1), true);
                    push_hex2(&mut s, o1);
                    s.append(", Y {ZPY}");
                },
                Mode::IZX => {
                    s.append("($");
                    let o1 = self.bus.read(line_addr.wrapping_add(1), true);
                    push_hex2(&mut s, o1);
                    s.append(", X) {IZX}");
                },
                Mode::IZY => {
                    s.append("($");
                    let o1 = self.bus.read(line_addr.wrapping_add(1), true);
                    push_hex2(&mut s, o1);
                    s.append(", Y) {IZY}");
                },
                Mode::ABS => {
                    s.append("$");
                    let o1 = self.bus.read(line_addr.wrapping_add(1), true);
                    let o2 = self.bus.read(line_addr.wrapping_add(2), true);
                    push_hex4(&mut s, ((o2 as u16) << 8) | (o1 as u16));
                    s.append(" {ABS}");
                },
                Mode::ABX => {
                    s.append("$");
                    let o1 = self.bus.read(line_addr.wrapping_add(1), true);
                    let o2 = self.bus.read(line_addr.wrapping_add(2), true);
                    push_hex4(&mut s, ((o2 as u16) << 8) | (o1 as u16));
                    s.append(", X {ABX}");
                },
                Mode::ABY => {
                    s.append("$");
                    let o1 = self.bus.read(line_addr.wrapping_add(1), true);
                    let o2 = self.bus.read(line_addr.wrapping_add(2), true);
                    push_hex4(&mut s, ((o2 as u16) << 8) | (o1 as u16));
                    s.append(", Y {ABY}");
                },
                Mode::IND => {
                    s.append("$(");
                    let o1 = self.bus.read(line_addr.wrapping_add(1), true);
                    let o2 = self.bus.read(line_addr.wrapping_add(2), true);
                    push_hex4(&mut s, ((o2 as u16) << 8) | (o1 as u16));
                    s.append(") {IND}");
                },
                Mode::REL => {
                    s.append("$[");
                    let o1 = self.bus.read(line_addr.wrapping_add(1), true);
                    push_hex4(&mut s, line_addr.wrapping_add(2).wrapping_add(o1 as u16));
                    s.append("] {REL}");
                },
            }
            proof {
                assert(s@ =~= spec_disasm_line(ram, line_addr));
            }

            let adv = operand_len(instr.mode);
            map_lines.insert(line_addr, s);
            addr = addr + 1 + adv as u32;
            proof {
                let next = addr0 + 1 + spec_operand_len(spec_instr(ram[addr0 % 0x10000]).mode);
                let clamped = if next > stop as int + 1 {
                    stop as int + 1
                } else {
                    next
                };
                assert(map_lines@.dom() =~= dom0.insert(line_addr));
                assert(spec_disasm_addr_set(ram, addr0, stop as int) == spec_disasm_addr_set(
                    ram,
                    clamped,
                    stop as int,
                ).insert(line_addr));
                assert(spec_disasm_addr_set(ram, addr as int, stop as int)
                    == spec_disasm_addr_set(ram, clamped, stop as int));
                assert(map_lines@.dom().union(spec_disasm_addr_set(ram, addr as int, stop as int))
                    =~= dom0.union(spec_disasm_addr_set(ram, addr0, stop as int)));
            }
        }
        proof {
            assert(map_lines@.dom().union(
                spec_disasm_addr_set(ram, addr as int, stop as int),
            ) == map_lines@.dom());
            assert(map_lines@.dom() =~= map_lines@.dom().union(
                spec_disasm_addr_set(ram, addr as int, stop as int),
            ));
        }
        map_lines
    }
}

} // verus!
