use vstd::prelude::*;

use crate::cpu::CPU;
use crate::memory::{add16, add8, wrapping_add8, Memory};

verus! {

/// How an instruction locates its operand.
#[derive(Debug, Clone, Copy, PartialEq, Eq)]
pub enum AddressingModes {
    Implicit,
    Accumulator,
    Relative,
    Immediate,
    ZeroPage,
    ZeroPageX,
    ZeroPageY,
    Absolute,
    AbsoluteX,
    AbsoluteY,
    Indirect,
    IndexedIndirectX,
    IndirectIndexedY,
}

/// Whether adding `index` to the low byte of `base` carries into the high byte.
pub open spec fn crosses_page(base: u16, index: u8) -> bool {
    base % 256 + index > 255
}

/// Address of the high byte of an indirect jump's target: the next address,
/// except that a pointer at the end of a page wraps to the start of the same
/// page (the processor never carries into the pointer's high byte).
pub open spec fn indirect_high_address(pointer: u16) -> u16 {
    if pointer % 256 == 0xFF {
        (pointer - 0xFF) as u16
    } else {
        add16(pointer, 1)
    }
}

/// `base + index`, wrapping, and whether the addition crossed a page.
fn indexed(base: u16, index: u8) -> (r: (u16, bool))
    ensures
        r == (add16(base, index as int), crosses_page(base, index)),
{
    (base.wrapping_add(index as u16), base % 256 + index as u16 > 255)
}

/// Zero page, optionally indexed (wrapping within the page).
fn resolve_zero_page<M: Memory>(mode: &AddressingModes, cpu: &mut CPU<M>) -> (r: u16)
    requires
        *mode is ZeroPage || *mode is ZeroPageX || *mode is ZeroPageY,
    ensures
        (r, false, *final(cpu)) == mode.address_spec(*old(cpu)),
{
    let b = cpu.mapper.read_u8(cpu.program_counter);
    match mode {
        AddressingModes::ZeroPageX => wrapping_add8(b, cpu.register_x) as u16,
        AddressingModes::ZeroPageY => wrapping_add8(b, cpu.register_y) as u16,
        _ => b as u16,
    }
}

/// Absolute, optionally indexed (wrapping at the top of memory).
fn resolve_absolute<M: Memory>(mode: &AddressingModes, cpu: &mut CPU<M>) -> (r: (u16, bool))
    requires
        *mode is Absolute || *mode is AbsoluteX || *mode is AbsoluteY,
    ensures
        (r.0, r.1, *final(cpu)) == mode.address_spec(*old(cpu)),
{
    let base = cpu.mapper.read_u16(cpu.program_counter);
    match mode {
        AddressingModes::AbsoluteX => indexed(base, cpu.register_x),
        AddressingModes::AbsoluteY => indexed(base, cpu.register_y),
        _ => (base, false),
    }
}

/// Indexed indirect: the zero-page pointer is indexed by X before use.
fn resolve_indexed_indirect_x<M: Memory>(cpu: &mut CPU<M>) -> (r: u16)
    ensures
        (r, false, *final(cpu)) == AddressingModes::IndexedIndirectX.address_spec(*old(cpu)),
{
    let b = cpu.mapper.read_u8(cpu.program_counter);
    cpu.mapper.zero_page_read_u16(wrapping_add8(b, cpu.register_x))
}

/// Indirect indexed: the address read through the zero-page pointer is
/// indexed by Y.
fn resolve_indirect_indexed_y<M: Memory>(cpu: &mut CPU<M>) -> (r: (u16, bool))
    ensures
        (r.0, r.1, *final(cpu)) == AddressingModes::IndirectIndexedY.address_spec(*old(cpu)),
{
    let b = cpu.mapper.read_u8(cpu.program_counter);
    let base = cpu.mapper.zero_page_read_u16(b);
    indexed(base, cpu.register_y)
}

/// The target of an indirect jump, with the page-wrap of its pointer.
fn resolve_indirect<M: Memory>(cpu: &mut CPU<M>) -> (r: u16)
    ensures
        (r, false, *final(cpu)) == AddressingModes::Indirect.address_spec(*old(cpu)),
{
    let pointer = cpu.mapper.read_u16(cpu.program_counter);
    let high_address = if pointer % 256 == 0xFF {
        pointer - 0xFF
    } else {
        pointer.wrapping_add(1)
    };
    let low = cpu.mapper.read_u8(pointer);
    let high = cpu.mapper.read_u8(high_address);
    low as u16 + 256 * high as u16
}

impl AddressingModes {
    /// Modes that designate a memory location.
    pub open spec fn has_address(self) -> bool {
        !(self is Implicit || self is Accumulator)
    }

    /// The effective address of the operand, whether indexing crossed a page,
    /// and the state after the reads that took, with the program counter at
    /// the instruction's first operand byte.
    pub open spec fn address_spec<M: Memory>(self, s: CPU<M>) -> (u16, bool, CPU<M>) {
        let pc = s.program_counter;
        match self {
            AddressingModes::ZeroPage => {
                let (b, s1) = s.read_spec(pc);
                (b as u16, false, s1)
            },
            AddressingModes::ZeroPageX => {
                let (b, s1) = s.read_spec(pc);
                (add8(b, s.register_x as int) as u16, false, s1)
            },
            AddressingModes::ZeroPageY => {
                let (b, s1) = s.read_spec(pc);
                (add8(b, s.register_y as int) as u16, false, s1)
            },
            AddressingModes::Absolute => {
                let (w, s1) = s.read_word_spec(pc);
                (w, false, s1)
            },
            AddressingModes::AbsoluteX => {
                let (w, s1) = s.read_word_spec(pc);
                (add16(w, s.register_x as int), crosses_page(w, s.register_x), s1)
            },
            AddressingModes::AbsoluteY => {
                let (w, s1) = s.read_word_spec(pc);
                (add16(w, s.register_y as int), crosses_page(w, s.register_y), s1)
            },
            AddressingModes::Indirect => {
                let (pointer, s1) = s.read_word_spec(pc);
                let (low, s2) = s1.read_spec(pointer);
                let (high, s3) = s2.read_spec(indirect_high_address(pointer));
                (crate::memory::word(low, high), false, s3)
            },
            AddressingModes::IndexedIndirectX => {
                let (b, s1) = s.read_spec(pc);
                let p = add8(b, s.register_x as int);
                let (w, s2) = s1.read_zero_page_word_spec(p);
                (w, false, s2)
            },
            AddressingModes::IndirectIndexedY => {
                let (b, s1) = s.read_spec(pc);
                let (w, s2) = s1.read_zero_page_word_spec(b);
                (add16(w, s.register_y as int), crosses_page(w, s.register_y), s2)
            },
            _ => (pc, false, s),
        }
    }

    /// The operand byte and the state after reading it: the accumulator in
    /// accumulator mode, else the byte at the effective address.
    pub open spec fn operand_spec<M: Memory>(self, s: CPU<M>) -> (u8, bool, CPU<M>) {
        if self is Accumulator {
            (s.register_a, false, s)
        } else {
            let (address, crossed, s1) = self.address_spec(s);
            let (v, s2) = s1.read_spec(address);
            (v, crossed, s2)
        }
    }

    /// Resolves the effective address and the page-crossing flag together.
    pub fn resolve<M: Memory>(&self, cpu: &mut CPU<M>) -> (r: (u16, bool))
        requires
            self.has_address(),
        ensures
            (r.0, r.1, *final(cpu)) == self.address_spec(*old(cpu)),
    {
        match self {
            AddressingModes::ZeroPage | AddressingModes::ZeroPageX | AddressingModes::ZeroPageY => {
                (resolve_zero_page(self, cpu), false)
            },
            AddressingModes::Absolute | AddressingModes::AbsoluteX | AddressingModes::AbsoluteY => {
                resolve_absolute(self, cpu)
            },
            AddressingModes::Indirect => (resolve_indirect(cpu), false),
            AddressingModes::IndexedIndirectX => (resolve_indexed_indirect_x(cpu), false),
            AddressingModes::IndirectIndexedY => resolve_indirect_indexed_y(cpu),
            // Immediate and relative operands are the bytes at the program counter.
            _ => (cpu.program_counter, false),
        }
    }

    /// The effective address of the operand.
    pub fn get_operand_address<M: Memory>(&self, cpu: &mut CPU<M>) -> (r: u16)
        requires
            self.has_address(),
        ensures
            r == self.address_spec(*old(cpu)).0,
            *final(cpu) == self.address_spec(*old(cpu)).2,
    {
        self.resolve(cpu).0
    }

    /// The operand byte: the accumulator in accumulator mode, else the byte at
    /// the effective address.
    pub fn get_operand<M: Memory>(&self, cpu: &mut CPU<M>) -> (r: u8)
        requires
            !(self is Implicit),
        ensures
            r == self.operand_spec(*old(cpu)).0,
            *final(cpu) == self.operand_spec(*old(cpu)).2,
    {
        self.read_operand(cpu).0
    }

    /// The operand byte and whether indexing crossed a page.
    pub fn read_operand<M: Memory>(&self, cpu: &mut CPU<M>) -> (r: (u8, bool))
        requires
            !(self is Implicit),
        ensures
            (r.0, r.1, *final(cpu)) == self.operand_spec(*old(cpu)),
    {
        match self {
            AddressingModes::Accumulator => (cpu.register_a, false),
            _ => {
                let (address, crossed) = self.resolve(cpu);
                (cpu.mapper.read_u8(address), crossed)
            },
        }
    }

    /// Whether indexing crosses a page: only for absolute-X, absolute-Y and
    /// indirect-indexed-Y, when adding the index to the low byte of the base
    /// address carries.
    pub fn is_page_crossed<M: Memory>(&self, cpu: &mut CPU<M>) -> (r: bool)
        ensures
            r == (self.has_address() && self.address_spec(*old(cpu)).1),
            self.has_address() ==> *final(cpu) == self.address_spec(*old(cpu)).2,
            !self.has_address() ==> *final(cpu) == *old(cpu),
    {
        if matches!(self, AddressingModes::Implicit | AddressingModes::Accumulator) {
            false
        } else {
            self.resolve(cpu).1
        }
    }
}

} // verus!
