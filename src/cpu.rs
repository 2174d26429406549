use vstd::prelude::*;

pub mod addressing_modes;
pub mod instructions;
pub mod mappers;
pub mod stack;

use crate::cpu::instructions::{
    advance_spec, decode, execute_opcode_spec, run_spec, step_spec, Instruction, InstructionResult,
    Mnemonic, BRK_OPCODE,
};
use crate::memory::{add16, add8, word, Memory};

verus! {

pub const STATUS_FLAG_NEGATIVE: u8 = 0b1000_0000;

pub const STATUS_FLAG_OVERFLOW: u8 = 0b0100_0000;

/// Bit 5: unused, reads as 1 in every copy of the status pushed or pulled.
pub const STATUS_FLAG_UNUSED: u8 = 0b0010_0000;

pub const STATUS_FLAG_BREAK_COMMAND: u8 = 0b0001_0000;

pub const STATUS_FLAG_DECIMAL: u8 = 0b0000_1000;

pub const STATUS_FLAG_INTERRUPT_DISABLE: u8 = 0b0000_0100;

pub const STATUS_FLAG_ZERO: u8 = 0b0000_0010;

pub const STATUS_FLAG_CARRY: u8 = 0b0000_0001;

/// Where the stack page starts.
pub const STACK_BASE: u16 = 0x0100;

/// Where `reset` reads the start address.
pub const RESET_VECTOR: u16 = 0xFFFC;

/// Where `BRK` reads the interrupt service address.
pub const INTERRUPT_VECTOR: u16 = 0xFFFE;

/// Where `load_and_run` places a program.
pub const PROGRAM_ORIGIN: u16 = 0x8000;

/// Whether the flag(s) of `mask` are set in `status`.
pub open spec fn flag(status: u8, mask: u8) -> bool {
    status & mask != 0
}

/// `status` with the flag(s) of `mask` set when `on`, cleared otherwise.
pub open spec fn with_flag(status: u8, mask: u8, on: bool) -> u8 {
    if on {
        status | mask
    } else {
        status & !mask
    }
}

/// `status` with zero and negative set from `value`: zero iff `value` is 0,
/// negative iff bit 7 of `value` is 1.
pub open spec fn zero_negative(status: u8, value: u8) -> u8 {
    with_flag(with_flag(status, STATUS_FLAG_ZERO, value == 0), STATUS_FLAG_NEGATIVE, value & 0x80 != 0)
}

/// Updating zero and negative from the same byte twice in a row gives the
/// same status as updating them once.
pub proof fn lemma_zero_negative_idempotent(status: u8, value: u8)
    ensures
        zero_negative(zero_negative(status, value), value) == zero_negative(status, value),
{
    let z = value == 0;
    let n = value & 0x80 != 0;
    if z && n {
        assert(((status | 2u8) | 0x80u8) | 2u8 | 0x80u8 == (status | 2u8) | 0x80u8) by (bit_vector);
    } else if z {
        assert((((status | 2u8) & !0x80u8) | 2u8) & !0x80u8 == (status | 2u8) & !0x80u8)
            by (bit_vector);
    } else if n {
        assert((((status & !2u8) | 0x80u8) & !2u8) | 0x80u8 == (status & !2u8) | 0x80u8)
            by (bit_vector);
    } else {
        assert((((status & !2u8) & !0x80u8) & !2u8) & !0x80u8 == (status & !2u8) & !0x80u8)
            by (bit_vector);
    }
}

/// Address of the stack slot that `stack_pointer` designates.
pub open spec fn stack_address(stack_pointer: u8) -> u16 {
    (STACK_BASE + stack_pointer) as u16
}

/// Whether a flag is set or clear.
#[derive(Debug, PartialEq, Eq)]
pub enum FlagStates {
    CLEAR,
    SET,
}

/// The processor: registers, flags, stack pointer, program counter, and the
/// memory it runs on.
pub struct CPU<M> {
    pub register_a: u8,
    pub register_x: u8,
    pub register_y: u8,
    pub status: u8,
    pub program_counter: u16,
    pub stack_pointer: u8,
    pub mapper: M,
}

/// A register that instructions name as source or destination.
#[derive(Debug, Clone, Copy, PartialEq, Eq)]
pub enum Register {
    A,
    X,
    Y,
    StackPointer,
}

/// A displacement byte read as a two's-complement offset.
pub open spec fn signed(distance: u8) -> int {
    if distance > 127 {
        distance - 256
    } else {
        distance as int
    }
}

/// Whether a branch whose displacement byte sits at `pc` leaves the page of
/// the next instruction: adding the displacement to the low byte of
/// `pc + 1` carries or borrows.
pub open spec fn branch_crosses_page(pc: u16, distance: u8) -> bool {
    let low = add16(pc, 1) % 256;
    low + signed(distance) < 0 || low + signed(distance) > 255
}

/// Why a step could not run.
#[derive(Debug, Clone, Copy, PartialEq, Eq)]
pub enum CpuError {
    /// The byte fetched as an opcode names no supported instruction.
    UnknownOpcode(u8),
}

impl<M: Memory> CPU<M> {
    /// This state with the status register replaced.
    pub open spec fn with_status(self, status: u8) -> CPU<M> {
        CPU { status, ..self }
    }

    /// This state with the program counter replaced.
    pub open spec fn with_pc(self, program_counter: u16) -> CPU<M> {
        CPU { program_counter, ..self }
    }

    /// The value of register `r`.
    pub open spec fn register(self, r: Register) -> u8 {
        match r {
            Register::A => self.register_a,
            Register::X => self.register_x,
            Register::Y => self.register_y,
            Register::StackPointer => self.stack_pointer,
        }
    }

    /// This state with register `r` replaced.
    pub open spec fn with_register(self, r: Register, value: u8) -> CPU<M> {
        match r {
            Register::A => CPU { register_a: value, ..self },
            Register::X => CPU { register_x: value, ..self },
            Register::Y => CPU { register_y: value, ..self },
            Register::StackPointer => CPU { stack_pointer: value, ..self },
        }
    }

    /// The state after a read of `address`, and the byte read.
    pub open spec fn read_spec(self, address: u16) -> (u8, CPU<M>) {
        (self.mapper.peek(address), CPU { mapper: self.mapper.after_read(address), ..self })
    }

    /// The state after a read of the word at `address` (low byte first).
    pub open spec fn read_word_spec(self, address: u16) -> (u16, CPU<M>) {
        let (low, s1) = self.read_spec(address);
        let (high, s2) = s1.read_spec(add16(address, 1));
        (word(low, high), s2)
    }

    /// The state after a read of the zero-page word at `address`: the high
    /// byte comes from `address + 1` wrapped within the page.
    pub open spec fn read_zero_page_word_spec(self, address: u8) -> (u16, CPU<M>) {
        let (low, s1) = self.read_spec(address as u16);
        let (high, s2) = s1.read_spec(add8(address, 1) as u16);
        (word(low, high), s2)
    }

    /// The state after `data` is written to `address`.
    pub open spec fn write_spec(self, address: u16, data: u8) -> CPU<M> {
        CPU { mapper: self.mapper.after_write(address, data), ..self }
    }

    /// Push: write at the slot of the stack pointer, then decrement it.
    pub open spec fn push_spec(self, data: u8) -> CPU<M> {
        CPU {
            stack_pointer: add8(self.stack_pointer, 255),
            ..self.write_spec(stack_address(self.stack_pointer), data)
        }
    }

    /// Push of a word: high byte first, then low byte.
    pub open spec fn push_word_spec(self, data: u16) -> CPU<M> {
        self.push_spec((data / 256) as u8).push_spec((data % 256) as u8)
    }

    /// Pop: increment the stack pointer, then read at its slot.
    pub open spec fn pop_spec(self) -> (u8, CPU<M>) {
        let sp = add8(self.stack_pointer, 1);
        CPU { stack_pointer: sp, ..self }.read_spec(stack_address(sp))
    }

    /// Pop of a word: low byte first, then high byte.
    pub open spec fn pop_word_spec(self) -> (u16, CPU<M>) {
        let (low, s1) = self.pop_spec();
        let (high, s2) = s1.pop_spec();
        (word(low, high), s2)
    }

    /// The state after the opcode at the program counter is fetched.
    pub open spec fn fetch_spec(self) -> (u8, CPU<M>) {
        let (opcode, s1) = self.read_spec(self.program_counter);
        (opcode, CPU { program_counter: add16(self.program_counter, 1), ..s1 })
    }

    /// A processor at power-up: registers and flags clear, stack pointer at
    /// the top of the stack page, program counter at the program origin.
    pub fn new(mapper: M) -> (r: Self)
        ensures
            r == (CPU {
                register_a: 0,
                register_x: 0,
                register_y: 0,
                status: 0,
                program_counter: PROGRAM_ORIGIN,
                stack_pointer: 0xFF,
                mapper,
            }),
    {
        CPU {
            register_a: 0,
            register_x: 0,
            register_y: 0,
            status: 0,
            program_counter: PROGRAM_ORIGIN,
            stack_pointer: 0xFF,
            mapper,
        }
    }

    /// Clears the accumulator, X and the status, and loads the program
    /// counter from the reset vector.
    pub fn reset(&mut self)
        ensures
            ({
                let (pc, s1) = old(self).read_word_spec(RESET_VECTOR);
                *final(self) == CPU { register_a: 0, register_x: 0, status: 0, program_counter: pc, ..s1 }
            }),
    {
        self.register_a = 0;
        self.register_x = 0;
        self.status = 0;
        self.program_counter = self.mapper.read_u16(RESET_VECTOR);
    }

    /// Writes `program` to memory, byte `i` at the program counter plus `i`.
    pub fn load(&mut self, program: Vec<u8>)
        requires
            old(self).program_counter + program.len() <= 0x10000,
        ensures
            *final(self) == load_spec(*old(self), program@, program@.len() as nat),
    {
        let mut i: usize = 0;
        while i < program.len()
            invariant
                i <= program.len(),
                self.program_counter == old(self).program_counter,
                self.program_counter + program.len() <= 0x10000,
                *self == load_spec(*old(self), program@, i as nat),
            decreases program.len() - i,
        {
            let address = self.program_counter + i as u16;
            self.mapper.write_u8(address, program[i]);
            i = i + 1;
        }
    }

    /// Runs one instruction: fetches the opcode at the program counter,
    /// executes it and moves the program counter on, returning the cycles
    /// spent. An opcode not in the table is reported after its fetch.
    pub fn execute_next_instruction(&mut self) -> (r: Result<InstructionResult, CpuError>)
        ensures
            ({
                match step_spec(*old(self)) {
                    Ok((s, cycles)) => *final(self) == s && r == Ok::<InstructionResult, CpuError>(
                        InstructionResult { executed_cycles: cycles },
                    ),
                    Err(e) => *final(self) == old(self).fetch_spec().1 && r == Err::<
                        InstructionResult,
                        CpuError,
                    >(e),
                }
            }),
    {
        let opcode = self.fetch();
        self.execute_fetched(opcode)
    }

    fn execute_fetched(&mut self, opcode: u8) -> (r: Result<InstructionResult, CpuError>)
        ensures
            ({
                match execute_opcode_spec(*old(self), opcode) {
                    Ok((s, cycles)) => *final(self) == s && r == Ok::<InstructionResult, CpuError>(
                        InstructionResult { executed_cycles: cycles },
                    ),
                    Err(e) => *final(self) == *old(self) && r == Err::<InstructionResult, CpuError>(
                        e,
                    ),
                }
            }),
    {
        match decode(opcode) {
            None => Err(CpuError::UnknownOpcode(opcode)),
            Some(instruction) => {
                let result = instruction.execute(self);
                self.update_program_counter(&instruction);
                Ok(result)
            },
        }
    }

    fn update_program_counter(&mut self, instruction: &Instruction)
        requires
            instruction.well_formed(),
        ensures
            *final(self) == advance_spec(*instruction, *old(self)),
    {
        match instruction.name {
            Mnemonic::JMP | Mnemonic::JSR => {},
            _ => {
                self.program_counter = self.program_counter.wrapping_add(instruction.bytes as u16 - 1);
            },
        }
    }

    /// Runs at most `max_steps` instructions, stopping at the first `BRK`
    /// opcode fetched; tells whether it stopped there.
    pub fn run_until_break(&mut self, max_steps: u64) -> (r: Result<bool, CpuError>)
        ensures
            (*final(self), r) == run_spec(*old(self), max_steps as nat),
    {
        let mut n: u64 = 0;
        while n < max_steps
            invariant
                n <= max_steps,
                run_spec(*old(self), max_steps as nat) == run_spec(*self, (max_steps - n) as nat),
            decreases max_steps - n,
        {
            let opcode = self.fetch();
            if opcode == BRK_OPCODE {
                return Ok(true);
            }
            match self.execute_fetched(opcode) {
                Err(e) => {
                    return Err(e);
                },
                Ok(_) => {},
            }
            n = n + 1;
        }
        Ok(false)
    }

    /// Places `program` at the program origin, points the program counter
    /// there and runs it until a `BRK` opcode, for at most `max_steps`
    /// instructions.
    pub fn load_and_run(&mut self, program: Vec<u8>, max_steps: u64) -> (r: Result<bool, CpuError>)
        requires
            program.len() <= 0x8000,
        ensures
            ({
                let loaded = load_spec(old(self).with_pc(PROGRAM_ORIGIN), program@, program@.len() as nat);
                (*final(self), r) == run_spec(loaded, max_steps as nat)
            }),
    {
        self.program_counter = PROGRAM_ORIGIN;
        self.load(program);
        self.run_until_break(max_steps)
    }

    /// Reads the byte at `address`.
    pub fn mem_read(&mut self, address: u16) -> (r: u8)
        ensures
            (r, *final(self)) == old(self).read_spec(address),
    {
        self.mapper.read_u8(address)
    }

    fn read_word(&mut self, address: u16) -> (r: u16)
        ensures
            (r, *final(self)) == old(self).read_word_spec(address),
    {
        self.mapper.read_u16(address)
    }

    /// Writes `data` at `address`.
    pub fn mem_write(&mut self, address: u16, data: u8)
        ensures
            *final(self) == old(self).write_spec(address, data),
    {
        self.mapper.write_u8(address, data)
    }

    /// Reads the opcode at the program counter and steps past it.
    fn fetch(&mut self) -> (r: u8)
        ensures
            (r, *final(self)) == old(self).fetch_spec(),
    {
        let opcode = self.mem_read(self.program_counter);
        self.program_counter = self.program_counter.wrapping_add(1);
        opcode
    }

    fn stack_push(&mut self, data: u8)
        ensures
            *final(self) == old(self).push_spec(data),
    {
        self.mem_write(STACK_BASE + self.stack_pointer as u16, data);
        self.stack_pointer = self.stack_pointer.wrapping_sub(1);
    }

    fn stack_push_u16(&mut self, data: u16)
        ensures
            *final(self) == old(self).push_word_spec(data),
    {
        self.stack_push((data / 256) as u8);
        self.stack_push((data % 256) as u8);
    }

    fn stack_pop(&mut self) -> (r: u8)
        ensures
            (r, *final(self)) == old(self).pop_spec(),
    {
        self.stack_pointer = self.stack_pointer.wrapping_add(1);
        self.mem_read(STACK_BASE + self.stack_pointer as u16)
    }

    fn stack_pop_u16(&mut self) -> (r: u16)
        ensures
            (r, *final(self)) == old(self).pop_word_spec(),
    {
        let low = self.stack_pop();
        let high = self.stack_pop();
        low as u16 + 256 * high as u16
    }

    fn get_register(&self, r: Register) -> (v: u8)
        ensures
            v == self.register(r),
    {
        match r {
            Register::A => self.register_a,
            Register::X => self.register_x,
            Register::Y => self.register_y,
            Register::StackPointer => self.stack_pointer,
        }
    }

    fn set_register(&mut self, r: Register, value: u8)
        ensures
            *final(self) == old(self).with_register(r, value),
    {
        match r {
            Register::A => self.register_a = value,
            Register::X => self.register_x = value,
            Register::Y => self.register_y = value,
            Register::StackPointer => self.stack_pointer = value,
        }
    }

    /// Adds the signed displacement `distance` to the program counter, which
    /// points at the displacement byte, and tells whether the branch leaves
    /// the page of the next instruction.
    fn branch_off_program_counter(&mut self, distance: u8) -> (crossed: bool)
        ensures
            *final(self) == old(self).with_pc(add16(old(self).program_counter, signed(distance))),
            crossed == branch_crosses_page(old(self).program_counter, distance),
    {
        let low = (self.program_counter.wrapping_add(1) % 256) as i16;
        let offset: i16 = if distance > 0x7F {
            distance as i16 - 256
        } else {
            distance as i16
        };
        if distance > 0x7F {
            self.program_counter = self.program_counter.wrapping_sub(256 - distance as u16);
        } else {
            self.program_counter = self.program_counter.wrapping_add(distance as u16);
        }
        low + offset < 0 || low + offset > 255
    }

    fn get_flag_state(&self, mask: u8) -> (r: FlagStates)
        ensures
            r == (if flag(self.status, mask) { FlagStates::SET } else { FlagStates::CLEAR }),
    {
        if self.status & mask == 0 {
            FlagStates::CLEAR
        } else {
            FlagStates::SET
        }
    }

    fn set_flag(&mut self, mask: u8)
        ensures
            *final(self) == old(self).with_status(with_flag(old(self).status, mask, true)),
    {
        self.status = self.status | mask;
    }

    fn clear_flag(&mut self, mask: u8)
        ensures
            *final(self) == old(self).with_status(with_flag(old(self).status, mask, false)),
    {
        self.status = self.status & !mask;
    }

    fn assign_flag(&mut self, mask: u8, on: bool)
        ensures
            *final(self) == old(self).with_status(with_flag(old(self).status, mask, on)),
    {
        if on {
            self.set_flag(mask);
        } else {
            self.clear_flag(mask);
        }
    }

    /// Sets the zero flag iff `data` is 0.
    pub fn update_zero_flag(&mut self, data: u8)
        ensures
            *final(self) == old(self).with_status(
                with_flag(old(self).status, STATUS_FLAG_ZERO, data == 0),
            ),
    {
        if data == 0 {
            self.set_flag(STATUS_FLAG_ZERO);
        } else {
            self.clear_flag(STATUS_FLAG_ZERO);
        }
    }

    /// Sets the negative flag iff bit 7 of `data` is 1.
    pub fn update_negative_flag(&mut self, data: u8)
        ensures
            *final(self) == old(self).with_status(
                with_flag(old(self).status, STATUS_FLAG_NEGATIVE, data & 0x80 != 0),
            ),
    {
        if data & 0b1000_0000 != 0 {
            self.set_flag(STATUS_FLAG_NEGATIVE);
        } else {
            self.clear_flag(STATUS_FLAG_NEGATIVE);
        }
    }

    fn update_zero_negative(&mut self, data: u8)
        ensures
            *final(self) == old(self).with_status(zero_negative(old(self).status, data)),
    {
        self.update_zero_flag(data);
        self.update_negative_flag(data);
    }
}

/// The state after `bytes` are pushed, first to last.
pub open spec fn push_all<M: Memory>(s: CPU<M>, bytes: Seq<u8>) -> CPU<M>
    decreases bytes.len(),
{
    if bytes.len() == 0 {
        s
    } else {
        push_all(s, bytes.drop_last()).push_spec(bytes.last())
    }
}

/// The bytes that `n` pops return, in order, and the state after them.
pub open spec fn pop_n<M: Memory>(s: CPU<M>, n: nat) -> (Seq<u8>, CPU<M>)
    decreases n,
{
    if n == 0 {
        (Seq::empty(), s)
    } else {
        let (v, s1) = s.pop_spec();
        let (rest, s2) = pop_n(s1, (n - 1) as nat);
        (seq![v] + rest, s2)
    }
}

/// Each push moves the stack pointer down by one, modulo 256.
pub proof fn lemma_push_all_stack_pointer<M: Memory>(s: CPU<M>, bytes: Seq<u8>)
    ensures
        push_all(s, bytes).stack_pointer as int == (s.stack_pointer - bytes.len()) % 256,
    decreases bytes.len(),
{
    if bytes.len() > 0 {
        lemma_push_all_stack_pointer(s, bytes.drop_last());
        let n = bytes.len() as int;
        vstd::arithmetic::div_mod::lemma_add_mod_noop(s.stack_pointer - (n - 1), 255, 256);
        vstd::arithmetic::div_mod::lemma_mod_add_multiples_vanish(s.stack_pointer - n, 256);
    }
}

/// Each pop moves the stack pointer up by one, modulo 256.
pub proof fn lemma_pop_n_stack_pointer<M: Memory>(s: CPU<M>, n: nat)
    ensures
        pop_n(s, n).1.stack_pointer as int == (s.stack_pointer + n) % 256,
    decreases n,
{
    if n > 0 {
        let (v, s1) = s.pop_spec();
        lemma_pop_n_stack_pointer(s1, (n - 1) as nat);
        vstd::arithmetic::div_mod::lemma_add_mod_noop(s.stack_pointer + 1, n - 1, 256);
        vstd::arithmetic::div_mod::lemma_mod_twice(s.stack_pointer + 1, 256);
        vstd::arithmetic::div_mod::lemma_add_mod_noop(s.stack_pointer + 1, n - 1, 256);
    }
}

/// The stack wraps within its page: 256 pushes bring the stack pointer back
/// to where it started, and so do 256 pops after them.
pub proof fn lemma_stack_wraparound<M: Memory>(s: CPU<M>, bytes: Seq<u8>)
    requires
        bytes.len() == 256,
    ensures
        push_all(s, bytes).stack_pointer == s.stack_pointer,
        pop_n(push_all(s, bytes), 256).1.stack_pointer == s.stack_pointer,
{
    lemma_push_all_stack_pointer(s, bytes);
    vstd::arithmetic::div_mod::lemma_mod_sub_multiples_vanish(s.stack_pointer as int, 256);
    lemma_pop_n_stack_pointer(push_all(s, bytes), 256);
    vstd::arithmetic::div_mod::lemma_mod_add_multiples_vanish(s.stack_pointer as int, 256);
}

/// Memory after the first `n` bytes of `program` are written from the
/// program counter on.
pub open spec fn load_spec<M: Memory>(s: CPU<M>, program: Seq<u8>, n: nat) -> CPU<M>
    decreases n,
{
    if n == 0 || n > program.len() {
        s
    } else {
        let prev = load_spec(s, program, (n - 1) as nat);
        prev.write_spec((s.program_counter + n - 1) as u16, program[n - 1])
    }
}

} // verus!
