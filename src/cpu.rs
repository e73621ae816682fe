//! The processor: registers, flags, the opcode table, the addressing-mode
//! resolver, the instruction handlers and the fetch-decode-execute loop.
//!
//! Reset policy: direct. `reset` points the program counter at the reset-vector
//! address `0xFFFC` itself, and execution begins with the byte stored there.
//!
//! The stack is the page starting at `STACK_BASE`; the 8-bit stack pointer is an
//! offset into it, and pushes write at the pointer and then decrement it.

use vstd::prelude::*;
use crate::memory::{MEM, addr_plus, word_at, high_byte, low_byte, zeroed};

verus! {

/// First address of the stack page.
pub const STACK_BASE: u16 = 0x0100;

/// Program counter after `reset`.
pub const RESET_VECTOR: u16 = 0xFFFC;

/// Stack pointer after `reset`: the top of the stack page.
pub const STACK_TOP: u8 = 0xFF;

/// Ways of deriving an instruction's operand.
#[derive(Debug, Clone, Copy, PartialEq, Eq, Structural)]
pub enum AddrMode {
    Immediate,
    ZeroPage,
    ZeroPageX,
    Absolute,
    AbsoluteX,
    AbsoluteY,
}

/// What an opcode does once decoded.
#[derive(Debug, Clone, Copy, PartialEq, Eq, Structural)]
pub enum Operation {
    /// Load the accumulator from the operand given by the addressing mode.
    LoadAccumulator(AddrMode),
    /// Push the return address and jump to an absolute target.
    JumpToSubroutine,
}

/// Why execution halted before its cycle budget ran out.
#[derive(Debug, Clone, Copy, PartialEq, Eq, Structural)]
pub enum ExecError {
    /// The byte at `pc` is no opcode of this processor.
    UnknownOpcode { opcode: u8, pc: u16 },
}

/// Processor registers and status flags. Each flag holds 0 or 1.
#[allow(non_snake_case)]
#[derive(Debug, Clone, Copy, PartialEq, Eq, Structural)]
pub struct CPU {
    /// Program counter: address of the next byte to fetch.
    pub PC: u16,
    /// Stack pointer: offset of the next free slot in the stack page.
    pub SP: u8,
    /// Accumulator.
    pub A: u8,
    /// Index register X.
    pub X: u8,
    /// Index register Y.
    pub Y: u8,
    /// Carry flag.
    pub C: u8,
    /// Zero flag.
    pub Z: u8,
    /// Interrupt-disable flag.
    pub I: u8,
    /// Decimal flag.
    pub D: u8,
    /// Break flag.
    pub B: u8,
    /// Overflow flag.
    pub V: u8,
    /// Negative flag.
    pub N: u8,
}

/// The opcode table.
pub open spec fn opcode_table(opcode: u8) -> Option<Operation> {
    if opcode == CPU::INS_LDA_IM {
        Some(Operation::LoadAccumulator(AddrMode::Immediate))
    } else if opcode == CPU::INS_LDA_ZP {
        Some(Operation::LoadAccumulator(AddrMode::ZeroPage))
    } else if opcode == CPU::INS_LDA_ZP_X {
        Some(Operation::LoadAccumulator(AddrMode::ZeroPageX))
    } else if opcode == CPU::INS_LDA_ABS {
        Some(Operation::LoadAccumulator(AddrMode::Absolute))
    } else if opcode == CPU::INS_LDA_ABS_X {
        Some(Operation::LoadAccumulator(AddrMode::AbsoluteX))
    } else if opcode == CPU::INS_LDA_ABS_Y {
        Some(Operation::LoadAccumulator(AddrMode::AbsoluteY))
    } else if opcode == CPU::INS_JSR {
        Some(Operation::JumpToSubroutine)
    } else {
        None
    }
}

/// Adding `index` to the low byte of `base` carries into the high byte.
pub open spec fn page_crossed(base: u16, index: u8) -> bool {
    base % 256 + index > 0xFF
}

/// Number of operand bytes that follow the opcode in the given mode.
pub open spec fn operand_len(mode: AddrMode) -> int {
    match mode {
        AddrMode::Immediate | AddrMode::ZeroPage | AddrMode::ZeroPageX => 1,
        _ => 2,
    }
}

/// Effective address of a memory operand whose bytes start at `c.PC`.
pub open spec fn effective_address(c: CPU, m: Seq<u8>, mode: AddrMode) -> u16 {
    match mode {
        AddrMode::ZeroPageX => ((m[c.PC as int] + c.X) % 256) as u16,
        AddrMode::Absolute => word_at(m, c.PC),
        AddrMode::AbsoluteX => addr_plus(word_at(m, c.PC), c.X as int),
        AddrMode::AbsoluteY => addr_plus(word_at(m, c.PC), c.Y as int),
        _ => m[c.PC as int] as u16,
    }
}

/// The operand value, for operand bytes starting at `c.PC`.
pub open spec fn operand_value(c: CPU, m: Seq<u8>, mode: AddrMode) -> u8 {
    match mode {
        AddrMode::Immediate => m[c.PC as int],
        _ => m[effective_address(c, m, mode) as int],
    }
}

/// Bus cycles spent resolving the operand (everything after the opcode fetch).
pub open spec fn resolve_cycles(c: CPU, m: Seq<u8>, mode: AddrMode) -> int {
    match mode {
        AddrMode::Immediate => 1,
        AddrMode::ZeroPage => 2,
        AddrMode::ZeroPageX => 3,
        AddrMode::Absolute => 3,
        AddrMode::AbsoluteX => if page_crossed(word_at(m, c.PC), c.X) { 4 } else { 3 },
        AddrMode::AbsoluteY => if page_crossed(word_at(m, c.PC), c.Y) { 4 } else { 3 },
    }
}

/// `c` with the accumulator set to `v` and the zero and negative flags recomputed.
pub open spec fn loaded(c: CPU, v: u8) -> CPU {
    CPU { A: v, Z: if v == 0 { 1 } else { 0 }, N: if v >= 0x80 { 1 } else { 0 }, ..c }
}

/// `c` with its program counter replaced.
pub open spec fn with_pc(c: CPU, pc: u16) -> CPU {
    CPU { PC: pc, ..c }
}

/// Address of the stack slot at offset `sp`.
pub open spec fn stack_slot(sp: u8) -> int {
    STACK_BASE + sp
}

/// Stack offset after one push (wrapping within the page).
pub open spec fn sp_after_push(sp: u8) -> u8 {
    ((sp + 255) % 256) as u8
}

/// Stack offset after one pull (wrapping within the page).
pub open spec fn sp_after_pull(sp: u8) -> u8 {
    ((sp + 1) % 256) as u8
}

/// Effect of a load whose opcode has been fetched (`c.PC` is the first operand
/// byte), with the cycles spent after the opcode fetch.
pub open spec fn load_step(c: CPU, m: Seq<u8>, mode: AddrMode) -> (CPU, Seq<u8>, int) {
    (
        loaded(with_pc(c, addr_plus(c.PC, operand_len(mode))), operand_value(c, m, mode)),
        m,
        resolve_cycles(c, m, mode),
    )
}

/// Effect of jump-to-subroutine whose opcode has been fetched (`c.PC` is the
/// first byte of the target): the address of its last byte is pushed high byte
/// first, then the target becomes the program counter. Five cycles follow the
/// opcode fetch: two for the target, one per pushed byte, one internal.
pub open spec fn jsr_step(c: CPU, m: Seq<u8>) -> (CPU, Seq<u8>, int) {
    let ret = addr_plus(c.PC, 1);
    let sp1 = sp_after_push(c.SP);
    (
        CPU { PC: word_at(m, c.PC), SP: sp_after_push(sp1), ..c },
        m.update(stack_slot(c.SP), high_byte(ret)).update(stack_slot(sp1), low_byte(ret)),
        5,
    )
}

/// One instruction from state `c` on memory `m`: the new state, the new memory
/// and the bus cycles spent; or the failure on an unknown opcode.
pub open spec fn step_spec(c: CPU, m: Seq<u8>) -> Result<(CPU, Seq<u8>, int), ExecError> {
    let opcode = m[c.PC as int];
    let c1 = with_pc(c, addr_plus(c.PC, 1));
    match opcode_table(opcode) {
        None => Err(ExecError::UnknownOpcode { opcode, pc: c.PC }),
        Some(Operation::LoadAccumulator(mode)) => {
            let (c2, m2, k) = load_step(c1, m, mode);
            Ok((c2, m2, k + 1))
        },
        Some(Operation::JumpToSubroutine) => {
            let (c2, m2, k) = jsr_step(c1, m);
            Ok((c2, m2, k + 1))
        },
    }
}

/// A whole run: instructions are started while `budget` is positive, and each one
/// runs to completion even if it overdraws the budget. The result is the final
/// state, the final memory, and either the remaining budget (at most zero) or the
/// failure that halted the run, with the state left as it was before that opcode.
pub open spec fn run(c: CPU, m: Seq<u8>, budget: int) -> (CPU, Seq<u8>, Result<int, ExecError>)
    decreases (if budget > 0 { budget } else { 0 }),
{
    if budget <= 0 {
        (c, m, Ok(budget))
    } else {
        match step_spec(c, m) {
            Err(e) => (c, m, Err(e)),
            Ok((c2, m2, k)) => run(c2, m2, budget - k),
        }
    }
}

/// Every instruction takes between two and six bus cycles.
pub proof fn lemma_step_cycles(c: CPU, m: Seq<u8>)
    ensures
        step_spec(c, m) matches Ok((_, _, k)) ==> 2 <= k <= 6,
{
}

impl CPU {
    /// Load accumulator, immediate.
    pub const INS_LDA_IM: u8 = 0xA9;
    /// Load accumulator, zero page.
    pub const INS_LDA_ZP: u8 = 0xA5;
    /// Load accumulator, zero page indexed by X.
    pub const INS_LDA_ZP_X: u8 = 0xB5;
    /// Load accumulator, absolute.
    pub const INS_LDA_ABS: u8 = 0xAD;
    /// Load accumulator, absolute indexed by X.
    pub const INS_LDA_ABS_X: u8 = 0xBD;
    /// Load accumulator, absolute indexed by Y.
    pub const INS_LDA_ABS_Y: u8 = 0xB9;
    /// Jump to subroutine.
    pub const INS_JSR: u8 = 0x20;

    /// Every flag is 0 or 1.
    pub open spec fn flags_valid(&self) -> bool {
        &&& self.C <= 1
        &&& self.Z <= 1
        &&& self.I <= 1
        &&& self.D <= 1
        &&& self.B <= 1
        &&& self.V <= 1
        &&& self.N <= 1
    }

    /// The state right after `reset`.
    pub open spec fn is_reset(&self) -> bool {
        &&& self.PC == RESET_VECTOR
        &&& self.SP == STACK_TOP
        &&& self.A == 0 && self.X == 0 && self.Y == 0
        &&& self.C == 0 && self.Z == 0 && self.I == 0 && self.D == 0
        &&& self.B == 0 && self.V == 0 && self.N == 0
    }
}

/// An instruction leaves every flag 0 or 1 when it found them so.
pub proof fn lemma_step_keeps_flags_valid(c: CPU, m: Seq<u8>)
    requires
        c.flags_valid(),
    ensures
        step_spec(c, m) matches Ok((c2, _, _)) ==> c2.flags_valid(),
{
}

/// A run leaves every flag 0 or 1 when it found them so.
pub proof fn lemma_run_keeps_flags_valid(c: CPU, m: Seq<u8>, budget: int)
    requires
        c.flags_valid(),
    ensures
        run(c, m, budget).0.flags_valid(),
    decreases (if budget > 0 { budget } else { 0 }),
{
    if budget > 0 {
        lemma_step_keeps_flags_valid(c, m);
        if let Ok((c2, m2, k)) = step_spec(c, m) {
            lemma_run_keeps_flags_valid(c2, m2, budget - k);
        }
    }
}

impl Default for CPU {
    fn default() -> (r: CPU)
        ensures
            r.PC == 0 && r.SP == 0 && r.A == 0 && r.X == 0 && r.Y == 0,
            r.C == 0 && r.Z == 0 && r.I == 0 && r.D == 0 && r.B == 0 && r.V == 0 && r.N == 0,
    {
        CPU { PC: 0, SP: 0, A: 0, X: 0, Y: 0, C: 0, Z: 0, I: 0, D: 0, B: 0, V: 0, N: 0 }
    }
}

/// The operation an opcode stands for, if any.
pub fn decode(opcode: u8) -> (r: Option<Operation>)
    ensures
        r == opcode_table(opcode),
{
    if opcode == CPU::INS_LDA_IM {
        Some(Operation::LoadAccumulator(AddrMode::Immediate))
    } else if opcode == CPU::INS_LDA_ZP {
        Some(Operation::LoadAccumulator(AddrMode::ZeroPage))
    } else if opcode == CPU::INS_LDA_ZP_X {
        Some(Operation::LoadAccumulator(AddrMode::ZeroPageX))
    } else if opcode == CPU::INS_LDA_ABS {
        Some(Operation::LoadAccumulator(AddrMode::Absolute))
    } else if opcode == CPU::INS_LDA_ABS_X {
        Some(Operation::LoadAccumulator(AddrMode::AbsoluteX))
    } else if opcode == CPU::INS_LDA_ABS_Y {
        Some(Operation::LoadAccumulator(AddrMode::AbsoluteY))
    } else if opcode == CPU::INS_JSR {
        Some(Operation::JumpToSubroutine)
    } else {
        None
    }
}

impl CPU {
    /// Puts the processor in its initial state and zeroes memory: registers and
    /// flags 0, the stack pointer at the top of the stack page, and the program
    /// counter at the reset-vector address.
    pub fn reset(&mut self, memory: &mut MEM)
        ensures
            final(self).is_reset(),
            final(self).flags_valid(),
            final(memory)@ == zeroed(),
    {
        self.PC = RESET_VECTOR;
        self.SP = STACK_TOP;

        self.C = 0;
        self.Z = 0;
        self.I = 0;
        self.D = 0;
        self.B = 0;
        self.V = 0;
        self.N = 0;

        self.A = 0;
        self.X = 0;
        self.Y = 0;

        memory.initialise();
    }

    /// Reads the byte at the program counter and moves past it; one cycle.
    fn fetch_byte(&mut self, cycles: &mut i64, memory: &MEM) -> (r: u8)
        requires
            *old(cycles) > i64::MIN,
        ensures
            r == memory@[old(self).PC as int],
            *final(self) == with_pc(*old(self), addr_plus(old(self).PC, 1)),
            *final(cycles) == *old(cycles) - 1,
    {
        let data = memory.read_byte(cycles, self.PC);
        self.PC = self.PC.wrapping_add(1);
        data
    }

    /// Reads the little-endian word at the program counter and moves past it; two cycles.
    fn fetch_word(&mut self, cycles: &mut i64, memory: &MEM) -> (r: u16)
        requires
            *old(cycles) > i64::MIN + 1,
        ensures
            r == word_at(memory@, old(self).PC),
            *final(self) == with_pc(*old(self), addr_plus(old(self).PC, 2)),
            *final(cycles) == *old(cycles) - 2,
    {
        let data = memory.read_word(cycles, self.PC);
        self.PC = self.PC.wrapping_add(2);
        data
    }

    /// Whether indexing `base` by `index` carries out of the low byte.
    fn is_page_boundary_crossed(base: u16, index: u8) -> (r: bool)
        ensures
            r == page_crossed(base, index),
    {
        base % 256 + index as u16 > 0xFF
    }

    /// Operand of an absolute-indexed instruction: the word at the program
    /// counter plus `index`, one extra cycle when that crosses a page.
    fn absolute_indexed(&mut self, index: u8, cycles: &mut i64, memory: &MEM) -> (r: u8)
        requires
            *old(cycles) > i64::MIN + 3,
        ensures
            r == memory@[addr_plus(word_at(memory@, old(self).PC), index as int) as int],
            *final(self) == with_pc(*old(self), addr_plus(old(self).PC, 2)),
            *final(cycles) == *old(cycles) - (if page_crossed(word_at(memory@, old(self).PC), index) { 4int } else { 3int }),
    {
        let base = self.fetch_word(cycles, memory);
        let address = base.wrapping_add(index as u16);
        if Self::is_page_boundary_crossed(base, index) {
            *cycles = *cycles - 1;
        }
        memory.read_byte(cycles, address)
    }

    /// Consumes the operand bytes of `mode` and returns the operand value.
    fn resolve(&mut self, mode: AddrMode, cycles: &mut i64, memory: &MEM) -> (r: u8)
        requires
            *old(cycles) > i64::MIN + 4,
        ensures
            r == operand_value(*old(self), memory@, mode),
            *final(self) == with_pc(*old(self), addr_plus(old(self).PC, operand_len(mode))),
            *final(cycles) == *old(cycles) - resolve_cycles(*old(self), memory@, mode),
    {
        match mode {
            AddrMode::Immediate => self.fetch_byte(cycles, memory),
            AddrMode::ZeroPage => {
                let address = self.fetch_byte(cycles, memory);
                memory.read_byte(cycles, address as u16)
            },
            AddrMode::ZeroPageX => {
                let address = self.fetch_byte(cycles, memory);
                let address = address.wrapping_add(self.X);
                *cycles = *cycles - 1;
                memory.read_byte(cycles, address as u16)
            },
            AddrMode::Absolute => {
                let address = self.fetch_word(cycles, memory);
                memory.read_byte(cycles, address)
            },
            AddrMode::AbsoluteX => {
                let x = self.X;
                self.absolute_indexed(x, cycles, memory)
            },
            AddrMode::AbsoluteY => {
                let y = self.Y;
                self.absolute_indexed(y, cycles, memory)
            },
        }
    }

    /// Recomputes the zero and negative flags from the accumulator.
    fn set_load_status(&mut self)
        ensures
            *final(self) == loaded(*old(self), old(self).A),
    {
        self.Z = if self.A == 0 { 1 } else { 0 };
        self.N = if self.A >= 0x80 { 1 } else { 0 };
    }

    /// Load-accumulator handler, after the opcode fetch.
    fn load_accumulator(&mut self, mode: AddrMode, cycles: &mut i64, memory: &MEM)
        requires
            *old(cycles) > i64::MIN + 4,
        ensures
            (*final(self), memory@, *old(cycles) - *final(cycles)) == load_step(*old(self), memory@, mode),
    {
        self.A = self.resolve(mode, cycles, memory);
        self.set_load_status();
    }

    /// Writes `value` at the stack pointer, then moves the pointer down; one cycle.
    fn push_byte(&mut self, cycles: &mut i64, memory: &mut MEM, value: u8)
        requires
            *old(cycles) > i64::MIN,
        ensures
            final(memory)@ == old(memory)@.update(stack_slot(old(self).SP), value),
            *final(self) == (CPU { SP: sp_after_push(old(self).SP), ..*old(self) }),
            *final(cycles) == *old(cycles) - 1,
    {
        memory.write_byte(cycles, STACK_BASE + self.SP as u16, value);
        self.SP = self.SP.wrapping_sub(1);
    }

    /// Jump-to-subroutine handler, after the opcode fetch.
    fn jump_to_subroutine(&mut self, cycles: &mut i64, memory: &mut MEM)
        requires
            *old(cycles) > i64::MIN + 5,
        ensures
            (*final(self), final(memory)@, *old(cycles) - *final(cycles)) == jsr_step(*old(self), old(memory)@),
    {
        let target = self.fetch_word(cycles, memory);
        let ret = self.PC.wrapping_sub(1);
        self.push_byte(cycles, memory, (ret / 256) as u8);
        self.push_byte(cycles, memory, (ret % 256) as u8);
        self.PC = target;
        *cycles = *cycles - 1;
    }

    /// Fetches, decodes and runs one instruction, charging its cycles to `cycles`.
    /// On an unknown opcode nothing but the opcode fetch's cycle is spent.
    fn run_instruction(&mut self, cycles: &mut i64, memory: &mut MEM) -> (r: Result<(), ExecError>)
        requires
            *old(cycles) > i64::MIN + 6,
        ensures
            match step_spec(*old(self), old(memory)@) {
                Ok((c, m, k)) => {
                    &&& r is Ok
                    &&& *final(self) == c
                    &&& final(memory)@ == m
                    &&& *final(cycles) == *old(cycles) - k
                },
                Err(e) => {
                    &&& r == Err::<(), ExecError>(e)
                    &&& *final(self) == *old(self)
                    &&& final(memory)@ == old(memory)@
                    &&& *final(cycles) == *old(cycles) - 1
                },
            },
    {
        let pc = self.PC;
        let opcode = self.fetch_byte(cycles, memory);
        match decode(opcode) {
            Some(Operation::LoadAccumulator(mode)) => {
                self.load_accumulator(mode, cycles, memory);
                Ok(())
            },
            Some(Operation::JumpToSubroutine) => {
                self.jump_to_subroutine(cycles, memory);
                Ok(())
            },
            None => {
                self.PC = pc;
                Err(ExecError::UnknownOpcode { opcode, pc })
            },
        }
    }

    /// Runs one instruction and returns the bus cycles it took. On an unknown
    /// opcode the processor and memory are left as they were.
    pub fn step(&mut self, memory: &mut MEM) -> (r: Result<u8, ExecError>)
        ensures
            match step_spec(*old(self), old(memory)@) {
                Ok((c, m, k)) => {
                    &&& r == Ok::<u8, ExecError>(k as u8)
                    &&& *final(self) == c
                    &&& final(memory)@ == m
                },
                Err(e) => {
                    &&& r == Err::<u8, ExecError>(e)
                    &&& *final(self) == *old(self)
                    &&& final(memory)@ == old(memory)@
                },
            },
    {
        proof { lemma_step_cycles(*self, memory@); }
        let mut used: i64 = 0;
        match self.run_instruction(&mut used, memory) {
            Ok(()) => Ok((0 - used) as u8),
            Err(e) => Err(e),
        }
    }

    /// Runs instructions while the cycle budget is positive. An instruction, once
    /// started, always completes, so the budget may end below zero: the remaining
    /// budget (at most zero) is returned. An unknown opcode halts the run with an
    /// error, leaving the processor and memory as they were before that opcode.
    pub fn execute(&mut self, cycles: u32, memory: &mut MEM) -> (r: Result<i64, ExecError>)
        ensures
            run(*old(self), old(memory)@, cycles as int) == (
                *final(self),
                final(memory)@,
                match r {
                    Ok(n) => Ok::<int, ExecError>(n as int),
                    Err(e) => Err::<int, ExecError>(e),
                },
            ),
            old(self).flags_valid() ==> final(self).flags_valid(),
    {
        let ghost c0 = *self;
        let ghost m0 = memory@;
        proof {
            if c0.flags_valid() {
                lemma_run_keeps_flags_valid(c0, m0, cycles as int);
            }
        }
        let mut remaining: i64 = cycles as i64;
        while remaining > 0
            invariant
                -6 <= remaining <= u32::MAX,
                c0 == *old(self),
                m0 == old(memory)@,
                c0.flags_valid() ==> run(c0, m0, cycles as int).0.flags_valid(),
                run(c0, m0, cycles as int) == run(*self, memory@, remaining as int),
            decreases remaining + 6,
        {
            proof { lemma_step_cycles(*self, memory@); }
            match self.run_instruction(&mut remaining, memory) {
                Ok(()) => {},
                Err(e) => {
                    return Err(e);
                },
            }
        }
        Ok(remaining)
    }
}

} // verus!
