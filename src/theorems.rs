//! Facts about single instructions, stated over `step_spec` and `run`, which
//! `CPU::step` and `CPU::execute` implement exactly.

use vstd::prelude::*;
use crate::memory::{addr_plus, word_at};
use crate::cpu::{
    AddrMode, CPU, ExecError, effective_address, opcode_table, page_crossed, run, sp_after_pull, stack_slot,
    step_spec, with_pc,
};

verus! {

/// The outcome type of one instruction.
pub type Stepped = Result<(CPU, Seq<u8>, int), ExecError>;

/// `c` after loading `v` with the program counter moved `len` bytes on.
pub open spec fn after_load(c: CPU, len: int, v: u8) -> CPU {
    CPU {
        PC: addr_plus(c.PC, len),
        A: v,
        Z: if v == 0 { 1 } else { 0 },
        N: if v >= 0x80 { 1 } else { 0 },
        ..c
    }
}

/// The address at which execution resumes when a return address is pulled off
/// the stack: low byte first, then high byte, plus one.
pub open spec fn resume_address(c: CPU, m: Seq<u8>) -> u16 {
    let lo_slot = sp_after_pull(c.SP);
    let hi_slot = sp_after_pull(lo_slot);
    addr_plus((m[stack_slot(lo_slot)] + 256 * m[stack_slot(hi_slot)]) as u16, 1)
}

/// Load-accumulator-immediate with operand `v` loads `v`, sets the zero flag
/// exactly when `v` is 0 and the negative flag exactly when `v >= 0x80`, moves
/// the program counter two bytes on and takes two cycles.
pub proof fn lemma_load_immediate(c: CPU, m: Seq<u8>, v: u8)
    requires
        m[c.PC as int] == CPU::INS_LDA_IM,
        m[addr_plus(c.PC, 1) as int] == v,
    ensures
        step_spec(c, m) == Stepped::Ok((after_load(c, 2, v), m, 2)),
{
}

/// Load-accumulator-zero-page from address `a` holding `v` loads `v` with the
/// same flag outcomes, moves the program counter two bytes on and takes three cycles.
pub proof fn lemma_load_zero_page(c: CPU, m: Seq<u8>, a: u8, v: u8)
    requires
        m[c.PC as int] == CPU::INS_LDA_ZP,
        m[addr_plus(c.PC, 1) as int] == a,
        m[a as int] == v,
    ensures
        step_spec(c, m) == Stepped::Ok((after_load(c, 2, v), m, 3)),
{
}

/// Load-accumulator-zero-page-indexed-by-X with base `b` reads the byte at
/// `(b + X) mod 256`, which always lies in the zero page, and takes four cycles.
pub proof fn lemma_load_zero_page_x(c: CPU, m: Seq<u8>, b: u8, v: u8)
    requires
        m[c.PC as int] == CPU::INS_LDA_ZP_X,
        m[addr_plus(c.PC, 1) as int] == b,
        m[(b + c.X) % 256] == v,
    ensures
        step_spec(c, m) == Stepped::Ok((after_load(c, 2, v), m, 4)),
        effective_address(with_pc(c, addr_plus(c.PC, 1)), m, AddrMode::ZeroPageX) <= 0xFF,
{
}

/// Load-accumulator-absolute from the 16-bit address `a` holding `v` loads `v`,
/// moves the program counter three bytes on and takes four cycles.
pub proof fn lemma_load_absolute(c: CPU, m: Seq<u8>, a: u16, v: u8)
    requires
        m[c.PC as int] == CPU::INS_LDA_ABS,
        word_at(m, addr_plus(c.PC, 1)) == a,
        m[a as int] == v,
    ensures
        step_spec(c, m) == Stepped::Ok((after_load(c, 3, v), m, 4)),
{
}

/// Load-accumulator-absolute-indexed-by-X reads at base plus X and takes four
/// cycles, five when adding X to the base's low byte carries into its high byte.
pub proof fn lemma_load_absolute_x(c: CPU, m: Seq<u8>)
    requires
        m[c.PC as int] == CPU::INS_LDA_ABS_X,
    ensures
        ({
            let base = word_at(m, addr_plus(c.PC, 1));
            let v = m[addr_plus(base, c.X as int) as int];
            step_spec(c, m) == Stepped::Ok(
                (after_load(c, 3, v), m, if page_crossed(base, c.X) { 5 } else { 4 }),
            )
        }),
{
}

/// Load-accumulator-absolute-indexed-by-Y reads at base plus Y and takes four
/// cycles, five when adding Y to the base's low byte carries into its high byte.
pub proof fn lemma_load_absolute_y(c: CPU, m: Seq<u8>)
    requires
        m[c.PC as int] == CPU::INS_LDA_ABS_Y,
    ensures
        ({
            let base = word_at(m, addr_plus(c.PC, 1));
            let v = m[addr_plus(base, c.Y as int) as int];
            step_spec(c, m) == Stepped::Ok(
                (after_load(c, 3, v), m, if page_crossed(base, c.Y) { 5 } else { 4 }),
            )
        }),
{
}

/// Jump-to-subroutine sets the program counter to its target, takes six cycles,
/// moves the stack pointer down two slots, and leaves on the stack a return
/// address that, pulled off again, resumes right after the three-byte instruction.
pub proof fn lemma_jump_to_subroutine(c: CPU, m: Seq<u8>)
    requires
        m.len() == 65536,
        m[c.PC as int] == CPU::INS_JSR,
    ensures
        step_spec(c, m) matches Ok((c2, m2, k)) && {
            &&& k == 6
            &&& c2.PC == word_at(m, addr_plus(c.PC, 1))
            &&& sp_after_pull(sp_after_pull(c2.SP)) == c.SP
            &&& resume_address(c2, m2) == addr_plus(c.PC, 3)
        },
{
    assert(step_spec(c, m) is Ok);
    let (c2, m2, k) = step_spec(c, m)->Ok_0;
    let lo_slot = sp_after_pull(c2.SP);
    let hi_slot = sp_after_pull(lo_slot);
    assert(stack_slot(lo_slot) != stack_slot(hi_slot));
}

/// An unknown opcode is reported with the opcode and its address, and changes
/// nothing: a run that meets one halts with the processor and memory as they were.
pub proof fn lemma_unknown_opcode(c: CPU, m: Seq<u8>, budget: int)
    requires
        opcode_table(m[c.PC as int]) is None,
        budget > 0,
    ensures
        step_spec(c, m) == Stepped::Err(ExecError::UnknownOpcode { opcode: m[c.PC as int], pc: c.PC }),
        run(c, m, budget) == (c, m, Err::<int, ExecError>(ExecError::UnknownOpcode { opcode: m[c.PC as int], pc: c.PC })),
{
}

} // verus!
