//! Laws of the instruction set, stated and proved over the small-step
//! semantics: the signedness of branch offsets is in `jump_near_immediate`'s
//! contract, the stack-pointer invariant in the `wf` clauses of `step` and
//! the run loops, and the pack/unpack round trip in `status_register`. What
//! relates several instructions or several states is proved here.

use vstd::prelude::*;

use crate::bus::{rd, rdw, wadd16, wr};
use crate::model::{
    adc_full, compare_flags, ea_model, step_jsr, step_model, step_php, step_plp, step_rts, stepn,
    to_u8, zp_ptr_word, Model, StepOutcome,
};
use crate::opcodes::{spec_decode, AddressingMode, Instr, Mnemonic};
use crate::status_register::{lemma_unpack_pack, pack_bits, StatusRegister};

verus! {

/// Binary ADC adds the operand and the carry into the accumulator modulo
/// 256, and the carry flag reports exactly whether the true sum exceeded
/// 0xFF.
pub proof fn lemma_adc_binary(p: StatusRegister, a: u8, m: u8)
    requires
        !p.d,
    ensures
        adc_full(p, a, m).0 == to_u8(a + m + (if p.c { 1int } else { 0 })),
        adc_full(p, a, m).1.c == (a + m + (if p.c { 1int } else { 0 }) > 0xFF),
{
}

/// Comparison sets the carry flag exactly when the register is at least the
/// operand, and the zero flag exactly when they are equal.
pub proof fn lemma_cmp_flags(p: StatusRegister, a: u8, m: u8)
    ensures
        compare_flags(p, a, m).c == (a >= m),
        compare_flags(p, a, m).z == (a == m),
{
    if a >= m {
        vstd::arithmetic::div_mod::lemma_small_mod((a - m) as nat, 256);
    } else {
        vstd::arithmetic::div_mod::lemma_mod_add_multiples_vanish(a - m, 256);
        vstd::arithmetic::div_mod::lemma_small_mod((a - m + 256) as nat, 256);
    }
}

/// The indirect zero-page modes read their pointer from page 0 alone: two
/// machines that agree on page 0, on the registers and on the operand byte
/// resolve the same effective address, whatever the rest of memory holds.
pub proof fn lemma_zero_page_indirect_confined(m1: Model, m2: Model)
    requires
        m1.wf(),
        m2.wf(),
        m1.pc == m2.pc,
        m1.x == m2.x,
        m1.y == m2.y,
        rd(m1.mem, m1.pc) == rd(m2.mem, m2.pc),
        forall|j: int| 0 <= j < 0x100 ==> m1.mem[j] == m2.mem[j],
    ensures
        ea_model(m1, AddressingMode::IndirectX) == ea_model(m2, AddressingMode::IndirectX),
        ea_model(m1, AddressingMode::IndirectY) == ea_model(m2, AddressingMode::IndirectY),
{
    let px = to_u8(rd(m1.mem, m1.pc) + m1.x);
    let py = rd(m1.mem, m1.pc);
    assert(m1.mem[px as int] == m2.mem[px as int]);
    assert(m1.mem[((px + 1) % 256) as int] == m2.mem[((px + 1) % 256) as int]);
    assert(m1.mem[py as int] == m2.mem[py as int]);
    assert(m1.mem[((py + 1) % 256) as int] == m2.mem[((py + 1) % 256) as int]);
}

/// The zero-page pointer wrap at the page's edge: a pointer at 0xFF takes
/// its high byte from address 0x00, never from 0x100.
pub proof fn lemma_zero_page_pointer_wraps(mem: Seq<u8>)
    requires
        mem.len() == 0x10000,
    ensures
        zp_ptr_word(mem, 0xFF) == rd(mem, 0xFF) + 256 * rd(mem, 0x00),
{
}

/// PHP followed by PLP restores the user-visible flags C, Z, I, D, V and N;
/// B comes back cleared and the reserved bit set, by PLP's contract. The
/// registers, the stack pointer and the program counter's advance are as a
/// two-instruction sequence leaves them. The push must not land on the PLP
/// opcode itself.
pub proof fn lemma_php_plp(m: Model)
    requires
        m.wf(),
        m.sp >= 0x101,
        rd(m.mem, m.pc) == 0x08,
        rd(m.mem, wadd16(m.pc, 1)) == 0x28,
        m.sp != wadd16(m.pc, 1),
    ensures
        stepn(m, 2).1 == StepOutcome::Running,
        stepn(m, 2).0.p == (StatusRegister { b: false, b2: true, ..m.p }),
        stepn(m, 2).0.a == m.a,
        stepn(m, 2).0.x == m.x,
        stepn(m, 2).0.y == m.y,
        stepn(m, 2).0.sp == m.sp,
        stepn(m, 2).0.pc == wadd16(m.pc, 2),
{
    reveal(crate::opcodes::spec_decode);
    reveal(crate::model::step_model);
    reveal(crate::model::step_php);
    reveal(crate::model::step_plp);
    let pushed = StatusRegister { b: true, b2: true, ..m.p };
    lemma_unpack_pack(pushed);
    let r1 = step_model(m);
    assert(spec_decode(0x08) == Some(
        Instr { mnemonic: Mnemonic::Php, mode: AddressingMode::Implied, len: 1 },
    ));
    assert(r1 == step_php(m));
    let m1 = r1.0;
    assert(m1.pc == wadd16(m.pc, 1));
    assert(m1.mem == wr(m.mem, m.sp, pack_bits(pushed)));
    assert(rd(m1.mem, m1.pc) == 0x28);
    let r2 = step_model(m1);
    assert(spec_decode(0x28) == Some(
        Instr { mnemonic: Mnemonic::Plp, mode: AddressingMode::Implied, len: 1 },
    ));
    assert(r2 == step_plp(m1));
    assert(rd(m1.mem, (m1.sp + 1) as u16) == pack_bits(pushed));
    assert(r2.0.p == (StatusRegister { b: false, b2: true, ..m.p }));
    assert(wadd16(m1.pc, 1) == wadd16(m.pc, 2)) by {
        vstd::arithmetic::div_mod::lemma_add_mod_noop(m.pc + 1, 1, 0x10000);
        vstd::arithmetic::div_mod::lemma_small_mod(1nat, 0x10000);
    }
    assert(stepn(m, 2) == stepn(m1, 1));
    assert(stepn(r2.0, 0) == (r2.0, StepOutcome::Running));
    assert(stepn(m1, 1) == (r2.0, StepOutcome::Running));
}

/// JSR to an address `t` followed by the RTS there returns the program
/// counter to the byte after the JSR instruction, with the registers, the
/// flags and the stack pointer restored. The pushed return address must not
/// overwrite the RTS opcode.
pub proof fn lemma_jsr_rts(m: Model, t: u16)
    requires
        m.wf(),
        m.sp >= 0x102,
        rd(m.mem, m.pc) == 0x20,
        t == rdw(m.mem, wadd16(m.pc, 1)),
        rd(m.mem, t) == 0x60,
        t != m.sp,
        t != (m.sp - 1) as u16,
    ensures
        stepn(m, 2).1 == StepOutcome::Running,
        stepn(m, 2).0.pc == wadd16(m.pc, 3),
        stepn(m, 2).0.sp == m.sp,
        stepn(m, 2).0.a == m.a,
        stepn(m, 2).0.x == m.x,
        stepn(m, 2).0.y == m.y,
        stepn(m, 2).0.p == m.p,
{
    reveal(crate::opcodes::spec_decode);
    reveal(crate::model::step_model);
    reveal(crate::model::step_jsr);
    reveal(crate::model::step_rts);
    let r1 = step_model(m);
    assert(spec_decode(0x20) == Some(
        Instr { mnemonic: Mnemonic::Jsr, mode: AddressingMode::Absolute, len: 3 },
    ));
    assert(r1 == step_jsr(m, AddressingMode::Absolute));
    let m1 = r1.0;
    let ret = wadd16(wadd16(m.pc, 1), 1);
    assert(ret == wadd16(m.pc, 2)) by {
        vstd::arithmetic::div_mod::lemma_add_mod_noop(m.pc + 1, 1, 0x10000);
        vstd::arithmetic::div_mod::lemma_small_mod(1nat, 0x10000);
    }
    assert(m1.pc == t);
    assert(m1.sp == m.sp - 2);
    assert(wadd16((m.sp - 1) as u16, 1) == m.sp);
    assert(m1.mem == wr(wr(m.mem, (m.sp - 1) as u16, (ret % 256) as u8), m.sp, (ret / 256) as u8));
    assert(rd(m1.mem, t) == 0x60);
    let r2 = step_model(m1);
    assert(spec_decode(0x60) == Some(
        Instr { mnemonic: Mnemonic::Rts, mode: AddressingMode::Implied, len: 1 },
    ));
    assert(r2 == step_rts(m1));
    assert(rd(m1.mem, (m1.sp + 1) as u16) == (ret % 256) as u8);
    assert(rd(m1.mem, (m1.sp + 2) as u16) == (ret / 256) as u8);
    assert(ret % 256 + 256 * (ret / 256) == ret) by {
        vstd::arithmetic::div_mod::lemma_fundamental_div_mod(ret as int, 256);
    }
    assert(r2.0.pc == wadd16(ret, 1));
    assert(wadd16(ret, 1) == wadd16(m.pc, 3)) by {
        vstd::arithmetic::div_mod::lemma_add_mod_noop(m.pc + 2, 1, 0x10000);
        vstd::arithmetic::div_mod::lemma_small_mod(1nat, 0x10000);
    }
    assert(stepn(m, 2) == stepn(m1, 1));
    assert(stepn(r2.0, 0) == (r2.0, StepOutcome::Running));
    assert(stepn(m1, 1) == (r2.0, StepOutcome::Running));
}

} // verus!
