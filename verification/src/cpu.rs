//! The processor: the register file, the bus, and the verified
//! fetch/decode/execute loop.
//!
//! Every public operation carries a contract over the `Model` view. The
//! single-instruction `step` is proved to follow `step_model` exactly, and
//! the run loops are proved to iterate it, so the interpreter's behaviour is
//! pinned down by the small-step semantics in `model`.

use vstd::prelude::*;

use crate::bus::{rd, rdw, wadd16, wr, wrw, zero_mem, Bus};
use crate::model::{
    adc_full, boot_model, ea_model, hook_ok, hooked_chain, jump_target, lemma_stepn_snoc,
    loaded_mem, reset_model, run_hooked_post, run_post, sbc_full, step_adc, step_and, step_asl,
    step_bit, step_branch, step_brk, step_compare, step_dec, step_dex, step_dey, step_eor,
    step_inc, step_inx, step_iny, step_jmp, step_jsr, step_lda, step_ldx, step_ldy, step_lsr,
    step_model, step_nop, step_ora, step_pha, step_php, step_pla, step_plp, step_rol, step_ror,
    step_rti, step_rts, step_sbc, step_set_flags, step_store, step_tax, step_tay, step_tsx,
    step_txa, step_txs, step_tya, stepn, to_u8, Fault, Model, StepOutcome, CODE_START, IRQ_VECTOR,
    RESET_VECTOR, STACK_END,
};
use crate::opcodes::{
    decode, is_alu, is_branch, is_control, mode_len_of, spec_decode, AddressingMode, Instr,
    Mnemonic,
};
use crate::status_register::{pack_bits, unpack_bits, StatusRegister};

verus! {

/// 16-bit addition wrapping modulo 2^16.
fn w_add16(a: u16, b: u16) -> (r: u16)
    ensures
        r == wadd16(a, b as int),
{
    a.wrapping_add(b)
}

/// The addition unit: the new accumulator and flags that ADC leaves, binary
/// or decimal by the D flag of `p`.
#[verifier::rlimit(100)]
fn adc_exec(p: StatusRegister, a: u8, v: u8) -> (r: (u8, StatusRegister))
    ensures
        r == adc_full(p, a, v),
{
    let cin: u16 = if p.c {
        1
    } else {
        0
    };
    let bin: u16 = a as u16 + v as u16 + cin;
    let z = bin % 256 == 0;
    let same_sign = (a >= 0x80) == (v >= 0x80);
    if p.d {
        let lo0: u16 = (a % 16) as u16 + (v % 16) as u16 + cin;
        let lo1: u16 = if lo0 >= 0xa {
            0x10 + (lo0 + 6) % 16
        } else {
            lo0
        };
        let t: u16 = lo1 + (a - a % 16) as u16 + (v - v % 16) as u16;
        let n = t % 256 >= 0x80;
        if t >= 0xa0 {
            (((t + 0x60) % 256) as u8, StatusRegister { c: true, z, n, v: same_sign && t < 0x180, ..p })
        } else {
            ((t % 256) as u8, StatusRegister { c: false, z, n, v: same_sign && t >= 0x80, ..p })
        }
    } else {
        let n = bin % 256 >= 0x80;
        if bin >= 0x100 {
            ((bin % 256) as u8, StatusRegister { c: true, z, n, v: same_sign && bin < 0x180, ..p })
        } else {
            ((bin % 256) as u8, StatusRegister { c: false, z, n, v: same_sign && bin >= 0x80, ..p })
        }
    }
}

/// The subtraction unit: the new accumulator and flags that SBC leaves,
/// binary or decimal by the D flag of `p`.
#[verifier::rlimit(100)]
fn sbc_exec(p: StatusRegister, a: u8, v: u8) -> (r: (u8, StatusRegister))
    ensures
        r == sbc_full(p, a, v),
{
    let cin: i32 = if p.c {
        1
    } else {
        0
    };
    let diff_sign = (a >= 0x80) != (v >= 0x80);
    if p.d {
        let lo0: i32 = 0xf + (a % 16) as i32 - (v % 16) as i32 + cin;
        let lo1: i32 = if lo0 < 0x10 {
            lo0 - 6
        } else {
            lo0 - 0x10
        };
        let hi0: i32 = (if lo0 < 0x10 {
            0i32
        } else {
            0x10i32
        }) + 0xf0 + (a - a % 16) as i32 - (v - v % 16) as i32;
        if hi0 < 0x100 {
            let s: i32 = hi0 - 0x60 + lo1;
            let out = ((s + 0x200) % 256) as u8;
            proof {
                vstd::arithmetic::div_mod::lemma_mod_add_multiples_vanish(s + 0x100, 256);
                vstd::arithmetic::div_mod::lemma_mod_add_multiples_vanish(s as int, 256);
                assert(out == to_u8(hi0 - 0x60 + lo1));
            }
            (out, StatusRegister { c: false, v: diff_sign && hi0 >= 0x80, z: out == 0, n: out >= 0x80, ..p })
        } else {
            let s: i32 = hi0 + lo1;
            let out = ((s + 0x200) % 256) as u8;
            proof {
                vstd::arithmetic::div_mod::lemma_mod_add_multiples_vanish(s + 0x100, 256);
                vstd::arithmetic::div_mod::lemma_mod_add_multiples_vanish(s as int, 256);
                assert(out == to_u8(hi0 + lo1));
            }
            (out, StatusRegister { c: true, v: diff_sign && hi0 < 0x180, z: out == 0, n: out >= 0x80, ..p })
        }
    } else {
        let bin: i32 = 0xff + a as i32 - v as i32 + cin;
        let out = (bin % 256) as u8;
        if bin < 0x100 {
            (out, StatusRegister { c: false, v: diff_sign && bin >= 0x80, z: out == 0, n: out >= 0x80, ..p })
        } else {
            (out, StatusRegister { c: true, v: diff_sign && bin < 0x180, z: out == 0, n: out >= 0x80, ..p })
        }
    }
}

/// A caller-supplied observer, invoked once after every retired instruction.
/// It sees the processor exactly at an instruction boundary and may read and
/// write memory — the usual way to inject input or to request a halt by
/// clearing the BRK handler vector — but it leaves the registers and flags
/// alone.
pub trait Hook {
    /// Called synchronously after each instruction.
    fn on_instruction(&mut self, cpu: &mut CPU)
        requires
            old(cpu).wf(),
        ensures
            hook_ok(old(cpu)@, final(cpu)@),
    ;
}

/// The MOS 6502 processor: registers, flags and the memory bus.
pub struct CPU {
    /// Accumulator.
    pub a: u8,
    /// Index register X.
    pub x: u8,
    /// Index register Y.
    pub y: u8,
    /// Program counter.
    pub pc: u16,
    /// Stack pointer, kept as the full page-1 address `0x0100 | low`.
    pub sp: u16,
    /// Status flags.
    pub p: StatusRegister,
    /// The 64 KiB address space.
    pub bus: Bus,
}

impl View for CPU {
    type V = Model;

    open spec fn view(&self) -> Model {
        Model {
            a: self.a,
            x: self.x,
            y: self.y,
            pc: self.pc,
            sp: self.sp,
            p: self.p,
            mem: self.bus@,
        }
    }
}

impl CPU {
    /// Well-formedness: full memory backing and the stack pointer inside
    /// page 1.
    pub open spec fn wf(&self) -> bool {
        self@.wf()
    }

    /// A powered-on processor: cleared registers, stack pointer at the top
    /// of page 1, only the Z flag set, zeroed memory.
    pub fn new() -> (r: Self)
        ensures
            r.wf(),
            r@ == (Model {
                a: 0,
                x: 0,
                y: 0,
                pc: 0,
                sp: STACK_END,
                p: unpack_bits(2),
                mem: zero_mem(),
            }),
    {
        CPU {
            a: 0,
            x: 0,
            y: 0,
            pc: 0,
            sp: STACK_END,
            p: StatusRegister::new(2),
            bus: Bus::new(),
        }
    }

    /// Reads the byte at `addr`.
    pub fn mem_read_byte(&self, addr: u16) -> (r: u8)
        requires
            self.wf(),
        ensures
            r == rd(self@.mem, addr),
    {
        self.bus.mem_read_byte(addr)
    }

    /// Writes `data` at `addr`.
    pub fn mem_write_byte(&mut self, addr: u16, data: u8)
        requires
            old(self).wf(),
        ensures
            final(self).wf(),
            final(self)@ == (Model { mem: wr(old(self)@.mem, addr, data), ..old(self)@ }),
    {
        self.bus.mem_write_byte(addr, data);
    }

    /// Reads the little-endian word at `addr`.
    pub fn mem_read_word(&self, addr: u16) -> (r: u16)
        requires
            self.wf(),
        ensures
            r == rdw(self@.mem, addr),
    {
        self.bus.mem_read_word(addr)
    }

    /// Writes the little-endian word `data` at `addr`.
    pub fn mem_write_word(&mut self, addr: u16, data: u16)
        requires
            old(self).wf(),
        ensures
            final(self).wf(),
            final(self)@ == (Model { mem: wrw(old(self)@.mem, addr, data), ..old(self)@ }),
    {
        self.bus.mem_write_word(addr, data);
    }

    /// Pushes one byte: writes it at the stack pointer, which then moves
    /// down. Needs a free slot (`SP >= 0x0101`).
    fn stack_push_byte(&mut self, val: u8)
        requires
            old(self).wf(),
            old(self).sp >= 0x101,
        ensures
            final(self).wf(),
            final(self)@ == (Model {
                mem: wr(old(self)@.mem, old(self).sp, val),
                sp: (old(self).sp - 1) as u16,
                ..old(self)@
            }),
    {
        self.bus.mem_write_byte(self.sp, val);
        self.sp = self.sp - 1;
    }

    /// Pushes one word: high byte at the stack pointer, low byte below it.
    /// Needs two free slots (`SP >= 0x0102`).
    fn stack_push_word(&mut self, val: u16)
        requires
            old(self).wf(),
            old(self).sp >= 0x102,
        ensures
            final(self).wf(),
            final(self)@ == (Model {
                mem: wrw(old(self)@.mem, (old(self).sp - 1) as u16, val),
                sp: (old(self).sp - 2) as u16,
                ..old(self)@
            }),
    {
        self.bus.mem_write_word(self.sp - 1, val);
        self.sp = self.sp - 2;
    }

    /// Pops one byte: the stack pointer moves up and the byte there is
    /// returned. Needs something on the stack (`SP <= 0x01FE`).
    pub fn stack_pop_byte(&mut self) -> (r: u8)
        requires
            old(self).wf(),
            old(self).sp <= 0x1FE,
        ensures
            final(self).wf(),
            final(self)@ == (Model { sp: (old(self).sp + 1) as u16, ..old(self)@ }),
            r == rd(old(self)@.mem, (old(self).sp + 1) as u16),
    {
        self.sp = self.sp + 1;
        self.bus.mem_read_byte(self.sp)
    }

    /// Pops one word: low byte first, then the high byte. Needs two bytes on
    /// the stack (`SP <= 0x01FD`).
    pub fn stack_pop_word(&mut self) -> (r: u16)
        requires
            old(self).wf(),
            old(self).sp <= 0x1FD,
        ensures
            final(self).wf(),
            final(self)@ == (Model { sp: (old(self).sp + 2) as u16, ..old(self)@ }),
            r == rd(old(self)@.mem, (old(self).sp + 1) as u16) + 256 * rd(
                old(self)@.mem,
                (old(self).sp + 2) as u16,
            ),
    {
        self.sp = self.sp + 2;
        let r = self.bus.mem_read_word(self.sp - 1);
        proof {
            assert(wadd16((self.sp - 1) as u16, 1) == self.sp);
        }
        r
    }

    /// Displaces the program counter by the signed byte it points at:
    /// an operand of `0x80..=0xFF` moves it backward by `256 - operand`
    /// bytes, a smaller one forward by the operand, wrapping modulo 2^16.
    pub fn jump_near_immediate(&mut self)
        requires
            old(self).wf(),
        ensures
            final(self).wf(),
            final(self)@ == (Model {
                pc: jump_target(old(self).pc, rd(old(self)@.mem, old(self).pc)),
                ..old(self)@
            }),
    {
        let offset = self.bus.mem_read_byte(self.pc);
        if offset >= 0x80 {
            self.pc = self.pc.wrapping_sub(0x100 - offset as u16);
        } else {
            self.pc = self.pc.wrapping_add(offset as u16);
        }
    }

    /// The addressing unit: the effective operand address for `mode`, with
    /// the program counter standing on the first operand byte. Zero-page
    /// arithmetic wraps modulo 256 — the pointer reads of the indirect modes
    /// never leave page 0 — and absolute arithmetic wraps modulo 2^16.
    #[verifier::rlimit(50)]
    pub fn get_operand_address(&self, mode: AddressingMode) -> (addr: u16)
        requires
            self.wf(),
            mode != AddressingMode::Implied,
            mode != AddressingMode::Relative,
        ensures
            addr == ea_model(self@, mode),
    {
        match mode {
            AddressingMode::Immediate => self.pc,
            AddressingMode::ZeroPage => self.bus.mem_read_byte(self.pc) as u16,
            AddressingMode::ZeroPageX => {
                let pos = self.bus.mem_read_byte(self.pc);
                pos.wrapping_add(self.x) as u16
            },
            AddressingMode::ZeroPageY => {
                let pos = self.bus.mem_read_byte(self.pc);
                pos.wrapping_add(self.y) as u16
            },
            AddressingMode::Absolute => self.bus.mem_read_word(self.pc),
            AddressingMode::AbsoluteX => {
                let pos = self.bus.mem_read_word(self.pc);
                pos.wrapping_add(self.x as u16)
            },
            AddressingMode::AbsoluteY => {
                let pos = self.bus.mem_read_word(self.pc);
                pos.wrapping_add(self.y as u16)
            },
            AddressingMode::Indirect => {
                let ptr = self.bus.mem_read_word(self.pc);
                self.bus.mem_read_word(ptr)
            },
            AddressingMode::IndirectX => {
                let pos = self.bus.mem_read_byte(self.pc);
                let ptr = pos.wrapping_add(self.x);
                let lo = self.bus.mem_read_byte(ptr as u16);
                let hi = self.bus.mem_read_byte(ptr.wrapping_add(1) as u16);
                lo as u16 + (hi as u16) * 256
            },
            AddressingMode::IndirectY => {
                let pos = self.bus.mem_read_byte(self.pc);
                let lo = self.bus.mem_read_byte(pos as u16);
                let hi = self.bus.mem_read_byte(pos.wrapping_add(1) as u16);
                let base = lo as u16 + (hi as u16) * 256;
                base.wrapping_add(self.y as u16)
            },
            AddressingMode::Relative | AddressingMode::Implied => 0,
        }
    }

    /// LDA.
    fn op_lda(&mut self, mode: AddressingMode) -> (o: StepOutcome)
        requires
            old(self).wf(),
            mode != AddressingMode::Implied,
            mode != AddressingMode::Relative,
        ensures
            final(self).wf(),
            (final(self)@, o) == step_lda(old(self)@, mode),
            o == StepOutcome::Running,
    {
        proof {
            reveal(crate::model::step_lda);
        }
        self.pc = w_add16(self.pc, 1);
        let addr = self.get_operand_address(mode);
        let v = self.bus.mem_read_byte(addr);
        self.a = v;
        self.p.ensure_z(v);
        self.p.ensure_n(v);
        let l = mode_len_of(mode);
        self.pc = w_add16(self.pc, (l - 1) as u16);
        StepOutcome::Running
    }

    /// LDX.
    fn op_ldx(&mut self, mode: AddressingMode) -> (o: StepOutcome)
        requires
            old(self).wf(),
            mode != AddressingMode::Implied,
            mode != AddressingMode::Relative,
        ensures
            final(self).wf(),
            (final(self)@, o) == step_ldx(old(self)@, mode),
            o == StepOutcome::Running,
    {
        proof {
            reveal(crate::model::step_ldx);
        }
        self.pc = w_add16(self.pc, 1);
        let addr = self.get_operand_address(mode);
        let v = self.bus.mem_read_byte(addr);
        self.x = v;
        self.p.ensure_z(v);
        self.p.ensure_n(v);
        let l = mode_len_of(mode);
        self.pc = w_add16(self.pc, (l - 1) as u16);
        StepOutcome::Running
    }

    /// LDY.
    fn op_ldy(&mut self, mode: AddressingMode) -> (o: StepOutcome)
        requires
            old(self).wf(),
            mode != AddressingMode::Implied,
            mode != AddressingMode::Relative,
        ensures
            final(self).wf(),
            (final(self)@, o) == step_ldy(old(self)@, mode),
            o == StepOutcome::Running,
    {
        proof {
            reveal(crate::model::step_ldy);
        }
        self.pc = w_add16(self.pc, 1);
        let addr = self.get_operand_address(mode);
        let v = self.bus.mem_read_byte(addr);
        self.y = v;
        self.p.ensure_z(v);
        self.p.ensure_n(v);
        let l = mode_len_of(mode);
        self.pc = w_add16(self.pc, (l - 1) as u16);
        StepOutcome::Running
    }

    /// STA/STX/STY, with the register byte to store.
    fn op_store(&mut self, mode: AddressingMode, v: u8) -> (o: StepOutcome)
        requires
            old(self).wf(),
            mode != AddressingMode::Implied,
            mode != AddressingMode::Relative,
        ensures
            final(self).wf(),
            (final(self)@, o) == step_store(old(self)@, mode, v),
            o == StepOutcome::Running,
    {
        proof {
            reveal(crate::model::step_store);
        }
        self.pc = w_add16(self.pc, 1);
        let addr = self.get_operand_address(mode);
        self.bus.mem_write_byte(addr, v);
        let l = mode_len_of(mode);
        self.pc = w_add16(self.pc, (l - 1) as u16);
        StepOutcome::Running
    }

    /// TAX.
    fn op_tax(&mut self) -> (o: StepOutcome)
        requires
            old(self).wf(),
        ensures
            final(self).wf(),
            (final(self)@, o) == step_tax(old(self)@),
            o == StepOutcome::Running,
    {
        proof {
            reveal(crate::model::step_tax);
        }
        self.pc = w_add16(self.pc, 1);
        self.x = self.a;
        self.p.ensure_z(self.x);
        self.p.ensure_n(self.x);
        StepOutcome::Running
    }

    /// TAY.
    fn op_tay(&mut self) -> (o: StepOutcome)
        requires
            old(self).wf(),
        ensures
            final(self).wf(),
            (final(self)@, o) == step_tay(old(self)@),
            o == StepOutcome::Running,
    {
        proof {
            reveal(crate::model::step_tay);
        }
        self.pc = w_add16(self.pc, 1);
        self.y = self.a;
        self.p.ensure_z(self.y);
        self.p.ensure_n(self.y);
        StepOutcome::Running
    }

    /// TXA.
    fn op_txa(&mut self) -> (o: StepOutcome)
        requires
            old(self).wf(),
        ensures
            final(self).wf(),
            (final(self)@, o) == step_txa(old(self)@),
            o == StepOutcome::Running,
    {
        proof {
            reveal(crate::model::step_txa);
        }
        self.pc = w_add16(self.pc, 1);
        self.a = self.x;
        self.p.ensure_z(self.a);
        self.p.ensure_n(self.a);
        StepOutcome::Running
    }

    /// TYA.
    fn op_tya(&mut self) -> (o: StepOutcome)
        requires
            old(self).wf(),
        ensures
            final(self).wf(),
            (final(self)@, o) == step_tya(old(self)@),
            o == StepOutcome::Running,
    {
        proof {
            reveal(crate::model::step_tya);
        }
        self.pc = w_add16(self.pc, 1);
        self.a = self.y;
        self.p.ensure_z(self.a);
        self.p.ensure_n(self.a);
        StepOutcome::Running
    }

    /// TSX.
    fn op_tsx(&mut self) -> (o: StepOutcome)
        requires
            old(self).wf(),
        ensures
            final(self).wf(),
            (final(self)@, o) == step_tsx(old(self)@),
            o == StepOutcome::Running,
    {
        proof {
            reveal(crate::model::step_tsx);
        }
        self.pc = w_add16(self.pc, 1);
        self.x = (self.sp % 256) as u8;
        self.p.ensure_z(self.x);
        self.p.ensure_n(self.x);
        StepOutcome::Running
    }

    /// TXS.
    fn op_txs(&mut self) -> (o: StepOutcome)
        requires
            old(self).wf(),
        ensures
            final(self).wf(),
            (final(self)@, o) == step_txs(old(self)@),
            o == StepOutcome::Running,
    {
        proof {
            reveal(crate::model::step_txs);
        }
        self.pc = w_add16(self.pc, 1);
        self.sp = 0x100 + self.x as u16;
        StepOutcome::Running
    }

    /// INX.
    fn op_inx(&mut self) -> (o: StepOutcome)
        requires
            old(self).wf(),
        ensures
            final(self).wf(),
            (final(self)@, o) == step_inx(old(self)@),
            o == StepOutcome::Running,
    {
        proof {
            reveal(crate::model::step_inx);
        }
        self.pc = w_add16(self.pc, 1);
        self.x = self.x.wrapping_add(1);
        self.p.ensure_z(self.x);
        self.p.ensure_n(self.x);
        StepOutcome::Running
    }

    /// INY.
    fn op_iny(&mut self) -> (o: StepOutcome)
        requires
            old(self).wf(),
        ensures
            final(self).wf(),
            (final(self)@, o) == step_iny(old(self)@),
            o == StepOutcome::Running,
    {
        proof {
            reveal(crate::model::step_iny);
        }
        self.pc = w_add16(self.pc, 1);
        self.y = self.y.wrapping_add(1);
        self.p.ensure_z(self.y);
        self.p.ensure_n(self.y);
        StepOutcome::Running
    }

    /// DEX.
    fn op_dex(&mut self) -> (o: StepOutcome)
        requires
            old(self).wf(),
        ensures
            final(self).wf(),
            (final(self)@, o) == step_dex(old(self)@),
            o == StepOutcome::Running,
    {
        proof {
            reveal(crate::model::step_dex);
        }
        self.pc = w_add16(self.pc, 1);
        self.x = self.x.wrapping_sub(1);
        self.p.ensure_z(self.x);
        self.p.ensure_n(self.x);
        StepOutcome::Running
    }

    /// DEY.
    fn op_dey(&mut self) -> (o: StepOutcome)
        requires
            old(self).wf(),
        ensures
            final(self).wf(),
            (final(self)@, o) == step_dey(old(self)@),
            o == StepOutcome::Running,
    {
        proof {
            reveal(crate::model::step_dey);
        }
        self.pc = w_add16(self.pc, 1);
        self.y = self.y.wrapping_sub(1);
        self.p.ensure_z(self.y);
        self.p.ensure_n(self.y);
        StepOutcome::Running
    }

    /// INC.
    fn op_inc(&mut self, mode: AddressingMode) -> (o: StepOutcome)
        requires
            old(self).wf(),
            mode != AddressingMode::Implied,
            mode != AddressingMode::Relative,
        ensures
            final(self).wf(),
            (final(self)@, o) == step_inc(old(self)@, mode),
            o == StepOutcome::Running,
    {
        proof {
            reveal(crate::model::step_inc);
        }
        self.pc = w_add16(self.pc, 1);
        let addr = self.get_operand_address(mode);
        let v = self.bus.mem_read_byte(addr).wrapping_add(1);
        self.bus.mem_write_byte(addr, v);
        self.p.ensure_z(v);
        self.p.ensure_n(v);
        let l = mode_len_of(mode);
        self.pc = w_add16(self.pc, (l - 1) as u16);
        StepOutcome::Running
    }

    /// DEC.
    fn op_dec(&mut self, mode: AddressingMode) -> (o: StepOutcome)
        requires
            old(self).wf(),
            mode != AddressingMode::Implied,
            mode != AddressingMode::Relative,
        ensures
            final(self).wf(),
            (final(self)@, o) == step_dec(old(self)@, mode),
            o == StepOutcome::Running,
    {
        proof {
            reveal(crate::model::step_dec);
        }
        self.pc = w_add16(self.pc, 1);
        let addr = self.get_operand_address(mode);
        let v = self.bus.mem_read_byte(addr).wrapping_sub(1);
        self.bus.mem_write_byte(addr, v);
        self.p.ensure_z(v);
        self.p.ensure_n(v);
        let l = mode_len_of(mode);
        self.pc = w_add16(self.pc, (l - 1) as u16);
        StepOutcome::Running
    }

    /// AND.
    fn op_and(&mut self, mode: AddressingMode) -> (o: StepOutcome)
        requires
            old(self).wf(),
            mode != AddressingMode::Implied,
            mode != AddressingMode::Relative,
        ensures
            final(self).wf(),
            (final(self)@, o) == step_and(old(self)@, mode),
            o == StepOutcome::Running,
    {
        proof {
            reveal(crate::model::step_and);
        }
        self.pc = w_add16(self.pc, 1);
        let addr = self.get_operand_address(mode);
        let v = self.bus.mem_read_byte(addr);
        self.a = self.a & v;
        self.p.ensure_z(self.a);
        self.p.ensure_n(self.a);
        let l = mode_len_of(mode);
        self.pc = w_add16(self.pc, (l - 1) as u16);
        StepOutcome::Running
    }

    /// ORA.
    fn op_ora(&mut self, mode: AddressingMode) -> (o: StepOutcome)
        requires
            old(self).wf(),
            mode != AddressingMode::Implied,
            mode != AddressingMode::Relative,
        ensures
            final(self).wf(),
            (final(self)@, o) == step_ora(old(self)@, mode),
            o == StepOutcome::Running,
    {
        proof {
            reveal(crate::model::step_ora);
        }
        self.pc = w_add16(self.pc, 1);
        let addr = self.get_operand_address(mode);
        let v = self.bus.mem_read_byte(addr);
        self.a = self.a | v;
        self.p.ensure_z(self.a);
        self.p.ensure_n(self.a);
        let l = mode_len_of(mode);
        self.pc = w_add16(self.pc, (l - 1) as u16);
        StepOutcome::Running
    }

    /// EOR.
    fn op_eor(&mut self, mode: AddressingMode) -> (o: StepOutcome)
        requires
            old(self).wf(),
            mode != AddressingMode::Implied,
            mode != AddressingMode::Relative,
        ensures
            final(self).wf(),
            (final(self)@, o) == step_eor(old(self)@, mode),
            o == StepOutcome::Running,
    {
        proof {
            reveal(crate::model::step_eor);
        }
        self.pc = w_add16(self.pc, 1);
        let addr = self.get_operand_address(mode);
        let v = self.bus.mem_read_byte(addr);
        self.a = self.a ^ v;
        self.p.ensure_z(self.a);
        self.p.ensure_n(self.a);
        let l = mode_len_of(mode);
        self.pc = w_add16(self.pc, (l - 1) as u16);
        StepOutcome::Running
    }

    /// BIT.
    fn op_bit(&mut self, mode: AddressingMode) -> (o: StepOutcome)
        requires
            old(self).wf(),
            mode != AddressingMode::Implied,
            mode != AddressingMode::Relative,
        ensures
            final(self).wf(),
            (final(self)@, o) == step_bit(old(self)@, mode),
            o == StepOutcome::Running,
    {
        proof {
            reveal(crate::model::step_bit);
        }
        self.pc = w_add16(self.pc, 1);
        let addr = self.get_operand_address(mode);
        let v = self.bus.mem_read_byte(addr);
        self.p.ensure_z(self.a & v);
        self.p.ensure_n(v);
        self.p.v = v & 0x40 == 0x40;
        let l = mode_len_of(mode);
        self.pc = w_add16(self.pc, (l - 1) as u16);
        StepOutcome::Running
    }

    /// CMP/CPX/CPY, with the register byte to compare.
    fn op_compare(&mut self, mode: AddressingMode, reg: u8) -> (o: StepOutcome)
        requires
            old(self).wf(),
            mode != AddressingMode::Implied,
            mode != AddressingMode::Relative,
        ensures
            final(self).wf(),
            (final(self)@, o) == step_compare(old(self)@, mode, reg),
            o == StepOutcome::Running,
    {
        proof {
            reveal(crate::model::step_compare);
        }
        self.pc = w_add16(self.pc, 1);
        let addr = self.get_operand_address(mode);
        let v = self.bus.mem_read_byte(addr);
        self.p.c = v <= reg;
        let d = reg.wrapping_sub(v);
        self.p.ensure_z(d);
        self.p.ensure_n(d);
        let l = mode_len_of(mode);
        self.pc = w_add16(self.pc, (l - 1) as u16);
        StepOutcome::Running
    }

    /// CLC/SEC/CLD/SED/CLI/SEI/CLV, with the flags the instruction leaves.
    fn op_set_flags(&mut self, p2: StatusRegister) -> (o: StepOutcome)
        requires
            old(self).wf(),
        ensures
            final(self).wf(),
            (final(self)@, o) == step_set_flags(old(self)@, p2),
            o == StepOutcome::Running,
    {
        proof {
            reveal(crate::model::step_set_flags);
        }
        self.pc = w_add16(self.pc, 1);
        self.p = p2;
        StepOutcome::Running
    }

    /// ASL.
    fn op_asl(&mut self, mode: AddressingMode) -> (o: StepOutcome)
        requires
            old(self).wf(),
            mode != AddressingMode::Relative,
            mode != AddressingMode::Indirect,
        ensures
            final(self).wf(),
            (final(self)@, o) == step_asl(old(self)@, mode),
            o == StepOutcome::Running,
    {
        proof {
            reveal(crate::model::step_asl);
        }
        self.pc = w_add16(self.pc, 1);
        if mode == AddressingMode::Implied {
            let v = self.a;
            let r = ((v as u16 * 2) % 256) as u8;
            self.p.c = v >= 0x80;
            self.a = r;
            self.p.ensure_z(r);
            self.p.ensure_n(r);
        } else {
            let addr = self.get_operand_address(mode);
            let v = self.bus.mem_read_byte(addr);
            let r = ((v as u16 * 2) % 256) as u8;
            self.p.c = v >= 0x80;
            self.bus.mem_write_byte(addr, r);
            self.p.ensure_z(r);
            self.p.ensure_n(r);
            let l = mode_len_of(mode);
            self.pc = w_add16(self.pc, (l - 1) as u16);
        }
        StepOutcome::Running
    }

    /// LSR.
    fn op_lsr(&mut self, mode: AddressingMode) -> (o: StepOutcome)
        requires
            old(self).wf(),
            mode != AddressingMode::Relative,
            mode != AddressingMode::Indirect,
        ensures
            final(self).wf(),
            (final(self)@, o) == step_lsr(old(self)@, mode),
            o == StepOutcome::Running,
    {
        proof {
            reveal(crate::model::step_lsr);
        }
        self.pc = w_add16(self.pc, 1);
        if mode == AddressingMode::Implied {
            let v = self.a;
            let r = v / 2;
            self.p.c = v % 2 == 1;
            self.a = r;
            self.p.ensure_z(r);
            self.p.ensure_n(r);
        } else {
            let addr = self.get_operand_address(mode);
            let v = self.bus.mem_read_byte(addr);
            let r = v / 2;
            self.p.c = v % 2 == 1;
            self.bus.mem_write_byte(addr, r);
            self.p.ensure_z(r);
            self.p.ensure_n(r);
            let l = mode_len_of(mode);
            self.pc = w_add16(self.pc, (l - 1) as u16);
        }
        StepOutcome::Running
    }

    /// ROL.
    fn op_rol(&mut self, mode: AddressingMode) -> (o: StepOutcome)
        requires
            old(self).wf(),
            mode != AddressingMode::Relative,
            mode != AddressingMode::Indirect,
        ensures
            final(self).wf(),
            (final(self)@, o) == step_rol(old(self)@, mode),
            o == StepOutcome::Running,
    {
        proof {
            reveal(crate::model::step_rol);
        }
        self.pc = w_add16(self.pc, 1);
        let cin: u16 = if self.p.c {
            1
        } else {
            0
        };
        if mode == AddressingMode::Implied {
            let v = self.a;
            let r = ((v as u16 * 2 + cin) % 256) as u8;
            self.p.c = v >= 0x80;
            self.a = r;
            self.p.ensure_z(r);
            self.p.ensure_n(r);
        } else {
            let addr = self.get_operand_address(mode);
            let v = self.bus.mem_read_byte(addr);
            let r = ((v as u16 * 2 + cin) % 256) as u8;
            self.p.c = v >= 0x80;
            self.bus.mem_write_byte(addr, r);
            self.p.ensure_z(r);
            self.p.ensure_n(r);
            let l = mode_len_of(mode);
            self.pc = w_add16(self.pc, (l - 1) as u16);
        }
        StepOutcome::Running
    }

    /// ROR.
    fn op_ror(&mut self, mode: AddressingMode) -> (o: StepOutcome)
        requires
            old(self).wf(),
            mode != AddressingMode::Relative,
            mode != AddressingMode::Indirect,
        ensures
            final(self).wf(),
            (final(self)@, o) == step_ror(old(self)@, mode),
            o == StepOutcome::Running,
    {
        proof {
            reveal(crate::model::step_ror);
        }
        self.pc = w_add16(self.pc, 1);
        let cin: u8 = if self.p.c {
            0x80
        } else {
            0
        };
        if mode == AddressingMode::Implied {
            let v = self.a;
            let r = v / 2 + cin;
            self.p.c = v % 2 == 1;
            self.a = r;
            self.p.ensure_z(r);
            self.p.ensure_n(r);
        } else {
            let addr = self.get_operand_address(mode);
            let v = self.bus.mem_read_byte(addr);
            let r = v / 2 + cin;
            self.p.c = v % 2 == 1;
            self.bus.mem_write_byte(addr, r);
            self.p.ensure_z(r);
            self.p.ensure_n(r);
            let l = mode_len_of(mode);
            self.pc = w_add16(self.pc, (l - 1) as u16);
        }
        StepOutcome::Running
    }

    /// ADC, binary or decimal by the D flag.
    fn op_adc(&mut self, mode: AddressingMode) -> (o: StepOutcome)
        requires
            old(self).wf(),
            mode != AddressingMode::Implied,
            mode != AddressingMode::Relative,
        ensures
            final(self).wf(),
            (final(self)@, o) == step_adc(old(self)@, mode),
            o == StepOutcome::Running,
    {
        proof {
            reveal(crate::model::step_adc);
        }
        self.pc = w_add16(self.pc, 1);
        let addr = self.get_operand_address(mode);
        let v = self.bus.mem_read_byte(addr);
        let r = adc_exec(self.p, self.a, v);
        self.a = r.0;
        self.p = r.1;
        let l = mode_len_of(mode);
        self.pc = w_add16(self.pc, (l - 1) as u16);
        StepOutcome::Running
    }

    /// SBC, binary or decimal by the D flag.
    fn op_sbc(&mut self, mode: AddressingMode) -> (o: StepOutcome)
        requires
            old(self).wf(),
            mode != AddressingMode::Implied,
            mode != AddressingMode::Relative,
        ensures
            final(self).wf(),
            (final(self)@, o) == step_sbc(old(self)@, mode),
            o == StepOutcome::Running,
    {
        proof {
            reveal(crate::model::step_sbc);
        }
        self.pc = w_add16(self.pc, 1);
        let addr = self.get_operand_address(mode);
        let v = self.bus.mem_read_byte(addr);
        let r = sbc_exec(self.p, self.a, v);
        self.a = r.0;
        self.p = r.1;
        let l = mode_len_of(mode);
        self.pc = w_add16(self.pc, (l - 1) as u16);
        StepOutcome::Running
    }

    /// PHA.
    fn op_pha(&mut self) -> (o: StepOutcome)
        requires
            old(self).wf(),
        ensures
            final(self).wf(),
            (final(self)@, o) == step_pha(old(self)@),
            o != StepOutcome::Faulted(Fault::StepLimit),
            o != StepOutcome::Faulted(Fault::ProgramTooLarge),
    {
        proof {
            reveal(crate::model::step_pha);
        }
        if self.sp < 0x101 {
            return StepOutcome::Faulted(Fault::StackOverflow);
        }
        self.pc = w_add16(self.pc, 1);
        let a = self.a;
        self.stack_push_byte(a);
        StepOutcome::Running
    }

    /// PHP.
    fn op_php(&mut self) -> (o: StepOutcome)
        requires
            old(self).wf(),
        ensures
            final(self).wf(),
            (final(self)@, o) == step_php(old(self)@),
            o != StepOutcome::Faulted(Fault::StepLimit),
            o != StepOutcome::Faulted(Fault::ProgramTooLarge),
    {
        proof {
            reveal(crate::model::step_php);
        }
        if self.sp < 0x101 {
            return StepOutcome::Faulted(Fault::StackOverflow);
        }
        self.pc = w_add16(self.pc, 1);
        let mut flags = self.p;
        flags.set_b();
        flags.set_b2();
        let byte = flags.pack();
        self.stack_push_byte(byte);
        StepOutcome::Running
    }

    /// PLA.
    fn op_pla(&mut self) -> (o: StepOutcome)
        requires
            old(self).wf(),
        ensures
            final(self).wf(),
            (final(self)@, o) == step_pla(old(self)@),
            o != StepOutcome::Faulted(Fault::StepLimit),
            o != StepOutcome::Faulted(Fault::ProgramTooLarge),
    {
        proof {
            reveal(crate::model::step_pla);
        }
        if self.sp > 0x1FE {
            return StepOutcome::Faulted(Fault::StackUnderflow);
        }
        self.pc = w_add16(self.pc, 1);
        let v = self.stack_pop_byte();
        self.a = v;
        self.p.ensure_z(v);
        self.p.ensure_n(v);
        StepOutcome::Running
    }

    /// PLP.
    fn op_plp(&mut self) -> (o: StepOutcome)
        requires
            old(self).wf(),
        ensures
            final(self).wf(),
            (final(self)@, o) == step_plp(old(self)@),
            o != StepOutcome::Faulted(Fault::StepLimit),
            o != StepOutcome::Faulted(Fault::ProgramTooLarge),
    {
        proof {
            reveal(crate::model::step_plp);
        }
        if self.sp > 0x1FE {
            return StepOutcome::Faulted(Fault::StackUnderflow);
        }
        self.pc = w_add16(self.pc, 1);
        let v = self.stack_pop_byte();
        self.p = StatusRegister::new(v);
        self.p.unset_b();
        self.p.set_b2();
        StepOutcome::Running
    }

    /// BRK.
    fn op_brk(&mut self) -> (o: StepOutcome)
        requires
            old(self).wf(),
        ensures
            final(self).wf(),
            (final(self)@, o) == step_brk(old(self)@),
            o != StepOutcome::Faulted(Fault::StepLimit),
            o != StepOutcome::Faulted(Fault::ProgramTooLarge),
    {
        proof {
            reveal(crate::model::step_brk);
        }
        if self.p.i {
            self.pc = w_add16(self.pc, 1);
            return StepOutcome::Running;
        }
        let handler = self.bus.mem_read_word(IRQ_VECTOR);
        if handler == 0 {
            self.pc = w_add16(self.pc, 1);
            return StepOutcome::Halted;
        }
        if self.sp < 0x103 {
            return StepOutcome::Faulted(Fault::StackOverflow);
        }
        self.pc = w_add16(self.pc, 1);
        let pc = self.pc;
        self.stack_push_word(pc);
        self.p.set_b();
        self.p.set_b2();
        let byte = self.p.pack();
        self.stack_push_byte(byte);
        self.p.set_i();
        self.pc = handler;
        StepOutcome::Running
    }

    /// RTI.
    fn op_rti(&mut self) -> (o: StepOutcome)
        requires
            old(self).wf(),
        ensures
            final(self).wf(),
            (final(self)@, o) == step_rti(old(self)@),
            o != StepOutcome::Faulted(Fault::StepLimit),
            o != StepOutcome::Faulted(Fault::ProgramTooLarge),
    {
        proof {
            reveal(crate::model::step_rti);
        }
        if self.sp > 0x1FC {
            return StepOutcome::Faulted(Fault::StackUnderflow);
        }
        self.pc = w_add16(self.pc, 1);
        let flags = self.stack_pop_byte();
        self.p = StatusRegister::new(flags);
        self.p.unset_b();
        self.p.set_b2();
        self.pc = self.stack_pop_word();
        StepOutcome::Running
    }

    /// A conditional branch on `cond`.
    fn op_branch(&mut self, cond: bool) -> (o: StepOutcome)
        requires
            old(self).wf(),
        ensures
            final(self).wf(),
            (final(self)@, o) == step_branch(old(self)@, cond),
            o == StepOutcome::Running,
    {
        proof {
            reveal(crate::model::step_branch);
        }
        self.pc = w_add16(self.pc, 1);
        if cond {
            self.jump_near_immediate();
        }
        self.pc = w_add16(self.pc, 1);
        StepOutcome::Running
    }

    /// JMP.
    fn op_jmp(&mut self, mode: AddressingMode) -> (o: StepOutcome)
        requires
            old(self).wf(),
            mode != AddressingMode::Implied,
            mode != AddressingMode::Relative,
        ensures
            final(self).wf(),
            (final(self)@, o) == step_jmp(old(self)@, mode),
            o == StepOutcome::Running,
    {
        proof {
            reveal(crate::model::step_jmp);
        }
        self.pc = w_add16(self.pc, 1);
        self.pc = self.get_operand_address(mode);
        StepOutcome::Running
    }

    /// JSR.
    fn op_jsr(&mut self, mode: AddressingMode) -> (o: StepOutcome)
        requires
            old(self).wf(),
            mode != AddressingMode::Implied,
            mode != AddressingMode::Relative,
        ensures
            final(self).wf(),
            (final(self)@, o) == step_jsr(old(self)@, mode),
            o != StepOutcome::Faulted(Fault::StepLimit),
            o != StepOutcome::Faulted(Fault::ProgramTooLarge),
    {
        proof {
            reveal(crate::model::step_jsr);
        }
        if self.sp < 0x102 {
            return StepOutcome::Faulted(Fault::StackOverflow);
        }
        self.pc = w_add16(self.pc, 1);
        let target = self.get_operand_address(mode);
        let ret = w_add16(self.pc, 1);
        self.stack_push_word(ret);
        self.pc = target;
        StepOutcome::Running
    }

    /// RTS.
    fn op_rts(&mut self) -> (o: StepOutcome)
        requires
            old(self).wf(),
        ensures
            final(self).wf(),
            (final(self)@, o) == step_rts(old(self)@),
            o != StepOutcome::Faulted(Fault::StepLimit),
            o != StepOutcome::Faulted(Fault::ProgramTooLarge),
    {
        proof {
            reveal(crate::model::step_rts);
        }
        if self.sp > 0x1FD {
            return StepOutcome::Faulted(Fault::StackUnderflow);
        }
        self.pc = w_add16(self.pc, 1);
        let ret = self.stack_pop_word();
        self.pc = w_add16(ret, 1);
        StepOutcome::Running
    }

    /// NOP.
    fn op_nop(&mut self) -> (o: StepOutcome)
        requires
            old(self).wf(),
        ensures
            final(self).wf(),
            (final(self)@, o) == step_nop(old(self)@),
            o == StepOutcome::Running,
    {
        proof {
            reveal(crate::model::step_nop);
        }
        self.pc = w_add16(self.pc, 1);
        StepOutcome::Running
    }

    /// The first half of the dispatch: arithmetic, logic, shifts, compares
    /// and branches.
    #[verifier::rlimit(100)]
    fn dispatch_alu(&mut self, ins: Instr) -> (o: StepOutcome)
        requires
            old(self).wf(),
            ins.wf(),
            spec_decode(rd(old(self)@.mem, old(self)@.pc)) == Some(ins),
            is_alu(ins.mnemonic),
        ensures
            final(self).wf(),
            (final(self)@, o) == step_model(old(self)@),
            o != StepOutcome::Faulted(Fault::StepLimit),
            o != StepOutcome::Faulted(Fault::ProgramTooLarge),
    {
        proof {
            reveal(crate::model::step_model);
        }
        match ins.mnemonic {
            Mnemonic::Adc => self.op_adc(ins.mode),
            Mnemonic::And => self.op_and(ins.mode),
            Mnemonic::Asl => self.op_asl(ins.mode),
            Mnemonic::Bit => self.op_bit(ins.mode),
            Mnemonic::Cmp => {
                let r = self.a;
                self.op_compare(ins.mode, r)
            },
            Mnemonic::Cpx => {
                let r = self.x;
                self.op_compare(ins.mode, r)
            },
            Mnemonic::Cpy => {
                let r = self.y;
                self.op_compare(ins.mode, r)
            },
            Mnemonic::Dec => self.op_dec(ins.mode),
            Mnemonic::Dex => self.op_dex(),
            Mnemonic::Dey => self.op_dey(),
            Mnemonic::Eor => self.op_eor(ins.mode),
            Mnemonic::Inc => self.op_inc(ins.mode),
            Mnemonic::Inx => self.op_inx(),
            Mnemonic::Iny => self.op_iny(),
            Mnemonic::Lsr => self.op_lsr(ins.mode),
            Mnemonic::Ora => self.op_ora(ins.mode),
            Mnemonic::Rol => self.op_rol(ins.mode),
            Mnemonic::Ror => self.op_ror(ins.mode),
            Mnemonic::Sbc => self.op_sbc(ins.mode),
            _ => StepOutcome::Running,
        }
    }

    /// The branch dispatch: the eight conditional branches.
    #[verifier::rlimit(100)]
    fn dispatch_branch(&mut self, ins: Instr) -> (o: StepOutcome)
        requires
            old(self).wf(),
            ins.wf(),
            spec_decode(rd(old(self)@.mem, old(self)@.pc)) == Some(ins),
            is_branch(ins.mnemonic),
        ensures
            final(self).wf(),
            (final(self)@, o) == step_model(old(self)@),
            o != StepOutcome::Faulted(Fault::StepLimit),
            o != StepOutcome::Faulted(Fault::ProgramTooLarge),
    {
        proof {
            reveal(crate::model::step_model);
        }
        match ins.mnemonic {
            Mnemonic::Bcc => {
                let c = self.p.c;
                self.op_branch(!c)
            },
            Mnemonic::Bcs => {
                let c = self.p.c;
                self.op_branch(c)
            },
            Mnemonic::Beq => {
                let z = self.p.z;
                self.op_branch(z)
            },
            Mnemonic::Bmi => {
                let n = self.p.n;
                self.op_branch(n)
            },
            Mnemonic::Bne => {
                let z = self.p.z;
                self.op_branch(!z)
            },
            Mnemonic::Bpl => {
                let n = self.p.n;
                self.op_branch(!n)
            },
            Mnemonic::Bvc => {
                let v = self.p.v;
                self.op_branch(!v)
            },
            Mnemonic::Bvs => {
                let v = self.p.v;
                self.op_branch(v)
            },
            _ => StepOutcome::Running,
        }
    }

    /// The stack, interrupt and jump dispatch.
    #[verifier::rlimit(100)]
    fn dispatch_control(&mut self, ins: Instr) -> (o: StepOutcome)
        requires
            old(self).wf(),
            ins.wf(),
            spec_decode(rd(old(self)@.mem, old(self)@.pc)) == Some(ins),
            is_control(ins.mnemonic),
        ensures
            final(self).wf(),
            (final(self)@, o) == step_model(old(self)@),
            o != StepOutcome::Faulted(Fault::StepLimit),
            o != StepOutcome::Faulted(Fault::ProgramTooLarge),
    {
        proof {
            reveal(crate::model::step_model);
        }
        match ins.mnemonic {
            Mnemonic::Brk => self.op_brk(),
            Mnemonic::Jmp => self.op_jmp(ins.mode),
            Mnemonic::Jsr => self.op_jsr(ins.mode),
            Mnemonic::Nop => self.op_nop(),
            Mnemonic::Pha => self.op_pha(),
            Mnemonic::Php => self.op_php(),
            Mnemonic::Pla => self.op_pla(),
            Mnemonic::Plp => self.op_plp(),
            Mnemonic::Rti => self.op_rti(),
            Mnemonic::Rts => self.op_rts(),
            _ => StepOutcome::Running,
        }
    }

    /// The load, store, transfer and flag-manipulation dispatch.
    #[verifier::rlimit(100)]
    fn dispatch_transfer(&mut self, ins: Instr) -> (o: StepOutcome)
        requires
            old(self).wf(),
            ins.wf(),
            spec_decode(rd(old(self)@.mem, old(self)@.pc)) == Some(ins),
            !is_alu(ins.mnemonic),
            !is_branch(ins.mnemonic),
            !is_control(ins.mnemonic),
        ensures
            final(self).wf(),
            (final(self)@, o) == step_model(old(self)@),
            o != StepOutcome::Faulted(Fault::StepLimit),
            o != StepOutcome::Faulted(Fault::ProgramTooLarge),
    {
        proof {
            reveal(crate::model::step_model);
        }
        match ins.mnemonic {
            Mnemonic::Clc => {
                let p2 = StatusRegister { c: false, ..self.p };
                self.op_set_flags(p2)
            },
            Mnemonic::Cld => {
                let p2 = StatusRegister { d: false, ..self.p };
                self.op_set_flags(p2)
            },
            Mnemonic::Cli => {
                let p2 = StatusRegister { i: false, ..self.p };
                self.op_set_flags(p2)
            },
            Mnemonic::Clv => {
                let p2 = StatusRegister { v: false, ..self.p };
                self.op_set_flags(p2)
            },
            Mnemonic::Lda => self.op_lda(ins.mode),
            Mnemonic::Ldx => self.op_ldx(ins.mode),
            Mnemonic::Ldy => self.op_ldy(ins.mode),
            Mnemonic::Sec => {
                let p2 = StatusRegister { c: true, ..self.p };
                self.op_set_flags(p2)
            },
            Mnemonic::Sed => {
                let p2 = StatusRegister { d: true, ..self.p };
                self.op_set_flags(p2)
            },
            Mnemonic::Sei => {
                let p2 = StatusRegister { i: true, ..self.p };
                self.op_set_flags(p2)
            },
            Mnemonic::Sta => {
                let v = self.a;
                self.op_store(ins.mode, v)
            },
            Mnemonic::Stx => {
                let v = self.x;
                self.op_store(ins.mode, v)
            },
            Mnemonic::Sty => {
                let v = self.y;
                self.op_store(ins.mode, v)
            },
            Mnemonic::Tax => self.op_tax(),
            Mnemonic::Tay => self.op_tay(),
            Mnemonic::Tsx => self.op_tsx(),
            Mnemonic::Txa => self.op_txa(),
            Mnemonic::Txs => self.op_txs(),
            Mnemonic::Tya => self.op_tya(),
            _ => StepOutcome::Running,
        }
    }

    /// Executes exactly one instruction: fetch the byte under the program
    /// counter, decode it through the opcode table, and dispatch. The result
    /// and the new state follow `step_model` exactly; on a fault the state is
    /// untouched.
    pub fn step(&mut self) -> (o: StepOutcome)
        requires
            old(self).wf(),
        ensures
            final(self).wf(),
            (final(self)@, o) == step_model(old(self)@),
            o != StepOutcome::Faulted(Fault::StepLimit),
            o != StepOutcome::Faulted(Fault::ProgramTooLarge),
    {
        let op = self.bus.mem_read_byte(self.pc);
        match decode(op) {
            Option::None => {
                proof {
                    reveal(crate::model::step_model);
                }
                StepOutcome::Faulted(Fault::IllegalOpcode)
            },
            Option::Some(ins) => match ins.mnemonic {
                Mnemonic::Adc | Mnemonic::And | Mnemonic::Asl | Mnemonic::Bit | Mnemonic::Cmp
                | Mnemonic::Cpx | Mnemonic::Cpy | Mnemonic::Dec | Mnemonic::Dex | Mnemonic::Dey
                | Mnemonic::Eor | Mnemonic::Inc | Mnemonic::Inx | Mnemonic::Iny | Mnemonic::Lsr
                | Mnemonic::Ora | Mnemonic::Rol | Mnemonic::Ror | Mnemonic::Sbc => self
                    .dispatch_alu(ins),
                Mnemonic::Bcc | Mnemonic::Bcs | Mnemonic::Beq | Mnemonic::Bmi | Mnemonic::Bne
                | Mnemonic::Bpl | Mnemonic::Bvc | Mnemonic::Bvs => self.dispatch_branch(ins),
                Mnemonic::Brk | Mnemonic::Jmp | Mnemonic::Jsr | Mnemonic::Nop | Mnemonic::Pha
                | Mnemonic::Php | Mnemonic::Pla | Mnemonic::Plp | Mnemonic::Rti
                | Mnemonic::Rts => self.dispatch_control(ins),
                _ => self.dispatch_transfer(ins),
            },
        }
    }

    /// Runs until the program halts through BRK or a fatal fault aborts it.
    /// The contract says exactly what came back: `Ok` means some number of
    /// steps of the small-step semantics reached a halt, an error other than
    /// the step limit means they reached that fault, and the step-limit
    /// report means the machine was still running after 2^64 - 1
    /// instructions — stopping a diverging program earlier is the caller's
    /// business.
    pub fn run(&mut self) -> (r: Result<(), Fault>)
        requires
            old(self).wf(),
        ensures
            final(self).wf(),
            run_post(old(self)@, final(self)@, r),
    {
        let ghost m0 = self@;
        let mut steps: u64 = 0;
        loop
            invariant
                self.wf(),
                m0 == old(self)@,
                stepn(m0, steps as nat) == (self@, StepOutcome::Running),
            decreases u64::MAX - steps,
        {
            if steps == u64::MAX {
                return Err(Fault::StepLimit);
            }
            let ghost pre = self@;
            let o = self.step();
            proof {
                lemma_stepn_snoc(m0, steps as nat);
            }
            steps = steps + 1;
            match o {
                StepOutcome::Running => {},
                StepOutcome::Halted => {
                    proof {
                        assert(stepn(m0, steps as nat) == (self@, StepOutcome::Halted));
                    }
                    return Ok(());
                },
                StepOutcome::Faulted(f) => {
                    proof {
                        assert(stepn(m0, steps as nat) == (self@, StepOutcome::Faulted(f)));
                    }
                    return Err(f);
                },
            }
        }
    }

    /// Runs as `run` does, but invokes the hook once after every retired
    /// instruction, with exclusive access to the processor at the
    /// instruction boundary. A halt or a fault reports without a final hook
    /// call, as the state the last instruction left.
    pub fn run_with_callback<H: Hook>(&mut self, callback: &mut H) -> (r: Result<(), Fault>)
        requires
            old(self).wf(),
        ensures
            final(self).wf(),
            run_hooked_post(old(self)@, final(self)@, r),
    {
        let ghost m0 = self@;
        let mut steps: u64 = 0;
        let ghost mut tr: Seq<Model> = seq![m0];
        loop
            invariant
                self.wf(),
                m0 == old(self)@,
                hooked_chain(tr),
                tr.len() == steps + 1,
                tr[0] == m0,
                tr.last() == self@,
            decreases u64::MAX - steps,
        {
            if steps == u64::MAX {
                return Err(Fault::StepLimit);
            }
            let ghost pre = self@;
            let o = self.step();
            match o {
                StepOutcome::Running => {
                    callback.on_instruction(self);
                    proof {
                        let tr0 = tr;
                        tr = tr.push(self@);
                        assert forall|i: int| 0 <= i < tr.len() - 1 implies (#[trigger] step_model(
                            tr[i],
                        )).1 == StepOutcome::Running && hook_ok(step_model(tr[i]).0, tr[i + 1]) by {
                            if i < tr.len() - 2 {
                                assert(tr[i] == tr0[i]);
                                assert(tr[i + 1] == tr0[i + 1]);
                                assert((#[trigger] step_model(tr0[i])).1 == StepOutcome::Running
                                    && hook_ok(step_model(tr0[i]).0, tr0[i + 1]));
                            } else {
                                assert(tr[i] == pre);
                                assert(tr[i + 1] == self@);
                            }
                        }
                    }
                },
                StepOutcome::Halted => {
                    return Ok(());
                },
                StepOutcome::Faulted(f) => {
                    return Err(f);
                },
            }
            steps = steps + 1;
        }
    }

    /// Resets the processor: registers cleared, stack pointer back to the
    /// top of page 1, only the Z flag set, and the program counter read from
    /// the reset vector. Memory is untouched.
    pub fn reset(&mut self)
        requires
            old(self).wf(),
        ensures
            final(self).wf(),
            final(self)@ == reset_model(old(self)@),
    {
        self.a = 0;
        self.x = 0;
        self.y = 0;
        self.sp = STACK_END;
        self.pc = self.bus.mem_read_word(RESET_VECTOR);
        self.p = StatusRegister::new(2);
    }

    /// Loads a program image: its bytes go to `CODE_START` on up, and the
    /// reset vector is pointed at `CODE_START`. An image larger than the
    /// code segment (`0x7FF0` bytes) is rejected, leaving the state
    /// untouched; any smaller image loads.
    pub fn load(&mut self, program: Vec<u8>) -> (r: Result<(), Fault>)
        requires
            old(self).wf(),
        ensures
            final(self).wf(),
            program@.len() > 0x7FF0 ==> r == Err::<(), Fault>(Fault::ProgramTooLarge)
                && final(self)@ == old(self)@,
            program@.len() <= 0x7FF0 ==> r == Ok::<(), Fault>(()) && final(self)@ == (Model {
                mem: loaded_mem(old(self)@.mem, program@),
                ..old(self)@
            }),
    {
        if program.len() > 0x7FF0 {
            return Err(Fault::ProgramTooLarge);
        }
        let mut i: usize = 0;
        while i < program.len()
            invariant
                self.wf(),
                i <= program@.len() <= 0x7FF0,
                self@.a == old(self)@.a,
                self@.x == old(self)@.x,
                self@.y == old(self)@.y,
                self@.pc == old(self)@.pc,
                self@.sp == old(self)@.sp,
                self@.p == old(self)@.p,
                self@.mem.len() == 0x10000,
                forall|j: int|
                    0 <= j < 0x10000 ==> self@.mem[j] == (if CODE_START <= j < CODE_START + i {
                        program@[j - CODE_START]
                    } else {
                        old(self)@.mem[j]
                    }),
            decreases program@.len() - i,
        {
            let b = program[i];
            self.bus.mem_write_byte(CODE_START + i as u16, b);
            i = i + 1;
        }
        self.bus.mem_write_word(RESET_VECTOR, CODE_START);
        proof {
            assert(self@.mem =~= loaded_mem(old(self)@.mem, program@));
            assert(self@ =~= (Model { mem: loaded_mem(old(self)@.mem, program@), ..old(self)@ }));
        }
        Ok(())
    }

    /// Loads an image, resets, and runs it: the usual way the host drives
    /// the machine. The run's promise holds from the freshly booted state.
    pub fn load_and_run(&mut self, program: Vec<u8>) -> (r: Result<(), Fault>)
        requires
            old(self).wf(),
        ensures
            final(self).wf(),
            program@.len() > 0x7FF0 ==> r == Err::<(), Fault>(Fault::ProgramTooLarge)
                && final(self)@ == old(self)@,
            program@.len() <= 0x7FF0 ==> run_post(
                boot_model(old(self)@, program@),
                final(self)@,
                r,
            ),
    {
        match self.load(program) {
            Result::Err(f) => Err(f),
            Result::Ok(u) => {
                self.reset();
                self.run()
            },
        }
    }
}

} // verus!
