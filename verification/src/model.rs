//! The mathematical model of the processor and its small-step semantics.
//!
//! `Model` is the architectural state — registers, flags and the full
//! address space as a sequence of bytes. `step_model` maps a state to the
//! state after one instruction together with a `StepOutcome`; `stepn`
//! iterates it. The executable interpreter in `cpu` is verified to follow
//! these functions exactly, so everything the instruction set does — flag
//! computation, addressing, the stack discipline, interrupt entry and exit —
//! is pinned down here.

use vstd::prelude::*;

use crate::bus::{rd, rdw, wadd16, wr, wrw};
use crate::opcodes::{mode_len, spec_decode, AddressingMode, Mnemonic};
use crate::status_register::{pack_bits, unpack_bits, StatusRegister};

verus! {

/// First address of the page-1 stack.
pub const STACK_START: u16 = 0x0100;

/// Last address of the page-1 stack; the stack pointer after reset.
pub const STACK_END: u16 = 0x01FF;

/// Address of the reset vector word.
pub const RESET_VECTOR: u16 = 0xFFFC;

/// Address of the IRQ/BRK handler vector word; a stored zero means
/// "halt on BRK".
pub const IRQ_VECTOR: u16 = 0xFFFE;

/// First address of the code segment filled by the loader.
pub const CODE_START: u16 = 0x8000;

/// First address past the code segment.
pub const CODE_END: u16 = 0xFFF0;

/// The fatal, unrecoverable faults. Arithmetic conditions are never faults:
/// they wrap silently and report through the status flags.
#[derive(Clone, Copy, Debug, PartialEq, Eq, Structural)]
pub enum Fault {
    /// The fetched byte has no entry in the opcode table.
    IllegalOpcode,
    /// A push with insufficient room left in page 1.
    StackOverflow,
    /// A pop with nothing left on the stack.
    StackUnderflow,
    /// The loader was handed an image larger than the code segment.
    ProgramTooLarge,
    /// The run retired 2^64 - 1 instructions without halting. The execution
    /// loop is total, so an endless program ends in this (practically
    /// unreachable) report; stopping earlier is the caller's business.
    StepLimit,
}

/// What one instruction left the machine doing.
#[derive(Clone, Copy, Debug, PartialEq, Eq, Structural)]
pub enum StepOutcome {
    /// The instruction retired normally.
    Running,
    /// A BRK with a zero handler vector: the program is done.
    Halted,
    /// A fatal fault; the state is as it was before the instruction.
    Faulted(Fault),
}

/// The architectural state: the register file and the 64 KiB address space.
#[verifier::ext_equal]
pub struct Model {
    /// Accumulator.
    pub a: u8,
    /// Index register X.
    pub x: u8,
    /// Index register Y.
    pub y: u8,
    /// Program counter.
    pub pc: u16,
    /// Stack pointer, kept as the full page-1 address.
    pub sp: u16,
    /// Status flags.
    pub p: StatusRegister,
    /// The address space.
    pub mem: Seq<u8>,
}

impl Model {
    /// Well-formedness: the whole address space is backed and the stack
    /// pointer stays inside page 1.
    pub open spec fn wf(self) -> bool {
        &&& self.mem.len() == 0x10000
        &&& STACK_START <= self.sp <= STACK_END
    }
}

/// The low 8 bits of a mathematical integer, as the 6502's wrapping
/// arithmetic produces them.
pub open spec fn to_u8(x: int) -> u8 {
    (x % 256) as u8
}

/// Flags with Z and N updated from an 8-bit result: Z set exactly when the
/// result is zero, N set exactly when its bit 7 is set.
pub open spec fn with_zn(p: StatusRegister, v: u8) -> StatusRegister {
    StatusRegister { z: v == 0, n: v >= 0x80, ..p }
}

/// A little-endian word read through a zero-page pointer: both bytes come
/// from page 0, and the address of the high byte wraps modulo 256 — it never
/// crosses into page 1.
pub open spec fn zp_ptr_word(mem: Seq<u8>, p: u8) -> u16 {
    (rd(mem, p as u16) + 256 * rd(mem, ((p + 1) % 256) as u16)) as u16
}

/// The effective operand address for a mode, with the program counter
/// standing on the first operand byte. Wrap-arounds follow the hardware:
/// zero-page arithmetic wraps modulo 256, absolute arithmetic modulo 2^16.
pub open spec fn ea_model(m: Model, mode: AddressingMode) -> u16 {
    match mode {
        AddressingMode::Immediate => m.pc,
        AddressingMode::ZeroPage => rd(m.mem, m.pc) as u16,
        AddressingMode::ZeroPageX => ((rd(m.mem, m.pc) + m.x) % 256) as u16,
        AddressingMode::ZeroPageY => ((rd(m.mem, m.pc) + m.y) % 256) as u16,
        AddressingMode::Absolute => rdw(m.mem, m.pc),
        AddressingMode::AbsoluteX => wadd16(rdw(m.mem, m.pc), m.x as int),
        AddressingMode::AbsoluteY => wadd16(rdw(m.mem, m.pc), m.y as int),
        AddressingMode::Indirect => rdw(m.mem, rdw(m.mem, m.pc)),
        AddressingMode::IndirectX => zp_ptr_word(m.mem, to_u8(rd(m.mem, m.pc) + m.x)),
        AddressingMode::IndirectY => wadd16(zp_ptr_word(m.mem, rd(m.mem, m.pc)), m.y as int),
        AddressingMode::Relative => m.pc,
        AddressingMode::Implied => 0,
    }
}

/// The state after the opcode byte has been fetched: the program counter
/// stands on the first operand byte.
pub open spec fn after_opcode(m: Model) -> Model {
    Model { pc: wadd16(m.pc, 1), ..m }
}

/// Advances the program counter over the operand bytes of a mode.
pub open spec fn advance(m: Model, mode: AddressingMode) -> Model {
    Model { pc: wadd16(m.pc, mode_len(mode) - 1), ..m }
}

/// The branch target: the operand is a signed 8-bit displacement from the
/// operand's own address, so a value of `0x80..=0xFF` moves the program
/// counter backward by `256 - operand` bytes.
pub open spec fn jump_target(pc: u16, off: u8) -> u16 {
    if off < 0x80 {
        wadd16(pc, off as int)
    } else {
        wadd16(pc, off - 0x100)
    }
}

/// Binary and decimal addition with carry, exactly as the hardware computes
/// it. Returns the new accumulator and flags: C is the carry out, Z comes
/// from the binary intermediate sum, and in decimal mode N and V are also
/// taken from the intermediate result before the final 0x60 adjustment.
pub open spec fn adc_full(p: StatusRegister, a: u8, v: u8) -> (u8, StatusRegister) {
    let cin: int = if p.c { 1 } else { 0 };
    let bin: int = a + v + cin;
    let z = bin % 256 == 0;
    let same_sign = (a >= 0x80) == (v >= 0x80);
    if p.d {
        let lo0: int = (a % 16) + (v % 16) + cin;
        let lo1: int = if lo0 >= 0xa { 0x10 + ((lo0 + 6) % 16) } else { lo0 };
        let t: int = lo1 + (a - (a % 16)) + (v - (v % 16));
        let n = t % 256 >= 0x80;
        if t >= 0xa0 {
            (to_u8(t + 0x60), StatusRegister { c: true, z, n, v: same_sign && t < 0x180, ..p })
        } else {
            (to_u8(t), StatusRegister { c: false, z, n, v: same_sign && t >= 0x80, ..p })
        }
    } else {
        let n = bin % 256 >= 0x80;
        if bin >= 0x100 {
            (to_u8(bin), StatusRegister { c: true, z, n, v: same_sign && bin < 0x180, ..p })
        } else {
            (to_u8(bin), StatusRegister { c: false, z, n, v: same_sign && bin >= 0x80, ..p })
        }
    }
}

/// Binary and decimal subtraction with borrow (the complement of carry).
/// In decimal mode each digit is 6-adjusted when its decade underflows, a
/// clear carry subtracts one extra unit, and C and V are taken from the
/// intermediate high-digit result; Z and N come from the final byte.
pub open spec fn sbc_full(p: StatusRegister, a: u8, v: u8) -> (u8, StatusRegister) {
    let cin: int = if p.c { 1 } else { 0 };
    let diff_sign = (a >= 0x80) != (v >= 0x80);
    if p.d {
        let lo0: int = 0xf + (a % 16) - (v % 16) + cin;
        let lo1: int = if lo0 < 0x10 { lo0 - 6 } else { lo0 - 0x10 };
        let hi0: int = (if lo0 < 0x10 { 0int } else { 0x10 }) + 0xf0 + (a - (a % 16)) - (v - (v % 16));
        if hi0 < 0x100 {
            let out = to_u8(hi0 - 0x60 + lo1);
            (out, StatusRegister { c: false, v: diff_sign && hi0 >= 0x80, z: out == 0, n: out >= 0x80, ..p })
        } else {
            let out = to_u8(hi0 + lo1);
            (out, StatusRegister { c: true, v: diff_sign && hi0 < 0x180, z: out == 0, n: out >= 0x80, ..p })
        }
    } else {
        let bin: int = 0xff + a - v + cin;
        let out = to_u8(bin);
        if bin < 0x100 {
            (out, StatusRegister { c: false, v: diff_sign && bin >= 0x80, z: out == 0, n: out >= 0x80, ..p })
        } else {
            (out, StatusRegister { c: true, v: diff_sign && bin < 0x180, z: out == 0, n: out >= 0x80, ..p })
        }
    }
}

/// Comparison flags: C exactly when the register is at least the operand,
/// Z and N from the wrapping difference.
pub open spec fn compare_flags(p: StatusRegister, reg: u8, v: u8) -> StatusRegister {
    let d = to_u8(reg - v);
    StatusRegister { c: reg >= v, z: d == 0, n: d >= 0x80, ..p }
}

// One transition function per instruction class. Each takes the state with
// the program counter still on the opcode byte; a faulting transition
// returns the state unchanged.

/// LDA: load the accumulator, setting Z and N.
#[verifier::opaque]
pub open spec fn step_lda(m: Model, mode: AddressingMode) -> (Model, StepOutcome) {
    let m1 = after_opcode(m);
    let v = rd(m1.mem, ea_model(m1, mode));
    (advance(Model { a: v, p: with_zn(m1.p, v), ..m1 }, mode), StepOutcome::Running)
}

/// LDX: load X, setting Z and N.
#[verifier::opaque]
pub open spec fn step_ldx(m: Model, mode: AddressingMode) -> (Model, StepOutcome) {
    let m1 = after_opcode(m);
    let v = rd(m1.mem, ea_model(m1, mode));
    (advance(Model { x: v, p: with_zn(m1.p, v), ..m1 }, mode), StepOutcome::Running)
}

/// LDY: load Y, setting Z and N.
#[verifier::opaque]
pub open spec fn step_ldy(m: Model, mode: AddressingMode) -> (Model, StepOutcome) {
    let m1 = after_opcode(m);
    let v = rd(m1.mem, ea_model(m1, mode));
    (advance(Model { y: v, p: with_zn(m1.p, v), ..m1 }, mode), StepOutcome::Running)
}

/// STA/STX/STY: store a register byte; no flags change.
#[verifier::opaque]
pub open spec fn step_store(m: Model, mode: AddressingMode, v: u8) -> (Model, StepOutcome) {
    let m1 = after_opcode(m);
    (advance(Model { mem: wr(m1.mem, ea_model(m1, mode), v), ..m1 }, mode), StepOutcome::Running)
}

/// TAX: X takes the accumulator, setting Z and N.
#[verifier::opaque]
pub open spec fn step_tax(m: Model) -> (Model, StepOutcome) {
    let m1 = after_opcode(m);
    (Model { x: m1.a, p: with_zn(m1.p, m1.a), ..m1 }, StepOutcome::Running)
}

/// TAY: Y takes the accumulator, setting Z and N.
#[verifier::opaque]
pub open spec fn step_tay(m: Model) -> (Model, StepOutcome) {
    let m1 = after_opcode(m);
    (Model { y: m1.a, p: with_zn(m1.p, m1.a), ..m1 }, StepOutcome::Running)
}

/// TXA: the accumulator takes X, setting Z and N.
#[verifier::opaque]
pub open spec fn step_txa(m: Model) -> (Model, StepOutcome) {
    let m1 = after_opcode(m);
    (Model { a: m1.x, p: with_zn(m1.p, m1.x), ..m1 }, StepOutcome::Running)
}

/// TYA: the accumulator takes Y, setting Z and N.
#[verifier::opaque]
pub open spec fn step_tya(m: Model) -> (Model, StepOutcome) {
    let m1 = after_opcode(m);
    (Model { a: m1.y, p: with_zn(m1.p, m1.y), ..m1 }, StepOutcome::Running)
}

/// TSX: X takes the low byte of the stack pointer, setting Z and N.
#[verifier::opaque]
pub open spec fn step_tsx(m: Model) -> (Model, StepOutcome) {
    let m1 = after_opcode(m);
    let v = (m1.sp % 256) as u8;
    (Model { x: v, p: with_zn(m1.p, v), ..m1 }, StepOutcome::Running)
}

/// TXS: the stack pointer takes X within page 1; no flags change.
#[verifier::opaque]
pub open spec fn step_txs(m: Model) -> (Model, StepOutcome) {
    let m1 = after_opcode(m);
    (Model { sp: (0x100 + m1.x) as u16, ..m1 }, StepOutcome::Running)
}

/// INX: X + 1, wrapping, setting Z and N.
#[verifier::opaque]
pub open spec fn step_inx(m: Model) -> (Model, StepOutcome) {
    let m1 = after_opcode(m);
    let v = to_u8(m1.x + 1);
    (Model { x: v, p: with_zn(m1.p, v), ..m1 }, StepOutcome::Running)
}

/// INY: Y + 1, wrapping, setting Z and N.
#[verifier::opaque]
pub open spec fn step_iny(m: Model) -> (Model, StepOutcome) {
    let m1 = after_opcode(m);
    let v = to_u8(m1.y + 1);
    (Model { y: v, p: with_zn(m1.p, v), ..m1 }, StepOutcome::Running)
}

/// DEX: X - 1, wrapping, setting Z and N.
#[verifier::opaque]
pub open spec fn step_dex(m: Model) -> (Model, StepOutcome) {
    let m1 = after_opcode(m);
    let v = to_u8(m1.x - 1);
    (Model { x: v, p: with_zn(m1.p, v), ..m1 }, StepOutcome::Running)
}

/// DEY: Y - 1, wrapping, setting Z and N.
#[verifier::opaque]
pub open spec fn step_dey(m: Model) -> (Model, StepOutcome) {
    let m1 = after_opcode(m);
    let v = to_u8(m1.y - 1);
    (Model { y: v, p: with_zn(m1.p, v), ..m1 }, StepOutcome::Running)
}

/// INC: memory + 1, wrapping, setting Z and N.
#[verifier::opaque]
pub open spec fn step_inc(m: Model, mode: AddressingMode) -> (Model, StepOutcome) {
    let m1 = after_opcode(m);
    let addr = ea_model(m1, mode);
    let v = to_u8(rd(m1.mem, addr) + 1);
    (advance(Model { mem: wr(m1.mem, addr, v), p: with_zn(m1.p, v), ..m1 }, mode), StepOutcome::Running)
}

/// DEC: memory - 1, wrapping, setting Z and N.
#[verifier::opaque]
pub open spec fn step_dec(m: Model, mode: AddressingMode) -> (Model, StepOutcome) {
    let m1 = after_opcode(m);
    let addr = ea_model(m1, mode);
    let v = to_u8(rd(m1.mem, addr) - 1);
    (advance(Model { mem: wr(m1.mem, addr, v), p: with_zn(m1.p, v), ..m1 }, mode), StepOutcome::Running)
}

/// AND: bitwise and into the accumulator, setting Z and N.
#[verifier::opaque]
pub open spec fn step_and(m: Model, mode: AddressingMode) -> (Model, StepOutcome) {
    let m1 = after_opcode(m);
    let v = m1.a & rd(m1.mem, ea_model(m1, mode));
    (advance(Model { a: v, p: with_zn(m1.p, v), ..m1 }, mode), StepOutcome::Running)
}

/// ORA: bitwise or into the accumulator, setting Z and N.
#[verifier::opaque]
pub open spec fn step_ora(m: Model, mode: AddressingMode) -> (Model, StepOutcome) {
    let m1 = after_opcode(m);
    let v = m1.a | rd(m1.mem, ea_model(m1, mode));
    (advance(Model { a: v, p: with_zn(m1.p, v), ..m1 }, mode), StepOutcome::Running)
}

/// EOR: bitwise exclusive or into the accumulator, setting Z and N.
#[verifier::opaque]
pub open spec fn step_eor(m: Model, mode: AddressingMode) -> (Model, StepOutcome) {
    let m1 = after_opcode(m);
    let v = m1.a ^ rd(m1.mem, ea_model(m1, mode));
    (advance(Model { a: v, p: with_zn(m1.p, v), ..m1 }, mode), StepOutcome::Running)
}

/// BIT: Z from the accumulator masked with memory, N from bit 7 and V from
/// bit 6 of the memory byte; the accumulator is untouched.
#[verifier::opaque]
pub open spec fn step_bit(m: Model, mode: AddressingMode) -> (Model, StepOutcome) {
    let m1 = after_opcode(m);
    let v = rd(m1.mem, ea_model(m1, mode));
    let p2 = StatusRegister { z: m1.a & v == 0, n: v >= 0x80, v: v & 0x40 == 0x40, ..m1.p };
    (advance(Model { p: p2, ..m1 }, mode), StepOutcome::Running)
}

/// ASL: shift left; C takes the old bit 7.
#[verifier::opaque]
pub open spec fn step_asl(m: Model, mode: AddressingMode) -> (Model, StepOutcome) {
    let m1 = after_opcode(m);
    if mode == AddressingMode::Implied {
        let v = m1.a;
        let r = to_u8(2 * v);
        (Model { a: r, p: StatusRegister { c: v >= 0x80, ..with_zn(m1.p, r) }, ..m1 }, StepOutcome::Running)
    } else {
        let addr = ea_model(m1, mode);
        let v = rd(m1.mem, addr);
        let r = to_u8(2 * v);
        (advance(
            Model { mem: wr(m1.mem, addr, r), p: StatusRegister { c: v >= 0x80, ..with_zn(m1.p, r) }, ..m1 },
            mode,
        ), StepOutcome::Running)
    }
}

/// LSR: shift right; C takes the old bit 0.
#[verifier::opaque]
pub open spec fn step_lsr(m: Model, mode: AddressingMode) -> (Model, StepOutcome) {
    let m1 = after_opcode(m);
    if mode == AddressingMode::Implied {
        let v = m1.a;
        let r = v / 2;
        (Model { a: r, p: StatusRegister { c: v % 2 == 1, ..with_zn(m1.p, r) }, ..m1 }, StepOutcome::Running)
    } else {
        let addr = ea_model(m1, mode);
        let v = rd(m1.mem, addr);
        let r = v / 2;
        (advance(
            Model { mem: wr(m1.mem, addr, r), p: StatusRegister { c: v % 2 == 1, ..with_zn(m1.p, r) }, ..m1 },
            mode,
        ), StepOutcome::Running)
    }
}

/// ROL: rotate left through carry; C takes the old bit 7.
#[verifier::opaque]
pub open spec fn step_rol(m: Model, mode: AddressingMode) -> (Model, StepOutcome) {
    let m1 = after_opcode(m);
    let cin: int = if m1.p.c { 1 } else { 0 };
    if mode == AddressingMode::Implied {
        let v = m1.a;
        let r = to_u8(2 * v + cin);
        (Model { a: r, p: StatusRegister { c: v >= 0x80, ..with_zn(m1.p, r) }, ..m1 }, StepOutcome::Running)
    } else {
        let addr = ea_model(m1, mode);
        let v = rd(m1.mem, addr);
        let r = to_u8(2 * v + cin);
        (advance(
            Model { mem: wr(m1.mem, addr, r), p: StatusRegister { c: v >= 0x80, ..with_zn(m1.p, r) }, ..m1 },
            mode,
        ), StepOutcome::Running)
    }
}

/// ROR: rotate right through carry; C takes the old bit 0.
#[verifier::opaque]
pub open spec fn step_ror(m: Model, mode: AddressingMode) -> (Model, StepOutcome) {
    let m1 = after_opcode(m);
    let cin: u8 = if m1.p.c { 0x80 } else { 0 };
    if mode == AddressingMode::Implied {
        let v = m1.a;
        let r = (v / 2 + cin) as u8;
        (Model { a: r, p: StatusRegister { c: v % 2 == 1, ..with_zn(m1.p, r) }, ..m1 }, StepOutcome::Running)
    } else {
        let addr = ea_model(m1, mode);
        let v = rd(m1.mem, addr);
        let r = (v / 2 + cin) as u8;
        (advance(
            Model { mem: wr(m1.mem, addr, r), p: StatusRegister { c: v % 2 == 1, ..with_zn(m1.p, r) }, ..m1 },
            mode,
        ), StepOutcome::Running)
    }
}

/// CMP/CPX/CPY: compare a register with memory.
#[verifier::opaque]
pub open spec fn step_compare(m: Model, mode: AddressingMode, reg: u8) -> (Model, StepOutcome) {
    let m1 = after_opcode(m);
    let v = rd(m1.mem, ea_model(m1, mode));
    (advance(Model { p: compare_flags(m1.p, reg, v), ..m1 }, mode), StepOutcome::Running)
}

/// ADC: add memory and carry to the accumulator.
#[verifier::opaque]
pub open spec fn step_adc(m: Model, mode: AddressingMode) -> (Model, StepOutcome) {
    let m1 = after_opcode(m);
    let v = rd(m1.mem, ea_model(m1, mode));
    let r = adc_full(m1.p, m1.a, v);
    (advance(Model { a: r.0, p: r.1, ..m1 }, mode), StepOutcome::Running)
}

/// SBC: subtract memory and borrow from the accumulator.
#[verifier::opaque]
pub open spec fn step_sbc(m: Model, mode: AddressingMode) -> (Model, StepOutcome) {
    let m1 = after_opcode(m);
    let v = rd(m1.mem, ea_model(m1, mode));
    let r = sbc_full(m1.p, m1.a, v);
    (advance(Model { a: r.0, p: r.1, ..m1 }, mode), StepOutcome::Running)
}

/// CLC/SEC/CLD/SED/CLI/SEI/CLV: replace the flags with the given ones.
#[verifier::opaque]
pub open spec fn step_set_flags(m: Model, p2: StatusRegister) -> (Model, StepOutcome) {
    let m1 = after_opcode(m);
    (Model { p: p2, ..m1 }, StepOutcome::Running)
}

/// NOP: nothing but the fetch.
#[verifier::opaque]
pub open spec fn step_nop(m: Model) -> (Model, StepOutcome) {
    (after_opcode(m), StepOutcome::Running)
}

/// PHA: push the accumulator. Pushing needs a free slot above the bottom of
/// page 1, or the machine faults with a stack overflow, unchanged.
#[verifier::opaque]
pub open spec fn step_pha(m: Model) -> (Model, StepOutcome) {
    if m.sp < 0x101 {
        (m, StepOutcome::Faulted(Fault::StackOverflow))
    } else {
        let m1 = after_opcode(m);
        (Model { mem: wr(m1.mem, m1.sp, m1.a), sp: (m1.sp - 1) as u16, ..m1 }, StepOutcome::Running)
    }
}

/// PHP: push the packed flags with both break bits forced to 1 in the
/// pushed byte; the live flags are untouched.
#[verifier::opaque]
pub open spec fn step_php(m: Model) -> (Model, StepOutcome) {
    if m.sp < 0x101 {
        (m, StepOutcome::Faulted(Fault::StackOverflow))
    } else {
        let m1 = after_opcode(m);
        let byte = pack_bits(StatusRegister { b: true, b2: true, ..m1.p });
        (Model { mem: wr(m1.mem, m1.sp, byte), sp: (m1.sp - 1) as u16, ..m1 }, StepOutcome::Running)
    }
}

/// PLA: pull the accumulator, setting Z and N; underflows on an empty stack,
/// unchanged.
#[verifier::opaque]
pub open spec fn step_pla(m: Model) -> (Model, StepOutcome) {
    if m.sp > 0x1FE {
        (m, StepOutcome::Faulted(Fault::StackUnderflow))
    } else {
        let m1 = after_opcode(m);
        let v = rd(m1.mem, (m1.sp + 1) as u16);
        (Model { a: v, sp: (m1.sp + 1) as u16, p: with_zn(m1.p, v), ..m1 }, StepOutcome::Running)
    }
}

/// PLP: pull the flags; the break bit is forced clear and the reserved bit
/// forced set, whatever was pushed.
#[verifier::opaque]
pub open spec fn step_plp(m: Model) -> (Model, StepOutcome) {
    if m.sp > 0x1FE {
        (m, StepOutcome::Faulted(Fault::StackUnderflow))
    } else {
        let m1 = after_opcode(m);
        let v = rd(m1.mem, (m1.sp + 1) as u16);
        let p2 = StatusRegister { b: false, b2: true, ..unpack_bits(v) };
        (Model { sp: (m1.sp + 1) as u16, p: p2, ..m1 }, StepOutcome::Running)
    }
}

/// BRK. With interrupts disabled it is a no-op fetch. Otherwise a zero
/// handler vector halts the run; a nonzero one pushes the program counter
/// and the flags (with both break bits set), sets the live break bits and
/// the interrupt-disable flag, and enters the handler.
#[verifier::opaque]
pub open spec fn step_brk(m: Model) -> (Model, StepOutcome) {
    let m1 = after_opcode(m);
    if m.p.i {
        (m1, StepOutcome::Running)
    } else {
        let handler = rdw(m.mem, IRQ_VECTOR);
        if handler == 0 {
            (m1, StepOutcome::Halted)
        } else if m.sp < 0x103 {
            (m, StepOutcome::Faulted(Fault::StackOverflow))
        } else {
            let p2 = StatusRegister { b: true, b2: true, ..m1.p };
            let mem2 = wrw(m1.mem, (m1.sp - 1) as u16, m1.pc);
            let mem3 = wr(mem2, (m1.sp - 2) as u16, pack_bits(p2));
            (Model {
                mem: mem3,
                sp: (m1.sp - 3) as u16,
                p: StatusRegister { i: true, ..p2 },
                pc: handler,
                ..m1
            }, StepOutcome::Running)
        }
    }
}

/// RTI: pull the flags (break bit cleared, reserved bit set), then pull the
/// program counter.
#[verifier::opaque]
pub open spec fn step_rti(m: Model) -> (Model, StepOutcome) {
    if m.sp > 0x1FC {
        (m, StepOutcome::Faulted(Fault::StackUnderflow))
    } else {
        let m1 = after_opcode(m);
        let flags = rd(m1.mem, (m1.sp + 1) as u16);
        let p2 = StatusRegister { b: false, b2: true, ..unpack_bits(flags) };
        let lo = rd(m1.mem, (m1.sp + 2) as u16);
        let hi = rd(m1.mem, (m1.sp + 3) as u16);
        (Model { sp: (m1.sp + 3) as u16, p: p2, pc: (lo + 256 * hi) as u16, ..m1 }, StepOutcome::Running)
    }
}

/// A conditional branch: when taken, the signed operand displaces the
/// program counter relative to the operand byte, and the fall-through
/// advance still applies.
#[verifier::opaque]
pub open spec fn step_branch(m: Model, cond: bool) -> (Model, StepOutcome) {
    let m1 = after_opcode(m);
    let off = rd(m1.mem, m1.pc);
    let t = if cond { jump_target(m1.pc, off) } else { m1.pc };
    (Model { pc: wadd16(t, 1), ..m1 }, StepOutcome::Running)
}

/// JMP: the program counter takes the effective address.
#[verifier::opaque]
pub open spec fn step_jmp(m: Model, mode: AddressingMode) -> (Model, StepOutcome) {
    let m1 = after_opcode(m);
    (Model { pc: ea_model(m1, mode), ..m1 }, StepOutcome::Running)
}

/// JSR: push the address of the last byte of the instruction, then jump.
#[verifier::opaque]
pub open spec fn step_jsr(m: Model, mode: AddressingMode) -> (Model, StepOutcome) {
    if m.sp < 0x102 {
        (m, StepOutcome::Faulted(Fault::StackOverflow))
    } else {
        let m1 = after_opcode(m);
        let target = ea_model(m1, mode);
        let ret = wadd16(m1.pc, 1);
        (Model { mem: wrw(m1.mem, (m1.sp - 1) as u16, ret), sp: (m1.sp - 2) as u16, pc: target, ..m1 },
        StepOutcome::Running)
    }
}

/// RTS: pull a word and resume one byte past it — the byte after the
/// matching JSR instruction.
#[verifier::opaque]
pub open spec fn step_rts(m: Model) -> (Model, StepOutcome) {
    if m.sp > 0x1FD {
        (m, StepOutcome::Faulted(Fault::StackUnderflow))
    } else {
        let m1 = after_opcode(m);
        let lo = rd(m1.mem, (m1.sp + 1) as u16);
        let hi = rd(m1.mem, (m1.sp + 2) as u16);
        (Model { sp: (m1.sp + 2) as u16, pc: wadd16((lo + 256 * hi) as u16, 1), ..m1 }, StepOutcome::Running)
    }
}

/// One instruction: fetch the byte under the program counter, decode it
/// through the opcode table, and apply the class's transition. An unknown
/// byte faults with the state unchanged.
#[verifier::opaque]
pub open spec fn step_model(m: Model) -> (Model, StepOutcome) {
    match spec_decode(rd(m.mem, m.pc)) {
        Option::None => (m, StepOutcome::Faulted(Fault::IllegalOpcode)),
        Option::Some(ins) => match ins.mnemonic {
            Mnemonic::Adc => step_adc(m, ins.mode),
            Mnemonic::And => step_and(m, ins.mode),
            Mnemonic::Asl => step_asl(m, ins.mode),
            Mnemonic::Bcc => step_branch(m, !m.p.c),
            Mnemonic::Bcs => step_branch(m, m.p.c),
            Mnemonic::Beq => step_branch(m, m.p.z),
            Mnemonic::Bit => step_bit(m, ins.mode),
            Mnemonic::Bmi => step_branch(m, m.p.n),
            Mnemonic::Bne => step_branch(m, !m.p.z),
            Mnemonic::Bpl => step_branch(m, !m.p.n),
            Mnemonic::Brk => step_brk(m),
            Mnemonic::Bvc => step_branch(m, !m.p.v),
            Mnemonic::Bvs => step_branch(m, m.p.v),
            Mnemonic::Clc => step_set_flags(m, StatusRegister { c: false, ..m.p }),
            Mnemonic::Cld => step_set_flags(m, StatusRegister { d: false, ..m.p }),
            Mnemonic::Cli => step_set_flags(m, StatusRegister { i: false, ..m.p }),
            Mnemonic::Clv => step_set_flags(m, StatusRegister { v: false, ..m.p }),
            Mnemonic::Cmp => step_compare(m, ins.mode, m.a),
            Mnemonic::Cpx => step_compare(m, ins.mode, m.x),
            Mnemonic::Cpy => step_compare(m, ins.mode, m.y),
            Mnemonic::Dec => step_dec(m, ins.mode),
            Mnemonic::Dex => step_dex(m),
            Mnemonic::Dey => step_dey(m),
            Mnemonic::Eor => step_eor(m, ins.mode),
            Mnemonic::Inc => step_inc(m, ins.mode),
            Mnemonic::Inx => step_inx(m),
            Mnemonic::Iny => step_iny(m),
            Mnemonic::Jmp => step_jmp(m, ins.mode),
            Mnemonic::Jsr => step_jsr(m, ins.mode),
            Mnemonic::Lda => step_lda(m, ins.mode),
            Mnemonic::Ldx => step_ldx(m, ins.mode),
            Mnemonic::Ldy => step_ldy(m, ins.mode),
            Mnemonic::Lsr => step_lsr(m, ins.mode),
            Mnemonic::Nop => step_nop(m),
            Mnemonic::Ora => step_ora(m, ins.mode),
            Mnemonic::Pha => step_pha(m),
            Mnemonic::Php => step_php(m),
            Mnemonic::Pla => step_pla(m),
            Mnemonic::Plp => step_plp(m),
            Mnemonic::Rol => step_rol(m, ins.mode),
            Mnemonic::Ror => step_ror(m, ins.mode),
            Mnemonic::Rti => step_rti(m),
            Mnemonic::Rts => step_rts(m),
            Mnemonic::Sbc => step_sbc(m, ins.mode),
            Mnemonic::Sec => step_set_flags(m, StatusRegister { c: true, ..m.p }),
            Mnemonic::Sed => step_set_flags(m, StatusRegister { d: true, ..m.p }),
            Mnemonic::Sei => step_set_flags(m, StatusRegister { i: true, ..m.p }),
            Mnemonic::Sta => step_store(m, ins.mode, m.a),
            Mnemonic::Stx => step_store(m, ins.mode, m.x),
            Mnemonic::Sty => step_store(m, ins.mode, m.y),
            Mnemonic::Tax => step_tax(m),
            Mnemonic::Tay => step_tay(m),
            Mnemonic::Tsx => step_tsx(m),
            Mnemonic::Txa => step_txa(m),
            Mnemonic::Txs => step_txs(m),
            Mnemonic::Tya => step_tya(m),
        },
    }
}

/// The state and outcome after at most `n` instructions: iteration stops at
/// the first halt or fault, whose state and outcome it then keeps.
pub open spec fn stepn(m: Model, n: nat) -> (Model, StepOutcome)
    decreases n,
{
    if n == 0 {
        (m, StepOutcome::Running)
    } else {
        let r = step_model(m);
        if r.1 == StepOutcome::Running {
            stepn(r.0, (n - 1) as nat)
        } else {
            r
        }
    }
}

/// Extending a still-running iteration by one instruction applies
/// `step_model` to its final state.
pub proof fn lemma_stepn_snoc(m: Model, n: nat)
    requires
        stepn(m, n).1 == StepOutcome::Running,
    ensures
        stepn(m, n + 1) == step_model(stepn(m, n).0),
    decreases n,
{
    let r = step_model(m);
    if n == 0 {
        if r.1 == StepOutcome::Running {
            assert(stepn(m, 1) == stepn(r.0, 0));
            assert(stepn(r.0, 0) == (r.0, StepOutcome::Running));
        }
    } else {
        if r.1 == StepOutcome::Running {
            lemma_stepn_snoc(r.0, (n - 1) as nat);
            assert(stepn(m, n + 1) == stepn(r.0, n));
            assert(stepn(m, n) == stepn(r.0, (n - 1) as nat));
        } else {
            assert(stepn(m, n) == r);
        }
    }
}

/// What an instruction hook may do between instructions: read and write
/// memory freely, but leave the registers and the flags alone and keep the
/// address space intact.
pub open spec fn hook_ok(pre: Model, post: Model) -> bool {
    &&& post.a == pre.a
    &&& post.x == pre.x
    &&& post.y == pre.y
    &&& post.pc == pre.pc
    &&& post.sp == pre.sp
    &&& post.p == pre.p
    &&& post.mem.len() == pre.mem.len()
}

/// A chain of states at instruction boundaries: each next state is one
/// retired instruction (still running) followed by one hook call.
pub open spec fn hooked_chain(tr: Seq<Model>) -> bool {
    forall|i: int|
        0 <= i < tr.len() - 1 ==> (#[trigger] step_model(tr[i])).1 == StepOutcome::Running
            && hook_ok(step_model(tr[i]).0, tr[i + 1])
}

/// The state after a reset: registers cleared, the stack pointer at the top
/// of page 1, only the Z flag set, and the program counter read from the
/// reset vector.
pub open spec fn reset_model(m: Model) -> Model {
    Model {
        a: 0,
        x: 0,
        y: 0,
        sp: STACK_END,
        pc: rdw(m.mem, RESET_VECTOR),
        p: unpack_bits(2),
        mem: m.mem,
    }
}

/// What a finished run promises about where the machine ended, relative to
/// the state `m0` it started from. A halt or a fault is the result of
/// iterating `step_model` some number of times; the step-limit report means
/// the machine was still running after 2^64 - 1 instructions.
pub open spec fn run_post(m0: Model, mend: Model, r: Result<(), Fault>) -> bool {
    match r {
        Result::Ok(u) => exists|n: nat| #[trigger] stepn(m0, n) == (mend, StepOutcome::Halted),
        Result::Err(f) => if f == Fault::StepLimit {
            stepn(m0, u64::MAX as nat) == (mend, StepOutcome::Running)
        } else {
            exists|n: nat| #[trigger] stepn(m0, n) == (mend, StepOutcome::Faulted(f))
        },
    }
}

/// The promise of a run with an instruction hook: the end state follows a
/// chain of instruction/hook rounds that starts at `m0`, and its last
/// instruction halted or faulted; the step-limit report leaves the machine
/// still running at the end of such a chain.
pub open spec fn run_hooked_post(m0: Model, mend: Model, r: Result<(), Fault>) -> bool {
    match r {
        Result::Ok(u) => exists|tr: Seq<Model>|
            #[trigger] hooked_chain(tr) && tr.len() > 0 && tr[0] == m0 && step_model(tr.last())
                == (mend, StepOutcome::Halted),
        Result::Err(f) => if f == Fault::StepLimit {
            exists|tr: Seq<Model>|
                #[trigger] hooked_chain(tr) && tr.len() == u64::MAX as nat + 1 && tr[0] == m0
                    && tr.last() == mend
        } else {
            exists|tr: Seq<Model>|
                #[trigger] hooked_chain(tr) && tr.len() > 0 && tr[0] == m0 && step_model(tr.last())
                    == (mend, StepOutcome::Faulted(f))
        },
    }
}

/// Memory after loading a program image: the image's bytes from
/// `CODE_START` on, and the reset vector pointing at `CODE_START`.
pub open spec fn loaded_mem(mem: Seq<u8>, prog: Seq<u8>) -> Seq<u8> {
    wrw(
        Seq::new(
            0x10000,
            |j: int|
                if CODE_START <= j < CODE_START + prog.len() {
                    prog[j - CODE_START]
                } else {
                    mem[j]
                },
        ),
        RESET_VECTOR,
        CODE_START,
    )
}

/// The state the host drives the machine into before a run: the image
/// loaded, then a reset.
pub open spec fn boot_model(m: Model, prog: Seq<u8>) -> Model {
    reset_model(Model { mem: loaded_mem(m.mem, prog), ..m })
}

} // verus!
