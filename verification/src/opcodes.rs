//! The opcode table: the static mapping from each documented opcode byte to
//! its mnemonic class, addressing mode and instruction length.
//!
//! The table is the single source of truth for decoding: the execution loop
//! takes lengths and modes from here and never hard-codes them. A byte with
//! no entry is an illegal opcode.

use vstd::prelude::*;

verus! {

/// How an instruction names its operand.
#[derive(Clone, Copy, Debug, PartialEq, Eq, Structural)]
pub enum AddressingMode {
    /// The operand byte itself is the value.
    Immediate,
    /// One operand byte, an address in page 0.
    ZeroPage,
    /// Zero-page address plus X, wrapping modulo 256.
    ZeroPageX,
    /// Zero-page address plus Y, wrapping modulo 256.
    ZeroPageY,
    /// Two operand bytes, a little-endian 16-bit address.
    Absolute,
    /// Absolute address plus X, wrapping modulo 2^16.
    AbsoluteX,
    /// Absolute address plus Y, wrapping modulo 2^16.
    AbsoluteY,
    /// The word at the absolute address; used only by the indirect jump.
    Indirect,
    /// Pointer in page 0 at operand + X (mod 256); the word read from there.
    IndirectX,
    /// Pointer in page 0 at the operand; the word read from there, plus Y.
    IndirectY,
    /// One operand byte, a signed displacement for branches.
    Relative,
    /// No operand.
    Implied,
}

/// The mnemonic classes of the 151 documented instructions.
#[derive(Clone, Copy, Debug, PartialEq, Eq, Structural)]
pub enum Mnemonic {
    Adc, And, Asl, Bcc, Bcs, Beq, Bit, Bmi, Bne, Bpl, Brk, Bvc, Bvs, Clc,
    Cld, Cli, Clv, Cmp, Cpx, Cpy, Dec, Dex, Dey, Eor, Inc, Inx, Iny, Jmp,
    Jsr, Lda, Ldx, Ldy, Lsr, Nop, Ora, Pha, Php, Pla, Plp, Rol, Ror, Rti,
    Rts, Sbc, Sec, Sed, Sei, Sta, Stx, Sty, Tax, Tay, Tsx, Txa, Txs, Tya,
}

/// One table entry: an instruction's class, addressing mode and total length
/// in bytes (opcode included).
#[derive(Clone, Copy, Debug, PartialEq, Eq, Structural)]
pub struct Instr {
    pub mnemonic: Mnemonic,
    pub mode: AddressingMode,
    pub len: u8,
}

/// The instruction length each addressing mode implies.
pub open spec fn mode_len(mode: AddressingMode) -> u8 {
    match mode {
        AddressingMode::Implied => 1,
        AddressingMode::Immediate => 2,
        AddressingMode::ZeroPage => 2,
        AddressingMode::ZeroPageX => 2,
        AddressingMode::ZeroPageY => 2,
        AddressingMode::IndirectX => 2,
        AddressingMode::IndirectY => 2,
        AddressingMode::Relative => 2,
        AddressingMode::Absolute => 3,
        AddressingMode::AbsoluteX => 3,
        AddressingMode::AbsoluteY => 3,
        AddressingMode::Indirect => 3,
    }
}

/// Whether a class resolves its operand through the addressing unit.
pub open spec fn needs_address(m: Mnemonic) -> bool {
    match m {
        Mnemonic::Adc | Mnemonic::And | Mnemonic::Bit | Mnemonic::Cmp | Mnemonic::Cpx
        | Mnemonic::Cpy | Mnemonic::Dec | Mnemonic::Eor | Mnemonic::Inc | Mnemonic::Jmp
        | Mnemonic::Jsr | Mnemonic::Lda | Mnemonic::Ldx | Mnemonic::Ldy | Mnemonic::Ora
        | Mnemonic::Sbc | Mnemonic::Sta | Mnemonic::Stx | Mnemonic::Sty => true,
        _ => false,
    }
}

/// The read-modify-write shifts, which work on the accumulator when their
/// mode is `Implied` and on memory otherwise.
pub open spec fn is_shift(m: Mnemonic) -> bool {
    match m {
        Mnemonic::Asl | Mnemonic::Lsr | Mnemonic::Rol | Mnemonic::Ror => true,
        _ => false,
    }
}

/// The arithmetic, logic and shift classes — one third of the execution
/// dispatch; the branches and the load/store/transfer/stack/control classes
/// form the other two.
pub open spec fn is_alu(m: Mnemonic) -> bool {
    match m {
        Mnemonic::Adc | Mnemonic::And | Mnemonic::Asl | Mnemonic::Bit | Mnemonic::Cmp
        | Mnemonic::Cpx | Mnemonic::Cpy | Mnemonic::Dec | Mnemonic::Dex | Mnemonic::Dey
        | Mnemonic::Eor | Mnemonic::Inc | Mnemonic::Inx | Mnemonic::Iny | Mnemonic::Lsr
        | Mnemonic::Ora | Mnemonic::Rol | Mnemonic::Ror | Mnemonic::Sbc => true,
        _ => false,
    }
}

/// The stack, interrupt and jump classes.
pub open spec fn is_control(m: Mnemonic) -> bool {
    match m {
        Mnemonic::Brk | Mnemonic::Jmp | Mnemonic::Jsr | Mnemonic::Nop | Mnemonic::Pha
        | Mnemonic::Php | Mnemonic::Pla | Mnemonic::Plp | Mnemonic::Rti | Mnemonic::Rts => true,
        _ => false,
    }
}

/// The eight conditional branches.
pub open spec fn is_branch(m: Mnemonic) -> bool {
    match m {
        Mnemonic::Bcc | Mnemonic::Bcs | Mnemonic::Beq | Mnemonic::Bmi | Mnemonic::Bne
        | Mnemonic::Bpl | Mnemonic::Bvc | Mnemonic::Bvs => true,
        _ => false,
    }
}

impl Instr {
    /// Internal consistency of a table entry: the length matches the mode,
    /// and classes that resolve an address never carry a mode the addressing
    /// unit refuses.
    pub open spec fn wf(self) -> bool {
        &&& self.len == mode_len(self.mode)
        &&& needs_address(self.mnemonic) ==> self.mode != AddressingMode::Implied
            && self.mode != AddressingMode::Relative
        &&& is_shift(self.mnemonic) ==> self.mode != AddressingMode::Relative
            && self.mode != AddressingMode::Indirect
    }
}

/// The decode table as a mathematical function: `None` for the 105
/// undocumented bytes. Opaque: proofs about a concrete opcode reveal it.
#[verifier::opaque]
pub open spec fn spec_decode(op: u8) -> Option<Instr> {
    match op {
            0x00 => Some(Instr { mnemonic: Mnemonic::Brk, mode: AddressingMode::Implied, len: 1 }),
            0x01 => Some(Instr { mnemonic: Mnemonic::Ora, mode: AddressingMode::IndirectX, len: 2 }),
            0x05 => Some(Instr { mnemonic: Mnemonic::Ora, mode: AddressingMode::ZeroPage, len: 2 }),
            0x06 => Some(Instr { mnemonic: Mnemonic::Asl, mode: AddressingMode::ZeroPage, len: 2 }),
            0x08 => Some(Instr { mnemonic: Mnemonic::Php, mode: AddressingMode::Implied, len: 1 }),
            0x09 => Some(Instr { mnemonic: Mnemonic::Ora, mode: AddressingMode::Immediate, len: 2 }),
            0x0a => Some(Instr { mnemonic: Mnemonic::Asl, mode: AddressingMode::Implied, len: 1 }),
            0x0d => Some(Instr { mnemonic: Mnemonic::Ora, mode: AddressingMode::Absolute, len: 3 }),
            0x0e => Some(Instr { mnemonic: Mnemonic::Asl, mode: AddressingMode::Absolute, len: 3 }),
            0x10 => Some(Instr { mnemonic: Mnemonic::Bpl, mode: AddressingMode::Relative, len: 2 }),
            0x11 => Some(Instr { mnemonic: Mnemonic::Ora, mode: AddressingMode::IndirectY, len: 2 }),
            0x15 => Some(Instr { mnemonic: Mnemonic::Ora, mode: AddressingMode::ZeroPageX, len: 2 }),
            0x16 => Some(Instr { mnemonic: Mnemonic::Asl, mode: AddressingMode::ZeroPageX, len: 2 }),
            0x18 => Some(Instr { mnemonic: Mnemonic::Clc, mode: AddressingMode::Implied, len: 1 }),
            0x19 => Some(Instr { mnemonic: Mnemonic::Ora, mode: AddressingMode::AbsoluteY, len: 3 }),
            0x1d => Some(Instr { mnemonic: Mnemonic::Ora, mode: AddressingMode::AbsoluteX, len: 3 }),
            0x1e => Some(Instr { mnemonic: Mnemonic::Asl, mode: AddressingMode::AbsoluteX, len: 3 }),
            0x20 => Some(Instr { mnemonic: Mnemonic::Jsr, mode: AddressingMode::Absolute, len: 3 }),
            0x21 => Some(Instr { mnemonic: Mnemonic::And, mode: AddressingMode::IndirectX, len: 2 }),
            0x24 => Some(Instr { mnemonic: Mnemonic::Bit, mode: AddressingMode::ZeroPage, len: 2 }),
            0x25 => Some(Instr { mnemonic: Mnemonic::And, mode: AddressingMode::ZeroPage, len: 2 }),
            0x26 => Some(Instr { mnemonic: Mnemonic::Rol, mode: AddressingMode::ZeroPage, len: 2 }),
            0x28 => Some(Instr { mnemonic: Mnemonic::Plp, mode: AddressingMode::Implied, len: 1 }),
            0x29 => Some(Instr { mnemonic: Mnemonic::And, mode: AddressingMode::Immediate, len: 2 }),
            0x2a => Some(Instr { mnemonic: Mnemonic::Rol, mode: AddressingMode::Implied, len: 1 }),
            0x2c => Some(Instr { mnemonic: Mnemonic::Bit, mode: AddressingMode::Absolute, len: 3 }),
            0x2d => Some(Instr { mnemonic: Mnemonic::And, mode: AddressingMode::Absolute, len: 3 }),
            0x2e => Some(Instr { mnemonic: Mnemonic::Rol, mode: AddressingMode::Absolute, len: 3 }),
            0x30 => Some(Instr { mnemonic: Mnemonic::Bmi, mode: AddressingMode::Relative, len: 2 }),
            0x31 => Some(Instr { mnemonic: Mnemonic::And, mode: AddressingMode::IndirectY, len: 2 }),
            0x35 => Some(Instr { mnemonic: Mnemonic::And, mode: AddressingMode::ZeroPageX, len: 2 }),
            0x36 => Some(Instr { mnemonic: Mnemonic::Rol, mode: AddressingMode::ZeroPageX, len: 2 }),
            0x38 => Some(Instr { mnemonic: Mnemonic::Sec, mode: AddressingMode::Implied, len: 1 }),
            0x39 => Some(Instr { mnemonic: Mnemonic::And, mode: AddressingMode::AbsoluteY, len: 3 }),
            0x3d => Some(Instr { mnemonic: Mnemonic::And, mode: AddressingMode::AbsoluteX, len: 3 }),
            0x3e => Some(Instr { mnemonic: Mnemonic::Rol, mode: AddressingMode::AbsoluteX, len: 3 }),
            0x40 => Some(Instr { mnemonic: Mnemonic::Rti, mode: AddressingMode::Implied, len: 1 }),
            0x41 => Some(Instr { mnemonic: Mnemonic::Eor, mode: AddressingMode::IndirectX, len: 2 }),
            0x45 => Some(Instr { mnemonic: Mnemonic::Eor, mode: AddressingMode::ZeroPage, len: 2 }),
            0x46 => Some(Instr { mnemonic: Mnemonic::Lsr, mode: AddressingMode::ZeroPage, len: 2 }),
            0x48 => Some(Instr { mnemonic: Mnemonic::Pha, mode: AddressingMode::Implied, len: 1 }),
            0x49 => Some(Instr { mnemonic: Mnemonic::Eor, mode: AddressingMode::Immediate, len: 2 }),
            0x4a => Some(Instr { mnemonic: Mnemonic::Lsr, mode: AddressingMode::Implied, len: 1 }),
            0x4c => Some(Instr { mnemonic: Mnemonic::Jmp, mode: AddressingMode::Absolute, len: 3 }),
            0x4d => Some(Instr { mnemonic: Mnemonic::Eor, mode: AddressingMode::Absolute, len: 3 }),
            0x4e => Some(Instr { mnemonic: Mnemonic::Lsr, mode: AddressingMode::Absolute, len: 3 }),
            0x50 => Some(Instr { mnemonic: Mnemonic::Bvc, mode: AddressingMode::Relative, len: 2 }),
            0x51 => Some(Instr { mnemonic: Mnemonic::Eor, mode: AddressingMode::IndirectY, len: 2 }),
            0x55 => Some(Instr { mnemonic: Mnemonic::Eor, mode: AddressingMode::ZeroPageX, len: 2 }),
            0x56 => Some(Instr { mnemonic: Mnemonic::Lsr, mode: AddressingMode::ZeroPageX, len: 2 }),
            0x58 => Some(Instr { mnemonic: Mnemonic::Cli, mode: AddressingMode::Implied, len: 1 }),
            0x59 => Some(Instr { mnemonic: Mnemonic::Eor, mode: AddressingMode::AbsoluteY, len: 3 }),
            0x5d => Some(Instr { mnemonic: Mnemonic::Eor, mode: AddressingMode::AbsoluteX, len: 3 }),
            0x5e => Some(Instr { mnemonic: Mnemonic::Lsr, mode: AddressingMode::AbsoluteX, len: 3 }),
            0x60 => Some(Instr { mnemonic: Mnemonic::Rts, mode: AddressingMode::Implied, len: 1 }),
            0x61 => Some(Instr { mnemonic: Mnemonic::Adc, mode: AddressingMode::IndirectX, len: 2 }),
            0x65 => Some(Instr { mnemonic: Mnemonic::Adc, mode: AddressingMode::ZeroPage, len: 2 }),
            0x66 => Some(Instr { mnemonic: Mnemonic::Ror, mode: AddressingMode::ZeroPage, len: 2 }),
            0x68 => Some(Instr { mnemonic: Mnemonic::Pla, mode: AddressingMode::Implied, len: 1 }),
            0x69 => Some(Instr { mnemonic: Mnemonic::Adc, mode: AddressingMode::Immediate, len: 2 }),
            0x6a => Some(Instr { mnemonic: Mnemonic::Ror, mode: AddressingMode::Implied, len: 1 }),
            0x6c => Some(Instr { mnemonic: Mnemonic::Jmp, mode: AddressingMode::Indirect, len: 3 }),
            0x6d => Some(Instr { mnemonic: Mnemonic::Adc, mode: AddressingMode::Absolute, len: 3 }),
            0x6e => Some(Instr { mnemonic: Mnemonic::Ror, mode: AddressingMode::Absolute, len: 3 }),
            0x70 => Some(Instr { mnemonic: Mnemonic::Bvs, mode: AddressingMode::Relative, len: 2 }),
            0x71 => Some(Instr { mnemonic: Mnemonic::Adc, mode: AddressingMode::IndirectY, len: 2 }),
            0x75 => Some(Instr { mnemonic: Mnemonic::Adc, mode: AddressingMode::ZeroPageX, len: 2 }),
            0x76 => Some(Instr { mnemonic: Mnemonic::Ror, mode: AddressingMode::ZeroPageX, len: 2 }),
            0x78 => Some(Instr { mnemonic: Mnemonic::Sei, mode: AddressingMode::Implied, len: 1 }),
            0x79 => Some(Instr { mnemonic: Mnemonic::Adc, mode: AddressingMode::AbsoluteY, len: 3 }),
            0x7d => Some(Instr { mnemonic: Mnemonic::Adc, mode: AddressingMode::AbsoluteX, len: 3 }),
            0x7e => Some(Instr { mnemonic: Mnemonic::Ror, mode: AddressingMode::AbsoluteX, len: 3 }),
            0x81 => Some(Instr { mnemonic: Mnemonic::Sta, mode: AddressingMode::IndirectX, len: 2 }),
            0x84 => Some(Instr { mnemonic: Mnemonic::Sty, mode: AddressingMode::ZeroPage, len: 2 }),
            0x85 => Some(Instr { mnemonic: Mnemonic::Sta, mode: AddressingMode::ZeroPage, len: 2 }),
            0x86 => Some(Instr { mnemonic: Mnemonic::Stx, mode: AddressingMode::ZeroPage, len: 2 }),
            0x88 => Some(Instr { mnemonic: Mnemonic::Dey, mode: AddressingMode::Implied, len: 1 }),
            0x8a => Some(Instr { mnemonic: Mnemonic::Txa, mode: AddressingMode::Implied, len: 1 }),
            0x8c => Some(Instr { mnemonic: Mnemonic::Sty, mode: AddressingMode::Absolute, len: 3 }),
            0x8d => Some(Instr { mnemonic: Mnemonic::Sta, mode: AddressingMode::Absolute, len: 3 }),
            0x8e => Some(Instr { mnemonic: Mnemonic::Stx, mode: AddressingMode::Absolute, len: 3 }),
            0x90 => Some(Instr { mnemonic: Mnemonic::Bcc, mode: AddressingMode::Relative, len: 2 }),
            0x91 => Some(Instr { mnemonic: Mnemonic::Sta, mode: AddressingMode::IndirectY, len: 2 }),
            0x94 => Some(Instr { mnemonic: Mnemonic::Sty, mode: AddressingMode::ZeroPageX, len: 2 }),
            0x95 => Some(Instr { mnemonic: Mnemonic::Sta, mode: AddressingMode::ZeroPageX, len: 2 }),
            0x96 => Some(Instr { mnemonic: Mnemonic::Stx, mode: AddressingMode::ZeroPageY, len: 2 }),
            0x98 => Some(Instr { mnemonic: Mnemonic::Tya, mode: AddressingMode::Implied, len: 1 }),
            0x99 => Some(Instr { mnemonic: Mnemonic::Sta, mode: AddressingMode::AbsoluteY, len: 3 }),
            0x9a => Some(Instr { mnemonic: Mnemonic::Txs, mode: AddressingMode::Implied, len: 1 }),
            0x9d => Some(Instr { mnemonic: Mnemonic::Sta, mode: AddressingMode::AbsoluteX, len: 3 }),
            0xa0 => Some(Instr { mnemonic: Mnemonic::Ldy, mode: AddressingMode::Immediate, len: 2 }),
            0xa1 => Some(Instr { mnemonic: Mnemonic::Lda, mode: AddressingMode::IndirectX, len: 2 }),
            0xa2 => Some(Instr { mnemonic: Mnemonic::Ldx, mode: AddressingMode::Immediate, len: 2 }),
            0xa4 => Some(Instr { mnemonic: Mnemonic::Ldy, mode: AddressingMode::ZeroPage, len: 2 }),
            0xa5 => Some(Instr { mnemonic: Mnemonic::Lda, mode: AddressingMode::ZeroPage, len: 2 }),
            0xa6 => Some(Instr { mnemonic: Mnemonic::Ldx, mode: AddressingMode::ZeroPage, len: 2 }),
            0xa8 => Some(Instr { mnemonic: Mnemonic::Tay, mode: AddressingMode::Implied, len: 1 }),
            0xa9 => Some(Instr { mnemonic: Mnemonic::Lda, mode: AddressingMode::Immediate, len: 2 }),
            0xaa => Some(Instr { mnemonic: Mnemonic::Tax, mode: AddressingMode::Implied, len: 1 }),
            0xac => Some(Instr { mnemonic: Mnemonic::Ldy, mode: AddressingMode::Absolute, len: 3 }),
            0xad => Some(Instr { mnemonic: Mnemonic::Lda, mode: AddressingMode::Absolute, len: 3 }),
            0xae => Some(Instr { mnemonic: Mnemonic::Ldx, mode: AddressingMode::Absolute, len: 3 }),
            0xb0 => Some(Instr { mnemonic: Mnemonic::Bcs, mode: AddressingMode::Relative, len: 2 }),
            0xb1 => Some(Instr { mnemonic: Mnemonic::Lda, mode: AddressingMode::IndirectY, len: 2 }),
            0xb4 => Some(Instr { mnemonic: Mnemonic::Ldy, mode: AddressingMode::ZeroPageX, len: 2 }),
            0xb5 => Some(Instr { mnemonic: Mnemonic::Lda, mode: AddressingMode::ZeroPageX, len: 2 }),
            0xb6 => Some(Instr { mnemonic: Mnemonic::Ldx, mode: AddressingMode::ZeroPageY, len: 2 }),
            0xb8 => Some(Instr { mnemonic: Mnemonic::Clv, mode: AddressingMode::Implied, len: 1 }),
            0xb9 => Some(Instr { mnemonic: Mnemonic::Lda, mode: AddressingMode::AbsoluteY, len: 3 }),
            0xba => Some(Instr { mnemonic: Mnemonic::Tsx, mode: AddressingMode::Implied, len: 1 }),
            0xbc => Some(Instr { mnemonic: Mnemonic::Ldy, mode: AddressingMode::AbsoluteX, len: 3 }),
            0xbd => Some(Instr { mnemonic: Mnemonic::Lda, mode: AddressingMode::AbsoluteX, len: 3 }),
            0xbe => Some(Instr { mnemonic: Mnemonic::Ldx, mode: AddressingMode::AbsoluteY, len: 3 }),
            0xc0 => Some(Instr { mnemonic: Mnemonic::Cpy, mode: AddressingMode::Immediate, len: 2 }),
            0xc1 => Some(Instr { mnemonic: Mnemonic::Cmp, mode: AddressingMode::IndirectX, len: 2 }),
            0xc4 => Some(Instr { mnemonic: Mnemonic::Cpy, mode: AddressingMode::ZeroPage, len: 2 }),
            0xc5 => Some(Instr { mnemonic: Mnemonic::Cmp, mode: AddressingMode::ZeroPage, len: 2 }),
            0xc6 => Some(Instr { mnemonic: Mnemonic::Dec, mode: AddressingMode::ZeroPage, len: 2 }),
            0xc8 => Some(Instr { mnemonic: Mnemonic::Iny, mode: AddressingMode::Implied, len: 1 }),
            0xc9 => Some(Instr { mnemonic: Mnemonic::Cmp, mode: AddressingMode::Immediate, len: 2 }),
            0xca => Some(Instr { mnemonic: Mnemonic::Dex, mode: AddressingMode::Implied, len: 1 }),
            0xcc => Some(Instr { mnemonic: Mnemonic::Cpy, mode: AddressingMode::Absolute, len: 3 }),
            0xcd => Some(Instr { mnemonic: Mnemonic::Cmp, mode: AddressingMode::Absolute, len: 3 }),
            0xce => Some(Instr { mnemonic: Mnemonic::Dec, mode: AddressingMode::Absolute, len: 3 }),
            0xd0 => Some(Instr { mnemonic: Mnemonic::Bne, mode: AddressingMode::Relative, len: 2 }),
            0xd1 => Some(Instr { mnemonic: Mnemonic::Cmp, mode: AddressingMode::IndirectY, len: 2 }),
            0xd5 => Some(Instr { mnemonic: Mnemonic::Cmp, mode: AddressingMode::ZeroPageX, len: 2 }),
            0xd6 => Some(Instr { mnemonic: Mnemonic::Dec, mode: AddressingMode::ZeroPageX, len: 2 }),
            0xd8 => Some(Instr { mnemonic: Mnemonic::Cld, mode: AddressingMode::Implied, len: 1 }),
            0xd9 => Some(Instr { mnemonic: Mnemonic::Cmp, mode: AddressingMode::AbsoluteY, len: 3 }),
            0xdd => Some(Instr { mnemonic: Mnemonic::Cmp, mode: AddressingMode::AbsoluteX, len: 3 }),
            0xde => Some(Instr { mnemonic: Mnemonic::Dec, mode: AddressingMode::AbsoluteX, len: 3 }),
            0xe0 => Some(Instr { mnemonic: Mnemonic::Cpx, mode: AddressingMode::Immediate, len: 2 }),
            0xe1 => Some(Instr { mnemonic: Mnemonic::Sbc, mode: AddressingMode::IndirectX, len: 2 }),
            0xe4 => Some(Instr { mnemonic: Mnemonic::Cpx, mode: AddressingMode::ZeroPage, len: 2 }),
            0xe5 => Some(Instr { mnemonic: Mnemonic::Sbc, mode: AddressingMode::ZeroPage, len: 2 }),
            0xe6 => Some(Instr { mnemonic: Mnemonic::Inc, mode: AddressingMode::ZeroPage, len: 2 }),
            0xe8 => Some(Instr { mnemonic: Mnemonic::Inx, mode: AddressingMode::Implied, len: 1 }),
            0xe9 => Some(Instr { mnemonic: Mnemonic::Sbc, mode: AddressingMode::Immediate, len: 2 }),
            0xea => Some(Instr { mnemonic: Mnemonic::Nop, mode: AddressingMode::Implied, len: 1 }),
            0xec => Some(Instr { mnemonic: Mnemonic::Cpx, mode: AddressingMode::Absolute, len: 3 }),
            0xed => Some(Instr { mnemonic: Mnemonic::Sbc, mode: AddressingMode::Absolute, len: 3 }),
            0xee => Some(Instr { mnemonic: Mnemonic::Inc, mode: AddressingMode::Absolute, len: 3 }),
            0xf0 => Some(Instr { mnemonic: Mnemonic::Beq, mode: AddressingMode::Relative, len: 2 }),
            0xf1 => Some(Instr { mnemonic: Mnemonic::Sbc, mode: AddressingMode::IndirectY, len: 2 }),
            0xf5 => Some(Instr { mnemonic: Mnemonic::Sbc, mode: AddressingMode::ZeroPageX, len: 2 }),
            0xf6 => Some(Instr { mnemonic: Mnemonic::Inc, mode: AddressingMode::ZeroPageX, len: 2 }),
            0xf8 => Some(Instr { mnemonic: Mnemonic::Sed, mode: AddressingMode::Implied, len: 1 }),
            0xf9 => Some(Instr { mnemonic: Mnemonic::Sbc, mode: AddressingMode::AbsoluteY, len: 3 }),
            0xfd => Some(Instr { mnemonic: Mnemonic::Sbc, mode: AddressingMode::AbsoluteX, len: 3 }),
            0xfe => Some(Instr { mnemonic: Mnemonic::Inc, mode: AddressingMode::AbsoluteX, len: 3 }),
            _ => None,
    }
}

/// Looks an opcode byte up in the table.
pub fn decode(op: u8) -> (r: Option<Instr>)
    ensures
        r == spec_decode(op),
        r matches Some(i) ==> i.wf(),
{
    proof {
        reveal(spec_decode);
    }
    match op {
            0x00 => Some(Instr { mnemonic: Mnemonic::Brk, mode: AddressingMode::Implied, len: 1 }),
            0x01 => Some(Instr { mnemonic: Mnemonic::Ora, mode: AddressingMode::IndirectX, len: 2 }),
            0x05 => Some(Instr { mnemonic: Mnemonic::Ora, mode: AddressingMode::ZeroPage, len: 2 }),
            0x06 => Some(Instr { mnemonic: Mnemonic::Asl, mode: AddressingMode::ZeroPage, len: 2 }),
            0x08 => Some(Instr { mnemonic: Mnemonic::Php, mode: AddressingMode::Implied, len: 1 }),
            0x09 => Some(Instr { mnemonic: Mnemonic::Ora, mode: AddressingMode::Immediate, len: 2 }),
            0x0a => Some(Instr { mnemonic: Mnemonic::Asl, mode: AddressingMode::Implied, len: 1 }),
            0x0d => Some(Instr { mnemonic: Mnemonic::Ora, mode: AddressingMode::Absolute, len: 3 }),
            0x0e => Some(Instr { mnemonic: Mnemonic::Asl, mode: AddressingMode::Absolute, len: 3 }),
            0x10 => Some(Instr { mnemonic: Mnemonic::Bpl, mode: AddressingMode::Relative, len: 2 }),
            0x11 => Some(Instr { mnemonic: Mnemonic::Ora, mode: AddressingMode::IndirectY, len: 2 }),
            0x15 => Some(Instr { mnemonic: Mnemonic::Ora, mode: AddressingMode::ZeroPageX, len: 2 }),
            0x16 => Some(Instr { mnemonic: Mnemonic::Asl, mode: AddressingMode::ZeroPageX, len: 2 }),
            0x18 => Some(Instr { mnemonic: Mnemonic::Clc, mode: AddressingMode::Implied, len: 1 }),
            0x19 => Some(Instr { mnemonic: Mnemonic::Ora, mode: AddressingMode::AbsoluteY, len: 3 }),
            0x1d => Some(Instr { mnemonic: Mnemonic::Ora, mode: AddressingMode::AbsoluteX, len: 3 }),
            0x1e => Some(Instr { mnemonic: Mnemonic::Asl, mode: AddressingMode::AbsoluteX, len: 3 }),
            0x20 => Some(Instr { mnemonic: Mnemonic::Jsr, mode: AddressingMode::Absolute, len: 3 }),
            0x21 => Some(Instr { mnemonic: Mnemonic::And, mode: AddressingMode::IndirectX, len: 2 }),
            0x24 => Some(Instr { mnemonic: Mnemonic::Bit, mode: AddressingMode::ZeroPage, len: 2 }),
            0x25 => Some(Instr { mnemonic: Mnemonic::And, mode: AddressingMode::ZeroPage, len: 2 }),
            0x26 => Some(Instr { mnemonic: Mnemonic::Rol, mode: AddressingMode::ZeroPage, len: 2 }),
            0x28 => Some(Instr { mnemonic: Mnemonic::Plp, mode: AddressingMode::Implied, len: 1 }),
            0x29 => Some(Instr { mnemonic: Mnemonic::And, mode: AddressingMode::Immediate, len: 2 }),
            0x2a => Some(Instr { mnemonic: Mnemonic::Rol, mode: AddressingMode::Implied, len: 1 }),
            0x2c => Some(Instr { mnemonic: Mnemonic::Bit, mode: AddressingMode::Absolute, len: 3 }),
            0x2d => Some(Instr { mnemonic: Mnemonic::And, mode: AddressingMode::Absolute, len: 3 }),
            0x2e => Some(Instr { mnemonic: Mnemonic::Rol, mode: AddressingMode::Absolute, len: 3 }),
            0x30 => Some(Instr { mnemonic: Mnemonic::Bmi, mode: AddressingMode::Relative, len: 2 }),
            0x31 => Some(Instr { mnemonic: Mnemonic::And, mode: AddressingMode::IndirectY, len: 2 }),
            0x35 => Some(Instr { mnemonic: Mnemonic::And, mode: AddressingMode::ZeroPageX, len: 2 }),
            0x36 => Some(Instr { mnemonic: Mnemonic::Rol, mode: AddressingMode::ZeroPageX, len: 2 }),
            0x38 => Some(Instr { mnemonic: Mnemonic::Sec, mode: AddressingMode::Implied, len: 1 }),
            0x39 => Some(Instr { mnemonic: Mnemonic::And, mode: AddressingMode::AbsoluteY, len: 3 }),
            0x3d => Some(Instr { mnemonic: Mnemonic::And, mode: AddressingMode::AbsoluteX, len: 3 }),
            0x3e => Some(Instr { mnemonic: Mnemonic::Rol, mode: AddressingMode::AbsoluteX, len: 3 }),
            0x40 => Some(Instr { mnemonic: Mnemonic::Rti, mode: AddressingMode::Implied, len: 1 }),
            0x41 => Some(Instr { mnemonic: Mnemonic::Eor, mode: AddressingMode::IndirectX, len: 2 }),
            0x45 => Some(Instr { mnemonic: Mnemonic::Eor, mode: AddressingMode::ZeroPage, len: 2 }),
            0x46 => Some(Instr { mnemonic: Mnemonic::Lsr, mode: AddressingMode::ZeroPage, len: 2 }),
            0x48 => Some(Instr { mnemonic: Mnemonic::Pha, mode: AddressingMode::Implied, len: 1 }),
            0x49 => Some(Instr { mnemonic: Mnemonic::Eor, mode: AddressingMode::Immediate, len: 2 }),
            0x4a => Some(Instr { mnemonic: Mnemonic::Lsr, mode: AddressingMode::Implied, len: 1 }),
            0x4c => Some(Instr { mnemonic: Mnemonic::Jmp, mode: AddressingMode::Absolute, len: 3 }),
            0x4d => Some(Instr { mnemonic: Mnemonic::Eor, mode: AddressingMode::Absolute, len: 3 }),
            0x4e => Some(Instr { mnemonic: Mnemonic::Lsr, mode: AddressingMode::Absolute, len: 3 }),
            0x50 => Some(Instr { mnemonic: Mnemonic::Bvc, mode: AddressingMode::Relative, len: 2 }),
            0x51 => Some(Instr { mnemonic: Mnemonic::Eor, mode: AddressingMode::IndirectY, len: 2 }),
            0x55 => Some(Instr { mnemonic: Mnemonic::Eor, mode: AddressingMode::ZeroPageX, len: 2 }),
            0x56 => Some(Instr { mnemonic: Mnemonic::Lsr, mode: AddressingMode::ZeroPageX, len: 2 }),
            0x58 => Some(Instr { mnemonic: Mnemonic::Cli, mode: AddressingMode::Implied, len: 1 }),
            0x59 => Some(Instr { mnemonic: Mnemonic::Eor, mode: AddressingMode::AbsoluteY, len: 3 }),
            0x5d => Some(Instr { mnemonic: Mnemonic::Eor, mode: AddressingMode::AbsoluteX, len: 3 }),
            0x5e => Some(Instr { mnemonic: Mnemonic::Lsr, mode: AddressingMode::AbsoluteX, len: 3 }),
            0x60 => Some(Instr { mnemonic: Mnemonic::Rts, mode: AddressingMode::Implied, len: 1 }),
            0x61 => Some(Instr { mnemonic: Mnemonic::Adc, mode: AddressingMode::IndirectX, len: 2 }),
            0x65 => Some(Instr { mnemonic: Mnemonic::Adc, mode: AddressingMode::ZeroPage, len: 2 }),
            0x66 => Some(Instr { mnemonic: Mnemonic::Ror, mode: AddressingMode::ZeroPage, len: 2 }),
            0x68 => Some(Instr { mnemonic: Mnemonic::Pla, mode: AddressingMode::Implied, len: 1 }),
            0x69 => Some(Instr { mnemonic: Mnemonic::Adc, mode: AddressingMode::Immediate, len: 2 }),
            0x6a => Some(Instr { mnemonic: Mnemonic::Ror, mode: AddressingMode::Implied, len: 1 }),
            0x6c => Some(Instr { mnemonic: Mnemonic::Jmp, mode: AddressingMode::Indirect, len: 3 }),
            0x6d => Some(Instr { mnemonic: Mnemonic::Adc, mode: AddressingMode::Absolute, len: 3 }),
            0x6e => Some(Instr { mnemonic: Mnemonic::Ror, mode: AddressingMode::Absolute, len: 3 }),
            0x70 => Some(Instr { mnemonic: Mnemonic::Bvs, mode: AddressingMode::Relative, len: 2 }),
            0x71 => Some(Instr { mnemonic: Mnemonic::Adc, mode: AddressingMode::IndirectY, len: 2 }),
            0x75 => Some(Instr { mnemonic: Mnemonic::Adc, mode: AddressingMode::ZeroPageX, len: 2 }),
            0x76 => Some(Instr { mnemonic: Mnemonic::Ror, mode: AddressingMode::ZeroPageX, len: 2 }),
            0x78 => Some(Instr { mnemonic: Mnemonic::Sei, mode: AddressingMode::Implied, len: 1 }),
            0x79 => Some(Instr { mnemonic: Mnemonic::Adc, mode: AddressingMode::AbsoluteY, len: 3 }),
            0x7d => Some(Instr { mnemonic: Mnemonic::Adc, mode: AddressingMode::AbsoluteX, len: 3 }),
            0x7e => Some(Instr { mnemonic: Mnemonic::Ror, mode: AddressingMode::AbsoluteX, len: 3 }),
            0x81 => Some(Instr { mnemonic: Mnemonic::Sta, mode: AddressingMode::IndirectX, len: 2 }),
            0x84 => Some(Instr { mnemonic: Mnemonic::Sty, mode: AddressingMode::ZeroPage, len: 2 }),
            0x85 => Some(Instr { mnemonic: Mnemonic::Sta, mode: AddressingMode::ZeroPage, len: 2 }),
            0x86 => Some(Instr { mnemonic: Mnemonic::Stx, mode: AddressingMode::ZeroPage, len: 2 }),
            0x88 => Some(Instr { mnemonic: Mnemonic::Dey, mode: AddressingMode::Implied, len: 1 }),
            0x8a => Some(Instr { mnemonic: Mnemonic::Txa, mode: AddressingMode::Implied, len: 1 }),
            0x8c => Some(Instr { mnemonic: Mnemonic::Sty, mode: AddressingMode::Absolute, len: 3 }),
            0x8d => Some(Instr { mnemonic: Mnemonic::Sta, mode: AddressingMode::Absolute, len: 3 }),
            0x8e => Some(Instr { mnemonic: Mnemonic::Stx, mode: AddressingMode::Absolute, len: 3 }),
            0x90 => Some(Instr { mnemonic: Mnemonic::Bcc, mode: AddressingMode::Relative, len: 2 }),
            0x91 => Some(Instr { mnemonic: Mnemonic::Sta, mode: AddressingMode::IndirectY, len: 2 }),
            0x94 => Some(Instr { mnemonic: Mnemonic::Sty, mode: AddressingMode::ZeroPageX, len: 2 }),
            0x95 => Some(Instr { mnemonic: Mnemonic::Sta, mode: AddressingMode::ZeroPageX, len: 2 }),
            0x96 => Some(Instr { mnemonic: Mnemonic::Stx, mode: AddressingMode::ZeroPageY, len: 2 }),
            0x98 => Some(Instr { mnemonic: Mnemonic::Tya, mode: AddressingMode::Implied, len: 1 }),
            0x99 => Some(Instr { mnemonic: Mnemonic::Sta, mode: AddressingMode::AbsoluteY, len: 3 }),
            0x9a => Some(Instr { mnemonic: Mnemonic::Txs, mode: AddressingMode::Implied, len: 1 }),
            0x9d => Some(Instr { mnemonic: Mnemonic::Sta, mode: AddressingMode::AbsoluteX, len: 3 }),
            0xa0 => Some(Instr { mnemonic: Mnemonic::Ldy, mode: AddressingMode::Immediate, len: 2 }),
            0xa1 => Some(Instr { mnemonic: Mnemonic::Lda, mode: AddressingMode::IndirectX, len: 2 }),
            0xa2 => Some(Instr { mnemonic: Mnemonic::Ldx, mode: AddressingMode::Immediate, len: 2 }),
            0xa4 => Some(Instr { mnemonic: Mnemonic::Ldy, mode: AddressingMode::ZeroPage, len: 2 }),
            0xa5 => Some(Instr { mnemonic: Mnemonic::Lda, mode: AddressingMode::ZeroPage, len: 2 }),
            0xa6 => Some(Instr { mnemonic: Mnemonic::Ldx, mode: AddressingMode::ZeroPage, len: 2 }),
            0xa8 => Some(Instr { mnemonic: Mnemonic::Tay, mode: AddressingMode::Implied, len: 1 }),
            0xa9 => Some(Instr { mnemonic: Mnemonic::Lda, mode: AddressingMode::Immediate, len: 2 }),
            0xaa => Some(Instr { mnemonic: Mnemonic::Tax, mode: AddressingMode::Implied, len: 1 }),
            0xac => Some(Instr { mnemonic: Mnemonic::Ldy, mode: AddressingMode::Absolute, len: 3 }),
            0xad => Some(Instr { mnemonic: Mnemonic::Lda, mode: AddressingMode::Absolute, len: 3 }),
            0xae => Some(Instr { mnemonic: Mnemonic::Ldx, mode: AddressingMode::Absolute, len: 3 }),
            0xb0 => Some(Instr { mnemonic: Mnemonic::Bcs, mode: AddressingMode::Relative, len: 2 }),
            0xb1 => Some(Instr { mnemonic: Mnemonic::Lda, mode: AddressingMode::IndirectY, len: 2 }),
            0xb4 => Some(Instr { mnemonic: Mnemonic::Ldy, mode: AddressingMode::ZeroPageX, len: 2 }),
            0xb5 => Some(Instr { mnemonic: Mnemonic::Lda, mode: AddressingMode::ZeroPageX, len: 2 }),
            0xb6 => Some(Instr { mnemonic: Mnemonic::Ldx, mode: AddressingMode::ZeroPageY, len: 2 }),
            0xb8 => Some(Instr { mnemonic: Mnemonic::Clv, mode: AddressingMode::Implied, len: 1 }),
            0xb9 => Some(Instr { mnemonic: Mnemonic::Lda, mode: AddressingMode::AbsoluteY, len: 3 }),
            0xba => Some(Instr { mnemonic: Mnemonic::Tsx, mode: AddressingMode::Implied, len: 1 }),
            0xbc => Some(Instr { mnemonic: Mnemonic::Ldy, mode: AddressingMode::AbsoluteX, len: 3 }),
            0xbd => Some(Instr { mnemonic: Mnemonic::Lda, mode: AddressingMode::AbsoluteX, len: 3 }),
            0xbe => Some(Instr { mnemonic: Mnemonic::Ldx, mode: AddressingMode::AbsoluteY, len: 3 }),
            0xc0 => Some(Instr { mnemonic: Mnemonic::Cpy, mode: AddressingMode::Immediate, len: 2 }),
            0xc1 => Some(Instr { mnemonic: Mnemonic::Cmp, mode: AddressingMode::IndirectX, len: 2 }),
            0xc4 => Some(Instr { mnemonic: Mnemonic::Cpy, mode: AddressingMode::ZeroPage, len: 2 }),
            0xc5 => Some(Instr { mnemonic: Mnemonic::Cmp, mode: AddressingMode::ZeroPage, len: 2 }),
            0xc6 => Some(Instr { mnemonic: Mnemonic::Dec, mode: AddressingMode::ZeroPage, len: 2 }),
            0xc8 => Some(Instr { mnemonic: Mnemonic::Iny, mode: AddressingMode::Implied, len: 1 }),
            0xc9 => Some(Instr { mnemonic: Mnemonic::Cmp, mode: AddressingMode::Immediate, len: 2 }),
            0xca => Some(Instr { mnemonic: Mnemonic::Dex, mode: AddressingMode::Implied, len: 1 }),
            0xcc => Some(Instr { mnemonic: Mnemonic::Cpy, mode: AddressingMode::Absolute, len: 3 }),
            0xcd => Some(Instr { mnemonic: Mnemonic::Cmp, mode: AddressingMode::Absolute, len: 3 }),
            0xce => Some(Instr { mnemonic: Mnemonic::Dec, mode: AddressingMode::Absolute, len: 3 }),
            0xd0 => Some(Instr { mnemonic: Mnemonic::Bne, mode: AddressingMode::Relative, len: 2 }),
            0xd1 => Some(Instr { mnemonic: Mnemonic::Cmp, mode: AddressingMode::IndirectY, len: 2 }),
            0xd5 => Some(Instr { mnemonic: Mnemonic::Cmp, mode: AddressingMode::ZeroPageX, len: 2 }),
            0xd6 => Some(Instr { mnemonic: Mnemonic::Dec, mode: AddressingMode::ZeroPageX, len: 2 }),
            0xd8 => Some(Instr { mnemonic: Mnemonic::Cld, mode: AddressingMode::Implied, len: 1 }),
            0xd9 => Some(Instr { mnemonic: Mnemonic::Cmp, mode: AddressingMode::AbsoluteY, len: 3 }),
            0xdd => Some(Instr { mnemonic: Mnemonic::Cmp, mode: AddressingMode::AbsoluteX, len: 3 }),
            0xde => Some(Instr { mnemonic: Mnemonic::Dec, mode: AddressingMode::AbsoluteX, len: 3 }),
            0xe0 => Some(Instr { mnemonic: Mnemonic::Cpx, mode: AddressingMode::Immediate, len: 2 }),
            0xe1 => Some(Instr { mnemonic: Mnemonic::Sbc, mode: AddressingMode::IndirectX, len: 2 }),
            0xe4 => Some(Instr { mnemonic: Mnemonic::Cpx, mode: AddressingMode::ZeroPage, len: 2 }),
            0xe5 => Some(Instr { mnemonic: Mnemonic::Sbc, mode: AddressingMode::ZeroPage, len: 2 }),
            0xe6 => Some(Instr { mnemonic: Mnemonic::Inc, mode: AddressingMode::ZeroPage, len: 2 }),
            0xe8 => Some(Instr { mnemonic: Mnemonic::Inx, mode: AddressingMode::Implied, len: 1 }),
            0xe9 => Some(Instr { mnemonic: Mnemonic::Sbc, mode: AddressingMode::Immediate, len: 2 }),
            0xea => Some(Instr { mnemonic: Mnemonic::Nop, mode: AddressingMode::Implied, len: 1 }),
            0xec => Some(Instr { mnemonic: Mnemonic::Cpx, mode: AddressingMode::Absolute, len: 3 }),
            0xed => Some(Instr { mnemonic: Mnemonic::Sbc, mode: AddressingMode::Absolute, len: 3 }),
            0xee => Some(Instr { mnemonic: Mnemonic::Inc, mode: AddressingMode::Absolute, len: 3 }),
            0xf0 => Some(Instr { mnemonic: Mnemonic::Beq, mode: AddressingMode::Relative, len: 2 }),
            0xf1 => Some(Instr { mnemonic: Mnemonic::Sbc, mode: AddressingMode::IndirectY, len: 2 }),
            0xf5 => Some(Instr { mnemonic: Mnemonic::Sbc, mode: AddressingMode::ZeroPageX, len: 2 }),
            0xf6 => Some(Instr { mnemonic: Mnemonic::Inc, mode: AddressingMode::ZeroPageX, len: 2 }),
            0xf8 => Some(Instr { mnemonic: Mnemonic::Sed, mode: AddressingMode::Implied, len: 1 }),
            0xf9 => Some(Instr { mnemonic: Mnemonic::Sbc, mode: AddressingMode::AbsoluteY, len: 3 }),
            0xfd => Some(Instr { mnemonic: Mnemonic::Sbc, mode: AddressingMode::AbsoluteX, len: 3 }),
            0xfe => Some(Instr { mnemonic: Mnemonic::Inc, mode: AddressingMode::AbsoluteX, len: 3 }),
            _ => None,
    }
}

/// The instruction length of a mode, as executable code.
pub fn mode_len_of(mode: AddressingMode) -> (l: u8)
    ensures
        l == mode_len(mode),
{
    match mode {
        AddressingMode::Implied => 1,
        AddressingMode::Immediate => 2,
        AddressingMode::ZeroPage => 2,
        AddressingMode::ZeroPageX => 2,
        AddressingMode::ZeroPageY => 2,
        AddressingMode::IndirectX => 2,
        AddressingMode::IndirectY => 2,
        AddressingMode::Relative => 2,
        AddressingMode::Absolute => 3,
        AddressingMode::AbsoluteX => 3,
        AddressingMode::AbsoluteY => 3,
        AddressingMode::Indirect => 3,
    }
}

} // verus!
