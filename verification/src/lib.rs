//! A verified interpreter core for the MOS 6502 8-bit microprocessor.
//!
//! The crate models the architectural state — the register file, the status
//! flags and the 64 KiB address space — and runs a machine-code image until
//! an explicit halt. Its heart is a mathematical small-step semantics
//! (`model::step_model`) covering the 151 documented opcodes: operand
//! addressing with its mandatory wrap-arounds, the flag computation of every
//! arithmetic and logical class including decimal-mode ADC and SBC, the
//! page-1 stack discipline, and the interrupt entry and exit protocol. The
//! executable fetch/decode/execute loop is proved to follow that semantics
//! step for step, and the laws the instruction set obeys — signed branch
//! displacement, the stack-pointer invariant, the status byte round trip,
//! PHP/PLP and JSR/RTS pairing — are stated and proved in `laws`.
//!
//! Host concerns — reading an image from disk, a pixel-grid visualiser, a
//! keyboard injector — stay outside; they drive the processor through
//! `cpu::CPU` and may observe it between instructions through `cpu::Hook`.

pub mod bus;
pub mod cpu;
pub mod laws;
pub mod model;
pub mod opcodes;
pub mod status_register;
