//! The processor status register: seven independent flags plus the reserved
//! bit, with a verified pack/unpack round trip to the architectural byte
//! layout (bit 0 to bit 7: C, Z, I, D, B, U/B2, V, N).

use vstd::prelude::*;

verus! {

/// The status flags of the processor, one boolean per architectural bit.
///
/// `b2` is the reserved bit (often called "unused" or "break2"): it has no
/// arithmetic meaning, but it takes part in the byte layout whenever the
/// register is pushed to or pulled from the stack.
#[derive(Clone, Copy, Debug, PartialEq, Eq, Structural)]
pub struct StatusRegister {
    /// Carry.
    pub c: bool,
    /// Zero.
    pub z: bool,
    /// Interrupt disable.
    pub i: bool,
    /// Decimal mode.
    pub d: bool,
    /// Break.
    pub b: bool,
    /// Reserved bit.
    pub b2: bool,
    /// Overflow.
    pub v: bool,
    /// Negative.
    pub n: bool,
}

/// The byte encoding of the flags: the disjunction of the bit positions
/// C = 1, Z = 2, I = 4, D = 8, B = 16, B2 = 32, V = 64, N = 128.
pub open spec fn pack_bits(p: StatusRegister) -> u8 {
    ((if p.c { 1int } else { 0 }) + (if p.z { 2int } else { 0 }) + (if p.i { 4int } else { 0 })
        + (if p.d { 8int } else { 0 }) + (if p.b { 16int } else { 0 })
        + (if p.b2 { 32int } else { 0 }) + (if p.v { 64int } else { 0 })
        + (if p.n { 128int } else { 0 })) as u8
}

/// The inverse of `pack_bits`: each flag is the corresponding bit of the byte.
pub open spec fn unpack_bits(value: u8) -> StatusRegister {
    StatusRegister {
        c: value % 2 == 1,
        z: value / 2 % 2 == 1,
        i: value / 4 % 2 == 1,
        d: value / 8 % 2 == 1,
        b: value / 16 % 2 == 1,
        b2: value / 32 % 2 == 1,
        v: value / 64 % 2 == 1,
        n: value / 128 == 1,
    }
}

/// Packing the flags decoded from any byte gives that byte back.
pub proof fn lemma_pack_unpack(value: u8)
    ensures
        pack_bits(unpack_bits(value)) == value,
{
    assert((if value % 2 == 1 { 1int } else { 0 }) + (if value / 2 % 2 == 1 { 2int } else { 0 })
        + (if value / 4 % 2 == 1 { 4int } else { 0 }) + (if value / 8 % 2 == 1 { 8int } else { 0 })
        + (if value / 16 % 2 == 1 { 16int } else { 0 }) + (if value / 32 % 2 == 1 {
        32int
    } else {
        0
    }) + (if value / 64 % 2 == 1 { 64int } else { 0 }) + (if value / 128 == 1 {
        128int
    } else {
        0
    }) == value) by (bit_vector);
}

/// Decoding the byte packed from any flag assignment gives the flags back.
pub proof fn lemma_unpack_pack(p: StatusRegister)
    ensures
        unpack_bits(pack_bits(p)) == p,
{
    let cb: u8 = if p.c { 1 } else { 0 };
    let zb: u8 = if p.z { 1 } else { 0 };
    let ib: u8 = if p.i { 1 } else { 0 };
    let db: u8 = if p.d { 1 } else { 0 };
    let bb: u8 = if p.b { 1 } else { 0 };
    let ub: u8 = if p.b2 { 1 } else { 0 };
    let vb: u8 = if p.v { 1 } else { 0 };
    let nb: u8 = if p.n { 1 } else { 0 };
    assert(cb <= 1 && zb <= 1 && ib <= 1 && db <= 1 && bb <= 1 && ub <= 1 && vb <= 1 && nb <= 1
        ==> {
        let s = cb + 2 * zb + 4 * ib + 8 * db + 16 * bb + 32 * ub + 64 * vb + 128 * nb;
        s % 2 == cb && s / 2 % 2 == zb && s / 4 % 2 == ib && s / 8 % 2 == db && s / 16 % 2 == bb
            && s / 32 % 2 == ub && s / 64 % 2 == vb && s / 128 == nb
    }) by (bit_vector);
}

impl Default for StatusRegister {
    /// The power-on flags: only the Z bit set.
    fn default() -> (r: Self)
        ensures
            r == unpack_bits(2),
    {
        Self::new(0b0000_0010)
    }
}

impl StatusRegister {
    /// Decodes a status byte into its eight flags; the exact inverse of
    /// `pack`.
    pub fn new(value: u8) -> (r: Self)
        ensures
            r == unpack_bits(value),
    {
        StatusRegister {
            c: value % 2 == 1,
            z: value / 2 % 2 == 1,
            i: value / 4 % 2 == 1,
            d: value / 8 % 2 == 1,
            b: value / 16 % 2 == 1,
            b2: value / 32 % 2 == 1,
            v: value / 64 % 2 == 1,
            n: value / 128 == 1,
        }
    }

    /// Encodes the flags as the architectural status byte.
    pub fn pack(&self) -> (r: u8)
        ensures
            r == pack_bits(*self),
    {
        (if self.c { 1u8 } else { 0u8 }) + (if self.z { 2u8 } else { 0u8 }) + (if self.i {
            4u8
        } else {
            0u8
        }) + (if self.d { 8u8 } else { 0u8 }) + (if self.b { 16u8 } else { 0u8 }) + (if self.b2 {
            32u8
        } else {
            0u8
        }) + (if self.v { 64u8 } else { 0u8 }) + (if self.n { 128u8 } else { 0u8 })
    }

    /// Sets the carry flag.
    pub fn set_c(&mut self)
        ensures
            *final(self) == (StatusRegister { c: true, ..*old(self) }),
    {
        self.c = true;
    }

    /// Clears the carry flag.
    pub fn unset_c(&mut self)
        ensures
            *final(self) == (StatusRegister { c: false, ..*old(self) }),
    {
        self.c = false;
    }

    /// Sets the interrupt-disable flag.
    pub fn set_i(&mut self)
        ensures
            *final(self) == (StatusRegister { i: true, ..*old(self) }),
    {
        self.i = true;
    }

    /// Clears the interrupt-disable flag.
    pub fn unset_i(&mut self)
        ensures
            *final(self) == (StatusRegister { i: false, ..*old(self) }),
    {
        self.i = false;
    }

    /// Sets the decimal-mode flag.
    pub fn set_d(&mut self)
        ensures
            *final(self) == (StatusRegister { d: true, ..*old(self) }),
    {
        self.d = true;
    }

    /// Clears the decimal-mode flag.
    pub fn unset_d(&mut self)
        ensures
            *final(self) == (StatusRegister { d: false, ..*old(self) }),
    {
        self.d = false;
    }

    /// Sets the break flag.
    pub fn set_b(&mut self)
        ensures
            *final(self) == (StatusRegister { b: true, ..*old(self) }),
    {
        self.b = true;
    }

    /// Clears the break flag.
    pub fn unset_b(&mut self)
        ensures
            *final(self) == (StatusRegister { b: false, ..*old(self) }),
    {
        self.b = false;
    }

    /// Sets the reserved bit.
    pub fn set_b2(&mut self)
        ensures
            *final(self) == (StatusRegister { b2: true, ..*old(self) }),
    {
        self.b2 = true;
    }

    /// Clears the reserved bit.
    pub fn unset_b2(&mut self)
        ensures
            *final(self) == (StatusRegister { b2: false, ..*old(self) }),
    {
        self.b2 = false;
    }

    /// Sets the overflow flag.
    pub fn set_v(&mut self)
        ensures
            *final(self) == (StatusRegister { v: true, ..*old(self) }),
    {
        self.v = true;
    }

    /// Clears the overflow flag.
    pub fn unset_v(&mut self)
        ensures
            *final(self) == (StatusRegister { v: false, ..*old(self) }),
    {
        self.v = false;
    }

    /// Sets the zero flag if and only if `result` is zero.
    pub fn ensure_z(&mut self, result: u8)
        ensures
            *final(self) == (StatusRegister { z: result == 0, ..*old(self) }),
    {
        self.z = result == 0;
    }

    /// Sets the negative flag if and only if bit 7 of `result` is set.
    pub fn ensure_n(&mut self, result: u8)
        ensures
            *final(self) == (StatusRegister { n: result >= 0x80, ..*old(self) }),
    {
        self.n = result >= 0x80;
    }
}

} // verus!
