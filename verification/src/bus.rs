//! The 64 KiB flat address space, with little-endian 16-bit helpers.
//!
//! Every address in `0x0000..=0xFFFF` is backed by a byte; no access can go
//! out of bounds. The word helpers read and write the low byte at `addr` and
//! the high byte at `addr + 1`, where the `+ 1` wraps modulo 2^16.

use vstd::prelude::*;

verus! {

/// The number of bytes in the address space.
pub const MEMORY_SIZE: usize = 0x10000;

/// Addition on 16-bit addresses, wrapping modulo 2^16. The displacement is
/// a mathematical integer so that backward (negative) moves use the same
/// definition.
pub open spec fn wadd16(a: u16, k: int) -> u16 {
    ((a + k) % 0x10000) as u16
}

/// The byte of `mem` at address `a`.
pub open spec fn rd(mem: Seq<u8>, a: u16) -> u8 {
    mem[a as int]
}

/// `mem` with the byte at address `a` replaced by `v`.
pub open spec fn wr(mem: Seq<u8>, a: u16, v: u8) -> Seq<u8> {
    mem.update(a as int, v)
}

/// The little-endian word at address `a`: low byte at `a`, high byte at
/// `a + 1` (wrapping modulo 2^16).
pub open spec fn rdw(mem: Seq<u8>, a: u16) -> u16 {
    (rd(mem, a) + 256 * rd(mem, wadd16(a, 1))) as u16
}

/// `mem` with the little-endian word `d` stored at address `a`: low byte at
/// `a`, high byte at `a + 1` (wrapping modulo 2^16).
pub open spec fn wrw(mem: Seq<u8>, a: u16, d: u16) -> Seq<u8> {
    wr(wr(mem, a, (d % 256) as u8), wadd16(a, 1), (d / 256) as u8)
}

/// The all-zero contents of a freshly powered-on address space.
pub open spec fn zero_mem() -> Seq<u8> {
    Seq::new(0x10000, |i: int| 0u8)
}

/// The memory bus: the single mutable store the processor reads and writes.
pub struct Bus {
    /// The backing bytes; always exactly `MEMORY_SIZE` of them.
    pub mem: Vec<u8>,
}

impl View for Bus {
    type V = Seq<u8>;

    open spec fn view(&self) -> Seq<u8> {
        self.mem@
    }
}

impl Default for Bus {
    /// The same zeroed bus `new` creates.
    fn default() -> (r: Self)
        ensures
            r.wf(),
            r@ == zero_mem(),
    {
        Self::new()
    }
}

impl Bus {
    /// A bus is well formed when it backs the full 16-bit address space.
    pub open spec fn wf(&self) -> bool {
        self@.len() == 0x10000
    }

    /// Creates a bus with every byte zeroed.
    pub fn new() -> (r: Self)
        ensures
            r.wf(),
            r@ == zero_mem(),
    {
        let mem: Vec<u8> = vec![0u8; MEMORY_SIZE];
        let r = Bus { mem };
        proof {
            assert(r@ =~= zero_mem());
        }
        r
    }

    /// Reads the byte at `addr`.
    pub fn mem_read_byte(&self, addr: u16) -> (r: u8)
        requires
            self.wf(),
        ensures
            r == rd(self@, addr),
    {
        self.mem[addr as usize]
    }

    /// Writes `data` at `addr`.
    pub fn mem_write_byte(&mut self, addr: u16, data: u8)
        requires
            old(self).wf(),
        ensures
            final(self).wf(),
            final(self)@ == wr(old(self)@, addr, data),
    {
        self.mem[addr as usize] = data;
    }

    /// Reads the little-endian word at `addr`; the high byte comes from
    /// `addr + 1`, wrapping modulo 2^16.
    pub fn mem_read_word(&self, addr: u16) -> (r: u16)
        requires
            self.wf(),
        ensures
            r == rdw(self@, addr),
    {
        let lo = self.mem_read_byte(addr);
        let hi = self.mem_read_byte(addr.wrapping_add(1));
        assert(addr.wrapping_add(1) == wadd16(addr, 1));
        lo as u16 + (hi as u16) * 256
    }

    /// Writes the little-endian word `data` at `addr`; the high byte goes to
    /// `addr + 1`, wrapping modulo 2^16.
    pub fn mem_write_word(&mut self, addr: u16, data: u16)
        requires
            old(self).wf(),
        ensures
            final(self).wf(),
            final(self)@ == wrw(old(self)@, addr, data),
    {
        self.mem_write_byte(addr, (data % 256) as u8);
        assert(addr.wrapping_add(1) == wadd16(addr, 1));
        self.mem_write_byte(addr.wrapping_add(1), (data / 256) as u8);
    }
}

} // verus!
