//! The processor register file: eight 8-bit registers, SP and PC, and the
//! four flag bits of F.
//!
//! F only ever holds flag bits in its upper nibble. The file stores the four
//! flags as booleans, so the low nibble of the materialised F byte is zero by
//! construction; `set_af` discards the low nibble of the value written, as
//! the hardware does.

use vstd::prelude::*;

use crate::bits::{spec_word, spec_hi, word, hi_byte};

verus! {

/// The F byte assembled from the four flag bits: Z at bit 7, N at bit 6,
/// H at bit 5, C at bit 4; low nibble zero.
pub open spec fn flags_byte(z: bool, n: bool, h: bool, c: bool) -> u8 {
    ((if z { 0x80int } else { 0int }) + (if n { 0x40int } else { 0int })
        + (if h { 0x20int } else { 0int }) + (if c { 0x10int } else { 0int })) as u8
}

pub struct Registers {
    /// Accumulator.
    pub a: u8,
    pub b: u8,
    pub c: u8,
    pub d: u8,
    pub e: u8,
    pub h: u8,
    pub l: u8,
    /// Zero flag (bit 7 of F).
    pub zf: bool,
    /// Subtraction flag (bit 6 of F).
    pub nf: bool,
    /// Half-carry flag (bit 5 of F).
    pub hf: bool,
    /// Carry flag (bit 4 of F).
    pub cf: bool,
    /// Stack pointer.
    pub sp: u16,
    /// Program counter.
    pub pc: u16,
}

impl Registers {
    /// The materialised F byte.
    pub open spec fn spec_f(self) -> u8 {
        flags_byte(self.zf, self.nf, self.hf, self.cf)
    }

    pub open spec fn spec_af(self) -> u16 {
        spec_word(self.a, self.spec_f())
    }

    pub open spec fn spec_bc(self) -> u16 {
        spec_word(self.b, self.c)
    }

    pub open spec fn spec_de(self) -> u16 {
        spec_word(self.d, self.e)
    }

    pub open spec fn spec_hl(self) -> u16 {
        spec_word(self.h, self.l)
    }

    /// The register file after a 16-bit write to AF: the low nibble of the
    /// written value is discarded.
    pub open spec fn spec_with_af(self, value: u16) -> Registers {
        Registers {
            a: spec_hi(value),
            zf: value & 0x80 != 0,
            nf: value & 0x40 != 0,
            hf: value & 0x20 != 0,
            cf: value & 0x10 != 0,
            ..self
        }
    }

    pub open spec fn spec_with_bc(self, value: u16) -> Registers {
        Registers { b: spec_hi(value), c: (value % 0x100) as u8, ..self }
    }

    pub open spec fn spec_with_de(self, value: u16) -> Registers {
        Registers { d: spec_hi(value), e: (value % 0x100) as u8, ..self }
    }

    pub open spec fn spec_with_hl(self, value: u16) -> Registers {
        Registers { h: spec_hi(value), l: (value % 0x100) as u8, ..self }
    }

    fn f_byte(&self) -> (r: u8)
        ensures
            r == self.spec_f(),
    {
        (if self.zf { 0x80u8 } else { 0u8 }) + (if self.nf { 0x40u8 } else { 0u8 })
            + (if self.hf { 0x20u8 } else { 0u8 }) + (if self.cf { 0x10u8 } else { 0u8 })
    }

    pub fn af(&self) -> (r: u16)
        ensures
            r == self.spec_af(),
    {
        let f = self.f_byte();
        word(self.a, f)
    }

    pub fn set_af(&mut self, value: u16)
        ensures
            *final(self) == old(self).spec_with_af(value),
    {
        self.a = hi_byte(value);
        self.zf = value & 0x80 != 0;
        self.nf = value & 0x40 != 0;
        self.hf = value & 0x20 != 0;
        self.cf = value & 0x10 != 0;
    }

    pub fn bc(&self) -> (r: u16)
        ensures
            r == self.spec_bc(),
    {
        word(self.b, self.c)
    }

    pub fn set_bc(&mut self, value: u16)
        ensures
            *final(self) == old(self).spec_with_bc(value),
    {
        self.b = hi_byte(value);
        self.c = (value % 0x100) as u8;
    }

    pub fn de(&self) -> (r: u16)
        ensures
            r == self.spec_de(),
    {
        word(self.d, self.e)
    }

    pub fn set_de(&mut self, value: u16)
        ensures
            *final(self) == old(self).spec_with_de(value),
    {
        self.d = hi_byte(value);
        self.e = (value % 0x100) as u8;
    }

    pub fn hl(&self) -> (r: u16)
        ensures
            r == self.spec_hl(),
    {
        word(self.h, self.l)
    }

    pub fn set_hl(&mut self, value: u16)
        ensures
            *final(self) == old(self).spec_with_hl(value),
    {
        self.h = hi_byte(value);
        self.l = (value % 0x100) as u8;
    }

    pub fn z(&self) -> (r: bool)
        ensures
            r == self.zf,
    {
        self.zf
    }

    pub fn set_z(&mut self, v: bool)
        ensures
            *final(self) == (Registers { zf: v, ..*old(self) }),
    {
        self.zf = v;
    }

    pub fn n(&self) -> (r: bool)
        ensures
            r == self.nf,
    {
        self.nf
    }

    pub fn set_n(&mut self, v: bool)
        ensures
            *final(self) == (Registers { nf: v, ..*old(self) }),
    {
        self.nf = v;
    }

    pub fn h(&self) -> (r: bool)
        ensures
            r == self.hf,
    {
        self.hf
    }

    pub fn set_h(&mut self, v: bool)
        ensures
            *final(self) == (Registers { hf: v, ..*old(self) }),
    {
        self.hf = v;
    }

    pub fn c(&self) -> (r: bool)
        ensures
            r == self.cf,
    {
        self.cf
    }

    pub fn set_c(&mut self, v: bool)
        ensures
            *final(self) == (Registers { cf: v, ..*old(self) }),
    {
        self.cf = v;
    }
}

impl Default for Registers {
    /// All registers and flags cleared.
    fn default() -> (r: Registers)
        ensures
            r == (Registers {
                a: 0, b: 0, c: 0, d: 0, e: 0, h: 0, l: 0,
                zf: false, nf: false, hf: false, cf: false,
                sp: 0, pc: 0,
            }),
    {
        Registers {
            a: 0, b: 0, c: 0, d: 0, e: 0, h: 0, l: 0,
            zf: false, nf: false, hf: false, cf: false,
            sp: 0, pc: 0,
        }
    }
}

/// The low nibble of the F byte is always zero: every write path to F goes
/// through the four flag booleans.
pub proof fn lemma_f_low_nibble_zero(r: Registers)
    ensures
        r.spec_f() & 0x0F == 0,
        r.spec_f() % 0x10 == 0,
{
    let f = r.spec_f();
    assert(f == 0x00 || f == 0x10 || f == 0x20 || f == 0x30 || f == 0x40 || f == 0x50 || f == 0x60
        || f == 0x70 || f == 0x80 || f == 0x90 || f == 0xA0 || f == 0xB0 || f == 0xC0 || f == 0xD0
        || f == 0xE0 || f == 0xF0);
    assert(f % 0x10 == 0);
    assert(f & 0x0F == 0) by (bit_vector)
        requires f % 0x10 == 0;
}

} // verus!
