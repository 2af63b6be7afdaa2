//! Machine-wide laws, proved from the contracts the components state.

use vstd::prelude::*;

use crate::bits::w16;
use crate::cpu::CPU;
use crate::cpu::instructions::{
    spec_add8, spec_add8_h, spec_add8_c, spec_sub8, spec_sub8_h, spec_sub8_c, spec_res, spec_set,
    spec_swap_res, spec_rlc_res, spec_rrc_res,
};
use crate::mmu::MmuView;
use crate::ppu::PpuView;
use crate::registers::Registers;

verus! {

/// EI takes effect only after the following instruction: in the state EI
/// leaves behind (the 0xFB clause of `step`), IME is still off, so the next
/// step cannot service an interrupt; after that step's own bookkeeping (the
/// plain-opcode clause of `step`), IME is on.
pub proof fn lemma_ei_enables_after_next_instruction(c0: CPU, c1: CPU, c2: CPU)
    requires
        !c0.ime,
        c0.ime_delay == 0,
        c1 == (CPU {
            r: (Registers { pc: w16(c0.r.pc + 1), ..c0.r }),
            ime_delay: 1,
            halted: false,
            ..c0
        }),
        c2.ime == (c1.ime || c1.ime_delay == 1),
    ensures
        !c1.ime,
        c2.ime,
{
}

/// An EI followed immediately by DI leaves interrupts disabled, and a state
/// with IME off and no pending arm keeps IME off over any further plain
/// instruction (the 0xFB, 0xF3 and plain-opcode clauses of `step`).
pub proof fn lemma_ei_di_keeps_interrupts_disabled(c0: CPU, c1: CPU, c2: CPU, c3: CPU)
    requires
        !c0.ime,
        c0.ime_delay == 0,
        c1 == (CPU {
            r: (Registers { pc: w16(c0.r.pc + 1), ..c0.r }),
            ime_delay: 1,
            halted: false,
            ..c0
        }),
        c2 == (CPU {
            r: (Registers { pc: w16(c1.r.pc + 1), ..c1.r }),
            ime: false,
            ime_delay: 0,
            halted: false,
            ..c1
        }),
        c3.ime == (c2.ime || c2.ime_delay == 1),
        c3.ime_delay == (if c2.ime_delay > 0 {
            (c2.ime_delay - 1) as u8
        } else {
            0u8
        }),
    ensures
        !c2.ime,
        c2.ime_delay == 0,
        !c3.ime,
        c3.ime_delay == 0,
{
}

/// Addresses whose writes land in plain RAM (work RAM, its echo, or high
/// RAM) and read back unchanged.
pub open spec fn plain_ram(addr: u16) -> bool {
    ||| (0xC000 <= addr < 0xFE00)
    ||| (0xFF80 <= addr < 0xFFFF)
}

/// Pushing a word onto a stack in plain RAM and popping it back yields the
/// word, and the stack pointer returns to where it was: `push` writes the
/// word at SP-2 and `pop` reads it back while SP traverses down and up.
pub proof fn lemma_push_pop_roundtrip(m: MmuView, sp: u16, v: u16)
    requires
        m.inv(),
        plain_ram(w16(sp - 2)),
        plain_ram(w16(sp - 1)),
    ensures
        m.ww(w16(sp - 2), v).rw(w16(sp - 2)) == v,
        w16(w16(sp - 2) + 2) == sp,
{
    let a = w16(sp - 2);
    let a1 = w16(a + 1);
    assert(a1 == w16(sp - 1));
    let m1 = m.wb(a, crate::bits::spec_lo(v));
    let m2 = m1.wb(a1, crate::bits::spec_hi(v));
    assert(m2.rb(a) == crate::bits::spec_lo(v));
    assert(m2.rb(a1) == crate::bits::spec_hi(v));
    crate::bits::lemma_word_roundtrip(0, 0, v);
}

/// Clearing a freshly set bit, and setting a freshly cleared bit: the
/// composition pins every other bit.
pub proof fn lemma_res_set(n: u8, b: u8)
    requires
        n <= 7,
    ensures
        spec_res(n, spec_set(n, b)) == b & !(1u8 << n),
        spec_set(n, spec_res(n, b)) == b | (1u8 << n),
{
    assert((b | (1u8 << n)) & !(1u8 << n) == b & !(1u8 << n)) by (bit_vector);
    assert((b & !(1u8 << n)) | (1u8 << n) == b | (1u8 << n)) by (bit_vector);
}

/// SWAP undoes itself.
pub proof fn lemma_swap_involution(b: u8)
    ensures
        spec_swap_res(spec_swap_res(b)) == b,
{
    let lo = b % 16;
    let hi = b / 16;
    assert(spec_swap_res(b) == lo * 16 + hi);
    assert((lo * 16 + hi) % 16 == hi) by (nonlinear_arith)
        requires hi < 16;
    assert((lo * 16 + hi) / 16 == lo) by (nonlinear_arith)
        requires hi < 16, lo < 16;
}

/// A left rotation undoes a right rotation (the flags aside).
pub proof fn lemma_rlc_rrc_identity(b: u8)
    ensures
        spec_rlc_res(spec_rrc_res(b)) == b,
        spec_rrc_res(spec_rlc_res(b)) == b,
{
    let r = spec_rrc_res(b);
    assert(r == (b % 2) * 0x80 + b / 2);
    assert(r % 0x80 == b / 2 && r / 0x80 == b % 2) by (nonlinear_arith)
        requires r == (b % 2) * 0x80 + b / 2, b < 0x100;
    let l = spec_rlc_res(b);
    assert(l == (b % 0x80) * 2 + b / 0x80);
    assert(l % 2 == b / 0x80 && l / 2 == b % 0x80) by (nonlinear_arith)
        requires l == (b % 0x80) * 2 + b / 0x80, b < 0x100;
}

/// Subtraction undoes addition: subtracting the addend (and the same
/// carry-in) from the sum reproduces the first operand, with the
/// half-carry and carry of the subtraction agreeing with those of the
/// addition.
pub proof fn lemma_add_sub_roundtrip(a: u8, b: u8, carry: bool)
    ensures
        spec_sub8(spec_add8(a, b, carry), b, carry) == a,
        spec_sub8_h(spec_add8(a, b, carry), b, carry) == spec_add8_h(a, b, carry),
        spec_sub8_c(spec_add8(a, b, carry), b, carry) == spec_add8_c(a, b, carry),
{
    let cv: int = if carry { 1 } else { 0 };
    let s = spec_add8(a, b, carry);
    if a + b + cv <= 255 {
        assert(s == a + b + cv);
    } else {
        assert((a + b + cv) % 256 == a + b + cv - 256) by (nonlinear_arith)
            requires 256 <= a + b + cv < 512;
        assert(s == a + b + cv - 256);
    }
    // the byte round-trips
    if s >= b + cv {
        assert(spec_sub8(s, b, carry) == (s - b - cv) % 256);
        if a + b + cv <= 255 {
            assert((s - b - cv) % 256 == a);
        } else {
            assert(s - b - cv == a - 256);
            assert(a - 256 < 0);
            assert((a - 256) % 256 == a) by (nonlinear_arith)
                requires 0 <= a < 256;
        }
    } else {
        assert(s - b - cv < 0);
        assert((s - b - cv) % 256 == s - b - cv + 256) by (nonlinear_arith)
            requires 0 - 256 <= s - b - cv < 0;
        if a + b + cv <= 255 {
            assert(s - b - cv == a);
            assert(false);
        } else {
            assert(s - b - cv + 256 == a);
        }
    }
    // the low nibbles track the same relation
    let x: int = a + b + cv;
    let t: int = a % 16 + b % 16 + cv;
    assert(t % 16 == x % 16) by {
        vstd::arithmetic::div_mod::lemma_add_mod_noop(a as int, b as int, 16);
        vstd::arithmetic::div_mod::lemma_add_mod_noop(a + b, cv, 16);
        assert((a % 16 + b % 16) % 16 == (a + b) % 16);
        assert(((a + b) % 16 + cv % 16) % 16 == (a + b + cv) % 16);
        vstd::arithmetic::div_mod::lemma_add_mod_noop(a % 16 + b % 16, cv, 16);
        assert((a % 16) % 16 == a % 16 && (b % 16) % 16 == b % 16 && cv % 16 == cv)
            by (nonlinear_arith)
            requires 0 <= cv <= 1;
    };
    assert(s % 16 == x % 16) by {
        if a + b + cv <= 255 {
        } else {
            vstd::arithmetic::div_mod::lemma_mod_multiples_vanish(16, x - 256, 16);
            assert(16 * 16 + (x - 256) == x);
        }
    };
    if t <= 15 {
        assert(t % 16 == t);
        assert(!spec_add8_h(a, b, carry));
        assert(!spec_sub8_h(s, b, carry));
    } else {
        assert(t % 16 == t - 16) by (nonlinear_arith)
            requires 16 <= t < 32;
        assert(spec_add8_h(a, b, carry));
        assert(spec_sub8_h(s, b, carry));
    }
    // the carries agree
    if a + b + cv <= 255 {
        assert(!spec_add8_c(a, b, carry));
        assert(!spec_sub8_c(s, b, carry));
    } else {
        assert(spec_add8_c(a, b, carry));
        assert(spec_sub8_c(s, b, carry));
    }
}

/// Writing the OAM-DMA trigger with page `p` copies exactly the 160 bytes
/// from `p << 8` into OAM.
pub proof fn lemma_dma_copies(m: MmuView, page: u8, i: int)
    requires
        0 <= i < 160,
    ensures
        m.wb(0xFF46, page).ppu.oam[i] == m.rb((page * 0x100 + i) as u16),
{
}

/// A tick raises the Stat interrupt bit exactly on the rising edge of the
/// STAT condition line: with no write-latched interrupt pending, the bit
/// comes if and only if the line was low before the tick and is high after
/// it (the stored edge buffer always equals the line, by the invariant).
pub proof fn lemma_stat_interrupt_iff_rising_edge(p: PpuView, dots: u32)
    requires
        p.inv(),
        p.lcd_on(),
        !p.stat_latch,
    ensures
        (p.spec_tick(dots).1 & 0x02 != 0) <==> (p.spec_tick(dots).0.level() && !p.level()),
{
    assert(0u8 & 2 == 0 && 1u8 & 2 == 0 && 2u8 & 2 == 2 && 3u8 & 2 == 2) by (bit_vector);
}

/// With STAT selecting the OAM-scan condition alone, the interrupt line
/// tracks mode 2 exactly; a visible scanline therefore raises Stat once,
/// at its H-blank to OAM-scan rising edge, and at no other dot.
pub proof fn lemma_stat_mode2_only_level(p: PpuView)
    requires
        p.stat == 0x20,
    ensures
        p.level() == (p.lcd_on() && p.mode() == 2),
{
    assert(0x20u8 & 0x40 == 0 && 0x20u8 & 0x20 != 0 && 0x20u8 & 0x10 == 0 && 0x20u8 & 0x08 == 0)
        by (bit_vector);
}

/// A register write raises the STAT line through the same edge logic as a
/// tick: it latches exactly one interrupt on a rising edge, and none when
/// the selected conditions were already high, so coincident triggers
/// collapse into one. Stated here for a LYC write; the write leaves the
/// edge buffer equal to the new line.
pub proof fn lemma_lyc_write_edge(p: PpuView, value: u8)
    requires
        p.inv(),
    ensures
        p.wb(0xFF45, value).stat_latch == (p.stat_latch || (p.wb(0xFF45, value).level()
            && !p.level())),
        p.wb(0xFF45, value).stat_line == p.wb(0xFF45, value).level(),
{
}

} // verus!
