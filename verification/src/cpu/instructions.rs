//! The arithmetic/logic helpers shared by the opcode handlers, the
//! control-flow and miscellaneous opcodes, and the primary dispatcher.

use vstd::prelude::*;

use crate::bits::{w8, w16, spec_sign_ext, sign_ext, wadd16, wsub16, wadd8, wsub8};
use crate::cpu::{CPU, Cycles, spec_illegal_opcode};
use crate::mmu::MMU;
use crate::registers::Registers;

verus! {

// ---- arithmetic specifications ------------------------------------------

/// 8-bit addition with optional carry-in.
pub open spec fn spec_add8(a: u8, b: u8, carry: bool) -> u8 {
    w8(a + b + (if carry { 1int } else { 0int }))
}

/// Half-carry of an 8-bit addition: carry out of bit 3.
pub open spec fn spec_add8_h(a: u8, b: u8, carry: bool) -> bool {
    a % 16 + b % 16 + (if carry { 1int } else { 0int }) > 0x0F
}

/// Carry of an 8-bit addition: carry out of bit 7.
pub open spec fn spec_add8_c(a: u8, b: u8, carry: bool) -> bool {
    a + b + (if carry { 1int } else { 0int }) > 0xFF
}

/// 8-bit subtraction with optional borrow-in.
pub open spec fn spec_sub8(a: u8, b: u8, carry: bool) -> u8 {
    w8(a - b - (if carry { 1int } else { 0int }))
}

/// Half-borrow of an 8-bit subtraction: borrow into bit 3.
pub open spec fn spec_sub8_h(a: u8, b: u8, carry: bool) -> bool {
    a % 16 < b % 16 + (if carry { 1int } else { 0int })
}

/// Borrow of an 8-bit subtraction.
pub open spec fn spec_sub8_c(a: u8, b: u8, carry: bool) -> bool {
    (a as int) < b + (if carry { 1int } else { 0int })
}

/// Half-carry of the 16-bit addition onto HL: carry out of bit 11.
pub open spec fn spec_addhl_h(hl: u16, v: u16) -> bool {
    hl % 0x1000 + v % 0x1000 > 0x0FFF
}

/// Carry of the 16-bit addition onto HL: carry out of bit 15.
pub open spec fn spec_addhl_c(hl: u16, v: u16) -> bool {
    hl + v > 0xFFFF
}

/// Half-carry of an SP-relative offset addition: computed on the low
/// nibbles of SP and the raw offset byte.
pub open spec fn spec_addsp_h(sp: u16, v: u8) -> bool {
    sp % 16 + v % 16 > 0x0F
}

/// Carry of an SP-relative offset addition: computed on the low bytes.
pub open spec fn spec_addsp_c(sp: u16, v: u8) -> bool {
    sp % 0x100 + v > 0xFF
}

// ---- rotate/shift specifications ----------------------------------------

/// Rotate left; bit 7 re-enters at bit 0.
pub open spec fn spec_rlc_res(v: u8) -> u8 {
    ((v % 0x80) * 2 + v / 0x80) as u8
}

/// Rotate right; bit 0 re-enters at bit 7.
pub open spec fn spec_rrc_res(v: u8) -> u8 {
    ((v % 2) * 0x80 + v / 2) as u8
}

/// Rotate left through carry.
pub open spec fn spec_rl_res(v: u8, carry: bool) -> u8 {
    ((v % 0x80) * 2 + (if carry { 1int } else { 0int })) as u8
}

/// Rotate right through carry.
pub open spec fn spec_rr_res(v: u8, carry: bool) -> u8 {
    ((if carry { 0x80int } else { 0int }) + v / 2) as u8
}

/// Arithmetic shift left.
pub open spec fn spec_sla_res(v: u8) -> u8 {
    ((v % 0x80) * 2) as u8
}

/// Arithmetic shift right: bit 7 is kept.
pub open spec fn spec_sra_res(v: u8) -> u8 {
    (v / 2 + (if v >= 0x80 { 0x80int } else { 0int })) as u8
}

/// Logical shift right.
pub open spec fn spec_srl_res(v: u8) -> u8 {
    v / 2
}

/// Exchange the two nibbles.
pub open spec fn spec_swap_res(v: u8) -> u8 {
    ((v % 16) * 16 + v / 16) as u8
}

/// The Z flag of BIT b: whether bit `b` of `v` is clear.
pub open spec fn spec_bit_z(b: u8, v: u8) -> bool {
    v & (1u8 << b) == 0
}

/// The byte with bit `b` cleared.
pub open spec fn spec_res(b: u8, v: u8) -> u8 {
    v & !(1u8 << b)
}

/// The byte with bit `b` set.
pub open spec fn spec_set(b: u8, v: u8) -> u8 {
    v | (1u8 << b)
}

// ---- BCD adjustment ------------------------------------------------------

/// The correction added to (or subtracted from) A by DAA.
pub open spec fn spec_daa_adjust(a: u8, n: bool, h: bool, c: bool) -> u8 {
    if !n {
        (((if h || a % 16 > 0x09 { 0x06int } else { 0int })) + (if c || a > 0x99 { 0x60int } else { 0int })) as u8
    } else {
        (((if h { 0x06int } else { 0int })) + (if c { 0x60int } else { 0int })) as u8
    }
}

/// The accumulator after the BCD correction of DAA.
pub open spec fn spec_daa_res(a: u8, n: bool, h: bool, c: bool) -> u8 {
    if !n {
        w8(a + spec_daa_adjust(a, n, h, c))
    } else {
        w8(a - spec_daa_adjust(a, n, h, c))
    }
}

/// The carry flag after DAA: set when the addition overflowed the BCD
/// range, kept as-is after a subtraction.
pub open spec fn spec_daa_c(a: u8, n: bool, h: bool, c: bool) -> bool {
    if !n {
        c || a > 0x99
    } else {
        c
    }
}

// ---- shared executable helpers -------------------------------------------

/// Add with the canonical Z/N/H/C flag rules.
pub fn add8(cpu: &mut CPU, a: u8, b: u8, carry: bool) -> (r: u8)
    requires
        old(cpu).inv(),
    ensures
        final(cpu).inv(),
        r == spec_add8(a, b, carry),
        *final(cpu) == (CPU {
            r: (Registers {
                zf: (spec_add8(a, b, carry) == 0),
                nf: false,
                hf: spec_add8_h(a, b, carry),
                cf: spec_add8_c(a, b, carry),
                ..old(cpu).r
            }),
            ..*old(cpu)
        }),
{
    let carry_val: u16 = if carry {
        1
    } else {
        0
    };
    let sum: u16 = a as u16 + b as u16 + carry_val;
    let res: u8 = (sum % 0x100) as u8;
    let h = a % 16 + b % 16 + (carry_val as u8) > 0x0F;
    let c = sum > 0xFF;
    cpu.set_flags(res == 0, false, h, c);
    res
}

/// Subtract with the canonical Z/N/H/C flag rules.
pub fn sub8(cpu: &mut CPU, a: u8, b: u8, carry: bool) -> (r: u8)
    requires
        old(cpu).inv(),
    ensures
        final(cpu).inv(),
        r == spec_sub8(a, b, carry),
        *final(cpu) == (CPU {
            r: (Registers {
                zf: (spec_sub8(a, b, carry) == 0),
                nf: true,
                hf: spec_sub8_h(a, b, carry),
                cf: spec_sub8_c(a, b, carry),
                ..old(cpu).r
            }),
            ..*old(cpu)
        }),
{
    let carry_val: u8 = if carry {
        1
    } else {
        0
    };
    let res: u8 = wsub8(wsub8(a, b), carry_val);
    let an: u16 = (a % 16) as u16;
    let bn: u16 = (b % 16) as u16 + carry_val as u16;
    let h = an < bn;
    let c = (a as u16) < b as u16 + carry_val as u16;
    cpu.set_flags(res == 0, true, h, c);
    res
}

/// Increment, preserving C.
pub fn inc8(cpu: &mut CPU, v: u8) -> (r: u8)
    requires
        old(cpu).inv(),
    ensures
        final(cpu).inv(),
        r == w8(v + 1),
        *final(cpu) == (CPU {
            r: (Registers {
                zf: (w8(v + 1) == 0),
                nf: false,
                hf: (v % 16 == 0x0F),
                ..old(cpu).r
            }),
            ..*old(cpu)
        }),
{
    let res = wadd8(v, 1);
    cpu.r.set_z(res == 0);
    cpu.r.set_n(false);
    cpu.r.set_h(v % 16 == 0x0F);
    res
}

/// Decrement, preserving C.
pub fn dec8(cpu: &mut CPU, v: u8) -> (r: u8)
    requires
        old(cpu).inv(),
    ensures
        final(cpu).inv(),
        r == w8(v - 1),
        *final(cpu) == (CPU {
            r: (Registers {
                zf: (w8(v - 1) == 0),
                nf: true,
                hf: (v % 16 == 0),
                ..old(cpu).r
            }),
            ..*old(cpu)
        }),
{
    let res = wsub8(v, 1);
    cpu.r.set_z(res == 0);
    cpu.r.set_n(true);
    cpu.r.set_h(v % 16 == 0);
    res
}

/// 16-bit addition onto HL: Z preserved, N cleared, H from bit 11, C from
/// bit 15.
pub fn add_hl(cpu: &mut CPU, v: u16)
    requires
        old(cpu).inv(),
    ensures
        final(cpu).inv(),
        *final(cpu) == (CPU {
            r: (Registers {
                nf: false,
                hf: spec_addhl_h(old(cpu).r.spec_hl(), v),
                cf: spec_addhl_c(old(cpu).r.spec_hl(), v),
                ..old(cpu).r.spec_with_hl(w16(old(cpu).r.spec_hl() + v))
            }),
            ..*old(cpu)
        }),
{
    let hl = cpu.r.hl();
    let res = wadd16(hl, v);
    cpu.r.set_n(false);
    cpu.r.set_h(hl % 0x1000 + v % 0x1000 > 0x0FFF);
    cpu.r.set_c(hl as u32 + v as u32 > 0xFFFF);
    cpu.r.set_hl(res);
}

/// SP plus a sign-extended offset byte; Z and N cleared, H and C from the
/// low-byte addition.
pub fn add_sp(cpu: &mut CPU, v: u8) -> (r: u16)
    requires
        old(cpu).inv(),
    ensures
        final(cpu).inv(),
        r == w16(old(cpu).r.sp + spec_sign_ext(v)),
        *final(cpu) == (CPU {
            r: (Registers {
                zf: false,
                nf: false,
                hf: spec_addsp_h(old(cpu).r.sp, v),
                cf: spec_addsp_c(old(cpu).r.sp, v),
                ..old(cpu).r
            }),
            ..*old(cpu)
        }),
{
    let sp = cpu.r.sp;
    let res = wadd16(sp, sign_ext(v));
    cpu.set_flags(false, false, sp % 16 + (v % 16) as u16 > 0x0F, sp % 0x100 + v as u16 > 0xFF);
    res
}

/// Rotate left; C takes the bit rotated out.
pub fn rlc(cpu: &mut CPU, v: u8) -> (r: u8)
    requires
        old(cpu).inv(),
    ensures
        final(cpu).inv(),
        r == spec_rlc_res(v),
        *final(cpu) == (CPU {
            r: (Registers {
                zf: (spec_rlc_res(v) == 0),
                nf: false,
                hf: false,
                cf: (v >= 0x80),
                ..old(cpu).r
            }),
            ..*old(cpu)
        }),
{
    let res = (v % 0x80) * 2 + v / 0x80;
    cpu.set_flags(res == 0, false, false, v >= 0x80);
    res
}

/// Rotate right; C takes the bit rotated out.
pub fn rrc(cpu: &mut CPU, v: u8) -> (r: u8)
    requires
        old(cpu).inv(),
    ensures
        final(cpu).inv(),
        r == spec_rrc_res(v),
        *final(cpu) == (CPU {
            r: (Registers {
                zf: (spec_rrc_res(v) == 0),
                nf: false,
                hf: false,
                cf: (v % 2 == 1),
                ..old(cpu).r
            }),
            ..*old(cpu)
        }),
{
    let res = (v % 2) * 0x80 + v / 2;
    cpu.set_flags(res == 0, false, false, v % 2 == 1);
    res
}

/// Rotate left through carry.
pub fn rl(cpu: &mut CPU, v: u8) -> (r: u8)
    requires
        old(cpu).inv(),
    ensures
        final(cpu).inv(),
        r == spec_rl_res(v, old(cpu).r.cf),
        *final(cpu) == (CPU {
            r: (Registers {
                zf: (spec_rl_res(v, old(cpu).r.cf) == 0),
                nf: false,
                hf: false,
                cf: (v >= 0x80),
                ..old(cpu).r
            }),
            ..*old(cpu)
        }),
{
    let cin: u8 = if cpu.r.c() {
        1
    } else {
        0
    };
    let res = (v % 0x80) * 2 + cin;
    cpu.set_flags(res == 0, false, false, v >= 0x80);
    res
}

/// Rotate right through carry.
pub fn rr(cpu: &mut CPU, v: u8) -> (r: u8)
    requires
        old(cpu).inv(),
    ensures
        final(cpu).inv(),
        r == spec_rr_res(v, old(cpu).r.cf),
        *final(cpu) == (CPU {
            r: (Registers {
                zf: (spec_rr_res(v, old(cpu).r.cf) == 0),
                nf: false,
                hf: false,
                cf: (v % 2 == 1),
                ..old(cpu).r
            }),
            ..*old(cpu)
        }),
{
    let cin: u8 = if cpu.r.c() {
        0x80
    } else {
        0
    };
    let res = cin + v / 2;
    cpu.set_flags(res == 0, false, false, v % 2 == 1);
    res
}

/// Shift left into C.
pub fn sla(cpu: &mut CPU, v: u8) -> (r: u8)
    requires
        old(cpu).inv(),
    ensures
        final(cpu).inv(),
        r == spec_sla_res(v),
        *final(cpu) == (CPU {
            r: (Registers {
                zf: (spec_sla_res(v) == 0),
                nf: false,
                hf: false,
                cf: (v >= 0x80),
                ..old(cpu).r
            }),
            ..*old(cpu)
        }),
{
    let res = (v % 0x80) * 2;
    cpu.set_flags(res == 0, false, false, v >= 0x80);
    res
}

/// Shift right, keeping bit 7.
pub fn sra(cpu: &mut CPU, v: u8) -> (r: u8)
    requires
        old(cpu).inv(),
    ensures
        final(cpu).inv(),
        r == spec_sra_res(v),
        *final(cpu) == (CPU {
            r: (Registers {
                zf: (spec_sra_res(v) == 0),
                nf: false,
                hf: false,
                cf: (v % 2 == 1),
                ..old(cpu).r
            }),
            ..*old(cpu)
        }),
{
    let hi: u8 = if v >= 0x80 {
        0x80
    } else {
        0
    };
    let res = v / 2 + hi;
    cpu.set_flags(res == 0, false, false, v % 2 == 1);
    res
}

/// Shift right, clearing bit 7.
pub fn srl(cpu: &mut CPU, v: u8) -> (r: u8)
    requires
        old(cpu).inv(),
    ensures
        final(cpu).inv(),
        r == spec_srl_res(v),
        *final(cpu) == (CPU {
            r: (Registers {
                zf: (spec_srl_res(v) == 0),
                nf: false,
                hf: false,
                cf: (v % 2 == 1),
                ..old(cpu).r
            }),
            ..*old(cpu)
        }),
{
    let res = v / 2;
    cpu.set_flags(res == 0, false, false, v % 2 == 1);
    res
}

/// Exchange the nibbles; all of N/H/C cleared.
pub fn swap(cpu: &mut CPU, v: u8) -> (r: u8)
    requires
        old(cpu).inv(),
    ensures
        final(cpu).inv(),
        r == spec_swap_res(v),
        *final(cpu) == (CPU {
            r: (Registers {
                zf: (spec_swap_res(v) == 0),
                nf: false,
                hf: false,
                cf: false,
                ..old(cpu).r
            }),
            ..*old(cpu)
        }),
{
    let res = (v % 16) * 16 + v / 16;
    cpu.set_flags(res == 0, false, false, false);
    res
}

/// Test one bit: Z reports it clear, H set, N cleared, C preserved.
pub fn bit(cpu: &mut CPU, b: u8, v: u8)
    requires
        old(cpu).inv(),
        b <= 7,
    ensures
        final(cpu).inv(),
        *final(cpu) == (CPU {
            r: (Registers {
                zf: spec_bit_z(b, v),
                nf: false,
                hf: true,
                ..old(cpu).r
            }),
            ..*old(cpu)
        }),
{
    cpu.r.set_z(v & (1u8 << b) == 0);
    cpu.r.set_n(false);
    cpu.r.set_h(true);
}

/// The byte with bit `b` cleared.
pub fn res(b: u8, v: u8) -> (r: u8)
    requires
        b <= 7,
    ensures
        r == spec_res(b, v),
{
    v & !(1u8 << b)
}

/// The byte with bit `b` set.
pub fn set(b: u8, v: u8) -> (r: u8)
    requires
        b <= 7,
    ensures
        r == spec_set(b, v),
{
    v | (1u8 << b)
}

/// A += v.
pub fn add_a(cpu: &mut CPU, v: u8)
    requires
        old(cpu).inv(),
    ensures
        final(cpu).inv(),
        *final(cpu) == (CPU {
            r: (Registers {
                a: spec_add8(old(cpu).r.a, v, false),
                zf: (spec_add8(old(cpu).r.a, v, false) == 0),
                nf: false,
                hf: spec_add8_h(old(cpu).r.a, v, false),
                cf: spec_add8_c(old(cpu).r.a, v, false),
                ..old(cpu).r
            }),
            ..*old(cpu)
        }),
{
    let a = cpu.r.a;
    let res = add8(cpu, a, v, false);
    cpu.r.a = res;
}

/// A += v + C.
pub fn adc_a(cpu: &mut CPU, v: u8)
    requires
        old(cpu).inv(),
    ensures
        final(cpu).inv(),
        *final(cpu) == (CPU {
            r: (Registers {
                a: spec_add8(old(cpu).r.a, v, old(cpu).r.cf),
                zf: (spec_add8(old(cpu).r.a, v, old(cpu).r.cf) == 0),
                nf: false,
                hf: spec_add8_h(old(cpu).r.a, v, old(cpu).r.cf),
                cf: spec_add8_c(old(cpu).r.a, v, old(cpu).r.cf),
                ..old(cpu).r
            }),
            ..*old(cpu)
        }),
{
    let a = cpu.r.a;
    let carry = cpu.r.c();
    let res = add8(cpu, a, v, carry);
    cpu.r.a = res;
}

/// A -= v.
pub fn sub_a(cpu: &mut CPU, v: u8)
    requires
        old(cpu).inv(),
    ensures
        final(cpu).inv(),
        *final(cpu) == (CPU {
            r: (Registers {
                a: spec_sub8(old(cpu).r.a, v, false),
                zf: (spec_sub8(old(cpu).r.a, v, false) == 0),
                nf: true,
                hf: spec_sub8_h(old(cpu).r.a, v, false),
                cf: spec_sub8_c(old(cpu).r.a, v, false),
                ..old(cpu).r
            }),
            ..*old(cpu)
        }),
{
    let a = cpu.r.a;
    let res = sub8(cpu, a, v, false);
    cpu.r.a = res;
}

/// A -= v + C.
pub fn sbc_a(cpu: &mut CPU, v: u8)
    requires
        old(cpu).inv(),
    ensures
        final(cpu).inv(),
        *final(cpu) == (CPU {
            r: (Registers {
                a: spec_sub8(old(cpu).r.a, v, old(cpu).r.cf),
                zf: (spec_sub8(old(cpu).r.a, v, old(cpu).r.cf) == 0),
                nf: true,
                hf: spec_sub8_h(old(cpu).r.a, v, old(cpu).r.cf),
                cf: spec_sub8_c(old(cpu).r.a, v, old(cpu).r.cf),
                ..old(cpu).r
            }),
            ..*old(cpu)
        }),
{
    let a = cpu.r.a;
    let carry = cpu.r.c();
    let res = sub8(cpu, a, v, carry);
    cpu.r.a = res;
}

/// A &= v.
pub fn and_a(cpu: &mut CPU, v: u8)
    requires
        old(cpu).inv(),
    ensures
        final(cpu).inv(),
        *final(cpu) == (CPU {
            r: (Registers {
                a: (old(cpu).r.a & v),
                zf: ((old(cpu).r.a & v) == 0),
                nf: false,
                hf: true,
                cf: false,
                ..old(cpu).r
            }),
            ..*old(cpu)
        }),
{
    let res = cpu.r.a & v;
    cpu.r.a = res;
    cpu.set_flags(res == 0, false, true, false);
}

/// A ^= v.
pub fn xor_a(cpu: &mut CPU, v: u8)
    requires
        old(cpu).inv(),
    ensures
        final(cpu).inv(),
        *final(cpu) == (CPU {
            r: (Registers {
                a: (old(cpu).r.a ^ v),
                zf: ((old(cpu).r.a ^ v) == 0),
                nf: false,
                hf: false,
                cf: false,
                ..old(cpu).r
            }),
            ..*old(cpu)
        }),
{
    let res = cpu.r.a ^ v;
    cpu.r.a = res;
    cpu.set_flags(res == 0, false, false, false);
}

/// A |= v.
pub fn or_a(cpu: &mut CPU, v: u8)
    requires
        old(cpu).inv(),
    ensures
        final(cpu).inv(),
        *final(cpu) == (CPU {
            r: (Registers {
                a: (old(cpu).r.a | v),
                zf: ((old(cpu).r.a | v) == 0),
                nf: false,
                hf: false,
                cf: false,
                ..old(cpu).r
            }),
            ..*old(cpu)
        }),
{
    let res = cpu.r.a | v;
    cpu.r.a = res;
    cpu.set_flags(res == 0, false, false, false);
}

/// Compare A with v: the flags of the subtraction, A untouched.
pub fn cp_a(cpu: &mut CPU, v: u8)
    requires
        old(cpu).inv(),
    ensures
        final(cpu).inv(),
        *final(cpu) == (CPU {
            r: (Registers {
                zf: (spec_sub8(old(cpu).r.a, v, false) == 0),
                nf: true,
                hf: spec_sub8_h(old(cpu).r.a, v, false),
                cf: spec_sub8_c(old(cpu).r.a, v, false),
                ..old(cpu).r
            }),
            ..*old(cpu)
        }),
{
    let a = cpu.r.a;
    let _ignored = sub8(cpu, a, v, false);
}

/// Relative jump by a sign-extended offset byte.
pub fn jr(cpu: &mut CPU, offset: u8)
    requires
        old(cpu).inv(),
    ensures
        final(cpu).inv(),
        *final(cpu) == (CPU {
            r: (Registers { pc: w16(old(cpu).r.pc + spec_sign_ext(offset)), ..old(cpu).r }),
            ..*old(cpu)
        }),
{
    cpu.r.pc = wadd16(cpu.r.pc, sign_ext(offset));
}

/// Push the current PC and jump to `addr`.
pub fn call(cpu: &mut CPU, mmu: &mut MMU, addr: u16)
    requires
        old(cpu).inv(),
        old(mmu)@.inv(),
        old(mmu)@.supported(),
    ensures
        final(cpu).inv(),
        final(mmu)@.inv(),
        final(mmu)@.supported(),
        *final(cpu) == (CPU {
            r: (Registers { pc: addr, sp: w16(old(cpu).r.sp - 2), ..old(cpu).r }),
            ..*old(cpu)
        }),
        final(mmu)@ == old(mmu)@.ww(w16(old(cpu).r.sp - 2), old(cpu).r.pc),
{
    let pc = cpu.r.pc;
    cpu.push(mmu, pc);
    cpu.r.pc = addr;
}

// ---- miscellaneous opcodes ------------------------------------------------

pub fn op_nop(_cpu: &mut CPU, _mmu: &mut MMU) -> (r: Cycles)
    requires
        old(_cpu).inv(),
    ensures
        final(_cpu).inv(),
        *final(_cpu) == *old(_cpu),
        final(_mmu)@ == old(_mmu)@,
        r == 1,
{
    1
}

/// STOP is a two-byte instruction: its operand byte is consumed.
pub fn op_stop(cpu: &mut CPU, mmu: &mut MMU) -> (r: Cycles)
    requires
        old(cpu).inv(),
        old(mmu)@.inv(),
        old(mmu)@.supported(),
    ensures
        final(cpu).inv(),
        final(mmu)@ == old(mmu)@,
        *final(cpu) == (CPU {
            r: (Registers { pc: w16(old(cpu).r.pc + 1), ..old(cpu).r }),
            stopped: true,
            ..*old(cpu)
        }),
        r == 1,
{
    let _operand = cpu.rb(mmu);
    cpu.stop();
    1
}

pub fn op_halt(cpu: &mut CPU, _mmu: &mut MMU) -> (r: Cycles)
    requires
        old(cpu).inv(),
    ensures
        final(cpu).inv(),
        final(_mmu)@ == old(_mmu)@,
        *final(cpu) == (CPU { halted: true, ..*old(cpu) }),
        r == 1,
{
    cpu.halt();
    1
}

/// DI takes effect immediately and cancels a pending EI arm.
pub fn op_di(cpu: &mut CPU, _mmu: &mut MMU) -> (r: Cycles)
    requires
        old(cpu).inv(),
    ensures
        final(cpu).inv(),
        final(_mmu)@ == old(_mmu)@,
        *final(cpu) == (CPU { ime: false, ime_delay: 0, ..*old(cpu) }),
        r == 1,
{
    cpu.ime = false;
    cpu.set_ime_pending(false);
    1
}

/// EI arms IME to turn on only after the following instruction.
pub fn op_ei(cpu: &mut CPU, _mmu: &mut MMU) -> (r: Cycles)
    requires
        old(cpu).inv(),
    ensures
        final(cpu).inv(),
        final(_mmu)@ == old(_mmu)@,
        *final(cpu) == (CPU { ime_delay: 2, ..*old(cpu) }),
        r == 1,
{
    cpu.set_ime_pending(true);
    1
}

/// RLCA: rotate A left; Z is forced clear.
pub fn op_rlca(cpu: &mut CPU, _mmu: &mut MMU) -> (r: Cycles)
    requires
        old(cpu).inv(),
    ensures
        final(cpu).inv(),
        final(_mmu)@ == old(_mmu)@,
        *final(cpu) == (CPU {
            r: (Registers {
                a: spec_rlc_res(old(cpu).r.a),
                zf: false,
                nf: false,
                hf: false,
                cf: (old(cpu).r.a >= 0x80),
                ..old(cpu).r
            }),
            ..*old(cpu)
        }),
        r == 1,
{
    let v = cpu.r.a;
    let nv = rlc(cpu, v);
    cpu.r.a = nv;
    cpu.r.set_z(false);
    1
}

/// RRCA: rotate A right; Z is forced clear.
pub fn op_rrca(cpu: &mut CPU, _mmu: &mut MMU) -> (r: Cycles)
    requires
        old(cpu).inv(),
    ensures
        final(cpu).inv(),
        final(_mmu)@ == old(_mmu)@,
        *final(cpu) == (CPU {
            r: (Registers {
                a: spec_rrc_res(old(cpu).r.a),
                zf: false,
                nf: false,
                hf: false,
                cf: (old(cpu).r.a % 2 == 1),
                ..old(cpu).r
            }),
            ..*old(cpu)
        }),
        r == 1,
{
    let v = cpu.r.a;
    let nv = rrc(cpu, v);
    cpu.r.a = nv;
    cpu.r.set_z(false);
    1
}

/// RLA: rotate A left through carry; Z is forced clear.
pub fn op_rla(cpu: &mut CPU, _mmu: &mut MMU) -> (r: Cycles)
    requires
        old(cpu).inv(),
    ensures
        final(cpu).inv(),
        final(_mmu)@ == old(_mmu)@,
        *final(cpu) == (CPU {
            r: (Registers {
                a: spec_rl_res(old(cpu).r.a, old(cpu).r.cf),
                zf: false,
                nf: false,
                hf: false,
                cf: (old(cpu).r.a >= 0x80),
                ..old(cpu).r
            }),
            ..*old(cpu)
        }),
        r == 1,
{
    let v = cpu.r.a;
    let nv = rl(cpu, v);
    cpu.r.a = nv;
    cpu.r.set_z(false);
    1
}

/// RRA: rotate A right through carry; Z is forced clear.
pub fn op_rra(cpu: &mut CPU, _mmu: &mut MMU) -> (r: Cycles)
    requires
        old(cpu).inv(),
    ensures
        final(cpu).inv(),
        final(_mmu)@ == old(_mmu)@,
        *final(cpu) == (CPU {
            r: (Registers {
                a: spec_rr_res(old(cpu).r.a, old(cpu).r.cf),
                zf: false,
                nf: false,
                hf: false,
                cf: (old(cpu).r.a % 2 == 1),
                ..old(cpu).r
            }),
            ..*old(cpu)
        }),
        r == 1,
{
    let v = cpu.r.a;
    let nv = rr(cpu, v);
    cpu.r.a = nv;
    cpu.r.set_z(false);
    1
}

/// DAA: BCD correction of A after an addition or subtraction.
pub fn op_daa(cpu: &mut CPU, _mmu: &mut MMU) -> (r: Cycles)
    requires
        old(cpu).inv(),
    ensures
        final(cpu).inv(),
        final(_mmu)@ == old(_mmu)@,
        *final(cpu) == (CPU {
            r: (Registers {
                a: spec_daa_res(old(cpu).r.a, old(cpu).r.nf, old(cpu).r.hf, old(cpu).r.cf),
                zf: (spec_daa_res(old(cpu).r.a, old(cpu).r.nf, old(cpu).r.hf, old(cpu).r.cf)
                    == 0),
                hf: false,
                cf: spec_daa_c(old(cpu).r.a, old(cpu).r.nf, old(cpu).r.hf, old(cpu).r.cf),
                ..old(cpu).r
            }),
            ..*old(cpu)
        }),
        r == 1,
{
    let a = cpu.r.a;
    let mut adjust: u8 = 0;
    let mut carry = cpu.r.c();

    let na: u8;
    if !cpu.r.n() {
        if cpu.r.h() || a % 16 > 0x09 {
            adjust = adjust + 0x06;
        }
        if cpu.r.c() || a > 0x99 {
            adjust = adjust + 0x60;
            carry = true;
        }
        na = wadd8(a, adjust);
    } else {
        if cpu.r.h() {
            adjust = adjust + 0x06;
        }
        if cpu.r.c() {
            adjust = adjust + 0x60;
        }
        na = wsub8(a, adjust);
    }

    cpu.r.a = na;
    cpu.r.set_z(na == 0);
    cpu.r.set_h(false);
    cpu.r.set_c(carry);

    1
}

/// CPL: complement A; N and H set.
pub fn op_cpl(cpu: &mut CPU, _mmu: &mut MMU) -> (r: Cycles)
    requires
        old(cpu).inv(),
    ensures
        final(cpu).inv(),
        final(_mmu)@ == old(_mmu)@,
        *final(cpu) == (CPU {
            r: (Registers {
                a: (255 - old(cpu).r.a) as u8,
                nf: true,
                hf: true,
                ..old(cpu).r
            }),
            ..*old(cpu)
        }),
        r == 1,
{
    cpu.r.a = 255 - cpu.r.a;
    cpu.r.set_n(true);
    cpu.r.set_h(true);
    1
}

pub fn op_scf(cpu: &mut CPU, _mmu: &mut MMU) -> (r: Cycles)
    requires
        old(cpu).inv(),
    ensures
        final(cpu).inv(),
        final(_mmu)@ == old(_mmu)@,
        *final(cpu) == (CPU {
            r: (Registers { nf: false, hf: false, cf: true, ..old(cpu).r }),
            ..*old(cpu)
        }),
        r == 1,
{
    cpu.r.set_n(false);
    cpu.r.set_h(false);
    cpu.r.set_c(true);
    1
}

pub fn op_ccf(cpu: &mut CPU, _mmu: &mut MMU) -> (r: Cycles)
    requires
        old(cpu).inv(),
    ensures
        final(cpu).inv(),
        final(_mmu)@ == old(_mmu)@,
        *final(cpu) == (CPU {
            r: (Registers { nf: false, hf: false, cf: !old(cpu).r.cf, ..old(cpu).r }),
            ..*old(cpu)
        }),
        r == 1,
{
    let c = cpu.r.c();
    cpu.r.set_n(false);
    cpu.r.set_h(false);
    cpu.r.set_c(!c);
    1
}

pub fn op_ld_bc_d16(cpu: &mut CPU, mmu: &mut MMU) -> (r: Cycles)
    requires
        old(cpu).inv(),
        old(mmu)@.inv(),
        old(mmu)@.supported(),
    ensures
        final(cpu).inv(),
        final(mmu)@ == old(mmu)@,
        *final(cpu) == (CPU { r: (Registers { pc: w16(old(cpu).r.pc + 2), ..old(cpu).r.spec_with_bc(old(mmu)@.rw(old(cpu).r.pc)) }), ..*old(cpu) }),
        r == 3,
{
    let v = cpu.rw(mmu);
    cpu.r.set_bc(v);
    3
}

pub fn op_ld_de_d16(cpu: &mut CPU, mmu: &mut MMU) -> (r: Cycles)
    requires
        old(cpu).inv(),
        old(mmu)@.inv(),
        old(mmu)@.supported(),
    ensures
        final(cpu).inv(),
        final(mmu)@ == old(mmu)@,
        *final(cpu) == (CPU { r: (Registers { pc: w16(old(cpu).r.pc + 2), ..old(cpu).r.spec_with_de(old(mmu)@.rw(old(cpu).r.pc)) }), ..*old(cpu) }),
        r == 3,
{
    let v = cpu.rw(mmu);
    cpu.r.set_de(v);
    3
}

pub fn op_ld_hl_d16(cpu: &mut CPU, mmu: &mut MMU) -> (r: Cycles)
    requires
        old(cpu).inv(),
        old(mmu)@.inv(),
        old(mmu)@.supported(),
    ensures
        final(cpu).inv(),
        final(mmu)@ == old(mmu)@,
        *final(cpu) == (CPU { r: (Registers { pc: w16(old(cpu).r.pc + 2), ..old(cpu).r.spec_with_hl(old(mmu)@.rw(old(cpu).r.pc)) }), ..*old(cpu) }),
        r == 3,
{
    let v = cpu.rw(mmu);
    cpu.r.set_hl(v);
    3
}

pub fn op_ld_sp_d16(cpu: &mut CPU, mmu: &mut MMU) -> (r: Cycles)
    requires
        old(cpu).inv(),
        old(mmu)@.inv(),
        old(mmu)@.supported(),
    ensures
        final(cpu).inv(),
        final(mmu)@ == old(mmu)@,
        *final(cpu) == (CPU { r: (Registers { sp: old(mmu)@.rw(old(cpu).r.pc), pc: w16(old(cpu).r.pc + 2), ..old(cpu).r }), ..*old(cpu) }),
        r == 3,
{
    let v = cpu.rw(mmu);
    cpu.r.sp = v;
    3
}

pub fn op_ld_a16_sp(cpu: &mut CPU, mmu: &mut MMU) -> (r: Cycles)
    requires
        old(cpu).inv(),
        old(mmu)@.inv(),
        old(mmu)@.supported(),
    ensures
        final(cpu).inv(),
        final(mmu)@.inv(),
        final(mmu)@.supported(),
        *final(cpu) == (CPU { r: (Registers { pc: w16(old(cpu).r.pc + 2), ..old(cpu).r }), ..*old(cpu) }),
        final(mmu)@ == old(mmu)@.ww(old(mmu)@.rw(old(cpu).r.pc), old(cpu).r.sp),
        r == 5,
{
    let addr = cpu.rw(mmu);
    let sp = cpu.r.sp;
    mmu.ww(addr, sp);
    5
}

pub fn op_ld_sp_hl(cpu: &mut CPU, _mmu: &mut MMU) -> (r: Cycles)
    requires
        old(cpu).inv(),
    ensures
        final(cpu).inv(),
        final(_mmu)@ == old(_mmu)@,
        *final(cpu) == (CPU { r: (Registers { sp: old(cpu).r.spec_hl(), ..old(cpu).r }), ..*old(cpu) }),
        r == 2,
{
    cpu.r.sp = cpu.r.hl();
    2
}

/// LD HL,SP+r8: the sum and its H/C flags, Z and N cleared.
pub fn op_ld_hl_sp_r8(cpu: &mut CPU, mmu: &mut MMU) -> (r: Cycles)
    requires
        old(cpu).inv(),
        old(mmu)@.inv(),
        old(mmu)@.supported(),
    ensures
        final(cpu).inv(),
        final(mmu)@ == old(mmu)@,
        *final(cpu) == (CPU { r: (Registers { zf: false, nf: false, hf: spec_addsp_h(old(cpu).r.sp, old(mmu)@.rb(old(cpu).r.pc)), cf: spec_addsp_c(old(cpu).r.sp, old(mmu)@.rb(old(cpu).r.pc)), pc: w16(old(cpu).r.pc + 1), ..old(cpu).r.spec_with_hl(w16(old(cpu).r.sp + spec_sign_ext(old(mmu)@.rb(old(cpu).r.pc)))) }), ..*old(cpu) }),
        r == 3,
{
    let v = cpu.rb(mmu);
    let nv = add_sp(cpu, v);
    cpu.r.set_hl(nv);
    3
}

pub fn op_add_sp_r8(cpu: &mut CPU, mmu: &mut MMU) -> (r: Cycles)
    requires
        old(cpu).inv(),
        old(mmu)@.inv(),
        old(mmu)@.supported(),
    ensures
        final(cpu).inv(),
        final(mmu)@ == old(mmu)@,
        *final(cpu) == (CPU { r: (Registers { sp: w16(old(cpu).r.sp + spec_sign_ext(old(mmu)@.rb(old(cpu).r.pc))), zf: false, nf: false, hf: spec_addsp_h(old(cpu).r.sp, old(mmu)@.rb(old(cpu).r.pc)), cf: spec_addsp_c(old(cpu).r.sp, old(mmu)@.rb(old(cpu).r.pc)), pc: w16(old(cpu).r.pc + 1), ..old(cpu).r }), ..*old(cpu) }),
        r == 4,
{
    let v = cpu.rb(mmu);
    let nv = add_sp(cpu, v);
    cpu.r.sp = nv;
    4
}

pub fn op_ld_bc_a(cpu: &mut CPU, mmu: &mut MMU) -> (r: Cycles)
    requires
        old(cpu).inv(),
        old(mmu)@.inv(),
        old(mmu)@.supported(),
    ensures
        final(cpu).inv(),
        final(mmu)@.inv(),
        final(mmu)@.supported(),
        *final(cpu) == *old(cpu),
        final(mmu)@ == old(mmu)@.wb(old(cpu).r.spec_bc(), old(cpu).r.a),
        r == 2,
{
    let addr = cpu.r.bc();
    mmu.wb(addr, cpu.r.a);
    2
}

pub fn op_ld_a_bc(cpu: &mut CPU, mmu: &mut MMU) -> (r: Cycles)
    requires
        old(cpu).inv(),
        old(mmu)@.inv(),
        old(mmu)@.supported(),
    ensures
        final(cpu).inv(),
        final(mmu)@ == old(mmu)@,
        *final(cpu) == (CPU { r: (Registers { a: old(mmu)@.rb(old(cpu).r.spec_bc()), ..old(cpu).r }), ..*old(cpu) }),
        r == 2,
{
    let addr = cpu.r.bc();
    cpu.r.a = mmu.rb(addr);
    2
}

pub fn op_ld_de_a(cpu: &mut CPU, mmu: &mut MMU) -> (r: Cycles)
    requires
        old(cpu).inv(),
        old(mmu)@.inv(),
        old(mmu)@.supported(),
    ensures
        final(cpu).inv(),
        final(mmu)@.inv(),
        final(mmu)@.supported(),
        *final(cpu) == *old(cpu),
        final(mmu)@ == old(mmu)@.wb(old(cpu).r.spec_de(), old(cpu).r.a),
        r == 2,
{
    let addr = cpu.r.de();
    mmu.wb(addr, cpu.r.a);
    2
}

pub fn op_ld_a_de(cpu: &mut CPU, mmu: &mut MMU) -> (r: Cycles)
    requires
        old(cpu).inv(),
        old(mmu)@.inv(),
        old(mmu)@.supported(),
    ensures
        final(cpu).inv(),
        final(mmu)@ == old(mmu)@,
        *final(cpu) == (CPU { r: (Registers { a: old(mmu)@.rb(old(cpu).r.spec_de()), ..old(cpu).r }), ..*old(cpu) }),
        r == 2,
{
    let addr = cpu.r.de();
    cpu.r.a = mmu.rb(addr);
    2
}

pub fn op_ld_hli_a(cpu: &mut CPU, mmu: &mut MMU) -> (r: Cycles)
    requires
        old(cpu).inv(),
        old(mmu)@.inv(),
        old(mmu)@.supported(),
    ensures
        final(cpu).inv(),
        final(mmu)@.inv(),
        final(mmu)@.supported(),
        *final(cpu) == (CPU { r: old(cpu).r.spec_with_hl(w16(old(cpu).r.spec_hl() + 1)), ..*old(cpu) }),
        final(mmu)@ == old(mmu)@.wb(old(cpu).r.spec_hl(), old(cpu).r.a),
        r == 2,
{
    let addr = cpu.r.hl();
    mmu.wb(addr, cpu.r.a);
    let nv = wadd16(addr, 1);
    cpu.r.set_hl(nv);
    2
}

pub fn op_ld_hld_a(cpu: &mut CPU, mmu: &mut MMU) -> (r: Cycles)
    requires
        old(cpu).inv(),
        old(mmu)@.inv(),
        old(mmu)@.supported(),
    ensures
        final(cpu).inv(),
        final(mmu)@.inv(),
        final(mmu)@.supported(),
        *final(cpu) == (CPU { r: old(cpu).r.spec_with_hl(w16(old(cpu).r.spec_hl() - 1)), ..*old(cpu) }),
        final(mmu)@ == old(mmu)@.wb(old(cpu).r.spec_hl(), old(cpu).r.a),
        r == 2,
{
    let addr = cpu.r.hl();
    mmu.wb(addr, cpu.r.a);
    let nv = wsub16(addr, 1);
    cpu.r.set_hl(nv);
    2
}

pub fn op_ld_a_hli(cpu: &mut CPU, mmu: &mut MMU) -> (r: Cycles)
    requires
        old(cpu).inv(),
        old(mmu)@.inv(),
        old(mmu)@.supported(),
    ensures
        final(cpu).inv(),
        final(mmu)@ == old(mmu)@,
        *final(cpu) == (CPU { r: (Registers { a: old(mmu)@.rb(old(cpu).r.spec_hl()), ..old(cpu).r.spec_with_hl(w16(old(cpu).r.spec_hl() + 1)) }), ..*old(cpu) }),
        r == 2,
{
    let addr = cpu.r.hl();
    cpu.r.a = mmu.rb(addr);
    let nv = wadd16(addr, 1);
    cpu.r.set_hl(nv);
    2
}

pub fn op_ld_a_hld(cpu: &mut CPU, mmu: &mut MMU) -> (r: Cycles)
    requires
        old(cpu).inv(),
        old(mmu)@.inv(),
        old(mmu)@.supported(),
    ensures
        final(cpu).inv(),
        final(mmu)@ == old(mmu)@,
        *final(cpu) == (CPU { r: (Registers { a: old(mmu)@.rb(old(cpu).r.spec_hl()), ..old(cpu).r.spec_with_hl(w16(old(cpu).r.spec_hl() - 1)) }), ..*old(cpu) }),
        r == 2,
{
    let addr = cpu.r.hl();
    cpu.r.a = mmu.rb(addr);
    let nv = wsub16(addr, 1);
    cpu.r.set_hl(nv);
    2
}

pub fn op_ld_a16_a(cpu: &mut CPU, mmu: &mut MMU) -> (r: Cycles)
    requires
        old(cpu).inv(),
        old(mmu)@.inv(),
        old(mmu)@.supported(),
    ensures
        final(cpu).inv(),
        final(mmu)@.inv(),
        final(mmu)@.supported(),
        *final(cpu) == (CPU { r: (Registers { pc: w16(old(cpu).r.pc + 2), ..old(cpu).r }), ..*old(cpu) }),
        final(mmu)@ == old(mmu)@.wb(old(mmu)@.rw(old(cpu).r.pc), old(cpu).r.a),
        r == 4,
{
    let addr = cpu.rw(mmu);
    mmu.wb(addr, cpu.r.a);
    4
}

pub fn op_ld_a_a16(cpu: &mut CPU, mmu: &mut MMU) -> (r: Cycles)
    requires
        old(cpu).inv(),
        old(mmu)@.inv(),
        old(mmu)@.supported(),
    ensures
        final(cpu).inv(),
        final(mmu)@ == old(mmu)@,
        *final(cpu) == (CPU { r: (Registers { a: old(mmu)@.rb(old(mmu)@.rw(old(cpu).r.pc)), pc: w16(old(cpu).r.pc + 2), ..old(cpu).r }), ..*old(cpu) }),
        r == 4,
{
    let addr = cpu.rw(mmu);
    cpu.r.a = mmu.rb(addr);
    4
}

pub fn op_ld_ff00_c_a(cpu: &mut CPU, mmu: &mut MMU) -> (r: Cycles)
    requires
        old(cpu).inv(),
        old(mmu)@.inv(),
        old(mmu)@.supported(),
    ensures
        final(cpu).inv(),
        final(mmu)@.inv(),
        final(mmu)@.supported(),
        *final(cpu) == *old(cpu),
        final(mmu)@ == old(mmu)@.wb((0xFF00 + old(cpu).r.c) as u16, old(cpu).r.a),
        r == 2,
{
    let addr: u16 = 0xFF00 + cpu.r.c as u16;
    mmu.wb(addr, cpu.r.a);
    2
}

pub fn op_ld_a_ff00_c(cpu: &mut CPU, mmu: &mut MMU) -> (r: Cycles)
    requires
        old(cpu).inv(),
        old(mmu)@.inv(),
        old(mmu)@.supported(),
    ensures
        final(cpu).inv(),
        final(mmu)@ == old(mmu)@,
        *final(cpu) == (CPU { r: (Registers { a: old(mmu)@.rb((0xFF00 + old(cpu).r.c) as u16), ..old(cpu).r }), ..*old(cpu) }),
        r == 2,
{
    let addr: u16 = 0xFF00 + cpu.r.c as u16;
    cpu.r.a = mmu.rb(addr);
    2
}

pub fn op_ldh_a8_a(cpu: &mut CPU, mmu: &mut MMU) -> (r: Cycles)
    requires
        old(cpu).inv(),
        old(mmu)@.inv(),
        old(mmu)@.supported(),
    ensures
        final(cpu).inv(),
        final(mmu)@.inv(),
        final(mmu)@.supported(),
        *final(cpu) == (CPU { r: (Registers { pc: w16(old(cpu).r.pc + 1), ..old(cpu).r }), ..*old(cpu) }),
        final(mmu)@ == old(mmu)@.wb((0xFF00 + old(mmu)@.rb(old(cpu).r.pc)) as u16, old(cpu).r.a),
        r == 3,
{
    let n = cpu.rb(mmu);
    let addr: u16 = 0xFF00 + n as u16;
    mmu.wb(addr, cpu.r.a);
    3
}

pub fn op_ldh_a_a8(cpu: &mut CPU, mmu: &mut MMU) -> (r: Cycles)
    requires
        old(cpu).inv(),
        old(mmu)@.inv(),
        old(mmu)@.supported(),
    ensures
        final(cpu).inv(),
        final(mmu)@ == old(mmu)@,
        *final(cpu) == (CPU { r: (Registers { a: old(mmu)@.rb((0xFF00 + old(mmu)@.rb(old(cpu).r.pc)) as u16), pc: w16(old(cpu).r.pc + 1), ..old(cpu).r }), ..*old(cpu) }),
        r == 3,
{
    let n = cpu.rb(mmu);
    let addr: u16 = 0xFF00 + n as u16;
    cpu.r.a = mmu.rb(addr);
    3
}

pub fn op_ld_hl_d8(cpu: &mut CPU, mmu: &mut MMU) -> (r: Cycles)
    requires
        old(cpu).inv(),
        old(mmu)@.inv(),
        old(mmu)@.supported(),
    ensures
        final(cpu).inv(),
        final(mmu)@.inv(),
        final(mmu)@.supported(),
        *final(cpu) == (CPU { r: (Registers { pc: w16(old(cpu).r.pc + 1), ..old(cpu).r }), ..*old(cpu) }),
        final(mmu)@ == old(mmu)@.wb(old(cpu).r.spec_hl(), old(mmu)@.rb(old(cpu).r.pc)),
        r == 3,
{
    let v = cpu.rb(mmu);
    let addr = cpu.r.hl();
    mmu.wb(addr, v);
    3
}

pub fn op_inc_hl_ptr(cpu: &mut CPU, mmu: &mut MMU) -> (r: Cycles)
    requires
        old(cpu).inv(),
        old(mmu)@.inv(),
        old(mmu)@.supported(),
    ensures
        final(cpu).inv(),
        final(mmu)@.inv(),
        final(mmu)@.supported(),
        *final(cpu) == (CPU { r: (Registers { zf: (w8(old(mmu)@.rb(old(cpu).r.spec_hl()) + 1) == 0), nf: false, hf: (old(mmu)@.rb(old(cpu).r.spec_hl()) % 16 == 0x0F), ..old(cpu).r }), ..*old(cpu) }),
        final(mmu)@ == old(mmu)@.wb(old(cpu).r.spec_hl(), w8(old(mmu)@.rb(old(cpu).r.spec_hl()) + 1)),
        r == 3,
{
    let addr = cpu.r.hl();
    let v = mmu.rb(addr);
    let nv = inc8(cpu, v);
    mmu.wb(addr, nv);
    3
}

pub fn op_dec_hl_ptr(cpu: &mut CPU, mmu: &mut MMU) -> (r: Cycles)
    requires
        old(cpu).inv(),
        old(mmu)@.inv(),
        old(mmu)@.supported(),
    ensures
        final(cpu).inv(),
        final(mmu)@.inv(),
        final(mmu)@.supported(),
        *final(cpu) == (CPU { r: (Registers { zf: (w8(old(mmu)@.rb(old(cpu).r.spec_hl()) - 1) == 0), nf: true, hf: (old(mmu)@.rb(old(cpu).r.spec_hl()) % 16 == 0), ..old(cpu).r }), ..*old(cpu) }),
        final(mmu)@ == old(mmu)@.wb(old(cpu).r.spec_hl(), w8(old(mmu)@.rb(old(cpu).r.spec_hl()) - 1)),
        r == 3,
{
    let addr = cpu.r.hl();
    let v = mmu.rb(addr);
    let nv = dec8(cpu, v);
    mmu.wb(addr, nv);
    3
}

pub fn op_jr(cpu: &mut CPU, mmu: &mut MMU) -> (r: Cycles)
    requires
        old(cpu).inv(),
        old(mmu)@.inv(),
        old(mmu)@.supported(),
    ensures
        final(cpu).inv(),
        final(mmu)@ == old(mmu)@,
        *final(cpu) == (CPU { r: (Registers { pc: w16(w16(old(cpu).r.pc + 1) + spec_sign_ext(old(mmu)@.rb(old(cpu).r.pc))), ..old(cpu).r }), ..*old(cpu) }),
        r == 3,
{
    let offset = cpu.rb(mmu);
    jr(cpu, offset);
    3
}

pub fn op_jr_nz(cpu: &mut CPU, mmu: &mut MMU) -> (r: Cycles)
    requires
        old(cpu).inv(),
        old(mmu)@.inv(),
        old(mmu)@.supported(),
    ensures
        final(cpu).inv(),
        final(mmu)@ == old(mmu)@,
        !old(cpu).r.zf ==> (*final(cpu) == (CPU { r: (Registers { pc: w16(w16(old(cpu).r.pc + 1) + spec_sign_ext(old(mmu)@.rb(old(cpu).r.pc))), ..old(cpu).r }), ..*old(cpu) }) && r == 3),
        !(!old(cpu).r.zf) ==> (*final(cpu) == (CPU { r: (Registers { pc: w16(old(cpu).r.pc + 1), ..old(cpu).r }), ..*old(cpu) }) && r == 2),
{
    let offset = cpu.rb(mmu);
    if !cpu.r.z() {
        jr(cpu, offset);
        3
    } else {
        2
    }
}

pub fn op_jr_z(cpu: &mut CPU, mmu: &mut MMU) -> (r: Cycles)
    requires
        old(cpu).inv(),
        old(mmu)@.inv(),
        old(mmu)@.supported(),
    ensures
        final(cpu).inv(),
        final(mmu)@ == old(mmu)@,
        old(cpu).r.zf ==> (*final(cpu) == (CPU { r: (Registers { pc: w16(w16(old(cpu).r.pc + 1) + spec_sign_ext(old(mmu)@.rb(old(cpu).r.pc))), ..old(cpu).r }), ..*old(cpu) }) && r == 3),
        !(old(cpu).r.zf) ==> (*final(cpu) == (CPU { r: (Registers { pc: w16(old(cpu).r.pc + 1), ..old(cpu).r }), ..*old(cpu) }) && r == 2),
{
    let offset = cpu.rb(mmu);
    if cpu.r.z() {
        jr(cpu, offset);
        3
    } else {
        2
    }
}

pub fn op_jr_nc(cpu: &mut CPU, mmu: &mut MMU) -> (r: Cycles)
    requires
        old(cpu).inv(),
        old(mmu)@.inv(),
        old(mmu)@.supported(),
    ensures
        final(cpu).inv(),
        final(mmu)@ == old(mmu)@,
        !old(cpu).r.cf ==> (*final(cpu) == (CPU { r: (Registers { pc: w16(w16(old(cpu).r.pc + 1) + spec_sign_ext(old(mmu)@.rb(old(cpu).r.pc))), ..old(cpu).r }), ..*old(cpu) }) && r == 3),
        !(!old(cpu).r.cf) ==> (*final(cpu) == (CPU { r: (Registers { pc: w16(old(cpu).r.pc + 1), ..old(cpu).r }), ..*old(cpu) }) && r == 2),
{
    let offset = cpu.rb(mmu);
    if !cpu.r.c() {
        jr(cpu, offset);
        3
    } else {
        2
    }
}

pub fn op_jr_c(cpu: &mut CPU, mmu: &mut MMU) -> (r: Cycles)
    requires
        old(cpu).inv(),
        old(mmu)@.inv(),
        old(mmu)@.supported(),
    ensures
        final(cpu).inv(),
        final(mmu)@ == old(mmu)@,
        old(cpu).r.cf ==> (*final(cpu) == (CPU { r: (Registers { pc: w16(w16(old(cpu).r.pc + 1) + spec_sign_ext(old(mmu)@.rb(old(cpu).r.pc))), ..old(cpu).r }), ..*old(cpu) }) && r == 3),
        !(old(cpu).r.cf) ==> (*final(cpu) == (CPU { r: (Registers { pc: w16(old(cpu).r.pc + 1), ..old(cpu).r }), ..*old(cpu) }) && r == 2),
{
    let offset = cpu.rb(mmu);
    if cpu.r.c() {
        jr(cpu, offset);
        3
    } else {
        2
    }
}

pub fn op_jp_a16(cpu: &mut CPU, mmu: &mut MMU) -> (r: Cycles)
    requires
        old(cpu).inv(),
        old(mmu)@.inv(),
        old(mmu)@.supported(),
    ensures
        final(cpu).inv(),
        final(mmu)@ == old(mmu)@,
        *final(cpu) == (CPU { r: (Registers { pc: old(mmu)@.rw(old(cpu).r.pc), ..old(cpu).r }), ..*old(cpu) }),
        r == 4,
{
    let addr = cpu.rw(mmu);
    cpu.r.pc = addr;
    4
}

pub fn op_jp_hl(cpu: &mut CPU, _mmu: &mut MMU) -> (r: Cycles)
    requires
        old(cpu).inv(),
    ensures
        final(cpu).inv(),
        final(_mmu)@ == old(_mmu)@,
        *final(cpu) == (CPU { r: (Registers { pc: old(cpu).r.spec_hl(), ..old(cpu).r }), ..*old(cpu) }),
        r == 1,
{
    cpu.r.pc = cpu.r.hl();
    1
}

pub fn op_jp_nz(cpu: &mut CPU, mmu: &mut MMU) -> (r: Cycles)
    requires
        old(cpu).inv(),
        old(mmu)@.inv(),
        old(mmu)@.supported(),
    ensures
        final(cpu).inv(),
        final(mmu)@ == old(mmu)@,
        !old(cpu).r.zf ==> (*final(cpu) == (CPU { r: (Registers { pc: old(mmu)@.rw(old(cpu).r.pc), ..old(cpu).r }), ..*old(cpu) }) && r == 4),
        !(!old(cpu).r.zf) ==> (*final(cpu) == (CPU { r: (Registers { pc: w16(old(cpu).r.pc + 2), ..old(cpu).r }), ..*old(cpu) }) && r == 3),
{
    let addr = cpu.rw(mmu);
    if !cpu.r.z() {
        cpu.r.pc = addr;
        4
    } else {
        3
    }
}

pub fn op_jp_z(cpu: &mut CPU, mmu: &mut MMU) -> (r: Cycles)
    requires
        old(cpu).inv(),
        old(mmu)@.inv(),
        old(mmu)@.supported(),
    ensures
        final(cpu).inv(),
        final(mmu)@ == old(mmu)@,
        old(cpu).r.zf ==> (*final(cpu) == (CPU { r: (Registers { pc: old(mmu)@.rw(old(cpu).r.pc), ..old(cpu).r }), ..*old(cpu) }) && r == 4),
        !(old(cpu).r.zf) ==> (*final(cpu) == (CPU { r: (Registers { pc: w16(old(cpu).r.pc + 2), ..old(cpu).r }), ..*old(cpu) }) && r == 3),
{
    let addr = cpu.rw(mmu);
    if cpu.r.z() {
        cpu.r.pc = addr;
        4
    } else {
        3
    }
}

pub fn op_jp_nc(cpu: &mut CPU, mmu: &mut MMU) -> (r: Cycles)
    requires
        old(cpu).inv(),
        old(mmu)@.inv(),
        old(mmu)@.supported(),
    ensures
        final(cpu).inv(),
        final(mmu)@ == old(mmu)@,
        !old(cpu).r.cf ==> (*final(cpu) == (CPU { r: (Registers { pc: old(mmu)@.rw(old(cpu).r.pc), ..old(cpu).r }), ..*old(cpu) }) && r == 4),
        !(!old(cpu).r.cf) ==> (*final(cpu) == (CPU { r: (Registers { pc: w16(old(cpu).r.pc + 2), ..old(cpu).r }), ..*old(cpu) }) && r == 3),
{
    let addr = cpu.rw(mmu);
    if !cpu.r.c() {
        cpu.r.pc = addr;
        4
    } else {
        3
    }
}

pub fn op_jp_c(cpu: &mut CPU, mmu: &mut MMU) -> (r: Cycles)
    requires
        old(cpu).inv(),
        old(mmu)@.inv(),
        old(mmu)@.supported(),
    ensures
        final(cpu).inv(),
        final(mmu)@ == old(mmu)@,
        old(cpu).r.cf ==> (*final(cpu) == (CPU { r: (Registers { pc: old(mmu)@.rw(old(cpu).r.pc), ..old(cpu).r }), ..*old(cpu) }) && r == 4),
        !(old(cpu).r.cf) ==> (*final(cpu) == (CPU { r: (Registers { pc: w16(old(cpu).r.pc + 2), ..old(cpu).r }), ..*old(cpu) }) && r == 3),
{
    let addr = cpu.rw(mmu);
    if cpu.r.c() {
        cpu.r.pc = addr;
        4
    } else {
        3
    }
}

pub fn op_call_a16(cpu: &mut CPU, mmu: &mut MMU) -> (r: Cycles)
    requires
        old(cpu).inv(),
        old(mmu)@.inv(),
        old(mmu)@.supported(),
    ensures
        final(cpu).inv(),
        final(mmu)@.inv(),
        final(mmu)@.supported(),
        *final(cpu) == (CPU { r: (Registers { pc: old(mmu)@.rw(old(cpu).r.pc), sp: w16(old(cpu).r.sp - 2), ..old(cpu).r }), ..*old(cpu) }) && final(mmu)@ == old(mmu)@.ww(w16(old(cpu).r.sp - 2), w16(old(cpu).r.pc + 2)),
        r == 6,
{
    let addr = cpu.rw(mmu);
    call(cpu, mmu, addr);
    6
}

pub fn op_call_nz(cpu: &mut CPU, mmu: &mut MMU) -> (r: Cycles)
    requires
        old(cpu).inv(),
        old(mmu)@.inv(),
        old(mmu)@.supported(),
    ensures
        final(cpu).inv(),
        final(mmu)@.inv(),
        final(mmu)@.supported(),
        !old(cpu).r.zf ==> (*final(cpu) == (CPU { r: (Registers { pc: old(mmu)@.rw(old(cpu).r.pc), sp: w16(old(cpu).r.sp - 2), ..old(cpu).r }), ..*old(cpu) }) && final(mmu)@ == old(mmu)@.ww(w16(old(cpu).r.sp - 2), w16(old(cpu).r.pc + 2)) && r == 6),
        !(!old(cpu).r.zf) ==> (*final(cpu) == (CPU { r: (Registers { pc: w16(old(cpu).r.pc + 2), ..old(cpu).r }), ..*old(cpu) }) && final(mmu)@ == old(mmu)@ && r == 3),
{
    let addr = cpu.rw(mmu);
    if !cpu.r.z() {
        call(cpu, mmu, addr);
        6
    } else {
        3
    }
}

pub fn op_call_z(cpu: &mut CPU, mmu: &mut MMU) -> (r: Cycles)
    requires
        old(cpu).inv(),
        old(mmu)@.inv(),
        old(mmu)@.supported(),
    ensures
        final(cpu).inv(),
        final(mmu)@.inv(),
        final(mmu)@.supported(),
        old(cpu).r.zf ==> (*final(cpu) == (CPU { r: (Registers { pc: old(mmu)@.rw(old(cpu).r.pc), sp: w16(old(cpu).r.sp - 2), ..old(cpu).r }), ..*old(cpu) }) && final(mmu)@ == old(mmu)@.ww(w16(old(cpu).r.sp - 2), w16(old(cpu).r.pc + 2)) && r == 6),
        !(old(cpu).r.zf) ==> (*final(cpu) == (CPU { r: (Registers { pc: w16(old(cpu).r.pc + 2), ..old(cpu).r }), ..*old(cpu) }) && final(mmu)@ == old(mmu)@ && r == 3),
{
    let addr = cpu.rw(mmu);
    if cpu.r.z() {
        call(cpu, mmu, addr);
        6
    } else {
        3
    }
}

pub fn op_call_nc(cpu: &mut CPU, mmu: &mut MMU) -> (r: Cycles)
    requires
        old(cpu).inv(),
        old(mmu)@.inv(),
        old(mmu)@.supported(),
    ensures
        final(cpu).inv(),
        final(mmu)@.inv(),
        final(mmu)@.supported(),
        !old(cpu).r.cf ==> (*final(cpu) == (CPU { r: (Registers { pc: old(mmu)@.rw(old(cpu).r.pc), sp: w16(old(cpu).r.sp - 2), ..old(cpu).r }), ..*old(cpu) }) && final(mmu)@ == old(mmu)@.ww(w16(old(cpu).r.sp - 2), w16(old(cpu).r.pc + 2)) && r == 6),
        !(!old(cpu).r.cf) ==> (*final(cpu) == (CPU { r: (Registers { pc: w16(old(cpu).r.pc + 2), ..old(cpu).r }), ..*old(cpu) }) && final(mmu)@ == old(mmu)@ && r == 3),
{
    let addr = cpu.rw(mmu);
    if !cpu.r.c() {
        call(cpu, mmu, addr);
        6
    } else {
        3
    }
}

pub fn op_call_c(cpu: &mut CPU, mmu: &mut MMU) -> (r: Cycles)
    requires
        old(cpu).inv(),
        old(mmu)@.inv(),
        old(mmu)@.supported(),
    ensures
        final(cpu).inv(),
        final(mmu)@.inv(),
        final(mmu)@.supported(),
        old(cpu).r.cf ==> (*final(cpu) == (CPU { r: (Registers { pc: old(mmu)@.rw(old(cpu).r.pc), sp: w16(old(cpu).r.sp - 2), ..old(cpu).r }), ..*old(cpu) }) && final(mmu)@ == old(mmu)@.ww(w16(old(cpu).r.sp - 2), w16(old(cpu).r.pc + 2)) && r == 6),
        !(old(cpu).r.cf) ==> (*final(cpu) == (CPU { r: (Registers { pc: w16(old(cpu).r.pc + 2), ..old(cpu).r }), ..*old(cpu) }) && final(mmu)@ == old(mmu)@ && r == 3),
{
    let addr = cpu.rw(mmu);
    if cpu.r.c() {
        call(cpu, mmu, addr);
        6
    } else {
        3
    }
}

pub fn op_ret(cpu: &mut CPU, mmu: &mut MMU) -> (r: Cycles)
    requires
        old(cpu).inv(),
        old(mmu)@.inv(),
        old(mmu)@.supported(),
    ensures
        final(cpu).inv(),
        final(mmu)@ == old(mmu)@,
        *final(cpu) == (CPU { r: (Registers { pc: old(mmu)@.rw(old(cpu).r.sp), sp: w16(old(cpu).r.sp + 2), ..old(cpu).r }), ..*old(cpu) }),
        r == 4,
{
    cpu.r.pc = cpu.pop(mmu);
    4
}

pub fn op_ret_nz(cpu: &mut CPU, mmu: &mut MMU) -> (r: Cycles)
    requires
        old(cpu).inv(),
        old(mmu)@.inv(),
        old(mmu)@.supported(),
    ensures
        final(cpu).inv(),
        final(mmu)@ == old(mmu)@,
        !old(cpu).r.zf ==> (*final(cpu) == (CPU { r: (Registers { pc: old(mmu)@.rw(old(cpu).r.sp), sp: w16(old(cpu).r.sp + 2), ..old(cpu).r }), ..*old(cpu) }) && r == 5),
        !(!old(cpu).r.zf) ==> (*final(cpu) == *old(cpu) && r == 2),
{
    if !cpu.r.z() {
        cpu.r.pc = cpu.pop(mmu);
        5
    } else {
        2
    }
}

pub fn op_ret_z(cpu: &mut CPU, mmu: &mut MMU) -> (r: Cycles)
    requires
        old(cpu).inv(),
        old(mmu)@.inv(),
        old(mmu)@.supported(),
    ensures
        final(cpu).inv(),
        final(mmu)@ == old(mmu)@,
        old(cpu).r.zf ==> (*final(cpu) == (CPU { r: (Registers { pc: old(mmu)@.rw(old(cpu).r.sp), sp: w16(old(cpu).r.sp + 2), ..old(cpu).r }), ..*old(cpu) }) && r == 5),
        !(old(cpu).r.zf) ==> (*final(cpu) == *old(cpu) && r == 2),
{
    if cpu.r.z() {
        cpu.r.pc = cpu.pop(mmu);
        5
    } else {
        2
    }
}

pub fn op_ret_nc(cpu: &mut CPU, mmu: &mut MMU) -> (r: Cycles)
    requires
        old(cpu).inv(),
        old(mmu)@.inv(),
        old(mmu)@.supported(),
    ensures
        final(cpu).inv(),
        final(mmu)@ == old(mmu)@,
        !old(cpu).r.cf ==> (*final(cpu) == (CPU { r: (Registers { pc: old(mmu)@.rw(old(cpu).r.sp), sp: w16(old(cpu).r.sp + 2), ..old(cpu).r }), ..*old(cpu) }) && r == 5),
        !(!old(cpu).r.cf) ==> (*final(cpu) == *old(cpu) && r == 2),
{
    if !cpu.r.c() {
        cpu.r.pc = cpu.pop(mmu);
        5
    } else {
        2
    }
}

pub fn op_ret_c(cpu: &mut CPU, mmu: &mut MMU) -> (r: Cycles)
    requires
        old(cpu).inv(),
        old(mmu)@.inv(),
        old(mmu)@.supported(),
    ensures
        final(cpu).inv(),
        final(mmu)@ == old(mmu)@,
        old(cpu).r.cf ==> (*final(cpu) == (CPU { r: (Registers { pc: old(mmu)@.rw(old(cpu).r.sp), sp: w16(old(cpu).r.sp + 2), ..old(cpu).r }), ..*old(cpu) }) && r == 5),
        !(old(cpu).r.cf) ==> (*final(cpu) == *old(cpu) && r == 2),
{
    if cpu.r.c() {
        cpu.r.pc = cpu.pop(mmu);
        5
    } else {
        2
    }
}

/// RETI: return and enable IME immediately.
pub fn op_reti(cpu: &mut CPU, mmu: &mut MMU) -> (r: Cycles)
    requires
        old(cpu).inv(),
        old(mmu)@.inv(),
        old(mmu)@.supported(),
    ensures
        final(cpu).inv(),
        final(mmu)@ == old(mmu)@,
        *final(cpu) == (CPU { r: (Registers { pc: old(mmu)@.rw(old(cpu).r.sp), sp: w16(old(cpu).r.sp + 2), ..old(cpu).r }), ime: true, ..*old(cpu) }),
        r == 4,
{
    cpu.r.pc = cpu.pop(mmu);
    cpu.ime = true;
    4
}

pub fn op_rst_00(cpu: &mut CPU, mmu: &mut MMU) -> (r: Cycles)
    requires
        old(cpu).inv(),
        old(mmu)@.inv(),
        old(mmu)@.supported(),
    ensures
        final(cpu).inv(),
        final(mmu)@.inv(),
        final(mmu)@.supported(),
        *final(cpu) == (CPU { r: (Registers { pc: 0x0000, sp: w16(old(cpu).r.sp - 2), ..old(cpu).r }), ..*old(cpu) }),
        final(mmu)@ == old(mmu)@.ww(w16(old(cpu).r.sp - 2), old(cpu).r.pc),
        r == 4,
{
    call(cpu, mmu, 0x0000);
    4
}

pub fn op_rst_08(cpu: &mut CPU, mmu: &mut MMU) -> (r: Cycles)
    requires
        old(cpu).inv(),
        old(mmu)@.inv(),
        old(mmu)@.supported(),
    ensures
        final(cpu).inv(),
        final(mmu)@.inv(),
        final(mmu)@.supported(),
        *final(cpu) == (CPU { r: (Registers { pc: 0x0008, sp: w16(old(cpu).r.sp - 2), ..old(cpu).r }), ..*old(cpu) }),
        final(mmu)@ == old(mmu)@.ww(w16(old(cpu).r.sp - 2), old(cpu).r.pc),
        r == 4,
{
    call(cpu, mmu, 0x0008);
    4
}

pub fn op_rst_10(cpu: &mut CPU, mmu: &mut MMU) -> (r: Cycles)
    requires
        old(cpu).inv(),
        old(mmu)@.inv(),
        old(mmu)@.supported(),
    ensures
        final(cpu).inv(),
        final(mmu)@.inv(),
        final(mmu)@.supported(),
        *final(cpu) == (CPU { r: (Registers { pc: 0x0010, sp: w16(old(cpu).r.sp - 2), ..old(cpu).r }), ..*old(cpu) }),
        final(mmu)@ == old(mmu)@.ww(w16(old(cpu).r.sp - 2), old(cpu).r.pc),
        r == 4,
{
    call(cpu, mmu, 0x0010);
    4
}

pub fn op_rst_18(cpu: &mut CPU, mmu: &mut MMU) -> (r: Cycles)
    requires
        old(cpu).inv(),
        old(mmu)@.inv(),
        old(mmu)@.supported(),
    ensures
        final(cpu).inv(),
        final(mmu)@.inv(),
        final(mmu)@.supported(),
        *final(cpu) == (CPU { r: (Registers { pc: 0x0018, sp: w16(old(cpu).r.sp - 2), ..old(cpu).r }), ..*old(cpu) }),
        final(mmu)@ == old(mmu)@.ww(w16(old(cpu).r.sp - 2), old(cpu).r.pc),
        r == 4,
{
    call(cpu, mmu, 0x0018);
    4
}

pub fn op_rst_20(cpu: &mut CPU, mmu: &mut MMU) -> (r: Cycles)
    requires
        old(cpu).inv(),
        old(mmu)@.inv(),
        old(mmu)@.supported(),
    ensures
        final(cpu).inv(),
        final(mmu)@.inv(),
        final(mmu)@.supported(),
        *final(cpu) == (CPU { r: (Registers { pc: 0x0020, sp: w16(old(cpu).r.sp - 2), ..old(cpu).r }), ..*old(cpu) }),
        final(mmu)@ == old(mmu)@.ww(w16(old(cpu).r.sp - 2), old(cpu).r.pc),
        r == 4,
{
    call(cpu, mmu, 0x0020);
    4
}

pub fn op_rst_28(cpu: &mut CPU, mmu: &mut MMU) -> (r: Cycles)
    requires
        old(cpu).inv(),
        old(mmu)@.inv(),
        old(mmu)@.supported(),
    ensures
        final(cpu).inv(),
        final(mmu)@.inv(),
        final(mmu)@.supported(),
        *final(cpu) == (CPU { r: (Registers { pc: 0x0028, sp: w16(old(cpu).r.sp - 2), ..old(cpu).r }), ..*old(cpu) }),
        final(mmu)@ == old(mmu)@.ww(w16(old(cpu).r.sp - 2), old(cpu).r.pc),
        r == 4,
{
    call(cpu, mmu, 0x0028);
    4
}

pub fn op_rst_30(cpu: &mut CPU, mmu: &mut MMU) -> (r: Cycles)
    requires
        old(cpu).inv(),
        old(mmu)@.inv(),
        old(mmu)@.supported(),
    ensures
        final(cpu).inv(),
        final(mmu)@.inv(),
        final(mmu)@.supported(),
        *final(cpu) == (CPU { r: (Registers { pc: 0x0030, sp: w16(old(cpu).r.sp - 2), ..old(cpu).r }), ..*old(cpu) }),
        final(mmu)@ == old(mmu)@.ww(w16(old(cpu).r.sp - 2), old(cpu).r.pc),
        r == 4,
{
    call(cpu, mmu, 0x0030);
    4
}

pub fn op_rst_38(cpu: &mut CPU, mmu: &mut MMU) -> (r: Cycles)
    requires
        old(cpu).inv(),
        old(mmu)@.inv(),
        old(mmu)@.supported(),
    ensures
        final(cpu).inv(),
        final(mmu)@.inv(),
        final(mmu)@.supported(),
        *final(cpu) == (CPU { r: (Registers { pc: 0x0038, sp: w16(old(cpu).r.sp - 2), ..old(cpu).r }), ..*old(cpu) }),
        final(mmu)@ == old(mmu)@.ww(w16(old(cpu).r.sp - 2), old(cpu).r.pc),
        r == 4,
{
    call(cpu, mmu, 0x0038);
    4
}

pub fn op_push_bc(cpu: &mut CPU, mmu: &mut MMU) -> (r: Cycles)
    requires
        old(cpu).inv(),
        old(mmu)@.inv(),
        old(mmu)@.supported(),
    ensures
        final(cpu).inv(),
        final(mmu)@.inv(),
        final(mmu)@.supported(),
        *final(cpu) == (CPU { r: (Registers { sp: w16(old(cpu).r.sp - 2), ..old(cpu).r }), ..*old(cpu) }),
        final(mmu)@ == old(mmu)@.ww(w16(old(cpu).r.sp - 2), old(cpu).r.spec_bc()),
        r == 4,
{
    let v = cpu.r.bc();
    cpu.push(mmu, v);
    4
}

pub fn op_push_de(cpu: &mut CPU, mmu: &mut MMU) -> (r: Cycles)
    requires
        old(cpu).inv(),
        old(mmu)@.inv(),
        old(mmu)@.supported(),
    ensures
        final(cpu).inv(),
        final(mmu)@.inv(),
        final(mmu)@.supported(),
        *final(cpu) == (CPU { r: (Registers { sp: w16(old(cpu).r.sp - 2), ..old(cpu).r }), ..*old(cpu) }),
        final(mmu)@ == old(mmu)@.ww(w16(old(cpu).r.sp - 2), old(cpu).r.spec_de()),
        r == 4,
{
    let v = cpu.r.de();
    cpu.push(mmu, v);
    4
}

pub fn op_push_hl(cpu: &mut CPU, mmu: &mut MMU) -> (r: Cycles)
    requires
        old(cpu).inv(),
        old(mmu)@.inv(),
        old(mmu)@.supported(),
    ensures
        final(cpu).inv(),
        final(mmu)@.inv(),
        final(mmu)@.supported(),
        *final(cpu) == (CPU { r: (Registers { sp: w16(old(cpu).r.sp - 2), ..old(cpu).r }), ..*old(cpu) }),
        final(mmu)@ == old(mmu)@.ww(w16(old(cpu).r.sp - 2), old(cpu).r.spec_hl()),
        r == 4,
{
    let v = cpu.r.hl();
    cpu.push(mmu, v);
    4
}

pub fn op_push_af(cpu: &mut CPU, mmu: &mut MMU) -> (r: Cycles)
    requires
        old(cpu).inv(),
        old(mmu)@.inv(),
        old(mmu)@.supported(),
    ensures
        final(cpu).inv(),
        final(mmu)@.inv(),
        final(mmu)@.supported(),
        *final(cpu) == (CPU { r: (Registers { sp: w16(old(cpu).r.sp - 2), ..old(cpu).r }), ..*old(cpu) }),
        final(mmu)@ == old(mmu)@.ww(w16(old(cpu).r.sp - 2), old(cpu).r.spec_af()),
        r == 4,
{
    let v = cpu.r.af();
    cpu.push(mmu, v);
    4
}

pub fn op_pop_bc(cpu: &mut CPU, mmu: &mut MMU) -> (r: Cycles)
    requires
        old(cpu).inv(),
        old(mmu)@.inv(),
        old(mmu)@.supported(),
    ensures
        final(cpu).inv(),
        final(mmu)@ == old(mmu)@,
        *final(cpu) == (CPU { r: (Registers { sp: w16(old(cpu).r.sp + 2), ..old(cpu).r.spec_with_bc(old(mmu)@.rw(old(cpu).r.sp)) }), ..*old(cpu) }),
        r == 3,
{
    let v = cpu.pop(mmu);
    cpu.r.set_bc(v);
    3
}

pub fn op_pop_de(cpu: &mut CPU, mmu: &mut MMU) -> (r: Cycles)
    requires
        old(cpu).inv(),
        old(mmu)@.inv(),
        old(mmu)@.supported(),
    ensures
        final(cpu).inv(),
        final(mmu)@ == old(mmu)@,
        *final(cpu) == (CPU { r: (Registers { sp: w16(old(cpu).r.sp + 2), ..old(cpu).r.spec_with_de(old(mmu)@.rw(old(cpu).r.sp)) }), ..*old(cpu) }),
        r == 3,
{
    let v = cpu.pop(mmu);
    cpu.r.set_de(v);
    3
}

pub fn op_pop_hl(cpu: &mut CPU, mmu: &mut MMU) -> (r: Cycles)
    requires
        old(cpu).inv(),
        old(mmu)@.inv(),
        old(mmu)@.supported(),
    ensures
        final(cpu).inv(),
        final(mmu)@ == old(mmu)@,
        *final(cpu) == (CPU { r: (Registers { sp: w16(old(cpu).r.sp + 2), ..old(cpu).r.spec_with_hl(old(mmu)@.rw(old(cpu).r.sp)) }), ..*old(cpu) }),
        r == 3,
{
    let v = cpu.pop(mmu);
    cpu.r.set_hl(v);
    3
}

pub fn op_pop_af(cpu: &mut CPU, mmu: &mut MMU) -> (r: Cycles)
    requires
        old(cpu).inv(),
        old(mmu)@.inv(),
        old(mmu)@.supported(),
    ensures
        final(cpu).inv(),
        final(mmu)@ == old(mmu)@,
        *final(cpu) == (CPU { r: (Registers { sp: w16(old(cpu).r.sp + 2), ..old(cpu).r.spec_with_af(old(mmu)@.rw(old(cpu).r.sp)) }), ..*old(cpu) }),
        r == 3,
{
    let v = cpu.pop(mmu);
    cpu.r.set_af(v);
    3
}

/// Decode and run one unprefixed opcode (the 0xCB prefix and the unused
#[verifier::rlimit(100)]
fn dispatch_q0(cpu: &mut CPU, mmu: &mut MMU, op: u8) -> (r: Cycles)
    requires
        op < 0x40,
        old(cpu).inv(),
        old(mmu)@.inv(),
        old(mmu)@.supported(),
        !spec_illegal_opcode(op),
        op != 0xCB,
    ensures
        final(cpu).inv(),
        final(mmu)@.inv(),
        final(mmu)@.supported(),
        1 <= r <= 6,
        final(cpu).stopped == (old(cpu).stopped || op == 0x10),
        final(cpu).halted == (old(cpu).halted || op == 0x76),
        (op != 0xF3 && op != 0xFB && op != 0xD9) ==> (final(cpu).ime == old(cpu).ime
            && final(cpu).ime_delay == old(cpu).ime_delay),
        op == 0xFB ==> (*final(cpu) == (CPU { ime_delay: 2, ..*old(cpu) })
            && final(mmu)@ == old(mmu)@ && r == 1),
        op == 0xF3 ==> (*final(cpu) == (CPU { ime: false, ime_delay: 0, ..*old(cpu) })
            && final(mmu)@ == old(mmu)@ && r == 1),
        op == 0xD9 ==> final(cpu).ime == true,
        op == 0x00 ==> (*final(cpu) == *old(cpu) && final(mmu)@ == old(mmu)@ && r == 1),
        (*final(cpu), final(mmu)@, r) == crate::cpu::exec::spec_dispatch_q0(
            *old(cpu),
            old(mmu)@,
            op,
        ),
{
    proof {
        reveal(crate::cpu::exec::spec_dispatch_q0);
    }
    match op {
        0 => op_nop(cpu, mmu),
        1 => op_ld_bc_d16(cpu, mmu),
        2 => op_ld_bc_a(cpu, mmu),
        3 => crate::cpu::instructions_alu::op_inc_bc(cpu, mmu),
        4 => crate::cpu::instructions_alu::op_inc_b(cpu, mmu),
        5 => crate::cpu::instructions_alu::op_dec_b(cpu, mmu),
        6 => crate::cpu::instructions_ld::op_ld_b_d8(cpu, mmu),
        7 => op_rlca(cpu, mmu),
        8 => op_ld_a16_sp(cpu, mmu),
        9 => crate::cpu::instructions_alu::op_add_hl_bc(cpu, mmu),
        10 => op_ld_a_bc(cpu, mmu),
        11 => crate::cpu::instructions_alu::op_dec_bc(cpu, mmu),
        12 => crate::cpu::instructions_alu::op_inc_c(cpu, mmu),
        13 => crate::cpu::instructions_alu::op_dec_c(cpu, mmu),
        14 => crate::cpu::instructions_ld::op_ld_c_d8(cpu, mmu),
        15 => op_rrca(cpu, mmu),
        16 => op_stop(cpu, mmu),
        17 => op_ld_de_d16(cpu, mmu),
        18 => op_ld_de_a(cpu, mmu),
        19 => crate::cpu::instructions_alu::op_inc_de(cpu, mmu),
        20 => crate::cpu::instructions_alu::op_inc_d(cpu, mmu),
        21 => crate::cpu::instructions_alu::op_dec_d(cpu, mmu),
        22 => crate::cpu::instructions_ld::op_ld_d_d8(cpu, mmu),
        23 => op_rla(cpu, mmu),
        24 => op_jr(cpu, mmu),
        25 => crate::cpu::instructions_alu::op_add_hl_de(cpu, mmu),
        26 => op_ld_a_de(cpu, mmu),
        27 => crate::cpu::instructions_alu::op_dec_de(cpu, mmu),
        28 => crate::cpu::instructions_alu::op_inc_e(cpu, mmu),
        29 => crate::cpu::instructions_alu::op_dec_e(cpu, mmu),
        30 => crate::cpu::instructions_ld::op_ld_e_d8(cpu, mmu),
        31 => op_rra(cpu, mmu),
        32 => op_jr_nz(cpu, mmu),
        33 => op_ld_hl_d16(cpu, mmu),
        34 => op_ld_hli_a(cpu, mmu),
        35 => crate::cpu::instructions_alu::op_inc_hl(cpu, mmu),
        36 => crate::cpu::instructions_alu::op_inc_h(cpu, mmu),
        37 => crate::cpu::instructions_alu::op_dec_h(cpu, mmu),
        38 => crate::cpu::instructions_ld::op_ld_h_d8(cpu, mmu),
        39 => op_daa(cpu, mmu),
        40 => op_jr_z(cpu, mmu),
        41 => crate::cpu::instructions_alu::op_add_hl_hl(cpu, mmu),
        42 => op_ld_a_hli(cpu, mmu),
        43 => crate::cpu::instructions_alu::op_dec_hl(cpu, mmu),
        44 => crate::cpu::instructions_alu::op_inc_l(cpu, mmu),
        45 => crate::cpu::instructions_alu::op_dec_l(cpu, mmu),
        46 => crate::cpu::instructions_ld::op_ld_l_d8(cpu, mmu),
        47 => op_cpl(cpu, mmu),
        48 => op_jr_nc(cpu, mmu),
        49 => op_ld_sp_d16(cpu, mmu),
        50 => op_ld_hld_a(cpu, mmu),
        51 => crate::cpu::instructions_alu::op_inc_sp(cpu, mmu),
        52 => op_inc_hl_ptr(cpu, mmu),
        53 => op_dec_hl_ptr(cpu, mmu),
        54 => op_ld_hl_d8(cpu, mmu),
        55 => op_scf(cpu, mmu),
        56 => op_jr_c(cpu, mmu),
        57 => crate::cpu::instructions_alu::op_add_hl_sp(cpu, mmu),
        58 => op_ld_a_hld(cpu, mmu),
        59 => crate::cpu::instructions_alu::op_dec_sp(cpu, mmu),
        60 => crate::cpu::instructions_alu::op_inc_a(cpu, mmu),
        61 => crate::cpu::instructions_alu::op_dec_a(cpu, mmu),
        62 => crate::cpu::instructions_ld::op_ld_a_d8(cpu, mmu),
        63 => op_ccf(cpu, mmu),
        _ => vstd::pervasive::unreached(),
    }
}


#[verifier::rlimit(100)]
fn dispatch_q1(cpu: &mut CPU, mmu: &mut MMU, op: u8) -> (r: Cycles)
    requires
        0x40 <= op < 0x80,
        old(cpu).inv(),
        old(mmu)@.inv(),
        old(mmu)@.supported(),
        !spec_illegal_opcode(op),
        op != 0xCB,
    ensures
        final(cpu).inv(),
        final(mmu)@.inv(),
        final(mmu)@.supported(),
        1 <= r <= 6,
        final(cpu).stopped == (old(cpu).stopped || op == 0x10),
        final(cpu).halted == (old(cpu).halted || op == 0x76),
        (op != 0xF3 && op != 0xFB && op != 0xD9) ==> (final(cpu).ime == old(cpu).ime
            && final(cpu).ime_delay == old(cpu).ime_delay),
        op == 0xFB ==> (*final(cpu) == (CPU { ime_delay: 2, ..*old(cpu) })
            && final(mmu)@ == old(mmu)@ && r == 1),
        op == 0xF3 ==> (*final(cpu) == (CPU { ime: false, ime_delay: 0, ..*old(cpu) })
            && final(mmu)@ == old(mmu)@ && r == 1),
        op == 0xD9 ==> final(cpu).ime == true,
        op == 0x00 ==> (*final(cpu) == *old(cpu) && final(mmu)@ == old(mmu)@ && r == 1),
        (*final(cpu), final(mmu)@, r) == crate::cpu::exec::spec_dispatch_q1(
            *old(cpu),
            old(mmu)@,
            op,
        ),
{
    proof {
        reveal(crate::cpu::exec::spec_dispatch_q1);
    }
    match op {
        64 => crate::cpu::instructions_ld::op_ld_b_b(cpu, mmu),
        65 => crate::cpu::instructions_ld::op_ld_b_c(cpu, mmu),
        66 => crate::cpu::instructions_ld::op_ld_b_d(cpu, mmu),
        67 => crate::cpu::instructions_ld::op_ld_b_e(cpu, mmu),
        68 => crate::cpu::instructions_ld::op_ld_b_h(cpu, mmu),
        69 => crate::cpu::instructions_ld::op_ld_b_l(cpu, mmu),
        70 => crate::cpu::instructions_ld::op_ld_b_hl(cpu, mmu),
        71 => crate::cpu::instructions_ld::op_ld_b_a(cpu, mmu),
        72 => crate::cpu::instructions_ld::op_ld_c_b(cpu, mmu),
        73 => crate::cpu::instructions_ld::op_ld_c_c(cpu, mmu),
        74 => crate::cpu::instructions_ld::op_ld_c_d(cpu, mmu),
        75 => crate::cpu::instructions_ld::op_ld_c_e(cpu, mmu),
        76 => crate::cpu::instructions_ld::op_ld_c_h(cpu, mmu),
        77 => crate::cpu::instructions_ld::op_ld_c_l(cpu, mmu),
        78 => crate::cpu::instructions_ld::op_ld_c_hl(cpu, mmu),
        79 => crate::cpu::instructions_ld::op_ld_c_a(cpu, mmu),
        80 => crate::cpu::instructions_ld::op_ld_d_b(cpu, mmu),
        81 => crate::cpu::instructions_ld::op_ld_d_c(cpu, mmu),
        82 => crate::cpu::instructions_ld::op_ld_d_d(cpu, mmu),
        83 => crate::cpu::instructions_ld::op_ld_d_e(cpu, mmu),
        84 => crate::cpu::instructions_ld::op_ld_d_h(cpu, mmu),
        85 => crate::cpu::instructions_ld::op_ld_d_l(cpu, mmu),
        86 => crate::cpu::instructions_ld::op_ld_d_hl(cpu, mmu),
        87 => crate::cpu::instructions_ld::op_ld_d_a(cpu, mmu),
        88 => crate::cpu::instructions_ld::op_ld_e_b(cpu, mmu),
        89 => crate::cpu::instructions_ld::op_ld_e_c(cpu, mmu),
        90 => crate::cpu::instructions_ld::op_ld_e_d(cpu, mmu),
        91 => crate::cpu::instructions_ld::op_ld_e_e(cpu, mmu),
        92 => crate::cpu::instructions_ld::op_ld_e_h(cpu, mmu),
        93 => crate::cpu::instructions_ld::op_ld_e_l(cpu, mmu),
        94 => crate::cpu::instructions_ld::op_ld_e_hl(cpu, mmu),
        95 => crate::cpu::instructions_ld::op_ld_e_a(cpu, mmu),
        96 => crate::cpu::instructions_ld::op_ld_h_b(cpu, mmu),
        97 => crate::cpu::instructions_ld::op_ld_h_c(cpu, mmu),
        98 => crate::cpu::instructions_ld::op_ld_h_d(cpu, mmu),
        99 => crate::cpu::instructions_ld::op_ld_h_e(cpu, mmu),
        100 => crate::cpu::instructions_ld::op_ld_h_h(cpu, mmu),
        101 => crate::cpu::instructions_ld::op_ld_h_l(cpu, mmu),
        102 => crate::cpu::instructions_ld::op_ld_h_hl(cpu, mmu),
        103 => crate::cpu::instructions_ld::op_ld_h_a(cpu, mmu),
        104 => crate::cpu::instructions_ld::op_ld_l_b(cpu, mmu),
        105 => crate::cpu::instructions_ld::op_ld_l_c(cpu, mmu),
        106 => crate::cpu::instructions_ld::op_ld_l_d(cpu, mmu),
        107 => crate::cpu::instructions_ld::op_ld_l_e(cpu, mmu),
        108 => crate::cpu::instructions_ld::op_ld_l_h(cpu, mmu),
        109 => crate::cpu::instructions_ld::op_ld_l_l(cpu, mmu),
        110 => crate::cpu::instructions_ld::op_ld_l_hl(cpu, mmu),
        111 => crate::cpu::instructions_ld::op_ld_l_a(cpu, mmu),
        112 => crate::cpu::instructions_ld::op_ld_hl_b(cpu, mmu),
        113 => crate::cpu::instructions_ld::op_ld_hl_c(cpu, mmu),
        114 => crate::cpu::instructions_ld::op_ld_hl_d(cpu, mmu),
        115 => crate::cpu::instructions_ld::op_ld_hl_e(cpu, mmu),
        116 => crate::cpu::instructions_ld::op_ld_hl_h(cpu, mmu),
        117 => crate::cpu::instructions_ld::op_ld_hl_l(cpu, mmu),
        118 => op_halt(cpu, mmu),
        119 => crate::cpu::instructions_ld::op_ld_hl_a(cpu, mmu),
        120 => crate::cpu::instructions_ld::op_ld_a_b(cpu, mmu),
        121 => crate::cpu::instructions_ld::op_ld_a_c(cpu, mmu),
        122 => crate::cpu::instructions_ld::op_ld_a_d(cpu, mmu),
        123 => crate::cpu::instructions_ld::op_ld_a_e(cpu, mmu),
        124 => crate::cpu::instructions_ld::op_ld_a_h(cpu, mmu),
        125 => crate::cpu::instructions_ld::op_ld_a_l(cpu, mmu),
        126 => crate::cpu::instructions_ld::op_ld_a_hl(cpu, mmu),
        127 => crate::cpu::instructions_ld::op_ld_a_a(cpu, mmu),
        _ => vstd::pervasive::unreached(),
    }
}


#[verifier::rlimit(100)]
fn dispatch_q2(cpu: &mut CPU, mmu: &mut MMU, op: u8) -> (r: Cycles)
    requires
        0x80 <= op < 0xC0,
        old(cpu).inv(),
        old(mmu)@.inv(),
        old(mmu)@.supported(),
        !spec_illegal_opcode(op),
        op != 0xCB,
    ensures
        final(cpu).inv(),
        final(mmu)@.inv(),
        final(mmu)@.supported(),
        1 <= r <= 6,
        final(cpu).stopped == (old(cpu).stopped || op == 0x10),
        final(cpu).halted == (old(cpu).halted || op == 0x76),
        (op != 0xF3 && op != 0xFB && op != 0xD9) ==> (final(cpu).ime == old(cpu).ime
            && final(cpu).ime_delay == old(cpu).ime_delay),
        op == 0xFB ==> (*final(cpu) == (CPU { ime_delay: 2, ..*old(cpu) })
            && final(mmu)@ == old(mmu)@ && r == 1),
        op == 0xF3 ==> (*final(cpu) == (CPU { ime: false, ime_delay: 0, ..*old(cpu) })
            && final(mmu)@ == old(mmu)@ && r == 1),
        op == 0xD9 ==> final(cpu).ime == true,
        op == 0x00 ==> (*final(cpu) == *old(cpu) && final(mmu)@ == old(mmu)@ && r == 1),
        (*final(cpu), final(mmu)@, r) == crate::cpu::exec::spec_dispatch_q2(
            *old(cpu),
            old(mmu)@,
            op,
        ),
{
    proof {
        reveal(crate::cpu::exec::spec_dispatch_q2);
    }
    match op {
        128 => crate::cpu::instructions_alu::op_add_a_b(cpu, mmu),
        129 => crate::cpu::instructions_alu::op_add_a_c(cpu, mmu),
        130 => crate::cpu::instructions_alu::op_add_a_d(cpu, mmu),
        131 => crate::cpu::instructions_alu::op_add_a_e(cpu, mmu),
        132 => crate::cpu::instructions_alu::op_add_a_h(cpu, mmu),
        133 => crate::cpu::instructions_alu::op_add_a_l(cpu, mmu),
        134 => crate::cpu::instructions_alu::op_add_a_hl(cpu, mmu),
        135 => crate::cpu::instructions_alu::op_add_a_a(cpu, mmu),
        136 => crate::cpu::instructions_alu::op_adc_a_b(cpu, mmu),
        137 => crate::cpu::instructions_alu::op_adc_a_c(cpu, mmu),
        138 => crate::cpu::instructions_alu::op_adc_a_d(cpu, mmu),
        139 => crate::cpu::instructions_alu::op_adc_a_e(cpu, mmu),
        140 => crate::cpu::instructions_alu::op_adc_a_h(cpu, mmu),
        141 => crate::cpu::instructions_alu::op_adc_a_l(cpu, mmu),
        142 => crate::cpu::instructions_alu::op_adc_a_hl(cpu, mmu),
        143 => crate::cpu::instructions_alu::op_adc_a_a(cpu, mmu),
        144 => crate::cpu::instructions_alu::op_sub_b(cpu, mmu),
        145 => crate::cpu::instructions_alu::op_sub_c(cpu, mmu),
        146 => crate::cpu::instructions_alu::op_sub_d(cpu, mmu),
        147 => crate::cpu::instructions_alu::op_sub_e(cpu, mmu),
        148 => crate::cpu::instructions_alu::op_sub_h(cpu, mmu),
        149 => crate::cpu::instructions_alu::op_sub_l(cpu, mmu),
        150 => crate::cpu::instructions_alu::op_sub_hl(cpu, mmu),
        151 => crate::cpu::instructions_alu::op_sub_a(cpu, mmu),
        152 => crate::cpu::instructions_alu::op_sbc_a_b(cpu, mmu),
        153 => crate::cpu::instructions_alu::op_sbc_a_c(cpu, mmu),
        154 => crate::cpu::instructions_alu::op_sbc_a_d(cpu, mmu),
        155 => crate::cpu::instructions_alu::op_sbc_a_e(cpu, mmu),
        156 => crate::cpu::instructions_alu::op_sbc_a_h(cpu, mmu),
        157 => crate::cpu::instructions_alu::op_sbc_a_l(cpu, mmu),
        158 => crate::cpu::instructions_alu::op_sbc_a_hl(cpu, mmu),
        159 => crate::cpu::instructions_alu::op_sbc_a_a(cpu, mmu),
        160 => crate::cpu::instructions_alu::op_and_b(cpu, mmu),
        161 => crate::cpu::instructions_alu::op_and_c(cpu, mmu),
        162 => crate::cpu::instructions_alu::op_and_d(cpu, mmu),
        163 => crate::cpu::instructions_alu::op_and_e(cpu, mmu),
        164 => crate::cpu::instructions_alu::op_and_h(cpu, mmu),
        165 => crate::cpu::instructions_alu::op_and_l(cpu, mmu),
        166 => crate::cpu::instructions_alu::op_and_hl(cpu, mmu),
        167 => crate::cpu::instructions_alu::op_and_a(cpu, mmu),
        168 => crate::cpu::instructions_alu::op_xor_b(cpu, mmu),
        169 => crate::cpu::instructions_alu::op_xor_c(cpu, mmu),
        170 => crate::cpu::instructions_alu::op_xor_d(cpu, mmu),
        171 => crate::cpu::instructions_alu::op_xor_e(cpu, mmu),
        172 => crate::cpu::instructions_alu::op_xor_h(cpu, mmu),
        173 => crate::cpu::instructions_alu::op_xor_l(cpu, mmu),
        174 => crate::cpu::instructions_alu::op_xor_hl(cpu, mmu),
        175 => crate::cpu::instructions_alu::op_xor_a(cpu, mmu),
        176 => crate::cpu::instructions_alu::op_or_b(cpu, mmu),
        177 => crate::cpu::instructions_alu::op_or_c(cpu, mmu),
        178 => crate::cpu::instructions_alu::op_or_d(cpu, mmu),
        179 => crate::cpu::instructions_alu::op_or_e(cpu, mmu),
        180 => crate::cpu::instructions_alu::op_or_h(cpu, mmu),
        181 => crate::cpu::instructions_alu::op_or_l(cpu, mmu),
        182 => crate::cpu::instructions_alu::op_or_hl(cpu, mmu),
        183 => crate::cpu::instructions_alu::op_or_a(cpu, mmu),
        184 => crate::cpu::instructions_alu::op_cp_b(cpu, mmu),
        185 => crate::cpu::instructions_alu::op_cp_c(cpu, mmu),
        186 => crate::cpu::instructions_alu::op_cp_d(cpu, mmu),
        187 => crate::cpu::instructions_alu::op_cp_e(cpu, mmu),
        188 => crate::cpu::instructions_alu::op_cp_h(cpu, mmu),
        189 => crate::cpu::instructions_alu::op_cp_l(cpu, mmu),
        190 => crate::cpu::instructions_alu::op_cp_hl(cpu, mmu),
        191 => crate::cpu::instructions_alu::op_cp_a(cpu, mmu),
        _ => vstd::pervasive::unreached(),
    }
}


#[verifier::rlimit(100)]
fn dispatch_q3(cpu: &mut CPU, mmu: &mut MMU, op: u8) -> (r: Cycles)
    requires
        0xC0 <= op < 0x100,
        old(cpu).inv(),
        old(mmu)@.inv(),
        old(mmu)@.supported(),
        !spec_illegal_opcode(op),
        op != 0xCB,
    ensures
        final(cpu).inv(),
        final(mmu)@.inv(),
        final(mmu)@.supported(),
        1 <= r <= 6,
        final(cpu).stopped == (old(cpu).stopped || op == 0x10),
        final(cpu).halted == (old(cpu).halted || op == 0x76),
        (op != 0xF3 && op != 0xFB && op != 0xD9) ==> (final(cpu).ime == old(cpu).ime
            && final(cpu).ime_delay == old(cpu).ime_delay),
        op == 0xFB ==> (*final(cpu) == (CPU { ime_delay: 2, ..*old(cpu) })
            && final(mmu)@ == old(mmu)@ && r == 1),
        op == 0xF3 ==> (*final(cpu) == (CPU { ime: false, ime_delay: 0, ..*old(cpu) })
            && final(mmu)@ == old(mmu)@ && r == 1),
        op == 0xD9 ==> final(cpu).ime == true,
        op == 0x00 ==> (*final(cpu) == *old(cpu) && final(mmu)@ == old(mmu)@ && r == 1),
        (*final(cpu), final(mmu)@, r) == crate::cpu::exec::spec_dispatch_q3(
            *old(cpu),
            old(mmu)@,
            op,
        ),
{
    proof {
        reveal(crate::cpu::exec::spec_dispatch_q3);
    }
    match op {
        192 => op_ret_nz(cpu, mmu),
        193 => op_pop_bc(cpu, mmu),
        194 => op_jp_nz(cpu, mmu),
        195 => op_jp_a16(cpu, mmu),
        196 => op_call_nz(cpu, mmu),
        197 => op_push_bc(cpu, mmu),
        198 => crate::cpu::instructions_alu::op_add_a_d8(cpu, mmu),
        199 => op_rst_00(cpu, mmu),
        200 => op_ret_z(cpu, mmu),
        201 => op_ret(cpu, mmu),
        202 => op_jp_z(cpu, mmu),
        203 => vstd::pervasive::unreached(),
        204 => op_call_z(cpu, mmu),
        205 => op_call_a16(cpu, mmu),
        206 => crate::cpu::instructions_alu::op_adc_a_d8(cpu, mmu),
        207 => op_rst_08(cpu, mmu),
        208 => op_ret_nc(cpu, mmu),
        209 => op_pop_de(cpu, mmu),
        210 => op_jp_nc(cpu, mmu),
        211 => vstd::pervasive::unreached(),
        212 => op_call_nc(cpu, mmu),
        213 => op_push_de(cpu, mmu),
        214 => crate::cpu::instructions_alu::op_sub_d8(cpu, mmu),
        215 => op_rst_10(cpu, mmu),
        216 => op_ret_c(cpu, mmu),
        217 => op_reti(cpu, mmu),
        218 => op_jp_c(cpu, mmu),
        219 => vstd::pervasive::unreached(),
        220 => op_call_c(cpu, mmu),
        221 => vstd::pervasive::unreached(),
        222 => crate::cpu::instructions_alu::op_sbc_a_d8(cpu, mmu),
        223 => op_rst_18(cpu, mmu),
        224 => op_ldh_a8_a(cpu, mmu),
        225 => op_pop_hl(cpu, mmu),
        226 => op_ld_ff00_c_a(cpu, mmu),
        227 => vstd::pervasive::unreached(),
        228 => vstd::pervasive::unreached(),
        229 => op_push_hl(cpu, mmu),
        230 => crate::cpu::instructions_alu::op_and_d8(cpu, mmu),
        231 => op_rst_20(cpu, mmu),
        232 => op_add_sp_r8(cpu, mmu),
        233 => op_jp_hl(cpu, mmu),
        234 => op_ld_a16_a(cpu, mmu),
        235 => vstd::pervasive::unreached(),
        236 => vstd::pervasive::unreached(),
        237 => vstd::pervasive::unreached(),
        238 => crate::cpu::instructions_alu::op_xor_d8(cpu, mmu),
        239 => op_rst_28(cpu, mmu),
        240 => op_ldh_a_a8(cpu, mmu),
        241 => op_pop_af(cpu, mmu),
        242 => op_ld_a_ff00_c(cpu, mmu),
        243 => op_di(cpu, mmu),
        244 => vstd::pervasive::unreached(),
        245 => op_push_af(cpu, mmu),
        246 => crate::cpu::instructions_alu::op_or_d8(cpu, mmu),
        247 => op_rst_30(cpu, mmu),
        248 => op_ld_hl_sp_r8(cpu, mmu),
        249 => op_ld_sp_hl(cpu, mmu),
        250 => op_ld_a_a16(cpu, mmu),
        251 => op_ei(cpu, mmu),
        252 => vstd::pervasive::unreached(),
        253 => vstd::pervasive::unreached(),
        254 => crate::cpu::instructions_alu::op_cp_d8(cpu, mmu),
        255 => op_rst_38(cpu, mmu),
        _ => vstd::pervasive::unreached(),
    }
}

/// slots are excluded by precondition).
pub fn dispatch(cpu: &mut CPU, mmu: &mut MMU, op: u8) -> (r: Cycles)
    requires
        old(cpu).inv(),
        old(mmu)@.inv(),
        old(mmu)@.supported(),
        !spec_illegal_opcode(op),
        op != 0xCB,
    ensures
        final(cpu).inv(),
        final(mmu)@.inv(),
        final(mmu)@.supported(),
        1 <= r <= 6,
        final(cpu).stopped == (old(cpu).stopped || op == 0x10),
        final(cpu).halted == (old(cpu).halted || op == 0x76),
        (op != 0xF3 && op != 0xFB && op != 0xD9) ==> (final(cpu).ime == old(cpu).ime
            && final(cpu).ime_delay == old(cpu).ime_delay),
        op == 0xFB ==> (*final(cpu) == (CPU { ime_delay: 2, ..*old(cpu) })
            && final(mmu)@ == old(mmu)@ && r == 1),
        op == 0xF3 ==> (*final(cpu) == (CPU { ime: false, ime_delay: 0, ..*old(cpu) })
            && final(mmu)@ == old(mmu)@ && r == 1),
        op == 0xD9 ==> final(cpu).ime == true,
        op == 0x00 ==> (*final(cpu) == *old(cpu) && final(mmu)@ == old(mmu)@ && r == 1),
        (*final(cpu), final(mmu)@, r) == crate::cpu::exec::spec_dispatch(
            *old(cpu),
            old(mmu)@,
            op,
        ),
{
    if op < 0x40 {
        dispatch_q0(cpu, mmu, op)
    } else if op < 0x80 {
        dispatch_q1(cpu, mmu, op)
    } else if op < 0xC0 {
        dispatch_q2(cpu, mmu, op)
    } else {
        dispatch_q3(cpu, mmu, op)
    }
}

} // verus!
