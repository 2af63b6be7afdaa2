//! The 8-bit arithmetic and logic opcodes, the 8-bit and 16-bit INC/DEC
//! opcodes, and the 16-bit additions onto HL.

use vstd::prelude::*;

use crate::bits::{w8, w16};
use crate::cpu::{CPU, Cycles};
use crate::cpu::instructions::{
    add_a, adc_a, sub_a, sbc_a, and_a, xor_a, or_a, cp_a, inc8, dec8, add_hl,
    spec_add8, spec_add8_h, spec_add8_c, spec_sub8, spec_sub8_h, spec_sub8_c,
    spec_addhl_h, spec_addhl_c,
};
use crate::mmu::MMU;
use crate::registers::Registers;

verus! {

pub fn op_add_a_b(cpu: &mut CPU, _mmu: &mut MMU) -> (r: Cycles)
    requires
        old(cpu).inv(),
    ensures
        final(cpu).inv(),
        final(_mmu)@ == old(_mmu)@,
        *final(cpu) == (CPU { r: (Registers { a: spec_add8(old(cpu).r.a, old(cpu).r.b, false), zf: (spec_add8(old(cpu).r.a, old(cpu).r.b, false) == 0), nf: false, hf: spec_add8_h(old(cpu).r.a, old(cpu).r.b, false), cf: spec_add8_c(old(cpu).r.a, old(cpu).r.b, false), ..old(cpu).r }), ..*old(cpu) }),
        r == 1,
{
    let v = cpu.r.b;
    add_a(cpu, v);
    1
}

pub fn op_add_a_c(cpu: &mut CPU, _mmu: &mut MMU) -> (r: Cycles)
    requires
        old(cpu).inv(),
    ensures
        final(cpu).inv(),
        final(_mmu)@ == old(_mmu)@,
        *final(cpu) == (CPU { r: (Registers { a: spec_add8(old(cpu).r.a, old(cpu).r.c, false), zf: (spec_add8(old(cpu).r.a, old(cpu).r.c, false) == 0), nf: false, hf: spec_add8_h(old(cpu).r.a, old(cpu).r.c, false), cf: spec_add8_c(old(cpu).r.a, old(cpu).r.c, false), ..old(cpu).r }), ..*old(cpu) }),
        r == 1,
{
    let v = cpu.r.c;
    add_a(cpu, v);
    1
}

pub fn op_add_a_d(cpu: &mut CPU, _mmu: &mut MMU) -> (r: Cycles)
    requires
        old(cpu).inv(),
    ensures
        final(cpu).inv(),
        final(_mmu)@ == old(_mmu)@,
        *final(cpu) == (CPU { r: (Registers { a: spec_add8(old(cpu).r.a, old(cpu).r.d, false), zf: (spec_add8(old(cpu).r.a, old(cpu).r.d, false) == 0), nf: false, hf: spec_add8_h(old(cpu).r.a, old(cpu).r.d, false), cf: spec_add8_c(old(cpu).r.a, old(cpu).r.d, false), ..old(cpu).r }), ..*old(cpu) }),
        r == 1,
{
    let v = cpu.r.d;
    add_a(cpu, v);
    1
}

pub fn op_add_a_e(cpu: &mut CPU, _mmu: &mut MMU) -> (r: Cycles)
    requires
        old(cpu).inv(),
    ensures
        final(cpu).inv(),
        final(_mmu)@ == old(_mmu)@,
        *final(cpu) == (CPU { r: (Registers { a: spec_add8(old(cpu).r.a, old(cpu).r.e, false), zf: (spec_add8(old(cpu).r.a, old(cpu).r.e, false) == 0), nf: false, hf: spec_add8_h(old(cpu).r.a, old(cpu).r.e, false), cf: spec_add8_c(old(cpu).r.a, old(cpu).r.e, false), ..old(cpu).r }), ..*old(cpu) }),
        r == 1,
{
    let v = cpu.r.e;
    add_a(cpu, v);
    1
}

pub fn op_add_a_h(cpu: &mut CPU, _mmu: &mut MMU) -> (r: Cycles)
    requires
        old(cpu).inv(),
    ensures
        final(cpu).inv(),
        final(_mmu)@ == old(_mmu)@,
        *final(cpu) == (CPU { r: (Registers { a: spec_add8(old(cpu).r.a, old(cpu).r.h, false), zf: (spec_add8(old(cpu).r.a, old(cpu).r.h, false) == 0), nf: false, hf: spec_add8_h(old(cpu).r.a, old(cpu).r.h, false), cf: spec_add8_c(old(cpu).r.a, old(cpu).r.h, false), ..old(cpu).r }), ..*old(cpu) }),
        r == 1,
{
    let v = cpu.r.h;
    add_a(cpu, v);
    1
}

pub fn op_add_a_l(cpu: &mut CPU, _mmu: &mut MMU) -> (r: Cycles)
    requires
        old(cpu).inv(),
    ensures
        final(cpu).inv(),
        final(_mmu)@ == old(_mmu)@,
        *final(cpu) == (CPU { r: (Registers { a: spec_add8(old(cpu).r.a, old(cpu).r.l, false), zf: (spec_add8(old(cpu).r.a, old(cpu).r.l, false) == 0), nf: false, hf: spec_add8_h(old(cpu).r.a, old(cpu).r.l, false), cf: spec_add8_c(old(cpu).r.a, old(cpu).r.l, false), ..old(cpu).r }), ..*old(cpu) }),
        r == 1,
{
    let v = cpu.r.l;
    add_a(cpu, v);
    1
}

pub fn op_add_a_a(cpu: &mut CPU, _mmu: &mut MMU) -> (r: Cycles)
    requires
        old(cpu).inv(),
    ensures
        final(cpu).inv(),
        final(_mmu)@ == old(_mmu)@,
        *final(cpu) == (CPU { r: (Registers { a: spec_add8(old(cpu).r.a, old(cpu).r.a, false), zf: (spec_add8(old(cpu).r.a, old(cpu).r.a, false) == 0), nf: false, hf: spec_add8_h(old(cpu).r.a, old(cpu).r.a, false), cf: spec_add8_c(old(cpu).r.a, old(cpu).r.a, false), ..old(cpu).r }), ..*old(cpu) }),
        r == 1,
{
    let v = cpu.r.a;
    add_a(cpu, v);
    1
}

pub fn op_add_a_hl(cpu: &mut CPU, mmu: &mut MMU) -> (r: Cycles)
    requires
        old(cpu).inv(),
        old(mmu)@.inv(),
        old(mmu)@.supported(),
    ensures
        final(cpu).inv(),
        final(mmu)@ == old(mmu)@,
        *final(cpu) == (CPU { r: (Registers { a: spec_add8(old(cpu).r.a, old(mmu)@.rb(old(cpu).r.spec_hl()), false), zf: (spec_add8(old(cpu).r.a, old(mmu)@.rb(old(cpu).r.spec_hl()), false) == 0), nf: false, hf: spec_add8_h(old(cpu).r.a, old(mmu)@.rb(old(cpu).r.spec_hl()), false), cf: spec_add8_c(old(cpu).r.a, old(mmu)@.rb(old(cpu).r.spec_hl()), false), ..old(cpu).r }), ..*old(cpu) }),
        r == 2,
{
    let addr = cpu.r.hl();
    let v = mmu.rb(addr);
    add_a(cpu, v);
    2
}

pub fn op_add_a_d8(cpu: &mut CPU, mmu: &mut MMU) -> (r: Cycles)
    requires
        old(cpu).inv(),
        old(mmu)@.inv(),
        old(mmu)@.supported(),
    ensures
        final(cpu).inv(),
        final(mmu)@ == old(mmu)@,
        *final(cpu) == (CPU { r: (Registers { a: spec_add8(old(cpu).r.a, old(mmu)@.rb(old(cpu).r.pc), false), zf: (spec_add8(old(cpu).r.a, old(mmu)@.rb(old(cpu).r.pc), false) == 0), nf: false, hf: spec_add8_h(old(cpu).r.a, old(mmu)@.rb(old(cpu).r.pc), false), cf: spec_add8_c(old(cpu).r.a, old(mmu)@.rb(old(cpu).r.pc), false), pc: w16(old(cpu).r.pc + 1), ..old(cpu).r }), ..*old(cpu) }),
        r == 2,
{
    let v = cpu.rb(mmu);
    add_a(cpu, v);
    2
}

pub fn op_adc_a_b(cpu: &mut CPU, _mmu: &mut MMU) -> (r: Cycles)
    requires
        old(cpu).inv(),
    ensures
        final(cpu).inv(),
        final(_mmu)@ == old(_mmu)@,
        *final(cpu) == (CPU { r: (Registers { a: spec_add8(old(cpu).r.a, old(cpu).r.b, old(cpu).r.cf), zf: (spec_add8(old(cpu).r.a, old(cpu).r.b, old(cpu).r.cf) == 0), nf: false, hf: spec_add8_h(old(cpu).r.a, old(cpu).r.b, old(cpu).r.cf), cf: spec_add8_c(old(cpu).r.a, old(cpu).r.b, old(cpu).r.cf), ..old(cpu).r }), ..*old(cpu) }),
        r == 1,
{
    let v = cpu.r.b;
    adc_a(cpu, v);
    1
}

pub fn op_adc_a_c(cpu: &mut CPU, _mmu: &mut MMU) -> (r: Cycles)
    requires
        old(cpu).inv(),
    ensures
        final(cpu).inv(),
        final(_mmu)@ == old(_mmu)@,
        *final(cpu) == (CPU { r: (Registers { a: spec_add8(old(cpu).r.a, old(cpu).r.c, old(cpu).r.cf), zf: (spec_add8(old(cpu).r.a, old(cpu).r.c, old(cpu).r.cf) == 0), nf: false, hf: spec_add8_h(old(cpu).r.a, old(cpu).r.c, old(cpu).r.cf), cf: spec_add8_c(old(cpu).r.a, old(cpu).r.c, old(cpu).r.cf), ..old(cpu).r }), ..*old(cpu) }),
        r == 1,
{
    let v = cpu.r.c;
    adc_a(cpu, v);
    1
}

pub fn op_adc_a_d(cpu: &mut CPU, _mmu: &mut MMU) -> (r: Cycles)
    requires
        old(cpu).inv(),
    ensures
        final(cpu).inv(),
        final(_mmu)@ == old(_mmu)@,
        *final(cpu) == (CPU { r: (Registers { a: spec_add8(old(cpu).r.a, old(cpu).r.d, old(cpu).r.cf), zf: (spec_add8(old(cpu).r.a, old(cpu).r.d, old(cpu).r.cf) == 0), nf: false, hf: spec_add8_h(old(cpu).r.a, old(cpu).r.d, old(cpu).r.cf), cf: spec_add8_c(old(cpu).r.a, old(cpu).r.d, old(cpu).r.cf), ..old(cpu).r }), ..*old(cpu) }),
        r == 1,
{
    let v = cpu.r.d;
    adc_a(cpu, v);
    1
}

pub fn op_adc_a_e(cpu: &mut CPU, _mmu: &mut MMU) -> (r: Cycles)
    requires
        old(cpu).inv(),
    ensures
        final(cpu).inv(),
        final(_mmu)@ == old(_mmu)@,
        *final(cpu) == (CPU { r: (Registers { a: spec_add8(old(cpu).r.a, old(cpu).r.e, old(cpu).r.cf), zf: (spec_add8(old(cpu).r.a, old(cpu).r.e, old(cpu).r.cf) == 0), nf: false, hf: spec_add8_h(old(cpu).r.a, old(cpu).r.e, old(cpu).r.cf), cf: spec_add8_c(old(cpu).r.a, old(cpu).r.e, old(cpu).r.cf), ..old(cpu).r }), ..*old(cpu) }),
        r == 1,
{
    let v = cpu.r.e;
    adc_a(cpu, v);
    1
}

pub fn op_adc_a_h(cpu: &mut CPU, _mmu: &mut MMU) -> (r: Cycles)
    requires
        old(cpu).inv(),
    ensures
        final(cpu).inv(),
        final(_mmu)@ == old(_mmu)@,
        *final(cpu) == (CPU { r: (Registers { a: spec_add8(old(cpu).r.a, old(cpu).r.h, old(cpu).r.cf), zf: (spec_add8(old(cpu).r.a, old(cpu).r.h, old(cpu).r.cf) == 0), nf: false, hf: spec_add8_h(old(cpu).r.a, old(cpu).r.h, old(cpu).r.cf), cf: spec_add8_c(old(cpu).r.a, old(cpu).r.h, old(cpu).r.cf), ..old(cpu).r }), ..*old(cpu) }),
        r == 1,
{
    let v = cpu.r.h;
    adc_a(cpu, v);
    1
}

pub fn op_adc_a_l(cpu: &mut CPU, _mmu: &mut MMU) -> (r: Cycles)
    requires
        old(cpu).inv(),
    ensures
        final(cpu).inv(),
        final(_mmu)@ == old(_mmu)@,
        *final(cpu) == (CPU { r: (Registers { a: spec_add8(old(cpu).r.a, old(cpu).r.l, old(cpu).r.cf), zf: (spec_add8(old(cpu).r.a, old(cpu).r.l, old(cpu).r.cf) == 0), nf: false, hf: spec_add8_h(old(cpu).r.a, old(cpu).r.l, old(cpu).r.cf), cf: spec_add8_c(old(cpu).r.a, old(cpu).r.l, old(cpu).r.cf), ..old(cpu).r }), ..*old(cpu) }),
        r == 1,
{
    let v = cpu.r.l;
    adc_a(cpu, v);
    1
}

pub fn op_adc_a_a(cpu: &mut CPU, _mmu: &mut MMU) -> (r: Cycles)
    requires
        old(cpu).inv(),
    ensures
        final(cpu).inv(),
        final(_mmu)@ == old(_mmu)@,
        *final(cpu) == (CPU { r: (Registers { a: spec_add8(old(cpu).r.a, old(cpu).r.a, old(cpu).r.cf), zf: (spec_add8(old(cpu).r.a, old(cpu).r.a, old(cpu).r.cf) == 0), nf: false, hf: spec_add8_h(old(cpu).r.a, old(cpu).r.a, old(cpu).r.cf), cf: spec_add8_c(old(cpu).r.a, old(cpu).r.a, old(cpu).r.cf), ..old(cpu).r }), ..*old(cpu) }),
        r == 1,
{
    let v = cpu.r.a;
    adc_a(cpu, v);
    1
}

pub fn op_adc_a_hl(cpu: &mut CPU, mmu: &mut MMU) -> (r: Cycles)
    requires
        old(cpu).inv(),
        old(mmu)@.inv(),
        old(mmu)@.supported(),
    ensures
        final(cpu).inv(),
        final(mmu)@ == old(mmu)@,
        *final(cpu) == (CPU { r: (Registers { a: spec_add8(old(cpu).r.a, old(mmu)@.rb(old(cpu).r.spec_hl()), old(cpu).r.cf), zf: (spec_add8(old(cpu).r.a, old(mmu)@.rb(old(cpu).r.spec_hl()), old(cpu).r.cf) == 0), nf: false, hf: spec_add8_h(old(cpu).r.a, old(mmu)@.rb(old(cpu).r.spec_hl()), old(cpu).r.cf), cf: spec_add8_c(old(cpu).r.a, old(mmu)@.rb(old(cpu).r.spec_hl()), old(cpu).r.cf), ..old(cpu).r }), ..*old(cpu) }),
        r == 2,
{
    let addr = cpu.r.hl();
    let v = mmu.rb(addr);
    adc_a(cpu, v);
    2
}

pub fn op_adc_a_d8(cpu: &mut CPU, mmu: &mut MMU) -> (r: Cycles)
    requires
        old(cpu).inv(),
        old(mmu)@.inv(),
        old(mmu)@.supported(),
    ensures
        final(cpu).inv(),
        final(mmu)@ == old(mmu)@,
        *final(cpu) == (CPU { r: (Registers { a: spec_add8(old(cpu).r.a, old(mmu)@.rb(old(cpu).r.pc), old(cpu).r.cf), zf: (spec_add8(old(cpu).r.a, old(mmu)@.rb(old(cpu).r.pc), old(cpu).r.cf) == 0), nf: false, hf: spec_add8_h(old(cpu).r.a, old(mmu)@.rb(old(cpu).r.pc), old(cpu).r.cf), cf: spec_add8_c(old(cpu).r.a, old(mmu)@.rb(old(cpu).r.pc), old(cpu).r.cf), pc: w16(old(cpu).r.pc + 1), ..old(cpu).r }), ..*old(cpu) }),
        r == 2,
{
    let v = cpu.rb(mmu);
    adc_a(cpu, v);
    2
}

pub fn op_sub_b(cpu: &mut CPU, _mmu: &mut MMU) -> (r: Cycles)
    requires
        old(cpu).inv(),
    ensures
        final(cpu).inv(),
        final(_mmu)@ == old(_mmu)@,
        *final(cpu) == (CPU { r: (Registers { a: spec_sub8(old(cpu).r.a, old(cpu).r.b, false), zf: (spec_sub8(old(cpu).r.a, old(cpu).r.b, false) == 0), nf: true, hf: spec_sub8_h(old(cpu).r.a, old(cpu).r.b, false), cf: spec_sub8_c(old(cpu).r.a, old(cpu).r.b, false), ..old(cpu).r }), ..*old(cpu) }),
        r == 1,
{
    let v = cpu.r.b;
    sub_a(cpu, v);
    1
}

pub fn op_sub_c(cpu: &mut CPU, _mmu: &mut MMU) -> (r: Cycles)
    requires
        old(cpu).inv(),
    ensures
        final(cpu).inv(),
        final(_mmu)@ == old(_mmu)@,
        *final(cpu) == (CPU { r: (Registers { a: spec_sub8(old(cpu).r.a, old(cpu).r.c, false), zf: (spec_sub8(old(cpu).r.a, old(cpu).r.c, false) == 0), nf: true, hf: spec_sub8_h(old(cpu).r.a, old(cpu).r.c, false), cf: spec_sub8_c(old(cpu).r.a, old(cpu).r.c, false), ..old(cpu).r }), ..*old(cpu) }),
        r == 1,
{
    let v = cpu.r.c;
    sub_a(cpu, v);
    1
}

pub fn op_sub_d(cpu: &mut CPU, _mmu: &mut MMU) -> (r: Cycles)
    requires
        old(cpu).inv(),
    ensures
        final(cpu).inv(),
        final(_mmu)@ == old(_mmu)@,
        *final(cpu) == (CPU { r: (Registers { a: spec_sub8(old(cpu).r.a, old(cpu).r.d, false), zf: (spec_sub8(old(cpu).r.a, old(cpu).r.d, false) == 0), nf: true, hf: spec_sub8_h(old(cpu).r.a, old(cpu).r.d, false), cf: spec_sub8_c(old(cpu).r.a, old(cpu).r.d, false), ..old(cpu).r }), ..*old(cpu) }),
        r == 1,
{
    let v = cpu.r.d;
    sub_a(cpu, v);
    1
}

pub fn op_sub_e(cpu: &mut CPU, _mmu: &mut MMU) -> (r: Cycles)
    requires
        old(cpu).inv(),
    ensures
        final(cpu).inv(),
        final(_mmu)@ == old(_mmu)@,
        *final(cpu) == (CPU { r: (Registers { a: spec_sub8(old(cpu).r.a, old(cpu).r.e, false), zf: (spec_sub8(old(cpu).r.a, old(cpu).r.e, false) == 0), nf: true, hf: spec_sub8_h(old(cpu).r.a, old(cpu).r.e, false), cf: spec_sub8_c(old(cpu).r.a, old(cpu).r.e, false), ..old(cpu).r }), ..*old(cpu) }),
        r == 1,
{
    let v = cpu.r.e;
    sub_a(cpu, v);
    1
}

pub fn op_sub_h(cpu: &mut CPU, _mmu: &mut MMU) -> (r: Cycles)
    requires
        old(cpu).inv(),
    ensures
        final(cpu).inv(),
        final(_mmu)@ == old(_mmu)@,
        *final(cpu) == (CPU { r: (Registers { a: spec_sub8(old(cpu).r.a, old(cpu).r.h, false), zf: (spec_sub8(old(cpu).r.a, old(cpu).r.h, false) == 0), nf: true, hf: spec_sub8_h(old(cpu).r.a, old(cpu).r.h, false), cf: spec_sub8_c(old(cpu).r.a, old(cpu).r.h, false), ..old(cpu).r }), ..*old(cpu) }),
        r == 1,
{
    let v = cpu.r.h;
    sub_a(cpu, v);
    1
}

pub fn op_sub_l(cpu: &mut CPU, _mmu: &mut MMU) -> (r: Cycles)
    requires
        old(cpu).inv(),
    ensures
        final(cpu).inv(),
        final(_mmu)@ == old(_mmu)@,
        *final(cpu) == (CPU { r: (Registers { a: spec_sub8(old(cpu).r.a, old(cpu).r.l, false), zf: (spec_sub8(old(cpu).r.a, old(cpu).r.l, false) == 0), nf: true, hf: spec_sub8_h(old(cpu).r.a, old(cpu).r.l, false), cf: spec_sub8_c(old(cpu).r.a, old(cpu).r.l, false), ..old(cpu).r }), ..*old(cpu) }),
        r == 1,
{
    let v = cpu.r.l;
    sub_a(cpu, v);
    1
}

pub fn op_sub_a(cpu: &mut CPU, _mmu: &mut MMU) -> (r: Cycles)
    requires
        old(cpu).inv(),
    ensures
        final(cpu).inv(),
        final(_mmu)@ == old(_mmu)@,
        *final(cpu) == (CPU { r: (Registers { a: spec_sub8(old(cpu).r.a, old(cpu).r.a, false), zf: (spec_sub8(old(cpu).r.a, old(cpu).r.a, false) == 0), nf: true, hf: spec_sub8_h(old(cpu).r.a, old(cpu).r.a, false), cf: spec_sub8_c(old(cpu).r.a, old(cpu).r.a, false), ..old(cpu).r }), ..*old(cpu) }),
        r == 1,
{
    let v = cpu.r.a;
    sub_a(cpu, v);
    1
}

pub fn op_sub_hl(cpu: &mut CPU, mmu: &mut MMU) -> (r: Cycles)
    requires
        old(cpu).inv(),
        old(mmu)@.inv(),
        old(mmu)@.supported(),
    ensures
        final(cpu).inv(),
        final(mmu)@ == old(mmu)@,
        *final(cpu) == (CPU { r: (Registers { a: spec_sub8(old(cpu).r.a, old(mmu)@.rb(old(cpu).r.spec_hl()), false), zf: (spec_sub8(old(cpu).r.a, old(mmu)@.rb(old(cpu).r.spec_hl()), false) == 0), nf: true, hf: spec_sub8_h(old(cpu).r.a, old(mmu)@.rb(old(cpu).r.spec_hl()), false), cf: spec_sub8_c(old(cpu).r.a, old(mmu)@.rb(old(cpu).r.spec_hl()), false), ..old(cpu).r }), ..*old(cpu) }),
        r == 2,
{
    let addr = cpu.r.hl();
    let v = mmu.rb(addr);
    sub_a(cpu, v);
    2
}

pub fn op_sub_d8(cpu: &mut CPU, mmu: &mut MMU) -> (r: Cycles)
    requires
        old(cpu).inv(),
        old(mmu)@.inv(),
        old(mmu)@.supported(),
    ensures
        final(cpu).inv(),
        final(mmu)@ == old(mmu)@,
        *final(cpu) == (CPU { r: (Registers { a: spec_sub8(old(cpu).r.a, old(mmu)@.rb(old(cpu).r.pc), false), zf: (spec_sub8(old(cpu).r.a, old(mmu)@.rb(old(cpu).r.pc), false) == 0), nf: true, hf: spec_sub8_h(old(cpu).r.a, old(mmu)@.rb(old(cpu).r.pc), false), cf: spec_sub8_c(old(cpu).r.a, old(mmu)@.rb(old(cpu).r.pc), false), pc: w16(old(cpu).r.pc + 1), ..old(cpu).r }), ..*old(cpu) }),
        r == 2,
{
    let v = cpu.rb(mmu);
    sub_a(cpu, v);
    2
}

pub fn op_sbc_a_b(cpu: &mut CPU, _mmu: &mut MMU) -> (r: Cycles)
    requires
        old(cpu).inv(),
    ensures
        final(cpu).inv(),
        final(_mmu)@ == old(_mmu)@,
        *final(cpu) == (CPU { r: (Registers { a: spec_sub8(old(cpu).r.a, old(cpu).r.b, old(cpu).r.cf), zf: (spec_sub8(old(cpu).r.a, old(cpu).r.b, old(cpu).r.cf) == 0), nf: true, hf: spec_sub8_h(old(cpu).r.a, old(cpu).r.b, old(cpu).r.cf), cf: spec_sub8_c(old(cpu).r.a, old(cpu).r.b, old(cpu).r.cf), ..old(cpu).r }), ..*old(cpu) }),
        r == 1,
{
    let v = cpu.r.b;
    sbc_a(cpu, v);
    1
}

pub fn op_sbc_a_c(cpu: &mut CPU, _mmu: &mut MMU) -> (r: Cycles)
    requires
        old(cpu).inv(),
    ensures
        final(cpu).inv(),
        final(_mmu)@ == old(_mmu)@,
        *final(cpu) == (CPU { r: (Registers { a: spec_sub8(old(cpu).r.a, old(cpu).r.c, old(cpu).r.cf), zf: (spec_sub8(old(cpu).r.a, old(cpu).r.c, old(cpu).r.cf) == 0), nf: true, hf: spec_sub8_h(old(cpu).r.a, old(cpu).r.c, old(cpu).r.cf), cf: spec_sub8_c(old(cpu).r.a, old(cpu).r.c, old(cpu).r.cf), ..old(cpu).r }), ..*old(cpu) }),
        r == 1,
{
    let v = cpu.r.c;
    sbc_a(cpu, v);
    1
}

pub fn op_sbc_a_d(cpu: &mut CPU, _mmu: &mut MMU) -> (r: Cycles)
    requires
        old(cpu).inv(),
    ensures
        final(cpu).inv(),
        final(_mmu)@ == old(_mmu)@,
        *final(cpu) == (CPU { r: (Registers { a: spec_sub8(old(cpu).r.a, old(cpu).r.d, old(cpu).r.cf), zf: (spec_sub8(old(cpu).r.a, old(cpu).r.d, old(cpu).r.cf) == 0), nf: true, hf: spec_sub8_h(old(cpu).r.a, old(cpu).r.d, old(cpu).r.cf), cf: spec_sub8_c(old(cpu).r.a, old(cpu).r.d, old(cpu).r.cf), ..old(cpu).r }), ..*old(cpu) }),
        r == 1,
{
    let v = cpu.r.d;
    sbc_a(cpu, v);
    1
}

pub fn op_sbc_a_e(cpu: &mut CPU, _mmu: &mut MMU) -> (r: Cycles)
    requires
        old(cpu).inv(),
    ensures
        final(cpu).inv(),
        final(_mmu)@ == old(_mmu)@,
        *final(cpu) == (CPU { r: (Registers { a: spec_sub8(old(cpu).r.a, old(cpu).r.e, old(cpu).r.cf), zf: (spec_sub8(old(cpu).r.a, old(cpu).r.e, old(cpu).r.cf) == 0), nf: true, hf: spec_sub8_h(old(cpu).r.a, old(cpu).r.e, old(cpu).r.cf), cf: spec_sub8_c(old(cpu).r.a, old(cpu).r.e, old(cpu).r.cf), ..old(cpu).r }), ..*old(cpu) }),
        r == 1,
{
    let v = cpu.r.e;
    sbc_a(cpu, v);
    1
}

pub fn op_sbc_a_h(cpu: &mut CPU, _mmu: &mut MMU) -> (r: Cycles)
    requires
        old(cpu).inv(),
    ensures
        final(cpu).inv(),
        final(_mmu)@ == old(_mmu)@,
        *final(cpu) == (CPU { r: (Registers { a: spec_sub8(old(cpu).r.a, old(cpu).r.h, old(cpu).r.cf), zf: (spec_sub8(old(cpu).r.a, old(cpu).r.h, old(cpu).r.cf) == 0), nf: true, hf: spec_sub8_h(old(cpu).r.a, old(cpu).r.h, old(cpu).r.cf), cf: spec_sub8_c(old(cpu).r.a, old(cpu).r.h, old(cpu).r.cf), ..old(cpu).r }), ..*old(cpu) }),
        r == 1,
{
    let v = cpu.r.h;
    sbc_a(cpu, v);
    1
}

pub fn op_sbc_a_l(cpu: &mut CPU, _mmu: &mut MMU) -> (r: Cycles)
    requires
        old(cpu).inv(),
    ensures
        final(cpu).inv(),
        final(_mmu)@ == old(_mmu)@,
        *final(cpu) == (CPU { r: (Registers { a: spec_sub8(old(cpu).r.a, old(cpu).r.l, old(cpu).r.cf), zf: (spec_sub8(old(cpu).r.a, old(cpu).r.l, old(cpu).r.cf) == 0), nf: true, hf: spec_sub8_h(old(cpu).r.a, old(cpu).r.l, old(cpu).r.cf), cf: spec_sub8_c(old(cpu).r.a, old(cpu).r.l, old(cpu).r.cf), ..old(cpu).r }), ..*old(cpu) }),
        r == 1,
{
    let v = cpu.r.l;
    sbc_a(cpu, v);
    1
}

pub fn op_sbc_a_a(cpu: &mut CPU, _mmu: &mut MMU) -> (r: Cycles)
    requires
        old(cpu).inv(),
    ensures
        final(cpu).inv(),
        final(_mmu)@ == old(_mmu)@,
        *final(cpu) == (CPU { r: (Registers { a: spec_sub8(old(cpu).r.a, old(cpu).r.a, old(cpu).r.cf), zf: (spec_sub8(old(cpu).r.a, old(cpu).r.a, old(cpu).r.cf) == 0), nf: true, hf: spec_sub8_h(old(cpu).r.a, old(cpu).r.a, old(cpu).r.cf), cf: spec_sub8_c(old(cpu).r.a, old(cpu).r.a, old(cpu).r.cf), ..old(cpu).r }), ..*old(cpu) }),
        r == 1,
{
    let v = cpu.r.a;
    sbc_a(cpu, v);
    1
}

pub fn op_sbc_a_hl(cpu: &mut CPU, mmu: &mut MMU) -> (r: Cycles)
    requires
        old(cpu).inv(),
        old(mmu)@.inv(),
        old(mmu)@.supported(),
    ensures
        final(cpu).inv(),
        final(mmu)@ == old(mmu)@,
        *final(cpu) == (CPU { r: (Registers { a: spec_sub8(old(cpu).r.a, old(mmu)@.rb(old(cpu).r.spec_hl()), old(cpu).r.cf), zf: (spec_sub8(old(cpu).r.a, old(mmu)@.rb(old(cpu).r.spec_hl()), old(cpu).r.cf) == 0), nf: true, hf: spec_sub8_h(old(cpu).r.a, old(mmu)@.rb(old(cpu).r.spec_hl()), old(cpu).r.cf), cf: spec_sub8_c(old(cpu).r.a, old(mmu)@.rb(old(cpu).r.spec_hl()), old(cpu).r.cf), ..old(cpu).r }), ..*old(cpu) }),
        r == 2,
{
    let addr = cpu.r.hl();
    let v = mmu.rb(addr);
    sbc_a(cpu, v);
    2
}

pub fn op_sbc_a_d8(cpu: &mut CPU, mmu: &mut MMU) -> (r: Cycles)
    requires
        old(cpu).inv(),
        old(mmu)@.inv(),
        old(mmu)@.supported(),
    ensures
        final(cpu).inv(),
        final(mmu)@ == old(mmu)@,
        *final(cpu) == (CPU { r: (Registers { a: spec_sub8(old(cpu).r.a, old(mmu)@.rb(old(cpu).r.pc), old(cpu).r.cf), zf: (spec_sub8(old(cpu).r.a, old(mmu)@.rb(old(cpu).r.pc), old(cpu).r.cf) == 0), nf: true, hf: spec_sub8_h(old(cpu).r.a, old(mmu)@.rb(old(cpu).r.pc), old(cpu).r.cf), cf: spec_sub8_c(old(cpu).r.a, old(mmu)@.rb(old(cpu).r.pc), old(cpu).r.cf), pc: w16(old(cpu).r.pc + 1), ..old(cpu).r }), ..*old(cpu) }),
        r == 2,
{
    let v = cpu.rb(mmu);
    sbc_a(cpu, v);
    2
}

pub fn op_and_b(cpu: &mut CPU, _mmu: &mut MMU) -> (r: Cycles)
    requires
        old(cpu).inv(),
    ensures
        final(cpu).inv(),
        final(_mmu)@ == old(_mmu)@,
        *final(cpu) == (CPU { r: (Registers { a: (old(cpu).r.a & old(cpu).r.b), zf: ((old(cpu).r.a & old(cpu).r.b) == 0), nf: false, hf: true, cf: false, ..old(cpu).r }), ..*old(cpu) }),
        r == 1,
{
    let v = cpu.r.b;
    and_a(cpu, v);
    1
}

pub fn op_and_c(cpu: &mut CPU, _mmu: &mut MMU) -> (r: Cycles)
    requires
        old(cpu).inv(),
    ensures
        final(cpu).inv(),
        final(_mmu)@ == old(_mmu)@,
        *final(cpu) == (CPU { r: (Registers { a: (old(cpu).r.a & old(cpu).r.c), zf: ((old(cpu).r.a & old(cpu).r.c) == 0), nf: false, hf: true, cf: false, ..old(cpu).r }), ..*old(cpu) }),
        r == 1,
{
    let v = cpu.r.c;
    and_a(cpu, v);
    1
}

pub fn op_and_d(cpu: &mut CPU, _mmu: &mut MMU) -> (r: Cycles)
    requires
        old(cpu).inv(),
    ensures
        final(cpu).inv(),
        final(_mmu)@ == old(_mmu)@,
        *final(cpu) == (CPU { r: (Registers { a: (old(cpu).r.a & old(cpu).r.d), zf: ((old(cpu).r.a & old(cpu).r.d) == 0), nf: false, hf: true, cf: false, ..old(cpu).r }), ..*old(cpu) }),
        r == 1,
{
    let v = cpu.r.d;
    and_a(cpu, v);
    1
}

pub fn op_and_e(cpu: &mut CPU, _mmu: &mut MMU) -> (r: Cycles)
    requires
        old(cpu).inv(),
    ensures
        final(cpu).inv(),
        final(_mmu)@ == old(_mmu)@,
        *final(cpu) == (CPU { r: (Registers { a: (old(cpu).r.a & old(cpu).r.e), zf: ((old(cpu).r.a & old(cpu).r.e) == 0), nf: false, hf: true, cf: false, ..old(cpu).r }), ..*old(cpu) }),
        r == 1,
{
    let v = cpu.r.e;
    and_a(cpu, v);
    1
}

pub fn op_and_h(cpu: &mut CPU, _mmu: &mut MMU) -> (r: Cycles)
    requires
        old(cpu).inv(),
    ensures
        final(cpu).inv(),
        final(_mmu)@ == old(_mmu)@,
        *final(cpu) == (CPU { r: (Registers { a: (old(cpu).r.a & old(cpu).r.h), zf: ((old(cpu).r.a & old(cpu).r.h) == 0), nf: false, hf: true, cf: false, ..old(cpu).r }), ..*old(cpu) }),
        r == 1,
{
    let v = cpu.r.h;
    and_a(cpu, v);
    1
}

pub fn op_and_l(cpu: &mut CPU, _mmu: &mut MMU) -> (r: Cycles)
    requires
        old(cpu).inv(),
    ensures
        final(cpu).inv(),
        final(_mmu)@ == old(_mmu)@,
        *final(cpu) == (CPU { r: (Registers { a: (old(cpu).r.a & old(cpu).r.l), zf: ((old(cpu).r.a & old(cpu).r.l) == 0), nf: false, hf: true, cf: false, ..old(cpu).r }), ..*old(cpu) }),
        r == 1,
{
    let v = cpu.r.l;
    and_a(cpu, v);
    1
}

pub fn op_and_a(cpu: &mut CPU, _mmu: &mut MMU) -> (r: Cycles)
    requires
        old(cpu).inv(),
    ensures
        final(cpu).inv(),
        final(_mmu)@ == old(_mmu)@,
        *final(cpu) == (CPU { r: (Registers { a: (old(cpu).r.a & old(cpu).r.a), zf: ((old(cpu).r.a & old(cpu).r.a) == 0), nf: false, hf: true, cf: false, ..old(cpu).r }), ..*old(cpu) }),
        r == 1,
{
    let v = cpu.r.a;
    and_a(cpu, v);
    1
}

pub fn op_and_hl(cpu: &mut CPU, mmu: &mut MMU) -> (r: Cycles)
    requires
        old(cpu).inv(),
        old(mmu)@.inv(),
        old(mmu)@.supported(),
    ensures
        final(cpu).inv(),
        final(mmu)@ == old(mmu)@,
        *final(cpu) == (CPU { r: (Registers { a: (old(cpu).r.a & old(mmu)@.rb(old(cpu).r.spec_hl())), zf: ((old(cpu).r.a & old(mmu)@.rb(old(cpu).r.spec_hl())) == 0), nf: false, hf: true, cf: false, ..old(cpu).r }), ..*old(cpu) }),
        r == 2,
{
    let addr = cpu.r.hl();
    let v = mmu.rb(addr);
    and_a(cpu, v);
    2
}

pub fn op_and_d8(cpu: &mut CPU, mmu: &mut MMU) -> (r: Cycles)
    requires
        old(cpu).inv(),
        old(mmu)@.inv(),
        old(mmu)@.supported(),
    ensures
        final(cpu).inv(),
        final(mmu)@ == old(mmu)@,
        *final(cpu) == (CPU { r: (Registers { a: (old(cpu).r.a & old(mmu)@.rb(old(cpu).r.pc)), zf: ((old(cpu).r.a & old(mmu)@.rb(old(cpu).r.pc)) == 0), nf: false, hf: true, cf: false, pc: w16(old(cpu).r.pc + 1), ..old(cpu).r }), ..*old(cpu) }),
        r == 2,
{
    let v = cpu.rb(mmu);
    and_a(cpu, v);
    2
}

pub fn op_xor_b(cpu: &mut CPU, _mmu: &mut MMU) -> (r: Cycles)
    requires
        old(cpu).inv(),
    ensures
        final(cpu).inv(),
        final(_mmu)@ == old(_mmu)@,
        *final(cpu) == (CPU { r: (Registers { a: (old(cpu).r.a ^ old(cpu).r.b), zf: ((old(cpu).r.a ^ old(cpu).r.b) == 0), nf: false, hf: false, cf: false, ..old(cpu).r }), ..*old(cpu) }),
        r == 1,
{
    let v = cpu.r.b;
    xor_a(cpu, v);
    1
}

pub fn op_xor_c(cpu: &mut CPU, _mmu: &mut MMU) -> (r: Cycles)
    requires
        old(cpu).inv(),
    ensures
        final(cpu).inv(),
        final(_mmu)@ == old(_mmu)@,
        *final(cpu) == (CPU { r: (Registers { a: (old(cpu).r.a ^ old(cpu).r.c), zf: ((old(cpu).r.a ^ old(cpu).r.c) == 0), nf: false, hf: false, cf: false, ..old(cpu).r }), ..*old(cpu) }),
        r == 1,
{
    let v = cpu.r.c;
    xor_a(cpu, v);
    1
}

pub fn op_xor_d(cpu: &mut CPU, _mmu: &mut MMU) -> (r: Cycles)
    requires
        old(cpu).inv(),
    ensures
        final(cpu).inv(),
        final(_mmu)@ == old(_mmu)@,
        *final(cpu) == (CPU { r: (Registers { a: (old(cpu).r.a ^ old(cpu).r.d), zf: ((old(cpu).r.a ^ old(cpu).r.d) == 0), nf: false, hf: false, cf: false, ..old(cpu).r }), ..*old(cpu) }),
        r == 1,
{
    let v = cpu.r.d;
    xor_a(cpu, v);
    1
}

pub fn op_xor_e(cpu: &mut CPU, _mmu: &mut MMU) -> (r: Cycles)
    requires
        old(cpu).inv(),
    ensures
        final(cpu).inv(),
        final(_mmu)@ == old(_mmu)@,
        *final(cpu) == (CPU { r: (Registers { a: (old(cpu).r.a ^ old(cpu).r.e), zf: ((old(cpu).r.a ^ old(cpu).r.e) == 0), nf: false, hf: false, cf: false, ..old(cpu).r }), ..*old(cpu) }),
        r == 1,
{
    let v = cpu.r.e;
    xor_a(cpu, v);
    1
}

pub fn op_xor_h(cpu: &mut CPU, _mmu: &mut MMU) -> (r: Cycles)
    requires
        old(cpu).inv(),
    ensures
        final(cpu).inv(),
        final(_mmu)@ == old(_mmu)@,
        *final(cpu) == (CPU { r: (Registers { a: (old(cpu).r.a ^ old(cpu).r.h), zf: ((old(cpu).r.a ^ old(cpu).r.h) == 0), nf: false, hf: false, cf: false, ..old(cpu).r }), ..*old(cpu) }),
        r == 1,
{
    let v = cpu.r.h;
    xor_a(cpu, v);
    1
}

pub fn op_xor_l(cpu: &mut CPU, _mmu: &mut MMU) -> (r: Cycles)
    requires
        old(cpu).inv(),
    ensures
        final(cpu).inv(),
        final(_mmu)@ == old(_mmu)@,
        *final(cpu) == (CPU { r: (Registers { a: (old(cpu).r.a ^ old(cpu).r.l), zf: ((old(cpu).r.a ^ old(cpu).r.l) == 0), nf: false, hf: false, cf: false, ..old(cpu).r }), ..*old(cpu) }),
        r == 1,
{
    let v = cpu.r.l;
    xor_a(cpu, v);
    1
}

pub fn op_xor_a(cpu: &mut CPU, _mmu: &mut MMU) -> (r: Cycles)
    requires
        old(cpu).inv(),
    ensures
        final(cpu).inv(),
        final(_mmu)@ == old(_mmu)@,
        *final(cpu) == (CPU { r: (Registers { a: (old(cpu).r.a ^ old(cpu).r.a), zf: ((old(cpu).r.a ^ old(cpu).r.a) == 0), nf: false, hf: false, cf: false, ..old(cpu).r }), ..*old(cpu) }),
        r == 1,
{
    let v = cpu.r.a;
    xor_a(cpu, v);
    1
}

pub fn op_xor_hl(cpu: &mut CPU, mmu: &mut MMU) -> (r: Cycles)
    requires
        old(cpu).inv(),
        old(mmu)@.inv(),
        old(mmu)@.supported(),
    ensures
        final(cpu).inv(),
        final(mmu)@ == old(mmu)@,
        *final(cpu) == (CPU { r: (Registers { a: (old(cpu).r.a ^ old(mmu)@.rb(old(cpu).r.spec_hl())), zf: ((old(cpu).r.a ^ old(mmu)@.rb(old(cpu).r.spec_hl())) == 0), nf: false, hf: false, cf: false, ..old(cpu).r }), ..*old(cpu) }),
        r == 2,
{
    let addr = cpu.r.hl();
    let v = mmu.rb(addr);
    xor_a(cpu, v);
    2
}

pub fn op_xor_d8(cpu: &mut CPU, mmu: &mut MMU) -> (r: Cycles)
    requires
        old(cpu).inv(),
        old(mmu)@.inv(),
        old(mmu)@.supported(),
    ensures
        final(cpu).inv(),
        final(mmu)@ == old(mmu)@,
        *final(cpu) == (CPU { r: (Registers { a: (old(cpu).r.a ^ old(mmu)@.rb(old(cpu).r.pc)), zf: ((old(cpu).r.a ^ old(mmu)@.rb(old(cpu).r.pc)) == 0), nf: false, hf: false, cf: false, pc: w16(old(cpu).r.pc + 1), ..old(cpu).r }), ..*old(cpu) }),
        r == 2,
{
    let v = cpu.rb(mmu);
    xor_a(cpu, v);
    2
}

pub fn op_or_b(cpu: &mut CPU, _mmu: &mut MMU) -> (r: Cycles)
    requires
        old(cpu).inv(),
    ensures
        final(cpu).inv(),
        final(_mmu)@ == old(_mmu)@,
        *final(cpu) == (CPU { r: (Registers { a: (old(cpu).r.a | old(cpu).r.b), zf: ((old(cpu).r.a | old(cpu).r.b) == 0), nf: false, hf: false, cf: false, ..old(cpu).r }), ..*old(cpu) }),
        r == 1,
{
    let v = cpu.r.b;
    or_a(cpu, v);
    1
}

pub fn op_or_c(cpu: &mut CPU, _mmu: &mut MMU) -> (r: Cycles)
    requires
        old(cpu).inv(),
    ensures
        final(cpu).inv(),
        final(_mmu)@ == old(_mmu)@,
        *final(cpu) == (CPU { r: (Registers { a: (old(cpu).r.a | old(cpu).r.c), zf: ((old(cpu).r.a | old(cpu).r.c) == 0), nf: false, hf: false, cf: false, ..old(cpu).r }), ..*old(cpu) }),
        r == 1,
{
    let v = cpu.r.c;
    or_a(cpu, v);
    1
}

pub fn op_or_d(cpu: &mut CPU, _mmu: &mut MMU) -> (r: Cycles)
    requires
        old(cpu).inv(),
    ensures
        final(cpu).inv(),
        final(_mmu)@ == old(_mmu)@,
        *final(cpu) == (CPU { r: (Registers { a: (old(cpu).r.a | old(cpu).r.d), zf: ((old(cpu).r.a | old(cpu).r.d) == 0), nf: false, hf: false, cf: false, ..old(cpu).r }), ..*old(cpu) }),
        r == 1,
{
    let v = cpu.r.d;
    or_a(cpu, v);
    1
}

pub fn op_or_e(cpu: &mut CPU, _mmu: &mut MMU) -> (r: Cycles)
    requires
        old(cpu).inv(),
    ensures
        final(cpu).inv(),
        final(_mmu)@ == old(_mmu)@,
        *final(cpu) == (CPU { r: (Registers { a: (old(cpu).r.a | old(cpu).r.e), zf: ((old(cpu).r.a | old(cpu).r.e) == 0), nf: false, hf: false, cf: false, ..old(cpu).r }), ..*old(cpu) }),
        r == 1,
{
    let v = cpu.r.e;
    or_a(cpu, v);
    1
}

pub fn op_or_h(cpu: &mut CPU, _mmu: &mut MMU) -> (r: Cycles)
    requires
        old(cpu).inv(),
    ensures
        final(cpu).inv(),
        final(_mmu)@ == old(_mmu)@,
        *final(cpu) == (CPU { r: (Registers { a: (old(cpu).r.a | old(cpu).r.h), zf: ((old(cpu).r.a | old(cpu).r.h) == 0), nf: false, hf: false, cf: false, ..old(cpu).r }), ..*old(cpu) }),
        r == 1,
{
    let v = cpu.r.h;
    or_a(cpu, v);
    1
}

pub fn op_or_l(cpu: &mut CPU, _mmu: &mut MMU) -> (r: Cycles)
    requires
        old(cpu).inv(),
    ensures
        final(cpu).inv(),
        final(_mmu)@ == old(_mmu)@,
        *final(cpu) == (CPU { r: (Registers { a: (old(cpu).r.a | old(cpu).r.l), zf: ((old(cpu).r.a | old(cpu).r.l) == 0), nf: false, hf: false, cf: false, ..old(cpu).r }), ..*old(cpu) }),
        r == 1,
{
    let v = cpu.r.l;
    or_a(cpu, v);
    1
}

pub fn op_or_a(cpu: &mut CPU, _mmu: &mut MMU) -> (r: Cycles)
    requires
        old(cpu).inv(),
    ensures
        final(cpu).inv(),
        final(_mmu)@ == old(_mmu)@,
        *final(cpu) == (CPU { r: (Registers { a: (old(cpu).r.a | old(cpu).r.a), zf: ((old(cpu).r.a | old(cpu).r.a) == 0), nf: false, hf: false, cf: false, ..old(cpu).r }), ..*old(cpu) }),
        r == 1,
{
    let v = cpu.r.a;
    or_a(cpu, v);
    1
}

pub fn op_or_hl(cpu: &mut CPU, mmu: &mut MMU) -> (r: Cycles)
    requires
        old(cpu).inv(),
        old(mmu)@.inv(),
        old(mmu)@.supported(),
    ensures
        final(cpu).inv(),
        final(mmu)@ == old(mmu)@,
        *final(cpu) == (CPU { r: (Registers { a: (old(cpu).r.a | old(mmu)@.rb(old(cpu).r.spec_hl())), zf: ((old(cpu).r.a | old(mmu)@.rb(old(cpu).r.spec_hl())) == 0), nf: false, hf: false, cf: false, ..old(cpu).r }), ..*old(cpu) }),
        r == 2,
{
    let addr = cpu.r.hl();
    let v = mmu.rb(addr);
    or_a(cpu, v);
    2
}

pub fn op_or_d8(cpu: &mut CPU, mmu: &mut MMU) -> (r: Cycles)
    requires
        old(cpu).inv(),
        old(mmu)@.inv(),
        old(mmu)@.supported(),
    ensures
        final(cpu).inv(),
        final(mmu)@ == old(mmu)@,
        *final(cpu) == (CPU { r: (Registers { a: (old(cpu).r.a | old(mmu)@.rb(old(cpu).r.pc)), zf: ((old(cpu).r.a | old(mmu)@.rb(old(cpu).r.pc)) == 0), nf: false, hf: false, cf: false, pc: w16(old(cpu).r.pc + 1), ..old(cpu).r }), ..*old(cpu) }),
        r == 2,
{
    let v = cpu.rb(mmu);
    or_a(cpu, v);
    2
}

pub fn op_cp_b(cpu: &mut CPU, _mmu: &mut MMU) -> (r: Cycles)
    requires
        old(cpu).inv(),
    ensures
        final(cpu).inv(),
        final(_mmu)@ == old(_mmu)@,
        *final(cpu) == (CPU { r: (Registers { zf: (spec_sub8(old(cpu).r.a, old(cpu).r.b, false) == 0), nf: true, hf: spec_sub8_h(old(cpu).r.a, old(cpu).r.b, false), cf: spec_sub8_c(old(cpu).r.a, old(cpu).r.b, false), ..old(cpu).r }), ..*old(cpu) }),
        r == 1,
{
    let v = cpu.r.b;
    cp_a(cpu, v);
    1
}

pub fn op_cp_c(cpu: &mut CPU, _mmu: &mut MMU) -> (r: Cycles)
    requires
        old(cpu).inv(),
    ensures
        final(cpu).inv(),
        final(_mmu)@ == old(_mmu)@,
        *final(cpu) == (CPU { r: (Registers { zf: (spec_sub8(old(cpu).r.a, old(cpu).r.c, false) == 0), nf: true, hf: spec_sub8_h(old(cpu).r.a, old(cpu).r.c, false), cf: spec_sub8_c(old(cpu).r.a, old(cpu).r.c, false), ..old(cpu).r }), ..*old(cpu) }),
        r == 1,
{
    let v = cpu.r.c;
    cp_a(cpu, v);
    1
}

pub fn op_cp_d(cpu: &mut CPU, _mmu: &mut MMU) -> (r: Cycles)
    requires
        old(cpu).inv(),
    ensures
        final(cpu).inv(),
        final(_mmu)@ == old(_mmu)@,
        *final(cpu) == (CPU { r: (Registers { zf: (spec_sub8(old(cpu).r.a, old(cpu).r.d, false) == 0), nf: true, hf: spec_sub8_h(old(cpu).r.a, old(cpu).r.d, false), cf: spec_sub8_c(old(cpu).r.a, old(cpu).r.d, false), ..old(cpu).r }), ..*old(cpu) }),
        r == 1,
{
    let v = cpu.r.d;
    cp_a(cpu, v);
    1
}

pub fn op_cp_e(cpu: &mut CPU, _mmu: &mut MMU) -> (r: Cycles)
    requires
        old(cpu).inv(),
    ensures
        final(cpu).inv(),
        final(_mmu)@ == old(_mmu)@,
        *final(cpu) == (CPU { r: (Registers { zf: (spec_sub8(old(cpu).r.a, old(cpu).r.e, false) == 0), nf: true, hf: spec_sub8_h(old(cpu).r.a, old(cpu).r.e, false), cf: spec_sub8_c(old(cpu).r.a, old(cpu).r.e, false), ..old(cpu).r }), ..*old(cpu) }),
        r == 1,
{
    let v = cpu.r.e;
    cp_a(cpu, v);
    1
}

pub fn op_cp_h(cpu: &mut CPU, _mmu: &mut MMU) -> (r: Cycles)
    requires
        old(cpu).inv(),
    ensures
        final(cpu).inv(),
        final(_mmu)@ == old(_mmu)@,
        *final(cpu) == (CPU { r: (Registers { zf: (spec_sub8(old(cpu).r.a, old(cpu).r.h, false) == 0), nf: true, hf: spec_sub8_h(old(cpu).r.a, old(cpu).r.h, false), cf: spec_sub8_c(old(cpu).r.a, old(cpu).r.h, false), ..old(cpu).r }), ..*old(cpu) }),
        r == 1,
{
    let v = cpu.r.h;
    cp_a(cpu, v);
    1
}

pub fn op_cp_l(cpu: &mut CPU, _mmu: &mut MMU) -> (r: Cycles)
    requires
        old(cpu).inv(),
    ensures
        final(cpu).inv(),
        final(_mmu)@ == old(_mmu)@,
        *final(cpu) == (CPU { r: (Registers { zf: (spec_sub8(old(cpu).r.a, old(cpu).r.l, false) == 0), nf: true, hf: spec_sub8_h(old(cpu).r.a, old(cpu).r.l, false), cf: spec_sub8_c(old(cpu).r.a, old(cpu).r.l, false), ..old(cpu).r }), ..*old(cpu) }),
        r == 1,
{
    let v = cpu.r.l;
    cp_a(cpu, v);
    1
}

pub fn op_cp_a(cpu: &mut CPU, _mmu: &mut MMU) -> (r: Cycles)
    requires
        old(cpu).inv(),
    ensures
        final(cpu).inv(),
        final(_mmu)@ == old(_mmu)@,
        *final(cpu) == (CPU { r: (Registers { zf: (spec_sub8(old(cpu).r.a, old(cpu).r.a, false) == 0), nf: true, hf: spec_sub8_h(old(cpu).r.a, old(cpu).r.a, false), cf: spec_sub8_c(old(cpu).r.a, old(cpu).r.a, false), ..old(cpu).r }), ..*old(cpu) }),
        r == 1,
{
    let v = cpu.r.a;
    cp_a(cpu, v);
    1
}

pub fn op_cp_hl(cpu: &mut CPU, mmu: &mut MMU) -> (r: Cycles)
    requires
        old(cpu).inv(),
        old(mmu)@.inv(),
        old(mmu)@.supported(),
    ensures
        final(cpu).inv(),
        final(mmu)@ == old(mmu)@,
        *final(cpu) == (CPU { r: (Registers { zf: (spec_sub8(old(cpu).r.a, old(mmu)@.rb(old(cpu).r.spec_hl()), false) == 0), nf: true, hf: spec_sub8_h(old(cpu).r.a, old(mmu)@.rb(old(cpu).r.spec_hl()), false), cf: spec_sub8_c(old(cpu).r.a, old(mmu)@.rb(old(cpu).r.spec_hl()), false), ..old(cpu).r }), ..*old(cpu) }),
        r == 2,
{
    let addr = cpu.r.hl();
    let v = mmu.rb(addr);
    cp_a(cpu, v);
    2
}

pub fn op_cp_d8(cpu: &mut CPU, mmu: &mut MMU) -> (r: Cycles)
    requires
        old(cpu).inv(),
        old(mmu)@.inv(),
        old(mmu)@.supported(),
    ensures
        final(cpu).inv(),
        final(mmu)@ == old(mmu)@,
        *final(cpu) == (CPU { r: (Registers { zf: (spec_sub8(old(cpu).r.a, old(mmu)@.rb(old(cpu).r.pc), false) == 0), nf: true, hf: spec_sub8_h(old(cpu).r.a, old(mmu)@.rb(old(cpu).r.pc), false), cf: spec_sub8_c(old(cpu).r.a, old(mmu)@.rb(old(cpu).r.pc), false), pc: w16(old(cpu).r.pc + 1), ..old(cpu).r }), ..*old(cpu) }),
        r == 2,
{
    let v = cpu.rb(mmu);
    cp_a(cpu, v);
    2
}

pub fn op_inc_b(cpu: &mut CPU, _mmu: &mut MMU) -> (r: Cycles)
    requires
        old(cpu).inv(),
    ensures
        final(cpu).inv(),
        final(_mmu)@ == old(_mmu)@,
        *final(cpu) == (CPU { r: (Registers { b: w8(old(cpu).r.b + 1), zf: (w8(old(cpu).r.b + 1) == 0), nf: false, hf: (old(cpu).r.b % 16 == 0x0F), ..old(cpu).r }), ..*old(cpu) }),
        r == 1,
{
    let v = cpu.r.b;
    let res = inc8(cpu, v);
    cpu.r.b = res;
    1
}

pub fn op_dec_b(cpu: &mut CPU, _mmu: &mut MMU) -> (r: Cycles)
    requires
        old(cpu).inv(),
    ensures
        final(cpu).inv(),
        final(_mmu)@ == old(_mmu)@,
        *final(cpu) == (CPU { r: (Registers { b: w8(old(cpu).r.b - 1), zf: (w8(old(cpu).r.b - 1) == 0), nf: true, hf: (old(cpu).r.b % 16 == 0), ..old(cpu).r }), ..*old(cpu) }),
        r == 1,
{
    let v = cpu.r.b;
    let res = dec8(cpu, v);
    cpu.r.b = res;
    1
}

pub fn op_inc_c(cpu: &mut CPU, _mmu: &mut MMU) -> (r: Cycles)
    requires
        old(cpu).inv(),
    ensures
        final(cpu).inv(),
        final(_mmu)@ == old(_mmu)@,
        *final(cpu) == (CPU { r: (Registers { c: w8(old(cpu).r.c + 1), zf: (w8(old(cpu).r.c + 1) == 0), nf: false, hf: (old(cpu).r.c % 16 == 0x0F), ..old(cpu).r }), ..*old(cpu) }),
        r == 1,
{
    let v = cpu.r.c;
    let res = inc8(cpu, v);
    cpu.r.c = res;
    1
}

pub fn op_dec_c(cpu: &mut CPU, _mmu: &mut MMU) -> (r: Cycles)
    requires
        old(cpu).inv(),
    ensures
        final(cpu).inv(),
        final(_mmu)@ == old(_mmu)@,
        *final(cpu) == (CPU { r: (Registers { c: w8(old(cpu).r.c - 1), zf: (w8(old(cpu).r.c - 1) == 0), nf: true, hf: (old(cpu).r.c % 16 == 0), ..old(cpu).r }), ..*old(cpu) }),
        r == 1,
{
    let v = cpu.r.c;
    let res = dec8(cpu, v);
    cpu.r.c = res;
    1
}

pub fn op_inc_d(cpu: &mut CPU, _mmu: &mut MMU) -> (r: Cycles)
    requires
        old(cpu).inv(),
    ensures
        final(cpu).inv(),
        final(_mmu)@ == old(_mmu)@,
        *final(cpu) == (CPU { r: (Registers { d: w8(old(cpu).r.d + 1), zf: (w8(old(cpu).r.d + 1) == 0), nf: false, hf: (old(cpu).r.d % 16 == 0x0F), ..old(cpu).r }), ..*old(cpu) }),
        r == 1,
{
    let v = cpu.r.d;
    let res = inc8(cpu, v);
    cpu.r.d = res;
    1
}

pub fn op_dec_d(cpu: &mut CPU, _mmu: &mut MMU) -> (r: Cycles)
    requires
        old(cpu).inv(),
    ensures
        final(cpu).inv(),
        final(_mmu)@ == old(_mmu)@,
        *final(cpu) == (CPU { r: (Registers { d: w8(old(cpu).r.d - 1), zf: (w8(old(cpu).r.d - 1) == 0), nf: true, hf: (old(cpu).r.d % 16 == 0), ..old(cpu).r }), ..*old(cpu) }),
        r == 1,
{
    let v = cpu.r.d;
    let res = dec8(cpu, v);
    cpu.r.d = res;
    1
}

pub fn op_inc_e(cpu: &mut CPU, _mmu: &mut MMU) -> (r: Cycles)
    requires
        old(cpu).inv(),
    ensures
        final(cpu).inv(),
        final(_mmu)@ == old(_mmu)@,
        *final(cpu) == (CPU { r: (Registers { e: w8(old(cpu).r.e + 1), zf: (w8(old(cpu).r.e + 1) == 0), nf: false, hf: (old(cpu).r.e % 16 == 0x0F), ..old(cpu).r }), ..*old(cpu) }),
        r == 1,
{
    let v = cpu.r.e;
    let res = inc8(cpu, v);
    cpu.r.e = res;
    1
}

pub fn op_dec_e(cpu: &mut CPU, _mmu: &mut MMU) -> (r: Cycles)
    requires
        old(cpu).inv(),
    ensures
        final(cpu).inv(),
        final(_mmu)@ == old(_mmu)@,
        *final(cpu) == (CPU { r: (Registers { e: w8(old(cpu).r.e - 1), zf: (w8(old(cpu).r.e - 1) == 0), nf: true, hf: (old(cpu).r.e % 16 == 0), ..old(cpu).r }), ..*old(cpu) }),
        r == 1,
{
    let v = cpu.r.e;
    let res = dec8(cpu, v);
    cpu.r.e = res;
    1
}

pub fn op_inc_h(cpu: &mut CPU, _mmu: &mut MMU) -> (r: Cycles)
    requires
        old(cpu).inv(),
    ensures
        final(cpu).inv(),
        final(_mmu)@ == old(_mmu)@,
        *final(cpu) == (CPU { r: (Registers { h: w8(old(cpu).r.h + 1), zf: (w8(old(cpu).r.h + 1) == 0), nf: false, hf: (old(cpu).r.h % 16 == 0x0F), ..old(cpu).r }), ..*old(cpu) }),
        r == 1,
{
    let v = cpu.r.h;
    let res = inc8(cpu, v);
    cpu.r.h = res;
    1
}

pub fn op_dec_h(cpu: &mut CPU, _mmu: &mut MMU) -> (r: Cycles)
    requires
        old(cpu).inv(),
    ensures
        final(cpu).inv(),
        final(_mmu)@ == old(_mmu)@,
        *final(cpu) == (CPU { r: (Registers { h: w8(old(cpu).r.h - 1), zf: (w8(old(cpu).r.h - 1) == 0), nf: true, hf: (old(cpu).r.h % 16 == 0), ..old(cpu).r }), ..*old(cpu) }),
        r == 1,
{
    let v = cpu.r.h;
    let res = dec8(cpu, v);
    cpu.r.h = res;
    1
}

pub fn op_inc_l(cpu: &mut CPU, _mmu: &mut MMU) -> (r: Cycles)
    requires
        old(cpu).inv(),
    ensures
        final(cpu).inv(),
        final(_mmu)@ == old(_mmu)@,
        *final(cpu) == (CPU { r: (Registers { l: w8(old(cpu).r.l + 1), zf: (w8(old(cpu).r.l + 1) == 0), nf: false, hf: (old(cpu).r.l % 16 == 0x0F), ..old(cpu).r }), ..*old(cpu) }),
        r == 1,
{
    let v = cpu.r.l;
    let res = inc8(cpu, v);
    cpu.r.l = res;
    1
}

pub fn op_dec_l(cpu: &mut CPU, _mmu: &mut MMU) -> (r: Cycles)
    requires
        old(cpu).inv(),
    ensures
        final(cpu).inv(),
        final(_mmu)@ == old(_mmu)@,
        *final(cpu) == (CPU { r: (Registers { l: w8(old(cpu).r.l - 1), zf: (w8(old(cpu).r.l - 1) == 0), nf: true, hf: (old(cpu).r.l % 16 == 0), ..old(cpu).r }), ..*old(cpu) }),
        r == 1,
{
    let v = cpu.r.l;
    let res = dec8(cpu, v);
    cpu.r.l = res;
    1
}

pub fn op_inc_a(cpu: &mut CPU, _mmu: &mut MMU) -> (r: Cycles)
    requires
        old(cpu).inv(),
    ensures
        final(cpu).inv(),
        final(_mmu)@ == old(_mmu)@,
        *final(cpu) == (CPU { r: (Registers { a: w8(old(cpu).r.a + 1), zf: (w8(old(cpu).r.a + 1) == 0), nf: false, hf: (old(cpu).r.a % 16 == 0x0F), ..old(cpu).r }), ..*old(cpu) }),
        r == 1,
{
    let v = cpu.r.a;
    let res = inc8(cpu, v);
    cpu.r.a = res;
    1
}

pub fn op_dec_a(cpu: &mut CPU, _mmu: &mut MMU) -> (r: Cycles)
    requires
        old(cpu).inv(),
    ensures
        final(cpu).inv(),
        final(_mmu)@ == old(_mmu)@,
        *final(cpu) == (CPU { r: (Registers { a: w8(old(cpu).r.a - 1), zf: (w8(old(cpu).r.a - 1) == 0), nf: true, hf: (old(cpu).r.a % 16 == 0), ..old(cpu).r }), ..*old(cpu) }),
        r == 1,
{
    let v = cpu.r.a;
    let res = dec8(cpu, v);
    cpu.r.a = res;
    1
}

pub fn op_inc_bc(cpu: &mut CPU, _mmu: &mut MMU) -> (r: Cycles)
    requires
        old(cpu).inv(),
    ensures
        final(cpu).inv(),
        final(_mmu)@ == old(_mmu)@,
        *final(cpu) == (CPU { r: old(cpu).r.spec_with_bc(w16(old(cpu).r.spec_bc() + 1)), ..*old(cpu) }),
        r == 2,
{
    let v = cpu.r.bc();
    let nv = crate::bits::wadd16(v, 1);
    cpu.r.set_bc(nv);
    2
}

pub fn op_dec_bc(cpu: &mut CPU, _mmu: &mut MMU) -> (r: Cycles)
    requires
        old(cpu).inv(),
    ensures
        final(cpu).inv(),
        final(_mmu)@ == old(_mmu)@,
        *final(cpu) == (CPU { r: old(cpu).r.spec_with_bc(w16(old(cpu).r.spec_bc() - 1)), ..*old(cpu) }),
        r == 2,
{
    let v = cpu.r.bc();
    let nv = crate::bits::wsub16(v, 1);
    cpu.r.set_bc(nv);
    2
}

pub fn op_inc_de(cpu: &mut CPU, _mmu: &mut MMU) -> (r: Cycles)
    requires
        old(cpu).inv(),
    ensures
        final(cpu).inv(),
        final(_mmu)@ == old(_mmu)@,
        *final(cpu) == (CPU { r: old(cpu).r.spec_with_de(w16(old(cpu).r.spec_de() + 1)), ..*old(cpu) }),
        r == 2,
{
    let v = cpu.r.de();
    let nv = crate::bits::wadd16(v, 1);
    cpu.r.set_de(nv);
    2
}

pub fn op_dec_de(cpu: &mut CPU, _mmu: &mut MMU) -> (r: Cycles)
    requires
        old(cpu).inv(),
    ensures
        final(cpu).inv(),
        final(_mmu)@ == old(_mmu)@,
        *final(cpu) == (CPU { r: old(cpu).r.spec_with_de(w16(old(cpu).r.spec_de() - 1)), ..*old(cpu) }),
        r == 2,
{
    let v = cpu.r.de();
    let nv = crate::bits::wsub16(v, 1);
    cpu.r.set_de(nv);
    2
}

pub fn op_inc_hl(cpu: &mut CPU, _mmu: &mut MMU) -> (r: Cycles)
    requires
        old(cpu).inv(),
    ensures
        final(cpu).inv(),
        final(_mmu)@ == old(_mmu)@,
        *final(cpu) == (CPU { r: old(cpu).r.spec_with_hl(w16(old(cpu).r.spec_hl() + 1)), ..*old(cpu) }),
        r == 2,
{
    let v = cpu.r.hl();
    let nv = crate::bits::wadd16(v, 1);
    cpu.r.set_hl(nv);
    2
}

pub fn op_dec_hl(cpu: &mut CPU, _mmu: &mut MMU) -> (r: Cycles)
    requires
        old(cpu).inv(),
    ensures
        final(cpu).inv(),
        final(_mmu)@ == old(_mmu)@,
        *final(cpu) == (CPU { r: old(cpu).r.spec_with_hl(w16(old(cpu).r.spec_hl() - 1)), ..*old(cpu) }),
        r == 2,
{
    let v = cpu.r.hl();
    let nv = crate::bits::wsub16(v, 1);
    cpu.r.set_hl(nv);
    2
}

pub fn op_inc_sp(cpu: &mut CPU, _mmu: &mut MMU) -> (r: Cycles)
    requires
        old(cpu).inv(),
    ensures
        final(cpu).inv(),
        final(_mmu)@ == old(_mmu)@,
        *final(cpu) == (CPU { r: (Registers { sp: w16(old(cpu).r.sp + 1), ..old(cpu).r }), ..*old(cpu) }),
        r == 2,
{
    cpu.sp_inc(1);
    2
}

pub fn op_dec_sp(cpu: &mut CPU, _mmu: &mut MMU) -> (r: Cycles)
    requires
        old(cpu).inv(),
    ensures
        final(cpu).inv(),
        final(_mmu)@ == old(_mmu)@,
        *final(cpu) == (CPU { r: (Registers { sp: w16(old(cpu).r.sp - 1), ..old(cpu).r }), ..*old(cpu) }),
        r == 2,
{
    cpu.sp_sub(1);
    2
}

pub fn op_add_hl_bc(cpu: &mut CPU, _mmu: &mut MMU) -> (r: Cycles)
    requires
        old(cpu).inv(),
    ensures
        final(cpu).inv(),
        final(_mmu)@ == old(_mmu)@,
        *final(cpu) == (CPU { r: (Registers { nf: false, hf: spec_addhl_h(old(cpu).r.spec_hl(), old(cpu).r.spec_bc()), cf: spec_addhl_c(old(cpu).r.spec_hl(), old(cpu).r.spec_bc()), ..old(cpu).r.spec_with_hl(w16(old(cpu).r.spec_hl() + old(cpu).r.spec_bc())) }), ..*old(cpu) }),
        r == 2,
{
    let v = cpu.r.bc();
    add_hl(cpu, v);
    2
}

pub fn op_add_hl_de(cpu: &mut CPU, _mmu: &mut MMU) -> (r: Cycles)
    requires
        old(cpu).inv(),
    ensures
        final(cpu).inv(),
        final(_mmu)@ == old(_mmu)@,
        *final(cpu) == (CPU { r: (Registers { nf: false, hf: spec_addhl_h(old(cpu).r.spec_hl(), old(cpu).r.spec_de()), cf: spec_addhl_c(old(cpu).r.spec_hl(), old(cpu).r.spec_de()), ..old(cpu).r.spec_with_hl(w16(old(cpu).r.spec_hl() + old(cpu).r.spec_de())) }), ..*old(cpu) }),
        r == 2,
{
    let v = cpu.r.de();
    add_hl(cpu, v);
    2
}

pub fn op_add_hl_hl(cpu: &mut CPU, _mmu: &mut MMU) -> (r: Cycles)
    requires
        old(cpu).inv(),
    ensures
        final(cpu).inv(),
        final(_mmu)@ == old(_mmu)@,
        *final(cpu) == (CPU { r: (Registers { nf: false, hf: spec_addhl_h(old(cpu).r.spec_hl(), old(cpu).r.spec_hl()), cf: spec_addhl_c(old(cpu).r.spec_hl(), old(cpu).r.spec_hl()), ..old(cpu).r.spec_with_hl(w16(old(cpu).r.spec_hl() + old(cpu).r.spec_hl())) }), ..*old(cpu) }),
        r == 2,
{
    let v = cpu.r.hl();
    add_hl(cpu, v);
    2
}

pub fn op_add_hl_sp(cpu: &mut CPU, _mmu: &mut MMU) -> (r: Cycles)
    requires
        old(cpu).inv(),
    ensures
        final(cpu).inv(),
        final(_mmu)@ == old(_mmu)@,
        *final(cpu) == (CPU { r: (Registers { nf: false, hf: spec_addhl_h(old(cpu).r.spec_hl(), old(cpu).r.sp), cf: spec_addhl_c(old(cpu).r.spec_hl(), old(cpu).r.sp), ..old(cpu).r.spec_with_hl(w16(old(cpu).r.spec_hl() + old(cpu).r.sp)) }), ..*old(cpu) }),
        r == 2,
{
    let v = cpu.r.sp;
    add_hl(cpu, v);
    2
}

} // verus!
