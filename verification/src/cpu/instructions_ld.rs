//! The 8-bit register-to-register, immediate and (HL) load opcodes.

use vstd::prelude::*;

use crate::bits::w16;
use crate::cpu::{CPU, Cycles};
use crate::mmu::MMU;
use crate::registers::Registers;

verus! {

pub fn op_ld_b_b(cpu: &mut CPU, _mmu: &mut MMU) -> (r: Cycles)
    requires
        old(cpu).inv(),
    ensures
        final(cpu).inv(),
        final(_mmu)@ == old(_mmu)@,
        *final(cpu) == (CPU { r: (Registers { b: old(cpu).r.b, ..old(cpu).r }), ..*old(cpu) }),
        r == 1,
{
    cpu.r.b = cpu.r.b;
    1
}

pub fn op_ld_b_c(cpu: &mut CPU, _mmu: &mut MMU) -> (r: Cycles)
    requires
        old(cpu).inv(),
    ensures
        final(cpu).inv(),
        final(_mmu)@ == old(_mmu)@,
        *final(cpu) == (CPU { r: (Registers { b: old(cpu).r.c, ..old(cpu).r }), ..*old(cpu) }),
        r == 1,
{
    cpu.r.b = cpu.r.c;
    1
}

pub fn op_ld_b_d(cpu: &mut CPU, _mmu: &mut MMU) -> (r: Cycles)
    requires
        old(cpu).inv(),
    ensures
        final(cpu).inv(),
        final(_mmu)@ == old(_mmu)@,
        *final(cpu) == (CPU { r: (Registers { b: old(cpu).r.d, ..old(cpu).r }), ..*old(cpu) }),
        r == 1,
{
    cpu.r.b = cpu.r.d;
    1
}

pub fn op_ld_b_e(cpu: &mut CPU, _mmu: &mut MMU) -> (r: Cycles)
    requires
        old(cpu).inv(),
    ensures
        final(cpu).inv(),
        final(_mmu)@ == old(_mmu)@,
        *final(cpu) == (CPU { r: (Registers { b: old(cpu).r.e, ..old(cpu).r }), ..*old(cpu) }),
        r == 1,
{
    cpu.r.b = cpu.r.e;
    1
}

pub fn op_ld_b_h(cpu: &mut CPU, _mmu: &mut MMU) -> (r: Cycles)
    requires
        old(cpu).inv(),
    ensures
        final(cpu).inv(),
        final(_mmu)@ == old(_mmu)@,
        *final(cpu) == (CPU { r: (Registers { b: old(cpu).r.h, ..old(cpu).r }), ..*old(cpu) }),
        r == 1,
{
    cpu.r.b = cpu.r.h;
    1
}

pub fn op_ld_b_l(cpu: &mut CPU, _mmu: &mut MMU) -> (r: Cycles)
    requires
        old(cpu).inv(),
    ensures
        final(cpu).inv(),
        final(_mmu)@ == old(_mmu)@,
        *final(cpu) == (CPU { r: (Registers { b: old(cpu).r.l, ..old(cpu).r }), ..*old(cpu) }),
        r == 1,
{
    cpu.r.b = cpu.r.l;
    1
}

pub fn op_ld_b_a(cpu: &mut CPU, _mmu: &mut MMU) -> (r: Cycles)
    requires
        old(cpu).inv(),
    ensures
        final(cpu).inv(),
        final(_mmu)@ == old(_mmu)@,
        *final(cpu) == (CPU { r: (Registers { b: old(cpu).r.a, ..old(cpu).r }), ..*old(cpu) }),
        r == 1,
{
    cpu.r.b = cpu.r.a;
    1
}

pub fn op_ld_c_b(cpu: &mut CPU, _mmu: &mut MMU) -> (r: Cycles)
    requires
        old(cpu).inv(),
    ensures
        final(cpu).inv(),
        final(_mmu)@ == old(_mmu)@,
        *final(cpu) == (CPU { r: (Registers { c: old(cpu).r.b, ..old(cpu).r }), ..*old(cpu) }),
        r == 1,
{
    cpu.r.c = cpu.r.b;
    1
}

pub fn op_ld_c_c(cpu: &mut CPU, _mmu: &mut MMU) -> (r: Cycles)
    requires
        old(cpu).inv(),
    ensures
        final(cpu).inv(),
        final(_mmu)@ == old(_mmu)@,
        *final(cpu) == (CPU { r: (Registers { c: old(cpu).r.c, ..old(cpu).r }), ..*old(cpu) }),
        r == 1,
{
    cpu.r.c = cpu.r.c;
    1
}

pub fn op_ld_c_d(cpu: &mut CPU, _mmu: &mut MMU) -> (r: Cycles)
    requires
        old(cpu).inv(),
    ensures
        final(cpu).inv(),
        final(_mmu)@ == old(_mmu)@,
        *final(cpu) == (CPU { r: (Registers { c: old(cpu).r.d, ..old(cpu).r }), ..*old(cpu) }),
        r == 1,
{
    cpu.r.c = cpu.r.d;
    1
}

pub fn op_ld_c_e(cpu: &mut CPU, _mmu: &mut MMU) -> (r: Cycles)
    requires
        old(cpu).inv(),
    ensures
        final(cpu).inv(),
        final(_mmu)@ == old(_mmu)@,
        *final(cpu) == (CPU { r: (Registers { c: old(cpu).r.e, ..old(cpu).r }), ..*old(cpu) }),
        r == 1,
{
    cpu.r.c = cpu.r.e;
    1
}

pub fn op_ld_c_h(cpu: &mut CPU, _mmu: &mut MMU) -> (r: Cycles)
    requires
        old(cpu).inv(),
    ensures
        final(cpu).inv(),
        final(_mmu)@ == old(_mmu)@,
        *final(cpu) == (CPU { r: (Registers { c: old(cpu).r.h, ..old(cpu).r }), ..*old(cpu) }),
        r == 1,
{
    cpu.r.c = cpu.r.h;
    1
}

pub fn op_ld_c_l(cpu: &mut CPU, _mmu: &mut MMU) -> (r: Cycles)
    requires
        old(cpu).inv(),
    ensures
        final(cpu).inv(),
        final(_mmu)@ == old(_mmu)@,
        *final(cpu) == (CPU { r: (Registers { c: old(cpu).r.l, ..old(cpu).r }), ..*old(cpu) }),
        r == 1,
{
    cpu.r.c = cpu.r.l;
    1
}

pub fn op_ld_c_a(cpu: &mut CPU, _mmu: &mut MMU) -> (r: Cycles)
    requires
        old(cpu).inv(),
    ensures
        final(cpu).inv(),
        final(_mmu)@ == old(_mmu)@,
        *final(cpu) == (CPU { r: (Registers { c: old(cpu).r.a, ..old(cpu).r }), ..*old(cpu) }),
        r == 1,
{
    cpu.r.c = cpu.r.a;
    1
}

pub fn op_ld_d_b(cpu: &mut CPU, _mmu: &mut MMU) -> (r: Cycles)
    requires
        old(cpu).inv(),
    ensures
        final(cpu).inv(),
        final(_mmu)@ == old(_mmu)@,
        *final(cpu) == (CPU { r: (Registers { d: old(cpu).r.b, ..old(cpu).r }), ..*old(cpu) }),
        r == 1,
{
    cpu.r.d = cpu.r.b;
    1
}

pub fn op_ld_d_c(cpu: &mut CPU, _mmu: &mut MMU) -> (r: Cycles)
    requires
        old(cpu).inv(),
    ensures
        final(cpu).inv(),
        final(_mmu)@ == old(_mmu)@,
        *final(cpu) == (CPU { r: (Registers { d: old(cpu).r.c, ..old(cpu).r }), ..*old(cpu) }),
        r == 1,
{
    cpu.r.d = cpu.r.c;
    1
}

pub fn op_ld_d_d(cpu: &mut CPU, _mmu: &mut MMU) -> (r: Cycles)
    requires
        old(cpu).inv(),
    ensures
        final(cpu).inv(),
        final(_mmu)@ == old(_mmu)@,
        *final(cpu) == (CPU { r: (Registers { d: old(cpu).r.d, ..old(cpu).r }), ..*old(cpu) }),
        r == 1,
{
    cpu.r.d = cpu.r.d;
    1
}

pub fn op_ld_d_e(cpu: &mut CPU, _mmu: &mut MMU) -> (r: Cycles)
    requires
        old(cpu).inv(),
    ensures
        final(cpu).inv(),
        final(_mmu)@ == old(_mmu)@,
        *final(cpu) == (CPU { r: (Registers { d: old(cpu).r.e, ..old(cpu).r }), ..*old(cpu) }),
        r == 1,
{
    cpu.r.d = cpu.r.e;
    1
}

pub fn op_ld_d_h(cpu: &mut CPU, _mmu: &mut MMU) -> (r: Cycles)
    requires
        old(cpu).inv(),
    ensures
        final(cpu).inv(),
        final(_mmu)@ == old(_mmu)@,
        *final(cpu) == (CPU { r: (Registers { d: old(cpu).r.h, ..old(cpu).r }), ..*old(cpu) }),
        r == 1,
{
    cpu.r.d = cpu.r.h;
    1
}

pub fn op_ld_d_l(cpu: &mut CPU, _mmu: &mut MMU) -> (r: Cycles)
    requires
        old(cpu).inv(),
    ensures
        final(cpu).inv(),
        final(_mmu)@ == old(_mmu)@,
        *final(cpu) == (CPU { r: (Registers { d: old(cpu).r.l, ..old(cpu).r }), ..*old(cpu) }),
        r == 1,
{
    cpu.r.d = cpu.r.l;
    1
}

pub fn op_ld_d_a(cpu: &mut CPU, _mmu: &mut MMU) -> (r: Cycles)
    requires
        old(cpu).inv(),
    ensures
        final(cpu).inv(),
        final(_mmu)@ == old(_mmu)@,
        *final(cpu) == (CPU { r: (Registers { d: old(cpu).r.a, ..old(cpu).r }), ..*old(cpu) }),
        r == 1,
{
    cpu.r.d = cpu.r.a;
    1
}

pub fn op_ld_e_b(cpu: &mut CPU, _mmu: &mut MMU) -> (r: Cycles)
    requires
        old(cpu).inv(),
    ensures
        final(cpu).inv(),
        final(_mmu)@ == old(_mmu)@,
        *final(cpu) == (CPU { r: (Registers { e: old(cpu).r.b, ..old(cpu).r }), ..*old(cpu) }),
        r == 1,
{
    cpu.r.e = cpu.r.b;
    1
}

pub fn op_ld_e_c(cpu: &mut CPU, _mmu: &mut MMU) -> (r: Cycles)
    requires
        old(cpu).inv(),
    ensures
        final(cpu).inv(),
        final(_mmu)@ == old(_mmu)@,
        *final(cpu) == (CPU { r: (Registers { e: old(cpu).r.c, ..old(cpu).r }), ..*old(cpu) }),
        r == 1,
{
    cpu.r.e = cpu.r.c;
    1
}

pub fn op_ld_e_d(cpu: &mut CPU, _mmu: &mut MMU) -> (r: Cycles)
    requires
        old(cpu).inv(),
    ensures
        final(cpu).inv(),
        final(_mmu)@ == old(_mmu)@,
        *final(cpu) == (CPU { r: (Registers { e: old(cpu).r.d, ..old(cpu).r }), ..*old(cpu) }),
        r == 1,
{
    cpu.r.e = cpu.r.d;
    1
}

pub fn op_ld_e_e(cpu: &mut CPU, _mmu: &mut MMU) -> (r: Cycles)
    requires
        old(cpu).inv(),
    ensures
        final(cpu).inv(),
        final(_mmu)@ == old(_mmu)@,
        *final(cpu) == (CPU { r: (Registers { e: old(cpu).r.e, ..old(cpu).r }), ..*old(cpu) }),
        r == 1,
{
    cpu.r.e = cpu.r.e;
    1
}

pub fn op_ld_e_h(cpu: &mut CPU, _mmu: &mut MMU) -> (r: Cycles)
    requires
        old(cpu).inv(),
    ensures
        final(cpu).inv(),
        final(_mmu)@ == old(_mmu)@,
        *final(cpu) == (CPU { r: (Registers { e: old(cpu).r.h, ..old(cpu).r }), ..*old(cpu) }),
        r == 1,
{
    cpu.r.e = cpu.r.h;
    1
}

pub fn op_ld_e_l(cpu: &mut CPU, _mmu: &mut MMU) -> (r: Cycles)
    requires
        old(cpu).inv(),
    ensures
        final(cpu).inv(),
        final(_mmu)@ == old(_mmu)@,
        *final(cpu) == (CPU { r: (Registers { e: old(cpu).r.l, ..old(cpu).r }), ..*old(cpu) }),
        r == 1,
{
    cpu.r.e = cpu.r.l;
    1
}

pub fn op_ld_e_a(cpu: &mut CPU, _mmu: &mut MMU) -> (r: Cycles)
    requires
        old(cpu).inv(),
    ensures
        final(cpu).inv(),
        final(_mmu)@ == old(_mmu)@,
        *final(cpu) == (CPU { r: (Registers { e: old(cpu).r.a, ..old(cpu).r }), ..*old(cpu) }),
        r == 1,
{
    cpu.r.e = cpu.r.a;
    1
}

pub fn op_ld_h_b(cpu: &mut CPU, _mmu: &mut MMU) -> (r: Cycles)
    requires
        old(cpu).inv(),
    ensures
        final(cpu).inv(),
        final(_mmu)@ == old(_mmu)@,
        *final(cpu) == (CPU { r: (Registers { h: old(cpu).r.b, ..old(cpu).r }), ..*old(cpu) }),
        r == 1,
{
    cpu.r.h = cpu.r.b;
    1
}

pub fn op_ld_h_c(cpu: &mut CPU, _mmu: &mut MMU) -> (r: Cycles)
    requires
        old(cpu).inv(),
    ensures
        final(cpu).inv(),
        final(_mmu)@ == old(_mmu)@,
        *final(cpu) == (CPU { r: (Registers { h: old(cpu).r.c, ..old(cpu).r }), ..*old(cpu) }),
        r == 1,
{
    cpu.r.h = cpu.r.c;
    1
}

pub fn op_ld_h_d(cpu: &mut CPU, _mmu: &mut MMU) -> (r: Cycles)
    requires
        old(cpu).inv(),
    ensures
        final(cpu).inv(),
        final(_mmu)@ == old(_mmu)@,
        *final(cpu) == (CPU { r: (Registers { h: old(cpu).r.d, ..old(cpu).r }), ..*old(cpu) }),
        r == 1,
{
    cpu.r.h = cpu.r.d;
    1
}

pub fn op_ld_h_e(cpu: &mut CPU, _mmu: &mut MMU) -> (r: Cycles)
    requires
        old(cpu).inv(),
    ensures
        final(cpu).inv(),
        final(_mmu)@ == old(_mmu)@,
        *final(cpu) == (CPU { r: (Registers { h: old(cpu).r.e, ..old(cpu).r }), ..*old(cpu) }),
        r == 1,
{
    cpu.r.h = cpu.r.e;
    1
}

pub fn op_ld_h_h(cpu: &mut CPU, _mmu: &mut MMU) -> (r: Cycles)
    requires
        old(cpu).inv(),
    ensures
        final(cpu).inv(),
        final(_mmu)@ == old(_mmu)@,
        *final(cpu) == (CPU { r: (Registers { h: old(cpu).r.h, ..old(cpu).r }), ..*old(cpu) }),
        r == 1,
{
    cpu.r.h = cpu.r.h;
    1
}

pub fn op_ld_h_l(cpu: &mut CPU, _mmu: &mut MMU) -> (r: Cycles)
    requires
        old(cpu).inv(),
    ensures
        final(cpu).inv(),
        final(_mmu)@ == old(_mmu)@,
        *final(cpu) == (CPU { r: (Registers { h: old(cpu).r.l, ..old(cpu).r }), ..*old(cpu) }),
        r == 1,
{
    cpu.r.h = cpu.r.l;
    1
}

pub fn op_ld_h_a(cpu: &mut CPU, _mmu: &mut MMU) -> (r: Cycles)
    requires
        old(cpu).inv(),
    ensures
        final(cpu).inv(),
        final(_mmu)@ == old(_mmu)@,
        *final(cpu) == (CPU { r: (Registers { h: old(cpu).r.a, ..old(cpu).r }), ..*old(cpu) }),
        r == 1,
{
    cpu.r.h = cpu.r.a;
    1
}

pub fn op_ld_l_b(cpu: &mut CPU, _mmu: &mut MMU) -> (r: Cycles)
    requires
        old(cpu).inv(),
    ensures
        final(cpu).inv(),
        final(_mmu)@ == old(_mmu)@,
        *final(cpu) == (CPU { r: (Registers { l: old(cpu).r.b, ..old(cpu).r }), ..*old(cpu) }),
        r == 1,
{
    cpu.r.l = cpu.r.b;
    1
}

pub fn op_ld_l_c(cpu: &mut CPU, _mmu: &mut MMU) -> (r: Cycles)
    requires
        old(cpu).inv(),
    ensures
        final(cpu).inv(),
        final(_mmu)@ == old(_mmu)@,
        *final(cpu) == (CPU { r: (Registers { l: old(cpu).r.c, ..old(cpu).r }), ..*old(cpu) }),
        r == 1,
{
    cpu.r.l = cpu.r.c;
    1
}

pub fn op_ld_l_d(cpu: &mut CPU, _mmu: &mut MMU) -> (r: Cycles)
    requires
        old(cpu).inv(),
    ensures
        final(cpu).inv(),
        final(_mmu)@ == old(_mmu)@,
        *final(cpu) == (CPU { r: (Registers { l: old(cpu).r.d, ..old(cpu).r }), ..*old(cpu) }),
        r == 1,
{
    cpu.r.l = cpu.r.d;
    1
}

pub fn op_ld_l_e(cpu: &mut CPU, _mmu: &mut MMU) -> (r: Cycles)
    requires
        old(cpu).inv(),
    ensures
        final(cpu).inv(),
        final(_mmu)@ == old(_mmu)@,
        *final(cpu) == (CPU { r: (Registers { l: old(cpu).r.e, ..old(cpu).r }), ..*old(cpu) }),
        r == 1,
{
    cpu.r.l = cpu.r.e;
    1
}

pub fn op_ld_l_h(cpu: &mut CPU, _mmu: &mut MMU) -> (r: Cycles)
    requires
        old(cpu).inv(),
    ensures
        final(cpu).inv(),
        final(_mmu)@ == old(_mmu)@,
        *final(cpu) == (CPU { r: (Registers { l: old(cpu).r.h, ..old(cpu).r }), ..*old(cpu) }),
        r == 1,
{
    cpu.r.l = cpu.r.h;
    1
}

pub fn op_ld_l_l(cpu: &mut CPU, _mmu: &mut MMU) -> (r: Cycles)
    requires
        old(cpu).inv(),
    ensures
        final(cpu).inv(),
        final(_mmu)@ == old(_mmu)@,
        *final(cpu) == (CPU { r: (Registers { l: old(cpu).r.l, ..old(cpu).r }), ..*old(cpu) }),
        r == 1,
{
    cpu.r.l = cpu.r.l;
    1
}

pub fn op_ld_l_a(cpu: &mut CPU, _mmu: &mut MMU) -> (r: Cycles)
    requires
        old(cpu).inv(),
    ensures
        final(cpu).inv(),
        final(_mmu)@ == old(_mmu)@,
        *final(cpu) == (CPU { r: (Registers { l: old(cpu).r.a, ..old(cpu).r }), ..*old(cpu) }),
        r == 1,
{
    cpu.r.l = cpu.r.a;
    1
}

pub fn op_ld_a_b(cpu: &mut CPU, _mmu: &mut MMU) -> (r: Cycles)
    requires
        old(cpu).inv(),
    ensures
        final(cpu).inv(),
        final(_mmu)@ == old(_mmu)@,
        *final(cpu) == (CPU { r: (Registers { a: old(cpu).r.b, ..old(cpu).r }), ..*old(cpu) }),
        r == 1,
{
    cpu.r.a = cpu.r.b;
    1
}

pub fn op_ld_a_c(cpu: &mut CPU, _mmu: &mut MMU) -> (r: Cycles)
    requires
        old(cpu).inv(),
    ensures
        final(cpu).inv(),
        final(_mmu)@ == old(_mmu)@,
        *final(cpu) == (CPU { r: (Registers { a: old(cpu).r.c, ..old(cpu).r }), ..*old(cpu) }),
        r == 1,
{
    cpu.r.a = cpu.r.c;
    1
}

pub fn op_ld_a_d(cpu: &mut CPU, _mmu: &mut MMU) -> (r: Cycles)
    requires
        old(cpu).inv(),
    ensures
        final(cpu).inv(),
        final(_mmu)@ == old(_mmu)@,
        *final(cpu) == (CPU { r: (Registers { a: old(cpu).r.d, ..old(cpu).r }), ..*old(cpu) }),
        r == 1,
{
    cpu.r.a = cpu.r.d;
    1
}

pub fn op_ld_a_e(cpu: &mut CPU, _mmu: &mut MMU) -> (r: Cycles)
    requires
        old(cpu).inv(),
    ensures
        final(cpu).inv(),
        final(_mmu)@ == old(_mmu)@,
        *final(cpu) == (CPU { r: (Registers { a: old(cpu).r.e, ..old(cpu).r }), ..*old(cpu) }),
        r == 1,
{
    cpu.r.a = cpu.r.e;
    1
}

pub fn op_ld_a_h(cpu: &mut CPU, _mmu: &mut MMU) -> (r: Cycles)
    requires
        old(cpu).inv(),
    ensures
        final(cpu).inv(),
        final(_mmu)@ == old(_mmu)@,
        *final(cpu) == (CPU { r: (Registers { a: old(cpu).r.h, ..old(cpu).r }), ..*old(cpu) }),
        r == 1,
{
    cpu.r.a = cpu.r.h;
    1
}

pub fn op_ld_a_l(cpu: &mut CPU, _mmu: &mut MMU) -> (r: Cycles)
    requires
        old(cpu).inv(),
    ensures
        final(cpu).inv(),
        final(_mmu)@ == old(_mmu)@,
        *final(cpu) == (CPU { r: (Registers { a: old(cpu).r.l, ..old(cpu).r }), ..*old(cpu) }),
        r == 1,
{
    cpu.r.a = cpu.r.l;
    1
}

pub fn op_ld_a_a(cpu: &mut CPU, _mmu: &mut MMU) -> (r: Cycles)
    requires
        old(cpu).inv(),
    ensures
        final(cpu).inv(),
        final(_mmu)@ == old(_mmu)@,
        *final(cpu) == (CPU { r: (Registers { a: old(cpu).r.a, ..old(cpu).r }), ..*old(cpu) }),
        r == 1,
{
    cpu.r.a = cpu.r.a;
    1
}

pub fn op_ld_b_hl(cpu: &mut CPU, mmu: &mut MMU) -> (r: Cycles)
    requires
        old(cpu).inv(),
        old(mmu)@.inv(),
        old(mmu)@.supported(),
    ensures
        final(cpu).inv(),
        final(mmu)@ == old(mmu)@,
        *final(cpu) == (CPU { r: (Registers { b: old(mmu)@.rb(old(cpu).r.spec_hl()), ..old(cpu).r }), ..*old(cpu) }),
        r == 2,
{
    let addr = cpu.r.hl();
    cpu.r.b = mmu.rb(addr);
    2
}

pub fn op_ld_c_hl(cpu: &mut CPU, mmu: &mut MMU) -> (r: Cycles)
    requires
        old(cpu).inv(),
        old(mmu)@.inv(),
        old(mmu)@.supported(),
    ensures
        final(cpu).inv(),
        final(mmu)@ == old(mmu)@,
        *final(cpu) == (CPU { r: (Registers { c: old(mmu)@.rb(old(cpu).r.spec_hl()), ..old(cpu).r }), ..*old(cpu) }),
        r == 2,
{
    let addr = cpu.r.hl();
    cpu.r.c = mmu.rb(addr);
    2
}

pub fn op_ld_d_hl(cpu: &mut CPU, mmu: &mut MMU) -> (r: Cycles)
    requires
        old(cpu).inv(),
        old(mmu)@.inv(),
        old(mmu)@.supported(),
    ensures
        final(cpu).inv(),
        final(mmu)@ == old(mmu)@,
        *final(cpu) == (CPU { r: (Registers { d: old(mmu)@.rb(old(cpu).r.spec_hl()), ..old(cpu).r }), ..*old(cpu) }),
        r == 2,
{
    let addr = cpu.r.hl();
    cpu.r.d = mmu.rb(addr);
    2
}

pub fn op_ld_e_hl(cpu: &mut CPU, mmu: &mut MMU) -> (r: Cycles)
    requires
        old(cpu).inv(),
        old(mmu)@.inv(),
        old(mmu)@.supported(),
    ensures
        final(cpu).inv(),
        final(mmu)@ == old(mmu)@,
        *final(cpu) == (CPU { r: (Registers { e: old(mmu)@.rb(old(cpu).r.spec_hl()), ..old(cpu).r }), ..*old(cpu) }),
        r == 2,
{
    let addr = cpu.r.hl();
    cpu.r.e = mmu.rb(addr);
    2
}

pub fn op_ld_h_hl(cpu: &mut CPU, mmu: &mut MMU) -> (r: Cycles)
    requires
        old(cpu).inv(),
        old(mmu)@.inv(),
        old(mmu)@.supported(),
    ensures
        final(cpu).inv(),
        final(mmu)@ == old(mmu)@,
        *final(cpu) == (CPU { r: (Registers { h: old(mmu)@.rb(old(cpu).r.spec_hl()), ..old(cpu).r }), ..*old(cpu) }),
        r == 2,
{
    let addr = cpu.r.hl();
    cpu.r.h = mmu.rb(addr);
    2
}

pub fn op_ld_l_hl(cpu: &mut CPU, mmu: &mut MMU) -> (r: Cycles)
    requires
        old(cpu).inv(),
        old(mmu)@.inv(),
        old(mmu)@.supported(),
    ensures
        final(cpu).inv(),
        final(mmu)@ == old(mmu)@,
        *final(cpu) == (CPU { r: (Registers { l: old(mmu)@.rb(old(cpu).r.spec_hl()), ..old(cpu).r }), ..*old(cpu) }),
        r == 2,
{
    let addr = cpu.r.hl();
    cpu.r.l = mmu.rb(addr);
    2
}

pub fn op_ld_a_hl(cpu: &mut CPU, mmu: &mut MMU) -> (r: Cycles)
    requires
        old(cpu).inv(),
        old(mmu)@.inv(),
        old(mmu)@.supported(),
    ensures
        final(cpu).inv(),
        final(mmu)@ == old(mmu)@,
        *final(cpu) == (CPU { r: (Registers { a: old(mmu)@.rb(old(cpu).r.spec_hl()), ..old(cpu).r }), ..*old(cpu) }),
        r == 2,
{
    let addr = cpu.r.hl();
    cpu.r.a = mmu.rb(addr);
    2
}

pub fn op_ld_hl_b(cpu: &mut CPU, mmu: &mut MMU) -> (r: Cycles)
    requires
        old(cpu).inv(),
        old(mmu)@.inv(),
        old(mmu)@.supported(),
    ensures
        final(cpu).inv(),
        final(mmu)@.inv(),
        final(mmu)@.supported(),
        *final(cpu) == *old(cpu),
        final(mmu)@ == old(mmu)@.wb(old(cpu).r.spec_hl(), old(cpu).r.b),
        r == 2,
{
    let addr = cpu.r.hl();
    mmu.wb(addr, cpu.r.b);
    2
}

pub fn op_ld_hl_c(cpu: &mut CPU, mmu: &mut MMU) -> (r: Cycles)
    requires
        old(cpu).inv(),
        old(mmu)@.inv(),
        old(mmu)@.supported(),
    ensures
        final(cpu).inv(),
        final(mmu)@.inv(),
        final(mmu)@.supported(),
        *final(cpu) == *old(cpu),
        final(mmu)@ == old(mmu)@.wb(old(cpu).r.spec_hl(), old(cpu).r.c),
        r == 2,
{
    let addr = cpu.r.hl();
    mmu.wb(addr, cpu.r.c);
    2
}

pub fn op_ld_hl_d(cpu: &mut CPU, mmu: &mut MMU) -> (r: Cycles)
    requires
        old(cpu).inv(),
        old(mmu)@.inv(),
        old(mmu)@.supported(),
    ensures
        final(cpu).inv(),
        final(mmu)@.inv(),
        final(mmu)@.supported(),
        *final(cpu) == *old(cpu),
        final(mmu)@ == old(mmu)@.wb(old(cpu).r.spec_hl(), old(cpu).r.d),
        r == 2,
{
    let addr = cpu.r.hl();
    mmu.wb(addr, cpu.r.d);
    2
}

pub fn op_ld_hl_e(cpu: &mut CPU, mmu: &mut MMU) -> (r: Cycles)
    requires
        old(cpu).inv(),
        old(mmu)@.inv(),
        old(mmu)@.supported(),
    ensures
        final(cpu).inv(),
        final(mmu)@.inv(),
        final(mmu)@.supported(),
        *final(cpu) == *old(cpu),
        final(mmu)@ == old(mmu)@.wb(old(cpu).r.spec_hl(), old(cpu).r.e),
        r == 2,
{
    let addr = cpu.r.hl();
    mmu.wb(addr, cpu.r.e);
    2
}

pub fn op_ld_hl_h(cpu: &mut CPU, mmu: &mut MMU) -> (r: Cycles)
    requires
        old(cpu).inv(),
        old(mmu)@.inv(),
        old(mmu)@.supported(),
    ensures
        final(cpu).inv(),
        final(mmu)@.inv(),
        final(mmu)@.supported(),
        *final(cpu) == *old(cpu),
        final(mmu)@ == old(mmu)@.wb(old(cpu).r.spec_hl(), old(cpu).r.h),
        r == 2,
{
    let addr = cpu.r.hl();
    mmu.wb(addr, cpu.r.h);
    2
}

pub fn op_ld_hl_l(cpu: &mut CPU, mmu: &mut MMU) -> (r: Cycles)
    requires
        old(cpu).inv(),
        old(mmu)@.inv(),
        old(mmu)@.supported(),
    ensures
        final(cpu).inv(),
        final(mmu)@.inv(),
        final(mmu)@.supported(),
        *final(cpu) == *old(cpu),
        final(mmu)@ == old(mmu)@.wb(old(cpu).r.spec_hl(), old(cpu).r.l),
        r == 2,
{
    let addr = cpu.r.hl();
    mmu.wb(addr, cpu.r.l);
    2
}

pub fn op_ld_hl_a(cpu: &mut CPU, mmu: &mut MMU) -> (r: Cycles)
    requires
        old(cpu).inv(),
        old(mmu)@.inv(),
        old(mmu)@.supported(),
    ensures
        final(cpu).inv(),
        final(mmu)@.inv(),
        final(mmu)@.supported(),
        *final(cpu) == *old(cpu),
        final(mmu)@ == old(mmu)@.wb(old(cpu).r.spec_hl(), old(cpu).r.a),
        r == 2,
{
    let addr = cpu.r.hl();
    mmu.wb(addr, cpu.r.a);
    2
}

pub fn op_ld_b_d8(cpu: &mut CPU, mmu: &mut MMU) -> (r: Cycles)
    requires
        old(cpu).inv(),
        old(mmu)@.inv(),
        old(mmu)@.supported(),
    ensures
        final(cpu).inv(),
        final(mmu)@ == old(mmu)@,
        *final(cpu) == (CPU { r: (Registers { b: old(mmu)@.rb(old(cpu).r.pc), pc: w16(old(cpu).r.pc + 1), ..old(cpu).r }), ..*old(cpu) }),
        r == 2,
{
    let v = cpu.rb(mmu);
    cpu.r.b = v;
    2
}

pub fn op_ld_c_d8(cpu: &mut CPU, mmu: &mut MMU) -> (r: Cycles)
    requires
        old(cpu).inv(),
        old(mmu)@.inv(),
        old(mmu)@.supported(),
    ensures
        final(cpu).inv(),
        final(mmu)@ == old(mmu)@,
        *final(cpu) == (CPU { r: (Registers { c: old(mmu)@.rb(old(cpu).r.pc), pc: w16(old(cpu).r.pc + 1), ..old(cpu).r }), ..*old(cpu) }),
        r == 2,
{
    let v = cpu.rb(mmu);
    cpu.r.c = v;
    2
}

pub fn op_ld_d_d8(cpu: &mut CPU, mmu: &mut MMU) -> (r: Cycles)
    requires
        old(cpu).inv(),
        old(mmu)@.inv(),
        old(mmu)@.supported(),
    ensures
        final(cpu).inv(),
        final(mmu)@ == old(mmu)@,
        *final(cpu) == (CPU { r: (Registers { d: old(mmu)@.rb(old(cpu).r.pc), pc: w16(old(cpu).r.pc + 1), ..old(cpu).r }), ..*old(cpu) }),
        r == 2,
{
    let v = cpu.rb(mmu);
    cpu.r.d = v;
    2
}

pub fn op_ld_e_d8(cpu: &mut CPU, mmu: &mut MMU) -> (r: Cycles)
    requires
        old(cpu).inv(),
        old(mmu)@.inv(),
        old(mmu)@.supported(),
    ensures
        final(cpu).inv(),
        final(mmu)@ == old(mmu)@,
        *final(cpu) == (CPU { r: (Registers { e: old(mmu)@.rb(old(cpu).r.pc), pc: w16(old(cpu).r.pc + 1), ..old(cpu).r }), ..*old(cpu) }),
        r == 2,
{
    let v = cpu.rb(mmu);
    cpu.r.e = v;
    2
}

pub fn op_ld_h_d8(cpu: &mut CPU, mmu: &mut MMU) -> (r: Cycles)
    requires
        old(cpu).inv(),
        old(mmu)@.inv(),
        old(mmu)@.supported(),
    ensures
        final(cpu).inv(),
        final(mmu)@ == old(mmu)@,
        *final(cpu) == (CPU { r: (Registers { h: old(mmu)@.rb(old(cpu).r.pc), pc: w16(old(cpu).r.pc + 1), ..old(cpu).r }), ..*old(cpu) }),
        r == 2,
{
    let v = cpu.rb(mmu);
    cpu.r.h = v;
    2
}

pub fn op_ld_l_d8(cpu: &mut CPU, mmu: &mut MMU) -> (r: Cycles)
    requires
        old(cpu).inv(),
        old(mmu)@.inv(),
        old(mmu)@.supported(),
    ensures
        final(cpu).inv(),
        final(mmu)@ == old(mmu)@,
        *final(cpu) == (CPU { r: (Registers { l: old(mmu)@.rb(old(cpu).r.pc), pc: w16(old(cpu).r.pc + 1), ..old(cpu).r }), ..*old(cpu) }),
        r == 2,
{
    let v = cpu.rb(mmu);
    cpu.r.l = v;
    2
}

pub fn op_ld_a_d8(cpu: &mut CPU, mmu: &mut MMU) -> (r: Cycles)
    requires
        old(cpu).inv(),
        old(mmu)@.inv(),
        old(mmu)@.supported(),
    ensures
        final(cpu).inv(),
        final(mmu)@ == old(mmu)@,
        *final(cpu) == (CPU { r: (Registers { a: old(mmu)@.rb(old(cpu).r.pc), pc: w16(old(cpu).r.pc + 1), ..old(cpu).r }), ..*old(cpu) }),
        r == 2,
{
    let v = cpu.rb(mmu);
    cpu.r.a = v;
    2
}

} // verus!
