//! The 256 prefixed opcodes: rotates, shifts, SWAP and the single-bit
//! test/clear/set operations, plus their dispatcher.

use vstd::prelude::*;

use crate::cpu::{CPU, Cycles};
use crate::cpu::instructions::{
    rlc, rrc, rl, rr, sla, sra, srl, swap, bit, res,
    spec_rlc_res, spec_rrc_res, spec_rl_res, spec_rr_res, spec_sla_res, spec_sra_res,
    spec_srl_res, spec_swap_res, spec_bit_z, spec_res, spec_set,
};
use crate::mmu::MMU;
use crate::registers::Registers;

verus! {

pub fn cb_rlc_b(cpu: &mut CPU, _mmu: &mut MMU) -> (r: Cycles)
    requires
        old(cpu).inv(),
    ensures
        final(cpu).inv(),
        final(_mmu)@ == old(_mmu)@,
        *final(cpu) == (CPU { r: (Registers { b: spec_rlc_res(old(cpu).r.b), zf: (spec_rlc_res(old(cpu).r.b) == 0), nf: false, hf: false, cf: (old(cpu).r.b >= 0x80), ..old(cpu).r }), ..*old(cpu) }),
        r == 2,
{
    let v = cpu.r.b;
    let nv = rlc(cpu, v);
    cpu.r.b = nv;
    2
}

pub fn cb_rlc_c(cpu: &mut CPU, _mmu: &mut MMU) -> (r: Cycles)
    requires
        old(cpu).inv(),
    ensures
        final(cpu).inv(),
        final(_mmu)@ == old(_mmu)@,
        *final(cpu) == (CPU { r: (Registers { c: spec_rlc_res(old(cpu).r.c), zf: (spec_rlc_res(old(cpu).r.c) == 0), nf: false, hf: false, cf: (old(cpu).r.c >= 0x80), ..old(cpu).r }), ..*old(cpu) }),
        r == 2,
{
    let v = cpu.r.c;
    let nv = rlc(cpu, v);
    cpu.r.c = nv;
    2
}

pub fn cb_rlc_d(cpu: &mut CPU, _mmu: &mut MMU) -> (r: Cycles)
    requires
        old(cpu).inv(),
    ensures
        final(cpu).inv(),
        final(_mmu)@ == old(_mmu)@,
        *final(cpu) == (CPU { r: (Registers { d: spec_rlc_res(old(cpu).r.d), zf: (spec_rlc_res(old(cpu).r.d) == 0), nf: false, hf: false, cf: (old(cpu).r.d >= 0x80), ..old(cpu).r }), ..*old(cpu) }),
        r == 2,
{
    let v = cpu.r.d;
    let nv = rlc(cpu, v);
    cpu.r.d = nv;
    2
}

pub fn cb_rlc_e(cpu: &mut CPU, _mmu: &mut MMU) -> (r: Cycles)
    requires
        old(cpu).inv(),
    ensures
        final(cpu).inv(),
        final(_mmu)@ == old(_mmu)@,
        *final(cpu) == (CPU { r: (Registers { e: spec_rlc_res(old(cpu).r.e), zf: (spec_rlc_res(old(cpu).r.e) == 0), nf: false, hf: false, cf: (old(cpu).r.e >= 0x80), ..old(cpu).r }), ..*old(cpu) }),
        r == 2,
{
    let v = cpu.r.e;
    let nv = rlc(cpu, v);
    cpu.r.e = nv;
    2
}

pub fn cb_rlc_h(cpu: &mut CPU, _mmu: &mut MMU) -> (r: Cycles)
    requires
        old(cpu).inv(),
    ensures
        final(cpu).inv(),
        final(_mmu)@ == old(_mmu)@,
        *final(cpu) == (CPU { r: (Registers { h: spec_rlc_res(old(cpu).r.h), zf: (spec_rlc_res(old(cpu).r.h) == 0), nf: false, hf: false, cf: (old(cpu).r.h >= 0x80), ..old(cpu).r }), ..*old(cpu) }),
        r == 2,
{
    let v = cpu.r.h;
    let nv = rlc(cpu, v);
    cpu.r.h = nv;
    2
}

pub fn cb_rlc_l(cpu: &mut CPU, _mmu: &mut MMU) -> (r: Cycles)
    requires
        old(cpu).inv(),
    ensures
        final(cpu).inv(),
        final(_mmu)@ == old(_mmu)@,
        *final(cpu) == (CPU { r: (Registers { l: spec_rlc_res(old(cpu).r.l), zf: (spec_rlc_res(old(cpu).r.l) == 0), nf: false, hf: false, cf: (old(cpu).r.l >= 0x80), ..old(cpu).r }), ..*old(cpu) }),
        r == 2,
{
    let v = cpu.r.l;
    let nv = rlc(cpu, v);
    cpu.r.l = nv;
    2
}

pub fn cb_rlc_a(cpu: &mut CPU, _mmu: &mut MMU) -> (r: Cycles)
    requires
        old(cpu).inv(),
    ensures
        final(cpu).inv(),
        final(_mmu)@ == old(_mmu)@,
        *final(cpu) == (CPU { r: (Registers { a: spec_rlc_res(old(cpu).r.a), zf: (spec_rlc_res(old(cpu).r.a) == 0), nf: false, hf: false, cf: (old(cpu).r.a >= 0x80), ..old(cpu).r }), ..*old(cpu) }),
        r == 2,
{
    let v = cpu.r.a;
    let nv = rlc(cpu, v);
    cpu.r.a = nv;
    2
}

pub fn cb_rlc_hl(cpu: &mut CPU, mmu: &mut MMU) -> (r: Cycles)
    requires
        old(cpu).inv(),
        old(mmu)@.inv(),
        old(mmu)@.supported(),
    ensures
        final(cpu).inv(),
        final(mmu)@.inv(),
        final(mmu)@.supported(),
        *final(cpu) == (CPU { r: (Registers { zf: (spec_rlc_res(old(mmu)@.rb(old(cpu).r.spec_hl())) == 0), nf: false, hf: false, cf: (old(mmu)@.rb(old(cpu).r.spec_hl()) >= 0x80), ..old(cpu).r }), ..*old(cpu) }),
        final(mmu)@ == old(mmu)@.wb(old(cpu).r.spec_hl(), spec_rlc_res(old(mmu)@.rb(old(cpu).r.spec_hl()))),
        r == 4,
{
    let addr = cpu.r.hl();
    let v = mmu.rb(addr);
    let nv = rlc(cpu, v);
    mmu.wb(addr, nv);
    4
}

pub fn cb_rrc_b(cpu: &mut CPU, _mmu: &mut MMU) -> (r: Cycles)
    requires
        old(cpu).inv(),
    ensures
        final(cpu).inv(),
        final(_mmu)@ == old(_mmu)@,
        *final(cpu) == (CPU { r: (Registers { b: spec_rrc_res(old(cpu).r.b), zf: (spec_rrc_res(old(cpu).r.b) == 0), nf: false, hf: false, cf: (old(cpu).r.b % 2 == 1), ..old(cpu).r }), ..*old(cpu) }),
        r == 2,
{
    let v = cpu.r.b;
    let nv = rrc(cpu, v);
    cpu.r.b = nv;
    2
}

pub fn cb_rrc_c(cpu: &mut CPU, _mmu: &mut MMU) -> (r: Cycles)
    requires
        old(cpu).inv(),
    ensures
        final(cpu).inv(),
        final(_mmu)@ == old(_mmu)@,
        *final(cpu) == (CPU { r: (Registers { c: spec_rrc_res(old(cpu).r.c), zf: (spec_rrc_res(old(cpu).r.c) == 0), nf: false, hf: false, cf: (old(cpu).r.c % 2 == 1), ..old(cpu).r }), ..*old(cpu) }),
        r == 2,
{
    let v = cpu.r.c;
    let nv = rrc(cpu, v);
    cpu.r.c = nv;
    2
}

pub fn cb_rrc_d(cpu: &mut CPU, _mmu: &mut MMU) -> (r: Cycles)
    requires
        old(cpu).inv(),
    ensures
        final(cpu).inv(),
        final(_mmu)@ == old(_mmu)@,
        *final(cpu) == (CPU { r: (Registers { d: spec_rrc_res(old(cpu).r.d), zf: (spec_rrc_res(old(cpu).r.d) == 0), nf: false, hf: false, cf: (old(cpu).r.d % 2 == 1), ..old(cpu).r }), ..*old(cpu) }),
        r == 2,
{
    let v = cpu.r.d;
    let nv = rrc(cpu, v);
    cpu.r.d = nv;
    2
}

pub fn cb_rrc_e(cpu: &mut CPU, _mmu: &mut MMU) -> (r: Cycles)
    requires
        old(cpu).inv(),
    ensures
        final(cpu).inv(),
        final(_mmu)@ == old(_mmu)@,
        *final(cpu) == (CPU { r: (Registers { e: spec_rrc_res(old(cpu).r.e), zf: (spec_rrc_res(old(cpu).r.e) == 0), nf: false, hf: false, cf: (old(cpu).r.e % 2 == 1), ..old(cpu).r }), ..*old(cpu) }),
        r == 2,
{
    let v = cpu.r.e;
    let nv = rrc(cpu, v);
    cpu.r.e = nv;
    2
}

pub fn cb_rrc_h(cpu: &mut CPU, _mmu: &mut MMU) -> (r: Cycles)
    requires
        old(cpu).inv(),
    ensures
        final(cpu).inv(),
        final(_mmu)@ == old(_mmu)@,
        *final(cpu) == (CPU { r: (Registers { h: spec_rrc_res(old(cpu).r.h), zf: (spec_rrc_res(old(cpu).r.h) == 0), nf: false, hf: false, cf: (old(cpu).r.h % 2 == 1), ..old(cpu).r }), ..*old(cpu) }),
        r == 2,
{
    let v = cpu.r.h;
    let nv = rrc(cpu, v);
    cpu.r.h = nv;
    2
}

pub fn cb_rrc_l(cpu: &mut CPU, _mmu: &mut MMU) -> (r: Cycles)
    requires
        old(cpu).inv(),
    ensures
        final(cpu).inv(),
        final(_mmu)@ == old(_mmu)@,
        *final(cpu) == (CPU { r: (Registers { l: spec_rrc_res(old(cpu).r.l), zf: (spec_rrc_res(old(cpu).r.l) == 0), nf: false, hf: false, cf: (old(cpu).r.l % 2 == 1), ..old(cpu).r }), ..*old(cpu) }),
        r == 2,
{
    let v = cpu.r.l;
    let nv = rrc(cpu, v);
    cpu.r.l = nv;
    2
}

pub fn cb_rrc_a(cpu: &mut CPU, _mmu: &mut MMU) -> (r: Cycles)
    requires
        old(cpu).inv(),
    ensures
        final(cpu).inv(),
        final(_mmu)@ == old(_mmu)@,
        *final(cpu) == (CPU { r: (Registers { a: spec_rrc_res(old(cpu).r.a), zf: (spec_rrc_res(old(cpu).r.a) == 0), nf: false, hf: false, cf: (old(cpu).r.a % 2 == 1), ..old(cpu).r }), ..*old(cpu) }),
        r == 2,
{
    let v = cpu.r.a;
    let nv = rrc(cpu, v);
    cpu.r.a = nv;
    2
}

pub fn cb_rrc_hl(cpu: &mut CPU, mmu: &mut MMU) -> (r: Cycles)
    requires
        old(cpu).inv(),
        old(mmu)@.inv(),
        old(mmu)@.supported(),
    ensures
        final(cpu).inv(),
        final(mmu)@.inv(),
        final(mmu)@.supported(),
        *final(cpu) == (CPU { r: (Registers { zf: (spec_rrc_res(old(mmu)@.rb(old(cpu).r.spec_hl())) == 0), nf: false, hf: false, cf: (old(mmu)@.rb(old(cpu).r.spec_hl()) % 2 == 1), ..old(cpu).r }), ..*old(cpu) }),
        final(mmu)@ == old(mmu)@.wb(old(cpu).r.spec_hl(), spec_rrc_res(old(mmu)@.rb(old(cpu).r.spec_hl()))),
        r == 4,
{
    let addr = cpu.r.hl();
    let v = mmu.rb(addr);
    let nv = rrc(cpu, v);
    mmu.wb(addr, nv);
    4
}

pub fn cb_rl_b(cpu: &mut CPU, _mmu: &mut MMU) -> (r: Cycles)
    requires
        old(cpu).inv(),
    ensures
        final(cpu).inv(),
        final(_mmu)@ == old(_mmu)@,
        *final(cpu) == (CPU { r: (Registers { b: spec_rl_res(old(cpu).r.b, old(cpu).r.cf), zf: (spec_rl_res(old(cpu).r.b, old(cpu).r.cf) == 0), nf: false, hf: false, cf: (old(cpu).r.b >= 0x80), ..old(cpu).r }), ..*old(cpu) }),
        r == 2,
{
    let v = cpu.r.b;
    let nv = rl(cpu, v);
    cpu.r.b = nv;
    2
}

pub fn cb_rl_c(cpu: &mut CPU, _mmu: &mut MMU) -> (r: Cycles)
    requires
        old(cpu).inv(),
    ensures
        final(cpu).inv(),
        final(_mmu)@ == old(_mmu)@,
        *final(cpu) == (CPU { r: (Registers { c: spec_rl_res(old(cpu).r.c, old(cpu).r.cf), zf: (spec_rl_res(old(cpu).r.c, old(cpu).r.cf) == 0), nf: false, hf: false, cf: (old(cpu).r.c >= 0x80), ..old(cpu).r }), ..*old(cpu) }),
        r == 2,
{
    let v = cpu.r.c;
    let nv = rl(cpu, v);
    cpu.r.c = nv;
    2
}

pub fn cb_rl_d(cpu: &mut CPU, _mmu: &mut MMU) -> (r: Cycles)
    requires
        old(cpu).inv(),
    ensures
        final(cpu).inv(),
        final(_mmu)@ == old(_mmu)@,
        *final(cpu) == (CPU { r: (Registers { d: spec_rl_res(old(cpu).r.d, old(cpu).r.cf), zf: (spec_rl_res(old(cpu).r.d, old(cpu).r.cf) == 0), nf: false, hf: false, cf: (old(cpu).r.d >= 0x80), ..old(cpu).r }), ..*old(cpu) }),
        r == 2,
{
    let v = cpu.r.d;
    let nv = rl(cpu, v);
    cpu.r.d = nv;
    2
}

pub fn cb_rl_e(cpu: &mut CPU, _mmu: &mut MMU) -> (r: Cycles)
    requires
        old(cpu).inv(),
    ensures
        final(cpu).inv(),
        final(_mmu)@ == old(_mmu)@,
        *final(cpu) == (CPU { r: (Registers { e: spec_rl_res(old(cpu).r.e, old(cpu).r.cf), zf: (spec_rl_res(old(cpu).r.e, old(cpu).r.cf) == 0), nf: false, hf: false, cf: (old(cpu).r.e >= 0x80), ..old(cpu).r }), ..*old(cpu) }),
        r == 2,
{
    let v = cpu.r.e;
    let nv = rl(cpu, v);
    cpu.r.e = nv;
    2
}

pub fn cb_rl_h(cpu: &mut CPU, _mmu: &mut MMU) -> (r: Cycles)
    requires
        old(cpu).inv(),
    ensures
        final(cpu).inv(),
        final(_mmu)@ == old(_mmu)@,
        *final(cpu) == (CPU { r: (Registers { h: spec_rl_res(old(cpu).r.h, old(cpu).r.cf), zf: (spec_rl_res(old(cpu).r.h, old(cpu).r.cf) == 0), nf: false, hf: false, cf: (old(cpu).r.h >= 0x80), ..old(cpu).r }), ..*old(cpu) }),
        r == 2,
{
    let v = cpu.r.h;
    let nv = rl(cpu, v);
    cpu.r.h = nv;
    2
}

pub fn cb_rl_l(cpu: &mut CPU, _mmu: &mut MMU) -> (r: Cycles)
    requires
        old(cpu).inv(),
    ensures
        final(cpu).inv(),
        final(_mmu)@ == old(_mmu)@,
        *final(cpu) == (CPU { r: (Registers { l: spec_rl_res(old(cpu).r.l, old(cpu).r.cf), zf: (spec_rl_res(old(cpu).r.l, old(cpu).r.cf) == 0), nf: false, hf: false, cf: (old(cpu).r.l >= 0x80), ..old(cpu).r }), ..*old(cpu) }),
        r == 2,
{
    let v = cpu.r.l;
    let nv = rl(cpu, v);
    cpu.r.l = nv;
    2
}

pub fn cb_rl_a(cpu: &mut CPU, _mmu: &mut MMU) -> (r: Cycles)
    requires
        old(cpu).inv(),
    ensures
        final(cpu).inv(),
        final(_mmu)@ == old(_mmu)@,
        *final(cpu) == (CPU { r: (Registers { a: spec_rl_res(old(cpu).r.a, old(cpu).r.cf), zf: (spec_rl_res(old(cpu).r.a, old(cpu).r.cf) == 0), nf: false, hf: false, cf: (old(cpu).r.a >= 0x80), ..old(cpu).r }), ..*old(cpu) }),
        r == 2,
{
    let v = cpu.r.a;
    let nv = rl(cpu, v);
    cpu.r.a = nv;
    2
}

pub fn cb_rl_hl(cpu: &mut CPU, mmu: &mut MMU) -> (r: Cycles)
    requires
        old(cpu).inv(),
        old(mmu)@.inv(),
        old(mmu)@.supported(),
    ensures
        final(cpu).inv(),
        final(mmu)@.inv(),
        final(mmu)@.supported(),
        *final(cpu) == (CPU { r: (Registers { zf: (spec_rl_res(old(mmu)@.rb(old(cpu).r.spec_hl()), old(cpu).r.cf) == 0), nf: false, hf: false, cf: (old(mmu)@.rb(old(cpu).r.spec_hl()) >= 0x80), ..old(cpu).r }), ..*old(cpu) }),
        final(mmu)@ == old(mmu)@.wb(old(cpu).r.spec_hl(), spec_rl_res(old(mmu)@.rb(old(cpu).r.spec_hl()), old(cpu).r.cf)),
        r == 4,
{
    let addr = cpu.r.hl();
    let v = mmu.rb(addr);
    let nv = rl(cpu, v);
    mmu.wb(addr, nv);
    4
}

pub fn cb_rr_b(cpu: &mut CPU, _mmu: &mut MMU) -> (r: Cycles)
    requires
        old(cpu).inv(),
    ensures
        final(cpu).inv(),
        final(_mmu)@ == old(_mmu)@,
        *final(cpu) == (CPU { r: (Registers { b: spec_rr_res(old(cpu).r.b, old(cpu).r.cf), zf: (spec_rr_res(old(cpu).r.b, old(cpu).r.cf) == 0), nf: false, hf: false, cf: (old(cpu).r.b % 2 == 1), ..old(cpu).r }), ..*old(cpu) }),
        r == 2,
{
    let v = cpu.r.b;
    let nv = rr(cpu, v);
    cpu.r.b = nv;
    2
}

pub fn cb_rr_c(cpu: &mut CPU, _mmu: &mut MMU) -> (r: Cycles)
    requires
        old(cpu).inv(),
    ensures
        final(cpu).inv(),
        final(_mmu)@ == old(_mmu)@,
        *final(cpu) == (CPU { r: (Registers { c: spec_rr_res(old(cpu).r.c, old(cpu).r.cf), zf: (spec_rr_res(old(cpu).r.c, old(cpu).r.cf) == 0), nf: false, hf: false, cf: (old(cpu).r.c % 2 == 1), ..old(cpu).r }), ..*old(cpu) }),
        r == 2,
{
    let v = cpu.r.c;
    let nv = rr(cpu, v);
    cpu.r.c = nv;
    2
}

pub fn cb_rr_d(cpu: &mut CPU, _mmu: &mut MMU) -> (r: Cycles)
    requires
        old(cpu).inv(),
    ensures
        final(cpu).inv(),
        final(_mmu)@ == old(_mmu)@,
        *final(cpu) == (CPU { r: (Registers { d: spec_rr_res(old(cpu).r.d, old(cpu).r.cf), zf: (spec_rr_res(old(cpu).r.d, old(cpu).r.cf) == 0), nf: false, hf: false, cf: (old(cpu).r.d % 2 == 1), ..old(cpu).r }), ..*old(cpu) }),
        r == 2,
{
    let v = cpu.r.d;
    let nv = rr(cpu, v);
    cpu.r.d = nv;
    2
}

pub fn cb_rr_e(cpu: &mut CPU, _mmu: &mut MMU) -> (r: Cycles)
    requires
        old(cpu).inv(),
    ensures
        final(cpu).inv(),
        final(_mmu)@ == old(_mmu)@,
        *final(cpu) == (CPU { r: (Registers { e: spec_rr_res(old(cpu).r.e, old(cpu).r.cf), zf: (spec_rr_res(old(cpu).r.e, old(cpu).r.cf) == 0), nf: false, hf: false, cf: (old(cpu).r.e % 2 == 1), ..old(cpu).r }), ..*old(cpu) }),
        r == 2,
{
    let v = cpu.r.e;
    let nv = rr(cpu, v);
    cpu.r.e = nv;
    2
}

pub fn cb_rr_h(cpu: &mut CPU, _mmu: &mut MMU) -> (r: Cycles)
    requires
        old(cpu).inv(),
    ensures
        final(cpu).inv(),
        final(_mmu)@ == old(_mmu)@,
        *final(cpu) == (CPU { r: (Registers { h: spec_rr_res(old(cpu).r.h, old(cpu).r.cf), zf: (spec_rr_res(old(cpu).r.h, old(cpu).r.cf) == 0), nf: false, hf: false, cf: (old(cpu).r.h % 2 == 1), ..old(cpu).r }), ..*old(cpu) }),
        r == 2,
{
    let v = cpu.r.h;
    let nv = rr(cpu, v);
    cpu.r.h = nv;
    2
}

pub fn cb_rr_l(cpu: &mut CPU, _mmu: &mut MMU) -> (r: Cycles)
    requires
        old(cpu).inv(),
    ensures
        final(cpu).inv(),
        final(_mmu)@ == old(_mmu)@,
        *final(cpu) == (CPU { r: (Registers { l: spec_rr_res(old(cpu).r.l, old(cpu).r.cf), zf: (spec_rr_res(old(cpu).r.l, old(cpu).r.cf) == 0), nf: false, hf: false, cf: (old(cpu).r.l % 2 == 1), ..old(cpu).r }), ..*old(cpu) }),
        r == 2,
{
    let v = cpu.r.l;
    let nv = rr(cpu, v);
    cpu.r.l = nv;
    2
}

pub fn cb_rr_a(cpu: &mut CPU, _mmu: &mut MMU) -> (r: Cycles)
    requires
        old(cpu).inv(),
    ensures
        final(cpu).inv(),
        final(_mmu)@ == old(_mmu)@,
        *final(cpu) == (CPU { r: (Registers { a: spec_rr_res(old(cpu).r.a, old(cpu).r.cf), zf: (spec_rr_res(old(cpu).r.a, old(cpu).r.cf) == 0), nf: false, hf: false, cf: (old(cpu).r.a % 2 == 1), ..old(cpu).r }), ..*old(cpu) }),
        r == 2,
{
    let v = cpu.r.a;
    let nv = rr(cpu, v);
    cpu.r.a = nv;
    2
}

pub fn cb_rr_hl(cpu: &mut CPU, mmu: &mut MMU) -> (r: Cycles)
    requires
        old(cpu).inv(),
        old(mmu)@.inv(),
        old(mmu)@.supported(),
    ensures
        final(cpu).inv(),
        final(mmu)@.inv(),
        final(mmu)@.supported(),
        *final(cpu) == (CPU { r: (Registers { zf: (spec_rr_res(old(mmu)@.rb(old(cpu).r.spec_hl()), old(cpu).r.cf) == 0), nf: false, hf: false, cf: (old(mmu)@.rb(old(cpu).r.spec_hl()) % 2 == 1), ..old(cpu).r }), ..*old(cpu) }),
        final(mmu)@ == old(mmu)@.wb(old(cpu).r.spec_hl(), spec_rr_res(old(mmu)@.rb(old(cpu).r.spec_hl()), old(cpu).r.cf)),
        r == 4,
{
    let addr = cpu.r.hl();
    let v = mmu.rb(addr);
    let nv = rr(cpu, v);
    mmu.wb(addr, nv);
    4
}

pub fn cb_sla_b(cpu: &mut CPU, _mmu: &mut MMU) -> (r: Cycles)
    requires
        old(cpu).inv(),
    ensures
        final(cpu).inv(),
        final(_mmu)@ == old(_mmu)@,
        *final(cpu) == (CPU { r: (Registers { b: spec_sla_res(old(cpu).r.b), zf: (spec_sla_res(old(cpu).r.b) == 0), nf: false, hf: false, cf: (old(cpu).r.b >= 0x80), ..old(cpu).r }), ..*old(cpu) }),
        r == 2,
{
    let v = cpu.r.b;
    let nv = sla(cpu, v);
    cpu.r.b = nv;
    2
}

pub fn cb_sla_c(cpu: &mut CPU, _mmu: &mut MMU) -> (r: Cycles)
    requires
        old(cpu).inv(),
    ensures
        final(cpu).inv(),
        final(_mmu)@ == old(_mmu)@,
        *final(cpu) == (CPU { r: (Registers { c: spec_sla_res(old(cpu).r.c), zf: (spec_sla_res(old(cpu).r.c) == 0), nf: false, hf: false, cf: (old(cpu).r.c >= 0x80), ..old(cpu).r }), ..*old(cpu) }),
        r == 2,
{
    let v = cpu.r.c;
    let nv = sla(cpu, v);
    cpu.r.c = nv;
    2
}

pub fn cb_sla_d(cpu: &mut CPU, _mmu: &mut MMU) -> (r: Cycles)
    requires
        old(cpu).inv(),
    ensures
        final(cpu).inv(),
        final(_mmu)@ == old(_mmu)@,
        *final(cpu) == (CPU { r: (Registers { d: spec_sla_res(old(cpu).r.d), zf: (spec_sla_res(old(cpu).r.d) == 0), nf: false, hf: false, cf: (old(cpu).r.d >= 0x80), ..old(cpu).r }), ..*old(cpu) }),
        r == 2,
{
    let v = cpu.r.d;
    let nv = sla(cpu, v);
    cpu.r.d = nv;
    2
}

pub fn cb_sla_e(cpu: &mut CPU, _mmu: &mut MMU) -> (r: Cycles)
    requires
        old(cpu).inv(),
    ensures
        final(cpu).inv(),
        final(_mmu)@ == old(_mmu)@,
        *final(cpu) == (CPU { r: (Registers { e: spec_sla_res(old(cpu).r.e), zf: (spec_sla_res(old(cpu).r.e) == 0), nf: false, hf: false, cf: (old(cpu).r.e >= 0x80), ..old(cpu).r }), ..*old(cpu) }),
        r == 2,
{
    let v = cpu.r.e;
    let nv = sla(cpu, v);
    cpu.r.e = nv;
    2
}

pub fn cb_sla_h(cpu: &mut CPU, _mmu: &mut MMU) -> (r: Cycles)
    requires
        old(cpu).inv(),
    ensures
        final(cpu).inv(),
        final(_mmu)@ == old(_mmu)@,
        *final(cpu) == (CPU { r: (Registers { h: spec_sla_res(old(cpu).r.h), zf: (spec_sla_res(old(cpu).r.h) == 0), nf: false, hf: false, cf: (old(cpu).r.h >= 0x80), ..old(cpu).r }), ..*old(cpu) }),
        r == 2,
{
    let v = cpu.r.h;
    let nv = sla(cpu, v);
    cpu.r.h = nv;
    2
}

pub fn cb_sla_l(cpu: &mut CPU, _mmu: &mut MMU) -> (r: Cycles)
    requires
        old(cpu).inv(),
    ensures
        final(cpu).inv(),
        final(_mmu)@ == old(_mmu)@,
        *final(cpu) == (CPU { r: (Registers { l: spec_sla_res(old(cpu).r.l), zf: (spec_sla_res(old(cpu).r.l) == 0), nf: false, hf: false, cf: (old(cpu).r.l >= 0x80), ..old(cpu).r }), ..*old(cpu) }),
        r == 2,
{
    let v = cpu.r.l;
    let nv = sla(cpu, v);
    cpu.r.l = nv;
    2
}

pub fn cb_sla_a(cpu: &mut CPU, _mmu: &mut MMU) -> (r: Cycles)
    requires
        old(cpu).inv(),
    ensures
        final(cpu).inv(),
        final(_mmu)@ == old(_mmu)@,
        *final(cpu) == (CPU { r: (Registers { a: spec_sla_res(old(cpu).r.a), zf: (spec_sla_res(old(cpu).r.a) == 0), nf: false, hf: false, cf: (old(cpu).r.a >= 0x80), ..old(cpu).r }), ..*old(cpu) }),
        r == 2,
{
    let v = cpu.r.a;
    let nv = sla(cpu, v);
    cpu.r.a = nv;
    2
}

pub fn cb_sla_hl(cpu: &mut CPU, mmu: &mut MMU) -> (r: Cycles)
    requires
        old(cpu).inv(),
        old(mmu)@.inv(),
        old(mmu)@.supported(),
    ensures
        final(cpu).inv(),
        final(mmu)@.inv(),
        final(mmu)@.supported(),
        *final(cpu) == (CPU { r: (Registers { zf: (spec_sla_res(old(mmu)@.rb(old(cpu).r.spec_hl())) == 0), nf: false, hf: false, cf: (old(mmu)@.rb(old(cpu).r.spec_hl()) >= 0x80), ..old(cpu).r }), ..*old(cpu) }),
        final(mmu)@ == old(mmu)@.wb(old(cpu).r.spec_hl(), spec_sla_res(old(mmu)@.rb(old(cpu).r.spec_hl()))),
        r == 4,
{
    let addr = cpu.r.hl();
    let v = mmu.rb(addr);
    let nv = sla(cpu, v);
    mmu.wb(addr, nv);
    4
}

pub fn cb_sra_b(cpu: &mut CPU, _mmu: &mut MMU) -> (r: Cycles)
    requires
        old(cpu).inv(),
    ensures
        final(cpu).inv(),
        final(_mmu)@ == old(_mmu)@,
        *final(cpu) == (CPU { r: (Registers { b: spec_sra_res(old(cpu).r.b), zf: (spec_sra_res(old(cpu).r.b) == 0), nf: false, hf: false, cf: (old(cpu).r.b % 2 == 1), ..old(cpu).r }), ..*old(cpu) }),
        r == 2,
{
    let v = cpu.r.b;
    let nv = sra(cpu, v);
    cpu.r.b = nv;
    2
}

pub fn cb_sra_c(cpu: &mut CPU, _mmu: &mut MMU) -> (r: Cycles)
    requires
        old(cpu).inv(),
    ensures
        final(cpu).inv(),
        final(_mmu)@ == old(_mmu)@,
        *final(cpu) == (CPU { r: (Registers { c: spec_sra_res(old(cpu).r.c), zf: (spec_sra_res(old(cpu).r.c) == 0), nf: false, hf: false, cf: (old(cpu).r.c % 2 == 1), ..old(cpu).r }), ..*old(cpu) }),
        r == 2,
{
    let v = cpu.r.c;
    let nv = sra(cpu, v);
    cpu.r.c = nv;
    2
}

pub fn cb_sra_d(cpu: &mut CPU, _mmu: &mut MMU) -> (r: Cycles)
    requires
        old(cpu).inv(),
    ensures
        final(cpu).inv(),
        final(_mmu)@ == old(_mmu)@,
        *final(cpu) == (CPU { r: (Registers { d: spec_sra_res(old(cpu).r.d), zf: (spec_sra_res(old(cpu).r.d) == 0), nf: false, hf: false, cf: (old(cpu).r.d % 2 == 1), ..old(cpu).r }), ..*old(cpu) }),
        r == 2,
{
    let v = cpu.r.d;
    let nv = sra(cpu, v);
    cpu.r.d = nv;
    2
}

pub fn cb_sra_e(cpu: &mut CPU, _mmu: &mut MMU) -> (r: Cycles)
    requires
        old(cpu).inv(),
    ensures
        final(cpu).inv(),
        final(_mmu)@ == old(_mmu)@,
        *final(cpu) == (CPU { r: (Registers { e: spec_sra_res(old(cpu).r.e), zf: (spec_sra_res(old(cpu).r.e) == 0), nf: false, hf: false, cf: (old(cpu).r.e % 2 == 1), ..old(cpu).r }), ..*old(cpu) }),
        r == 2,
{
    let v = cpu.r.e;
    let nv = sra(cpu, v);
    cpu.r.e = nv;
    2
}

pub fn cb_sra_h(cpu: &mut CPU, _mmu: &mut MMU) -> (r: Cycles)
    requires
        old(cpu).inv(),
    ensures
        final(cpu).inv(),
        final(_mmu)@ == old(_mmu)@,
        *final(cpu) == (CPU { r: (Registers { h: spec_sra_res(old(cpu).r.h), zf: (spec_sra_res(old(cpu).r.h) == 0), nf: false, hf: false, cf: (old(cpu).r.h % 2 == 1), ..old(cpu).r }), ..*old(cpu) }),
        r == 2,
{
    let v = cpu.r.h;
    let nv = sra(cpu, v);
    cpu.r.h = nv;
    2
}

pub fn cb_sra_l(cpu: &mut CPU, _mmu: &mut MMU) -> (r: Cycles)
    requires
        old(cpu).inv(),
    ensures
        final(cpu).inv(),
        final(_mmu)@ == old(_mmu)@,
        *final(cpu) == (CPU { r: (Registers { l: spec_sra_res(old(cpu).r.l), zf: (spec_sra_res(old(cpu).r.l) == 0), nf: false, hf: false, cf: (old(cpu).r.l % 2 == 1), ..old(cpu).r }), ..*old(cpu) }),
        r == 2,
{
    let v = cpu.r.l;
    let nv = sra(cpu, v);
    cpu.r.l = nv;
    2
}

pub fn cb_sra_a(cpu: &mut CPU, _mmu: &mut MMU) -> (r: Cycles)
    requires
        old(cpu).inv(),
    ensures
        final(cpu).inv(),
        final(_mmu)@ == old(_mmu)@,
        *final(cpu) == (CPU { r: (Registers { a: spec_sra_res(old(cpu).r.a), zf: (spec_sra_res(old(cpu).r.a) == 0), nf: false, hf: false, cf: (old(cpu).r.a % 2 == 1), ..old(cpu).r }), ..*old(cpu) }),
        r == 2,
{
    let v = cpu.r.a;
    let nv = sra(cpu, v);
    cpu.r.a = nv;
    2
}

pub fn cb_sra_hl(cpu: &mut CPU, mmu: &mut MMU) -> (r: Cycles)
    requires
        old(cpu).inv(),
        old(mmu)@.inv(),
        old(mmu)@.supported(),
    ensures
        final(cpu).inv(),
        final(mmu)@.inv(),
        final(mmu)@.supported(),
        *final(cpu) == (CPU { r: (Registers { zf: (spec_sra_res(old(mmu)@.rb(old(cpu).r.spec_hl())) == 0), nf: false, hf: false, cf: (old(mmu)@.rb(old(cpu).r.spec_hl()) % 2 == 1), ..old(cpu).r }), ..*old(cpu) }),
        final(mmu)@ == old(mmu)@.wb(old(cpu).r.spec_hl(), spec_sra_res(old(mmu)@.rb(old(cpu).r.spec_hl()))),
        r == 4,
{
    let addr = cpu.r.hl();
    let v = mmu.rb(addr);
    let nv = sra(cpu, v);
    mmu.wb(addr, nv);
    4
}

pub fn cb_swap_b(cpu: &mut CPU, _mmu: &mut MMU) -> (r: Cycles)
    requires
        old(cpu).inv(),
    ensures
        final(cpu).inv(),
        final(_mmu)@ == old(_mmu)@,
        *final(cpu) == (CPU { r: (Registers { b: spec_swap_res(old(cpu).r.b), zf: (spec_swap_res(old(cpu).r.b) == 0), nf: false, hf: false, cf: false, ..old(cpu).r }), ..*old(cpu) }),
        r == 2,
{
    let v = cpu.r.b;
    let nv = swap(cpu, v);
    cpu.r.b = nv;
    2
}

pub fn cb_swap_c(cpu: &mut CPU, _mmu: &mut MMU) -> (r: Cycles)
    requires
        old(cpu).inv(),
    ensures
        final(cpu).inv(),
        final(_mmu)@ == old(_mmu)@,
        *final(cpu) == (CPU { r: (Registers { c: spec_swap_res(old(cpu).r.c), zf: (spec_swap_res(old(cpu).r.c) == 0), nf: false, hf: false, cf: false, ..old(cpu).r }), ..*old(cpu) }),
        r == 2,
{
    let v = cpu.r.c;
    let nv = swap(cpu, v);
    cpu.r.c = nv;
    2
}

pub fn cb_swap_d(cpu: &mut CPU, _mmu: &mut MMU) -> (r: Cycles)
    requires
        old(cpu).inv(),
    ensures
        final(cpu).inv(),
        final(_mmu)@ == old(_mmu)@,
        *final(cpu) == (CPU { r: (Registers { d: spec_swap_res(old(cpu).r.d), zf: (spec_swap_res(old(cpu).r.d) == 0), nf: false, hf: false, cf: false, ..old(cpu).r }), ..*old(cpu) }),
        r == 2,
{
    let v = cpu.r.d;
    let nv = swap(cpu, v);
    cpu.r.d = nv;
    2
}

pub fn cb_swap_e(cpu: &mut CPU, _mmu: &mut MMU) -> (r: Cycles)
    requires
        old(cpu).inv(),
    ensures
        final(cpu).inv(),
        final(_mmu)@ == old(_mmu)@,
        *final(cpu) == (CPU { r: (Registers { e: spec_swap_res(old(cpu).r.e), zf: (spec_swap_res(old(cpu).r.e) == 0), nf: false, hf: false, cf: false, ..old(cpu).r }), ..*old(cpu) }),
        r == 2,
{
    let v = cpu.r.e;
    let nv = swap(cpu, v);
    cpu.r.e = nv;
    2
}

pub fn cb_swap_h(cpu: &mut CPU, _mmu: &mut MMU) -> (r: Cycles)
    requires
        old(cpu).inv(),
    ensures
        final(cpu).inv(),
        final(_mmu)@ == old(_mmu)@,
        *final(cpu) == (CPU { r: (Registers { h: spec_swap_res(old(cpu).r.h), zf: (spec_swap_res(old(cpu).r.h) == 0), nf: false, hf: false, cf: false, ..old(cpu).r }), ..*old(cpu) }),
        r == 2,
{
    let v = cpu.r.h;
    let nv = swap(cpu, v);
    cpu.r.h = nv;
    2
}

pub fn cb_swap_l(cpu: &mut CPU, _mmu: &mut MMU) -> (r: Cycles)
    requires
        old(cpu).inv(),
    ensures
        final(cpu).inv(),
        final(_mmu)@ == old(_mmu)@,
        *final(cpu) == (CPU { r: (Registers { l: spec_swap_res(old(cpu).r.l), zf: (spec_swap_res(old(cpu).r.l) == 0), nf: false, hf: false, cf: false, ..old(cpu).r }), ..*old(cpu) }),
        r == 2,
{
    let v = cpu.r.l;
    let nv = swap(cpu, v);
    cpu.r.l = nv;
    2
}

pub fn cb_swap_a(cpu: &mut CPU, _mmu: &mut MMU) -> (r: Cycles)
    requires
        old(cpu).inv(),
    ensures
        final(cpu).inv(),
        final(_mmu)@ == old(_mmu)@,
        *final(cpu) == (CPU { r: (Registers { a: spec_swap_res(old(cpu).r.a), zf: (spec_swap_res(old(cpu).r.a) == 0), nf: false, hf: false, cf: false, ..old(cpu).r }), ..*old(cpu) }),
        r == 2,
{
    let v = cpu.r.a;
    let nv = swap(cpu, v);
    cpu.r.a = nv;
    2
}

pub fn cb_swap_hl(cpu: &mut CPU, mmu: &mut MMU) -> (r: Cycles)
    requires
        old(cpu).inv(),
        old(mmu)@.inv(),
        old(mmu)@.supported(),
    ensures
        final(cpu).inv(),
        final(mmu)@.inv(),
        final(mmu)@.supported(),
        *final(cpu) == (CPU { r: (Registers { zf: (spec_swap_res(old(mmu)@.rb(old(cpu).r.spec_hl())) == 0), nf: false, hf: false, cf: false, ..old(cpu).r }), ..*old(cpu) }),
        final(mmu)@ == old(mmu)@.wb(old(cpu).r.spec_hl(), spec_swap_res(old(mmu)@.rb(old(cpu).r.spec_hl()))),
        r == 4,
{
    let addr = cpu.r.hl();
    let v = mmu.rb(addr);
    let nv = swap(cpu, v);
    mmu.wb(addr, nv);
    4
}

pub fn cb_srl_b(cpu: &mut CPU, _mmu: &mut MMU) -> (r: Cycles)
    requires
        old(cpu).inv(),
    ensures
        final(cpu).inv(),
        final(_mmu)@ == old(_mmu)@,
        *final(cpu) == (CPU { r: (Registers { b: spec_srl_res(old(cpu).r.b), zf: (spec_srl_res(old(cpu).r.b) == 0), nf: false, hf: false, cf: (old(cpu).r.b % 2 == 1), ..old(cpu).r }), ..*old(cpu) }),
        r == 2,
{
    let v = cpu.r.b;
    let nv = srl(cpu, v);
    cpu.r.b = nv;
    2
}

pub fn cb_srl_c(cpu: &mut CPU, _mmu: &mut MMU) -> (r: Cycles)
    requires
        old(cpu).inv(),
    ensures
        final(cpu).inv(),
        final(_mmu)@ == old(_mmu)@,
        *final(cpu) == (CPU { r: (Registers { c: spec_srl_res(old(cpu).r.c), zf: (spec_srl_res(old(cpu).r.c) == 0), nf: false, hf: false, cf: (old(cpu).r.c % 2 == 1), ..old(cpu).r }), ..*old(cpu) }),
        r == 2,
{
    let v = cpu.r.c;
    let nv = srl(cpu, v);
    cpu.r.c = nv;
    2
}

pub fn cb_srl_d(cpu: &mut CPU, _mmu: &mut MMU) -> (r: Cycles)
    requires
        old(cpu).inv(),
    ensures
        final(cpu).inv(),
        final(_mmu)@ == old(_mmu)@,
        *final(cpu) == (CPU { r: (Registers { d: spec_srl_res(old(cpu).r.d), zf: (spec_srl_res(old(cpu).r.d) == 0), nf: false, hf: false, cf: (old(cpu).r.d % 2 == 1), ..old(cpu).r }), ..*old(cpu) }),
        r == 2,
{
    let v = cpu.r.d;
    let nv = srl(cpu, v);
    cpu.r.d = nv;
    2
}

pub fn cb_srl_e(cpu: &mut CPU, _mmu: &mut MMU) -> (r: Cycles)
    requires
        old(cpu).inv(),
    ensures
        final(cpu).inv(),
        final(_mmu)@ == old(_mmu)@,
        *final(cpu) == (CPU { r: (Registers { e: spec_srl_res(old(cpu).r.e), zf: (spec_srl_res(old(cpu).r.e) == 0), nf: false, hf: false, cf: (old(cpu).r.e % 2 == 1), ..old(cpu).r }), ..*old(cpu) }),
        r == 2,
{
    let v = cpu.r.e;
    let nv = srl(cpu, v);
    cpu.r.e = nv;
    2
}

pub fn cb_srl_h(cpu: &mut CPU, _mmu: &mut MMU) -> (r: Cycles)
    requires
        old(cpu).inv(),
    ensures
        final(cpu).inv(),
        final(_mmu)@ == old(_mmu)@,
        *final(cpu) == (CPU { r: (Registers { h: spec_srl_res(old(cpu).r.h), zf: (spec_srl_res(old(cpu).r.h) == 0), nf: false, hf: false, cf: (old(cpu).r.h % 2 == 1), ..old(cpu).r }), ..*old(cpu) }),
        r == 2,
{
    let v = cpu.r.h;
    let nv = srl(cpu, v);
    cpu.r.h = nv;
    2
}

pub fn cb_srl_l(cpu: &mut CPU, _mmu: &mut MMU) -> (r: Cycles)
    requires
        old(cpu).inv(),
    ensures
        final(cpu).inv(),
        final(_mmu)@ == old(_mmu)@,
        *final(cpu) == (CPU { r: (Registers { l: spec_srl_res(old(cpu).r.l), zf: (spec_srl_res(old(cpu).r.l) == 0), nf: false, hf: false, cf: (old(cpu).r.l % 2 == 1), ..old(cpu).r }), ..*old(cpu) }),
        r == 2,
{
    let v = cpu.r.l;
    let nv = srl(cpu, v);
    cpu.r.l = nv;
    2
}

pub fn cb_srl_a(cpu: &mut CPU, _mmu: &mut MMU) -> (r: Cycles)
    requires
        old(cpu).inv(),
    ensures
        final(cpu).inv(),
        final(_mmu)@ == old(_mmu)@,
        *final(cpu) == (CPU { r: (Registers { a: spec_srl_res(old(cpu).r.a), zf: (spec_srl_res(old(cpu).r.a) == 0), nf: false, hf: false, cf: (old(cpu).r.a % 2 == 1), ..old(cpu).r }), ..*old(cpu) }),
        r == 2,
{
    let v = cpu.r.a;
    let nv = srl(cpu, v);
    cpu.r.a = nv;
    2
}

pub fn cb_srl_hl(cpu: &mut CPU, mmu: &mut MMU) -> (r: Cycles)
    requires
        old(cpu).inv(),
        old(mmu)@.inv(),
        old(mmu)@.supported(),
    ensures
        final(cpu).inv(),
        final(mmu)@.inv(),
        final(mmu)@.supported(),
        *final(cpu) == (CPU { r: (Registers { zf: (spec_srl_res(old(mmu)@.rb(old(cpu).r.spec_hl())) == 0), nf: false, hf: false, cf: (old(mmu)@.rb(old(cpu).r.spec_hl()) % 2 == 1), ..old(cpu).r }), ..*old(cpu) }),
        final(mmu)@ == old(mmu)@.wb(old(cpu).r.spec_hl(), spec_srl_res(old(mmu)@.rb(old(cpu).r.spec_hl()))),
        r == 4,
{
    let addr = cpu.r.hl();
    let v = mmu.rb(addr);
    let nv = srl(cpu, v);
    mmu.wb(addr, nv);
    4
}

pub fn cb_bit_0_b(cpu: &mut CPU, _mmu: &mut MMU) -> (r: Cycles)
    requires
        old(cpu).inv(),
    ensures
        final(cpu).inv(),
        final(_mmu)@ == old(_mmu)@,
        *final(cpu) == (CPU { r: (Registers { zf: spec_bit_z(0, old(cpu).r.b), nf: false, hf: true, ..old(cpu).r }), ..*old(cpu) }),
        r == 2,
{
    let v = cpu.r.b;
    bit(cpu, 0, v);
    2
}

pub fn cb_bit_0_c(cpu: &mut CPU, _mmu: &mut MMU) -> (r: Cycles)
    requires
        old(cpu).inv(),
    ensures
        final(cpu).inv(),
        final(_mmu)@ == old(_mmu)@,
        *final(cpu) == (CPU { r: (Registers { zf: spec_bit_z(0, old(cpu).r.c), nf: false, hf: true, ..old(cpu).r }), ..*old(cpu) }),
        r == 2,
{
    let v = cpu.r.c;
    bit(cpu, 0, v);
    2
}

pub fn cb_bit_0_d(cpu: &mut CPU, _mmu: &mut MMU) -> (r: Cycles)
    requires
        old(cpu).inv(),
    ensures
        final(cpu).inv(),
        final(_mmu)@ == old(_mmu)@,
        *final(cpu) == (CPU { r: (Registers { zf: spec_bit_z(0, old(cpu).r.d), nf: false, hf: true, ..old(cpu).r }), ..*old(cpu) }),
        r == 2,
{
    let v = cpu.r.d;
    bit(cpu, 0, v);
    2
}

pub fn cb_bit_0_e(cpu: &mut CPU, _mmu: &mut MMU) -> (r: Cycles)
    requires
        old(cpu).inv(),
    ensures
        final(cpu).inv(),
        final(_mmu)@ == old(_mmu)@,
        *final(cpu) == (CPU { r: (Registers { zf: spec_bit_z(0, old(cpu).r.e), nf: false, hf: true, ..old(cpu).r }), ..*old(cpu) }),
        r == 2,
{
    let v = cpu.r.e;
    bit(cpu, 0, v);
    2
}

pub fn cb_bit_0_h(cpu: &mut CPU, _mmu: &mut MMU) -> (r: Cycles)
    requires
        old(cpu).inv(),
    ensures
        final(cpu).inv(),
        final(_mmu)@ == old(_mmu)@,
        *final(cpu) == (CPU { r: (Registers { zf: spec_bit_z(0, old(cpu).r.h), nf: false, hf: true, ..old(cpu).r }), ..*old(cpu) }),
        r == 2,
{
    let v = cpu.r.h;
    bit(cpu, 0, v);
    2
}

pub fn cb_bit_0_l(cpu: &mut CPU, _mmu: &mut MMU) -> (r: Cycles)
    requires
        old(cpu).inv(),
    ensures
        final(cpu).inv(),
        final(_mmu)@ == old(_mmu)@,
        *final(cpu) == (CPU { r: (Registers { zf: spec_bit_z(0, old(cpu).r.l), nf: false, hf: true, ..old(cpu).r }), ..*old(cpu) }),
        r == 2,
{
    let v = cpu.r.l;
    bit(cpu, 0, v);
    2
}

pub fn cb_bit_0_a(cpu: &mut CPU, _mmu: &mut MMU) -> (r: Cycles)
    requires
        old(cpu).inv(),
    ensures
        final(cpu).inv(),
        final(_mmu)@ == old(_mmu)@,
        *final(cpu) == (CPU { r: (Registers { zf: spec_bit_z(0, old(cpu).r.a), nf: false, hf: true, ..old(cpu).r }), ..*old(cpu) }),
        r == 2,
{
    let v = cpu.r.a;
    bit(cpu, 0, v);
    2
}

pub fn cb_bit_0_hl(cpu: &mut CPU, mmu: &mut MMU) -> (r: Cycles)
    requires
        old(cpu).inv(),
        old(mmu)@.inv(),
        old(mmu)@.supported(),
    ensures
        final(cpu).inv(),
        final(mmu)@ == old(mmu)@,
        *final(cpu) == (CPU { r: (Registers { zf: spec_bit_z(0, old(mmu)@.rb(old(cpu).r.spec_hl())), nf: false, hf: true, ..old(cpu).r }), ..*old(cpu) }),
        r == 3,
{
    let addr = cpu.r.hl();
    let v = mmu.rb(addr);
    bit(cpu, 0, v);
    3
}

pub fn cb_bit_1_b(cpu: &mut CPU, _mmu: &mut MMU) -> (r: Cycles)
    requires
        old(cpu).inv(),
    ensures
        final(cpu).inv(),
        final(_mmu)@ == old(_mmu)@,
        *final(cpu) == (CPU { r: (Registers { zf: spec_bit_z(1, old(cpu).r.b), nf: false, hf: true, ..old(cpu).r }), ..*old(cpu) }),
        r == 2,
{
    let v = cpu.r.b;
    bit(cpu, 1, v);
    2
}

pub fn cb_bit_1_c(cpu: &mut CPU, _mmu: &mut MMU) -> (r: Cycles)
    requires
        old(cpu).inv(),
    ensures
        final(cpu).inv(),
        final(_mmu)@ == old(_mmu)@,
        *final(cpu) == (CPU { r: (Registers { zf: spec_bit_z(1, old(cpu).r.c), nf: false, hf: true, ..old(cpu).r }), ..*old(cpu) }),
        r == 2,
{
    let v = cpu.r.c;
    bit(cpu, 1, v);
    2
}

pub fn cb_bit_1_d(cpu: &mut CPU, _mmu: &mut MMU) -> (r: Cycles)
    requires
        old(cpu).inv(),
    ensures
        final(cpu).inv(),
        final(_mmu)@ == old(_mmu)@,
        *final(cpu) == (CPU { r: (Registers { zf: spec_bit_z(1, old(cpu).r.d), nf: false, hf: true, ..old(cpu).r }), ..*old(cpu) }),
        r == 2,
{
    let v = cpu.r.d;
    bit(cpu, 1, v);
    2
}

pub fn cb_bit_1_e(cpu: &mut CPU, _mmu: &mut MMU) -> (r: Cycles)
    requires
        old(cpu).inv(),
    ensures
        final(cpu).inv(),
        final(_mmu)@ == old(_mmu)@,
        *final(cpu) == (CPU { r: (Registers { zf: spec_bit_z(1, old(cpu).r.e), nf: false, hf: true, ..old(cpu).r }), ..*old(cpu) }),
        r == 2,
{
    let v = cpu.r.e;
    bit(cpu, 1, v);
    2
}

pub fn cb_bit_1_h(cpu: &mut CPU, _mmu: &mut MMU) -> (r: Cycles)
    requires
        old(cpu).inv(),
    ensures
        final(cpu).inv(),
        final(_mmu)@ == old(_mmu)@,
        *final(cpu) == (CPU { r: (Registers { zf: spec_bit_z(1, old(cpu).r.h), nf: false, hf: true, ..old(cpu).r }), ..*old(cpu) }),
        r == 2,
{
    let v = cpu.r.h;
    bit(cpu, 1, v);
    2
}

pub fn cb_bit_1_l(cpu: &mut CPU, _mmu: &mut MMU) -> (r: Cycles)
    requires
        old(cpu).inv(),
    ensures
        final(cpu).inv(),
        final(_mmu)@ == old(_mmu)@,
        *final(cpu) == (CPU { r: (Registers { zf: spec_bit_z(1, old(cpu).r.l), nf: false, hf: true, ..old(cpu).r }), ..*old(cpu) }),
        r == 2,
{
    let v = cpu.r.l;
    bit(cpu, 1, v);
    2
}

pub fn cb_bit_1_a(cpu: &mut CPU, _mmu: &mut MMU) -> (r: Cycles)
    requires
        old(cpu).inv(),
    ensures
        final(cpu).inv(),
        final(_mmu)@ == old(_mmu)@,
        *final(cpu) == (CPU { r: (Registers { zf: spec_bit_z(1, old(cpu).r.a), nf: false, hf: true, ..old(cpu).r }), ..*old(cpu) }),
        r == 2,
{
    let v = cpu.r.a;
    bit(cpu, 1, v);
    2
}

pub fn cb_bit_1_hl(cpu: &mut CPU, mmu: &mut MMU) -> (r: Cycles)
    requires
        old(cpu).inv(),
        old(mmu)@.inv(),
        old(mmu)@.supported(),
    ensures
        final(cpu).inv(),
        final(mmu)@ == old(mmu)@,
        *final(cpu) == (CPU { r: (Registers { zf: spec_bit_z(1, old(mmu)@.rb(old(cpu).r.spec_hl())), nf: false, hf: true, ..old(cpu).r }), ..*old(cpu) }),
        r == 3,
{
    let addr = cpu.r.hl();
    let v = mmu.rb(addr);
    bit(cpu, 1, v);
    3
}

pub fn cb_bit_2_b(cpu: &mut CPU, _mmu: &mut MMU) -> (r: Cycles)
    requires
        old(cpu).inv(),
    ensures
        final(cpu).inv(),
        final(_mmu)@ == old(_mmu)@,
        *final(cpu) == (CPU { r: (Registers { zf: spec_bit_z(2, old(cpu).r.b), nf: false, hf: true, ..old(cpu).r }), ..*old(cpu) }),
        r == 2,
{
    let v = cpu.r.b;
    bit(cpu, 2, v);
    2
}

pub fn cb_bit_2_c(cpu: &mut CPU, _mmu: &mut MMU) -> (r: Cycles)
    requires
        old(cpu).inv(),
    ensures
        final(cpu).inv(),
        final(_mmu)@ == old(_mmu)@,
        *final(cpu) == (CPU { r: (Registers { zf: spec_bit_z(2, old(cpu).r.c), nf: false, hf: true, ..old(cpu).r }), ..*old(cpu) }),
        r == 2,
{
    let v = cpu.r.c;
    bit(cpu, 2, v);
    2
}

pub fn cb_bit_2_d(cpu: &mut CPU, _mmu: &mut MMU) -> (r: Cycles)
    requires
        old(cpu).inv(),
    ensures
        final(cpu).inv(),
        final(_mmu)@ == old(_mmu)@,
        *final(cpu) == (CPU { r: (Registers { zf: spec_bit_z(2, old(cpu).r.d), nf: false, hf: true, ..old(cpu).r }), ..*old(cpu) }),
        r == 2,
{
    let v = cpu.r.d;
    bit(cpu, 2, v);
    2
}

pub fn cb_bit_2_e(cpu: &mut CPU, _mmu: &mut MMU) -> (r: Cycles)
    requires
        old(cpu).inv(),
    ensures
        final(cpu).inv(),
        final(_mmu)@ == old(_mmu)@,
        *final(cpu) == (CPU { r: (Registers { zf: spec_bit_z(2, old(cpu).r.e), nf: false, hf: true, ..old(cpu).r }), ..*old(cpu) }),
        r == 2,
{
    let v = cpu.r.e;
    bit(cpu, 2, v);
    2
}

pub fn cb_bit_2_h(cpu: &mut CPU, _mmu: &mut MMU) -> (r: Cycles)
    requires
        old(cpu).inv(),
    ensures
        final(cpu).inv(),
        final(_mmu)@ == old(_mmu)@,
        *final(cpu) == (CPU { r: (Registers { zf: spec_bit_z(2, old(cpu).r.h), nf: false, hf: true, ..old(cpu).r }), ..*old(cpu) }),
        r == 2,
{
    let v = cpu.r.h;
    bit(cpu, 2, v);
    2
}

pub fn cb_bit_2_l(cpu: &mut CPU, _mmu: &mut MMU) -> (r: Cycles)
    requires
        old(cpu).inv(),
    ensures
        final(cpu).inv(),
        final(_mmu)@ == old(_mmu)@,
        *final(cpu) == (CPU { r: (Registers { zf: spec_bit_z(2, old(cpu).r.l), nf: false, hf: true, ..old(cpu).r }), ..*old(cpu) }),
        r == 2,
{
    let v = cpu.r.l;
    bit(cpu, 2, v);
    2
}

pub fn cb_bit_2_a(cpu: &mut CPU, _mmu: &mut MMU) -> (r: Cycles)
    requires
        old(cpu).inv(),
    ensures
        final(cpu).inv(),
        final(_mmu)@ == old(_mmu)@,
        *final(cpu) == (CPU { r: (Registers { zf: spec_bit_z(2, old(cpu).r.a), nf: false, hf: true, ..old(cpu).r }), ..*old(cpu) }),
        r == 2,
{
    let v = cpu.r.a;
    bit(cpu, 2, v);
    2
}

pub fn cb_bit_2_hl(cpu: &mut CPU, mmu: &mut MMU) -> (r: Cycles)
    requires
        old(cpu).inv(),
        old(mmu)@.inv(),
        old(mmu)@.supported(),
    ensures
        final(cpu).inv(),
        final(mmu)@ == old(mmu)@,
        *final(cpu) == (CPU { r: (Registers { zf: spec_bit_z(2, old(mmu)@.rb(old(cpu).r.spec_hl())), nf: false, hf: true, ..old(cpu).r }), ..*old(cpu) }),
        r == 3,
{
    let addr = cpu.r.hl();
    let v = mmu.rb(addr);
    bit(cpu, 2, v);
    3
}

pub fn cb_bit_3_b(cpu: &mut CPU, _mmu: &mut MMU) -> (r: Cycles)
    requires
        old(cpu).inv(),
    ensures
        final(cpu).inv(),
        final(_mmu)@ == old(_mmu)@,
        *final(cpu) == (CPU { r: (Registers { zf: spec_bit_z(3, old(cpu).r.b), nf: false, hf: true, ..old(cpu).r }), ..*old(cpu) }),
        r == 2,
{
    let v = cpu.r.b;
    bit(cpu, 3, v);
    2
}

pub fn cb_bit_3_c(cpu: &mut CPU, _mmu: &mut MMU) -> (r: Cycles)
    requires
        old(cpu).inv(),
    ensures
        final(cpu).inv(),
        final(_mmu)@ == old(_mmu)@,
        *final(cpu) == (CPU { r: (Registers { zf: spec_bit_z(3, old(cpu).r.c), nf: false, hf: true, ..old(cpu).r }), ..*old(cpu) }),
        r == 2,
{
    let v = cpu.r.c;
    bit(cpu, 3, v);
    2
}

pub fn cb_bit_3_d(cpu: &mut CPU, _mmu: &mut MMU) -> (r: Cycles)
    requires
        old(cpu).inv(),
    ensures
        final(cpu).inv(),
        final(_mmu)@ == old(_mmu)@,
        *final(cpu) == (CPU { r: (Registers { zf: spec_bit_z(3, old(cpu).r.d), nf: false, hf: true, ..old(cpu).r }), ..*old(cpu) }),
        r == 2,
{
    let v = cpu.r.d;
    bit(cpu, 3, v);
    2
}

pub fn cb_bit_3_e(cpu: &mut CPU, _mmu: &mut MMU) -> (r: Cycles)
    requires
        old(cpu).inv(),
    ensures
        final(cpu).inv(),
        final(_mmu)@ == old(_mmu)@,
        *final(cpu) == (CPU { r: (Registers { zf: spec_bit_z(3, old(cpu).r.e), nf: false, hf: true, ..old(cpu).r }), ..*old(cpu) }),
        r == 2,
{
    let v = cpu.r.e;
    bit(cpu, 3, v);
    2
}

pub fn cb_bit_3_h(cpu: &mut CPU, _mmu: &mut MMU) -> (r: Cycles)
    requires
        old(cpu).inv(),
    ensures
        final(cpu).inv(),
        final(_mmu)@ == old(_mmu)@,
        *final(cpu) == (CPU { r: (Registers { zf: spec_bit_z(3, old(cpu).r.h), nf: false, hf: true, ..old(cpu).r }), ..*old(cpu) }),
        r == 2,
{
    let v = cpu.r.h;
    bit(cpu, 3, v);
    2
}

pub fn cb_bit_3_l(cpu: &mut CPU, _mmu: &mut MMU) -> (r: Cycles)
    requires
        old(cpu).inv(),
    ensures
        final(cpu).inv(),
        final(_mmu)@ == old(_mmu)@,
        *final(cpu) == (CPU { r: (Registers { zf: spec_bit_z(3, old(cpu).r.l), nf: false, hf: true, ..old(cpu).r }), ..*old(cpu) }),
        r == 2,
{
    let v = cpu.r.l;
    bit(cpu, 3, v);
    2
}

pub fn cb_bit_3_a(cpu: &mut CPU, _mmu: &mut MMU) -> (r: Cycles)
    requires
        old(cpu).inv(),
    ensures
        final(cpu).inv(),
        final(_mmu)@ == old(_mmu)@,
        *final(cpu) == (CPU { r: (Registers { zf: spec_bit_z(3, old(cpu).r.a), nf: false, hf: true, ..old(cpu).r }), ..*old(cpu) }),
        r == 2,
{
    let v = cpu.r.a;
    bit(cpu, 3, v);
    2
}

pub fn cb_bit_3_hl(cpu: &mut CPU, mmu: &mut MMU) -> (r: Cycles)
    requires
        old(cpu).inv(),
        old(mmu)@.inv(),
        old(mmu)@.supported(),
    ensures
        final(cpu).inv(),
        final(mmu)@ == old(mmu)@,
        *final(cpu) == (CPU { r: (Registers { zf: spec_bit_z(3, old(mmu)@.rb(old(cpu).r.spec_hl())), nf: false, hf: true, ..old(cpu).r }), ..*old(cpu) }),
        r == 3,
{
    let addr = cpu.r.hl();
    let v = mmu.rb(addr);
    bit(cpu, 3, v);
    3
}

pub fn cb_bit_4_b(cpu: &mut CPU, _mmu: &mut MMU) -> (r: Cycles)
    requires
        old(cpu).inv(),
    ensures
        final(cpu).inv(),
        final(_mmu)@ == old(_mmu)@,
        *final(cpu) == (CPU { r: (Registers { zf: spec_bit_z(4, old(cpu).r.b), nf: false, hf: true, ..old(cpu).r }), ..*old(cpu) }),
        r == 2,
{
    let v = cpu.r.b;
    bit(cpu, 4, v);
    2
}

pub fn cb_bit_4_c(cpu: &mut CPU, _mmu: &mut MMU) -> (r: Cycles)
    requires
        old(cpu).inv(),
    ensures
        final(cpu).inv(),
        final(_mmu)@ == old(_mmu)@,
        *final(cpu) == (CPU { r: (Registers { zf: spec_bit_z(4, old(cpu).r.c), nf: false, hf: true, ..old(cpu).r }), ..*old(cpu) }),
        r == 2,
{
    let v = cpu.r.c;
    bit(cpu, 4, v);
    2
}

pub fn cb_bit_4_d(cpu: &mut CPU, _mmu: &mut MMU) -> (r: Cycles)
    requires
        old(cpu).inv(),
    ensures
        final(cpu).inv(),
        final(_mmu)@ == old(_mmu)@,
        *final(cpu) == (CPU { r: (Registers { zf: spec_bit_z(4, old(cpu).r.d), nf: false, hf: true, ..old(cpu).r }), ..*old(cpu) }),
        r == 2,
{
    let v = cpu.r.d;
    bit(cpu, 4, v);
    2
}

pub fn cb_bit_4_e(cpu: &mut CPU, _mmu: &mut MMU) -> (r: Cycles)
    requires
        old(cpu).inv(),
    ensures
        final(cpu).inv(),
        final(_mmu)@ == old(_mmu)@,
        *final(cpu) == (CPU { r: (Registers { zf: spec_bit_z(4, old(cpu).r.e), nf: false, hf: true, ..old(cpu).r }), ..*old(cpu) }),
        r == 2,
{
    let v = cpu.r.e;
    bit(cpu, 4, v);
    2
}

pub fn cb_bit_4_h(cpu: &mut CPU, _mmu: &mut MMU) -> (r: Cycles)
    requires
        old(cpu).inv(),
    ensures
        final(cpu).inv(),
        final(_mmu)@ == old(_mmu)@,
        *final(cpu) == (CPU { r: (Registers { zf: spec_bit_z(4, old(cpu).r.h), nf: false, hf: true, ..old(cpu).r }), ..*old(cpu) }),
        r == 2,
{
    let v = cpu.r.h;
    bit(cpu, 4, v);
    2
}

pub fn cb_bit_4_l(cpu: &mut CPU, _mmu: &mut MMU) -> (r: Cycles)
    requires
        old(cpu).inv(),
    ensures
        final(cpu).inv(),
        final(_mmu)@ == old(_mmu)@,
        *final(cpu) == (CPU { r: (Registers { zf: spec_bit_z(4, old(cpu).r.l), nf: false, hf: true, ..old(cpu).r }), ..*old(cpu) }),
        r == 2,
{
    let v = cpu.r.l;
    bit(cpu, 4, v);
    2
}

pub fn cb_bit_4_a(cpu: &mut CPU, _mmu: &mut MMU) -> (r: Cycles)
    requires
        old(cpu).inv(),
    ensures
        final(cpu).inv(),
        final(_mmu)@ == old(_mmu)@,
        *final(cpu) == (CPU { r: (Registers { zf: spec_bit_z(4, old(cpu).r.a), nf: false, hf: true, ..old(cpu).r }), ..*old(cpu) }),
        r == 2,
{
    let v = cpu.r.a;
    bit(cpu, 4, v);
    2
}

pub fn cb_bit_4_hl(cpu: &mut CPU, mmu: &mut MMU) -> (r: Cycles)
    requires
        old(cpu).inv(),
        old(mmu)@.inv(),
        old(mmu)@.supported(),
    ensures
        final(cpu).inv(),
        final(mmu)@ == old(mmu)@,
        *final(cpu) == (CPU { r: (Registers { zf: spec_bit_z(4, old(mmu)@.rb(old(cpu).r.spec_hl())), nf: false, hf: true, ..old(cpu).r }), ..*old(cpu) }),
        r == 3,
{
    let addr = cpu.r.hl();
    let v = mmu.rb(addr);
    bit(cpu, 4, v);
    3
}

pub fn cb_bit_5_b(cpu: &mut CPU, _mmu: &mut MMU) -> (r: Cycles)
    requires
        old(cpu).inv(),
    ensures
        final(cpu).inv(),
        final(_mmu)@ == old(_mmu)@,
        *final(cpu) == (CPU { r: (Registers { zf: spec_bit_z(5, old(cpu).r.b), nf: false, hf: true, ..old(cpu).r }), ..*old(cpu) }),
        r == 2,
{
    let v = cpu.r.b;
    bit(cpu, 5, v);
    2
}

pub fn cb_bit_5_c(cpu: &mut CPU, _mmu: &mut MMU) -> (r: Cycles)
    requires
        old(cpu).inv(),
    ensures
        final(cpu).inv(),
        final(_mmu)@ == old(_mmu)@,
        *final(cpu) == (CPU { r: (Registers { zf: spec_bit_z(5, old(cpu).r.c), nf: false, hf: true, ..old(cpu).r }), ..*old(cpu) }),
        r == 2,
{
    let v = cpu.r.c;
    bit(cpu, 5, v);
    2
}

pub fn cb_bit_5_d(cpu: &mut CPU, _mmu: &mut MMU) -> (r: Cycles)
    requires
        old(cpu).inv(),
    ensures
        final(cpu).inv(),
        final(_mmu)@ == old(_mmu)@,
        *final(cpu) == (CPU { r: (Registers { zf: spec_bit_z(5, old(cpu).r.d), nf: false, hf: true, ..old(cpu).r }), ..*old(cpu) }),
        r == 2,
{
    let v = cpu.r.d;
    bit(cpu, 5, v);
    2
}

pub fn cb_bit_5_e(cpu: &mut CPU, _mmu: &mut MMU) -> (r: Cycles)
    requires
        old(cpu).inv(),
    ensures
        final(cpu).inv(),
        final(_mmu)@ == old(_mmu)@,
        *final(cpu) == (CPU { r: (Registers { zf: spec_bit_z(5, old(cpu).r.e), nf: false, hf: true, ..old(cpu).r }), ..*old(cpu) }),
        r == 2,
{
    let v = cpu.r.e;
    bit(cpu, 5, v);
    2
}

pub fn cb_bit_5_h(cpu: &mut CPU, _mmu: &mut MMU) -> (r: Cycles)
    requires
        old(cpu).inv(),
    ensures
        final(cpu).inv(),
        final(_mmu)@ == old(_mmu)@,
        *final(cpu) == (CPU { r: (Registers { zf: spec_bit_z(5, old(cpu).r.h), nf: false, hf: true, ..old(cpu).r }), ..*old(cpu) }),
        r == 2,
{
    let v = cpu.r.h;
    bit(cpu, 5, v);
    2
}

pub fn cb_bit_5_l(cpu: &mut CPU, _mmu: &mut MMU) -> (r: Cycles)
    requires
        old(cpu).inv(),
    ensures
        final(cpu).inv(),
        final(_mmu)@ == old(_mmu)@,
        *final(cpu) == (CPU { r: (Registers { zf: spec_bit_z(5, old(cpu).r.l), nf: false, hf: true, ..old(cpu).r }), ..*old(cpu) }),
        r == 2,
{
    let v = cpu.r.l;
    bit(cpu, 5, v);
    2
}

pub fn cb_bit_5_a(cpu: &mut CPU, _mmu: &mut MMU) -> (r: Cycles)
    requires
        old(cpu).inv(),
    ensures
        final(cpu).inv(),
        final(_mmu)@ == old(_mmu)@,
        *final(cpu) == (CPU { r: (Registers { zf: spec_bit_z(5, old(cpu).r.a), nf: false, hf: true, ..old(cpu).r }), ..*old(cpu) }),
        r == 2,
{
    let v = cpu.r.a;
    bit(cpu, 5, v);
    2
}

pub fn cb_bit_5_hl(cpu: &mut CPU, mmu: &mut MMU) -> (r: Cycles)
    requires
        old(cpu).inv(),
        old(mmu)@.inv(),
        old(mmu)@.supported(),
    ensures
        final(cpu).inv(),
        final(mmu)@ == old(mmu)@,
        *final(cpu) == (CPU { r: (Registers { zf: spec_bit_z(5, old(mmu)@.rb(old(cpu).r.spec_hl())), nf: false, hf: true, ..old(cpu).r }), ..*old(cpu) }),
        r == 3,
{
    let addr = cpu.r.hl();
    let v = mmu.rb(addr);
    bit(cpu, 5, v);
    3
}

pub fn cb_bit_6_b(cpu: &mut CPU, _mmu: &mut MMU) -> (r: Cycles)
    requires
        old(cpu).inv(),
    ensures
        final(cpu).inv(),
        final(_mmu)@ == old(_mmu)@,
        *final(cpu) == (CPU { r: (Registers { zf: spec_bit_z(6, old(cpu).r.b), nf: false, hf: true, ..old(cpu).r }), ..*old(cpu) }),
        r == 2,
{
    let v = cpu.r.b;
    bit(cpu, 6, v);
    2
}

pub fn cb_bit_6_c(cpu: &mut CPU, _mmu: &mut MMU) -> (r: Cycles)
    requires
        old(cpu).inv(),
    ensures
        final(cpu).inv(),
        final(_mmu)@ == old(_mmu)@,
        *final(cpu) == (CPU { r: (Registers { zf: spec_bit_z(6, old(cpu).r.c), nf: false, hf: true, ..old(cpu).r }), ..*old(cpu) }),
        r == 2,
{
    let v = cpu.r.c;
    bit(cpu, 6, v);
    2
}

pub fn cb_bit_6_d(cpu: &mut CPU, _mmu: &mut MMU) -> (r: Cycles)
    requires
        old(cpu).inv(),
    ensures
        final(cpu).inv(),
        final(_mmu)@ == old(_mmu)@,
        *final(cpu) == (CPU { r: (Registers { zf: spec_bit_z(6, old(cpu).r.d), nf: false, hf: true, ..old(cpu).r }), ..*old(cpu) }),
        r == 2,
{
    let v = cpu.r.d;
    bit(cpu, 6, v);
    2
}

pub fn cb_bit_6_e(cpu: &mut CPU, _mmu: &mut MMU) -> (r: Cycles)
    requires
        old(cpu).inv(),
    ensures
        final(cpu).inv(),
        final(_mmu)@ == old(_mmu)@,
        *final(cpu) == (CPU { r: (Registers { zf: spec_bit_z(6, old(cpu).r.e), nf: false, hf: true, ..old(cpu).r }), ..*old(cpu) }),
        r == 2,
{
    let v = cpu.r.e;
    bit(cpu, 6, v);
    2
}

pub fn cb_bit_6_h(cpu: &mut CPU, _mmu: &mut MMU) -> (r: Cycles)
    requires
        old(cpu).inv(),
    ensures
        final(cpu).inv(),
        final(_mmu)@ == old(_mmu)@,
        *final(cpu) == (CPU { r: (Registers { zf: spec_bit_z(6, old(cpu).r.h), nf: false, hf: true, ..old(cpu).r }), ..*old(cpu) }),
        r == 2,
{
    let v = cpu.r.h;
    bit(cpu, 6, v);
    2
}

pub fn cb_bit_6_l(cpu: &mut CPU, _mmu: &mut MMU) -> (r: Cycles)
    requires
        old(cpu).inv(),
    ensures
        final(cpu).inv(),
        final(_mmu)@ == old(_mmu)@,
        *final(cpu) == (CPU { r: (Registers { zf: spec_bit_z(6, old(cpu).r.l), nf: false, hf: true, ..old(cpu).r }), ..*old(cpu) }),
        r == 2,
{
    let v = cpu.r.l;
    bit(cpu, 6, v);
    2
}

pub fn cb_bit_6_a(cpu: &mut CPU, _mmu: &mut MMU) -> (r: Cycles)
    requires
        old(cpu).inv(),
    ensures
        final(cpu).inv(),
        final(_mmu)@ == old(_mmu)@,
        *final(cpu) == (CPU { r: (Registers { zf: spec_bit_z(6, old(cpu).r.a), nf: false, hf: true, ..old(cpu).r }), ..*old(cpu) }),
        r == 2,
{
    let v = cpu.r.a;
    bit(cpu, 6, v);
    2
}

pub fn cb_bit_6_hl(cpu: &mut CPU, mmu: &mut MMU) -> (r: Cycles)
    requires
        old(cpu).inv(),
        old(mmu)@.inv(),
        old(mmu)@.supported(),
    ensures
        final(cpu).inv(),
        final(mmu)@ == old(mmu)@,
        *final(cpu) == (CPU { r: (Registers { zf: spec_bit_z(6, old(mmu)@.rb(old(cpu).r.spec_hl())), nf: false, hf: true, ..old(cpu).r }), ..*old(cpu) }),
        r == 3,
{
    let addr = cpu.r.hl();
    let v = mmu.rb(addr);
    bit(cpu, 6, v);
    3
}

pub fn cb_bit_7_b(cpu: &mut CPU, _mmu: &mut MMU) -> (r: Cycles)
    requires
        old(cpu).inv(),
    ensures
        final(cpu).inv(),
        final(_mmu)@ == old(_mmu)@,
        *final(cpu) == (CPU { r: (Registers { zf: spec_bit_z(7, old(cpu).r.b), nf: false, hf: true, ..old(cpu).r }), ..*old(cpu) }),
        r == 2,
{
    let v = cpu.r.b;
    bit(cpu, 7, v);
    2
}

pub fn cb_bit_7_c(cpu: &mut CPU, _mmu: &mut MMU) -> (r: Cycles)
    requires
        old(cpu).inv(),
    ensures
        final(cpu).inv(),
        final(_mmu)@ == old(_mmu)@,
        *final(cpu) == (CPU { r: (Registers { zf: spec_bit_z(7, old(cpu).r.c), nf: false, hf: true, ..old(cpu).r }), ..*old(cpu) }),
        r == 2,
{
    let v = cpu.r.c;
    bit(cpu, 7, v);
    2
}

pub fn cb_bit_7_d(cpu: &mut CPU, _mmu: &mut MMU) -> (r: Cycles)
    requires
        old(cpu).inv(),
    ensures
        final(cpu).inv(),
        final(_mmu)@ == old(_mmu)@,
        *final(cpu) == (CPU { r: (Registers { zf: spec_bit_z(7, old(cpu).r.d), nf: false, hf: true, ..old(cpu).r }), ..*old(cpu) }),
        r == 2,
{
    let v = cpu.r.d;
    bit(cpu, 7, v);
    2
}

pub fn cb_bit_7_e(cpu: &mut CPU, _mmu: &mut MMU) -> (r: Cycles)
    requires
        old(cpu).inv(),
    ensures
        final(cpu).inv(),
        final(_mmu)@ == old(_mmu)@,
        *final(cpu) == (CPU { r: (Registers { zf: spec_bit_z(7, old(cpu).r.e), nf: false, hf: true, ..old(cpu).r }), ..*old(cpu) }),
        r == 2,
{
    let v = cpu.r.e;
    bit(cpu, 7, v);
    2
}

pub fn cb_bit_7_h(cpu: &mut CPU, _mmu: &mut MMU) -> (r: Cycles)
    requires
        old(cpu).inv(),
    ensures
        final(cpu).inv(),
        final(_mmu)@ == old(_mmu)@,
        *final(cpu) == (CPU { r: (Registers { zf: spec_bit_z(7, old(cpu).r.h), nf: false, hf: true, ..old(cpu).r }), ..*old(cpu) }),
        r == 2,
{
    let v = cpu.r.h;
    bit(cpu, 7, v);
    2
}

pub fn cb_bit_7_l(cpu: &mut CPU, _mmu: &mut MMU) -> (r: Cycles)
    requires
        old(cpu).inv(),
    ensures
        final(cpu).inv(),
        final(_mmu)@ == old(_mmu)@,
        *final(cpu) == (CPU { r: (Registers { zf: spec_bit_z(7, old(cpu).r.l), nf: false, hf: true, ..old(cpu).r }), ..*old(cpu) }),
        r == 2,
{
    let v = cpu.r.l;
    bit(cpu, 7, v);
    2
}

pub fn cb_bit_7_a(cpu: &mut CPU, _mmu: &mut MMU) -> (r: Cycles)
    requires
        old(cpu).inv(),
    ensures
        final(cpu).inv(),
        final(_mmu)@ == old(_mmu)@,
        *final(cpu) == (CPU { r: (Registers { zf: spec_bit_z(7, old(cpu).r.a), nf: false, hf: true, ..old(cpu).r }), ..*old(cpu) }),
        r == 2,
{
    let v = cpu.r.a;
    bit(cpu, 7, v);
    2
}

pub fn cb_bit_7_hl(cpu: &mut CPU, mmu: &mut MMU) -> (r: Cycles)
    requires
        old(cpu).inv(),
        old(mmu)@.inv(),
        old(mmu)@.supported(),
    ensures
        final(cpu).inv(),
        final(mmu)@ == old(mmu)@,
        *final(cpu) == (CPU { r: (Registers { zf: spec_bit_z(7, old(mmu)@.rb(old(cpu).r.spec_hl())), nf: false, hf: true, ..old(cpu).r }), ..*old(cpu) }),
        r == 3,
{
    let addr = cpu.r.hl();
    let v = mmu.rb(addr);
    bit(cpu, 7, v);
    3
}

pub fn cb_res_0_b(cpu: &mut CPU, _mmu: &mut MMU) -> (r: Cycles)
    requires
        old(cpu).inv(),
    ensures
        final(cpu).inv(),
        final(_mmu)@ == old(_mmu)@,
        *final(cpu) == (CPU { r: (Registers { b: spec_res(0, old(cpu).r.b), ..old(cpu).r }), ..*old(cpu) }),
        r == 2,
{
    let v = cpu.r.b;
    let nv = res(0, v);
    cpu.r.b = nv;
    2
}

pub fn cb_res_0_c(cpu: &mut CPU, _mmu: &mut MMU) -> (r: Cycles)
    requires
        old(cpu).inv(),
    ensures
        final(cpu).inv(),
        final(_mmu)@ == old(_mmu)@,
        *final(cpu) == (CPU { r: (Registers { c: spec_res(0, old(cpu).r.c), ..old(cpu).r }), ..*old(cpu) }),
        r == 2,
{
    let v = cpu.r.c;
    let nv = res(0, v);
    cpu.r.c = nv;
    2
}

pub fn cb_res_0_d(cpu: &mut CPU, _mmu: &mut MMU) -> (r: Cycles)
    requires
        old(cpu).inv(),
    ensures
        final(cpu).inv(),
        final(_mmu)@ == old(_mmu)@,
        *final(cpu) == (CPU { r: (Registers { d: spec_res(0, old(cpu).r.d), ..old(cpu).r }), ..*old(cpu) }),
        r == 2,
{
    let v = cpu.r.d;
    let nv = res(0, v);
    cpu.r.d = nv;
    2
}

pub fn cb_res_0_e(cpu: &mut CPU, _mmu: &mut MMU) -> (r: Cycles)
    requires
        old(cpu).inv(),
    ensures
        final(cpu).inv(),
        final(_mmu)@ == old(_mmu)@,
        *final(cpu) == (CPU { r: (Registers { e: spec_res(0, old(cpu).r.e), ..old(cpu).r }), ..*old(cpu) }),
        r == 2,
{
    let v = cpu.r.e;
    let nv = res(0, v);
    cpu.r.e = nv;
    2
}

pub fn cb_res_0_h(cpu: &mut CPU, _mmu: &mut MMU) -> (r: Cycles)
    requires
        old(cpu).inv(),
    ensures
        final(cpu).inv(),
        final(_mmu)@ == old(_mmu)@,
        *final(cpu) == (CPU { r: (Registers { h: spec_res(0, old(cpu).r.h), ..old(cpu).r }), ..*old(cpu) }),
        r == 2,
{
    let v = cpu.r.h;
    let nv = res(0, v);
    cpu.r.h = nv;
    2
}

pub fn cb_res_0_l(cpu: &mut CPU, _mmu: &mut MMU) -> (r: Cycles)
    requires
        old(cpu).inv(),
    ensures
        final(cpu).inv(),
        final(_mmu)@ == old(_mmu)@,
        *final(cpu) == (CPU { r: (Registers { l: spec_res(0, old(cpu).r.l), ..old(cpu).r }), ..*old(cpu) }),
        r == 2,
{
    let v = cpu.r.l;
    let nv = res(0, v);
    cpu.r.l = nv;
    2
}

pub fn cb_res_0_a(cpu: &mut CPU, _mmu: &mut MMU) -> (r: Cycles)
    requires
        old(cpu).inv(),
    ensures
        final(cpu).inv(),
        final(_mmu)@ == old(_mmu)@,
        *final(cpu) == (CPU { r: (Registers { a: spec_res(0, old(cpu).r.a), ..old(cpu).r }), ..*old(cpu) }),
        r == 2,
{
    let v = cpu.r.a;
    let nv = res(0, v);
    cpu.r.a = nv;
    2
}

pub fn cb_res_0_hl(cpu: &mut CPU, mmu: &mut MMU) -> (r: Cycles)
    requires
        old(cpu).inv(),
        old(mmu)@.inv(),
        old(mmu)@.supported(),
    ensures
        final(cpu).inv(),
        final(mmu)@.inv(),
        final(mmu)@.supported(),
        *final(cpu) == *old(cpu),
        final(mmu)@ == old(mmu)@.wb(old(cpu).r.spec_hl(), spec_res(0, old(mmu)@.rb(old(cpu).r.spec_hl()))),
        r == 4,
{
    let addr = cpu.r.hl();
    let v = mmu.rb(addr);
    let nv = res(0, v);
    mmu.wb(addr, nv);
    4
}

pub fn cb_res_1_b(cpu: &mut CPU, _mmu: &mut MMU) -> (r: Cycles)
    requires
        old(cpu).inv(),
    ensures
        final(cpu).inv(),
        final(_mmu)@ == old(_mmu)@,
        *final(cpu) == (CPU { r: (Registers { b: spec_res(1, old(cpu).r.b), ..old(cpu).r }), ..*old(cpu) }),
        r == 2,
{
    let v = cpu.r.b;
    let nv = res(1, v);
    cpu.r.b = nv;
    2
}

pub fn cb_res_1_c(cpu: &mut CPU, _mmu: &mut MMU) -> (r: Cycles)
    requires
        old(cpu).inv(),
    ensures
        final(cpu).inv(),
        final(_mmu)@ == old(_mmu)@,
        *final(cpu) == (CPU { r: (Registers { c: spec_res(1, old(cpu).r.c), ..old(cpu).r }), ..*old(cpu) }),
        r == 2,
{
    let v = cpu.r.c;
    let nv = res(1, v);
    cpu.r.c = nv;
    2
}

pub fn cb_res_1_d(cpu: &mut CPU, _mmu: &mut MMU) -> (r: Cycles)
    requires
        old(cpu).inv(),
    ensures
        final(cpu).inv(),
        final(_mmu)@ == old(_mmu)@,
        *final(cpu) == (CPU { r: (Registers { d: spec_res(1, old(cpu).r.d), ..old(cpu).r }), ..*old(cpu) }),
        r == 2,
{
    let v = cpu.r.d;
    let nv = res(1, v);
    cpu.r.d = nv;
    2
}

pub fn cb_res_1_e(cpu: &mut CPU, _mmu: &mut MMU) -> (r: Cycles)
    requires
        old(cpu).inv(),
    ensures
        final(cpu).inv(),
        final(_mmu)@ == old(_mmu)@,
        *final(cpu) == (CPU { r: (Registers { e: spec_res(1, old(cpu).r.e), ..old(cpu).r }), ..*old(cpu) }),
        r == 2,
{
    let v = cpu.r.e;
    let nv = res(1, v);
    cpu.r.e = nv;
    2
}

pub fn cb_res_1_h(cpu: &mut CPU, _mmu: &mut MMU) -> (r: Cycles)
    requires
        old(cpu).inv(),
    ensures
        final(cpu).inv(),
        final(_mmu)@ == old(_mmu)@,
        *final(cpu) == (CPU { r: (Registers { h: spec_res(1, old(cpu).r.h), ..old(cpu).r }), ..*old(cpu) }),
        r == 2,
{
    let v = cpu.r.h;
    let nv = res(1, v);
    cpu.r.h = nv;
    2
}

pub fn cb_res_1_l(cpu: &mut CPU, _mmu: &mut MMU) -> (r: Cycles)
    requires
        old(cpu).inv(),
    ensures
        final(cpu).inv(),
        final(_mmu)@ == old(_mmu)@,
        *final(cpu) == (CPU { r: (Registers { l: spec_res(1, old(cpu).r.l), ..old(cpu).r }), ..*old(cpu) }),
        r == 2,
{
    let v = cpu.r.l;
    let nv = res(1, v);
    cpu.r.l = nv;
    2
}

pub fn cb_res_1_a(cpu: &mut CPU, _mmu: &mut MMU) -> (r: Cycles)
    requires
        old(cpu).inv(),
    ensures
        final(cpu).inv(),
        final(_mmu)@ == old(_mmu)@,
        *final(cpu) == (CPU { r: (Registers { a: spec_res(1, old(cpu).r.a), ..old(cpu).r }), ..*old(cpu) }),
        r == 2,
{
    let v = cpu.r.a;
    let nv = res(1, v);
    cpu.r.a = nv;
    2
}

pub fn cb_res_1_hl(cpu: &mut CPU, mmu: &mut MMU) -> (r: Cycles)
    requires
        old(cpu).inv(),
        old(mmu)@.inv(),
        old(mmu)@.supported(),
    ensures
        final(cpu).inv(),
        final(mmu)@.inv(),
        final(mmu)@.supported(),
        *final(cpu) == *old(cpu),
        final(mmu)@ == old(mmu)@.wb(old(cpu).r.spec_hl(), spec_res(1, old(mmu)@.rb(old(cpu).r.spec_hl()))),
        r == 4,
{
    let addr = cpu.r.hl();
    let v = mmu.rb(addr);
    let nv = res(1, v);
    mmu.wb(addr, nv);
    4
}

pub fn cb_res_2_b(cpu: &mut CPU, _mmu: &mut MMU) -> (r: Cycles)
    requires
        old(cpu).inv(),
    ensures
        final(cpu).inv(),
        final(_mmu)@ == old(_mmu)@,
        *final(cpu) == (CPU { r: (Registers { b: spec_res(2, old(cpu).r.b), ..old(cpu).r }), ..*old(cpu) }),
        r == 2,
{
    let v = cpu.r.b;
    let nv = res(2, v);
    cpu.r.b = nv;
    2
}

pub fn cb_res_2_c(cpu: &mut CPU, _mmu: &mut MMU) -> (r: Cycles)
    requires
        old(cpu).inv(),
    ensures
        final(cpu).inv(),
        final(_mmu)@ == old(_mmu)@,
        *final(cpu) == (CPU { r: (Registers { c: spec_res(2, old(cpu).r.c), ..old(cpu).r }), ..*old(cpu) }),
        r == 2,
{
    let v = cpu.r.c;
    let nv = res(2, v);
    cpu.r.c = nv;
    2
}

pub fn cb_res_2_d(cpu: &mut CPU, _mmu: &mut MMU) -> (r: Cycles)
    requires
        old(cpu).inv(),
    ensures
        final(cpu).inv(),
        final(_mmu)@ == old(_mmu)@,
        *final(cpu) == (CPU { r: (Registers { d: spec_res(2, old(cpu).r.d), ..old(cpu).r }), ..*old(cpu) }),
        r == 2,
{
    let v = cpu.r.d;
    let nv = res(2, v);
    cpu.r.d = nv;
    2
}

pub fn cb_res_2_e(cpu: &mut CPU, _mmu: &mut MMU) -> (r: Cycles)
    requires
        old(cpu).inv(),
    ensures
        final(cpu).inv(),
        final(_mmu)@ == old(_mmu)@,
        *final(cpu) == (CPU { r: (Registers { e: spec_res(2, old(cpu).r.e), ..old(cpu).r }), ..*old(cpu) }),
        r == 2,
{
    let v = cpu.r.e;
    let nv = res(2, v);
    cpu.r.e = nv;
    2
}

pub fn cb_res_2_h(cpu: &mut CPU, _mmu: &mut MMU) -> (r: Cycles)
    requires
        old(cpu).inv(),
    ensures
        final(cpu).inv(),
        final(_mmu)@ == old(_mmu)@,
        *final(cpu) == (CPU { r: (Registers { h: spec_res(2, old(cpu).r.h), ..old(cpu).r }), ..*old(cpu) }),
        r == 2,
{
    let v = cpu.r.h;
    let nv = res(2, v);
    cpu.r.h = nv;
    2
}

pub fn cb_res_2_l(cpu: &mut CPU, _mmu: &mut MMU) -> (r: Cycles)
    requires
        old(cpu).inv(),
    ensures
        final(cpu).inv(),
        final(_mmu)@ == old(_mmu)@,
        *final(cpu) == (CPU { r: (Registers { l: spec_res(2, old(cpu).r.l), ..old(cpu).r }), ..*old(cpu) }),
        r == 2,
{
    let v = cpu.r.l;
    let nv = res(2, v);
    cpu.r.l = nv;
    2
}

pub fn cb_res_2_a(cpu: &mut CPU, _mmu: &mut MMU) -> (r: Cycles)
    requires
        old(cpu).inv(),
    ensures
        final(cpu).inv(),
        final(_mmu)@ == old(_mmu)@,
        *final(cpu) == (CPU { r: (Registers { a: spec_res(2, old(cpu).r.a), ..old(cpu).r }), ..*old(cpu) }),
        r == 2,
{
    let v = cpu.r.a;
    let nv = res(2, v);
    cpu.r.a = nv;
    2
}

pub fn cb_res_2_hl(cpu: &mut CPU, mmu: &mut MMU) -> (r: Cycles)
    requires
        old(cpu).inv(),
        old(mmu)@.inv(),
        old(mmu)@.supported(),
    ensures
        final(cpu).inv(),
        final(mmu)@.inv(),
        final(mmu)@.supported(),
        *final(cpu) == *old(cpu),
        final(mmu)@ == old(mmu)@.wb(old(cpu).r.spec_hl(), spec_res(2, old(mmu)@.rb(old(cpu).r.spec_hl()))),
        r == 4,
{
    let addr = cpu.r.hl();
    let v = mmu.rb(addr);
    let nv = res(2, v);
    mmu.wb(addr, nv);
    4
}

pub fn cb_res_3_b(cpu: &mut CPU, _mmu: &mut MMU) -> (r: Cycles)
    requires
        old(cpu).inv(),
    ensures
        final(cpu).inv(),
        final(_mmu)@ == old(_mmu)@,
        *final(cpu) == (CPU { r: (Registers { b: spec_res(3, old(cpu).r.b), ..old(cpu).r }), ..*old(cpu) }),
        r == 2,
{
    let v = cpu.r.b;
    let nv = res(3, v);
    cpu.r.b = nv;
    2
}

pub fn cb_res_3_c(cpu: &mut CPU, _mmu: &mut MMU) -> (r: Cycles)
    requires
        old(cpu).inv(),
    ensures
        final(cpu).inv(),
        final(_mmu)@ == old(_mmu)@,
        *final(cpu) == (CPU { r: (Registers { c: spec_res(3, old(cpu).r.c), ..old(cpu).r }), ..*old(cpu) }),
        r == 2,
{
    let v = cpu.r.c;
    let nv = res(3, v);
    cpu.r.c = nv;
    2
}

pub fn cb_res_3_d(cpu: &mut CPU, _mmu: &mut MMU) -> (r: Cycles)
    requires
        old(cpu).inv(),
    ensures
        final(cpu).inv(),
        final(_mmu)@ == old(_mmu)@,
        *final(cpu) == (CPU { r: (Registers { d: spec_res(3, old(cpu).r.d), ..old(cpu).r }), ..*old(cpu) }),
        r == 2,
{
    let v = cpu.r.d;
    let nv = res(3, v);
    cpu.r.d = nv;
    2
}

pub fn cb_res_3_e(cpu: &mut CPU, _mmu: &mut MMU) -> (r: Cycles)
    requires
        old(cpu).inv(),
    ensures
        final(cpu).inv(),
        final(_mmu)@ == old(_mmu)@,
        *final(cpu) == (CPU { r: (Registers { e: spec_res(3, old(cpu).r.e), ..old(cpu).r }), ..*old(cpu) }),
        r == 2,
{
    let v = cpu.r.e;
    let nv = res(3, v);
    cpu.r.e = nv;
    2
}

pub fn cb_res_3_h(cpu: &mut CPU, _mmu: &mut MMU) -> (r: Cycles)
    requires
        old(cpu).inv(),
    ensures
        final(cpu).inv(),
        final(_mmu)@ == old(_mmu)@,
        *final(cpu) == (CPU { r: (Registers { h: spec_res(3, old(cpu).r.h), ..old(cpu).r }), ..*old(cpu) }),
        r == 2,
{
    let v = cpu.r.h;
    let nv = res(3, v);
    cpu.r.h = nv;
    2
}

pub fn cb_res_3_l(cpu: &mut CPU, _mmu: &mut MMU) -> (r: Cycles)
    requires
        old(cpu).inv(),
    ensures
        final(cpu).inv(),
        final(_mmu)@ == old(_mmu)@,
        *final(cpu) == (CPU { r: (Registers { l: spec_res(3, old(cpu).r.l), ..old(cpu).r }), ..*old(cpu) }),
        r == 2,
{
    let v = cpu.r.l;
    let nv = res(3, v);
    cpu.r.l = nv;
    2
}

pub fn cb_res_3_a(cpu: &mut CPU, _mmu: &mut MMU) -> (r: Cycles)
    requires
        old(cpu).inv(),
    ensures
        final(cpu).inv(),
        final(_mmu)@ == old(_mmu)@,
        *final(cpu) == (CPU { r: (Registers { a: spec_res(3, old(cpu).r.a), ..old(cpu).r }), ..*old(cpu) }),
        r == 2,
{
    let v = cpu.r.a;
    let nv = res(3, v);
    cpu.r.a = nv;
    2
}

pub fn cb_res_3_hl(cpu: &mut CPU, mmu: &mut MMU) -> (r: Cycles)
    requires
        old(cpu).inv(),
        old(mmu)@.inv(),
        old(mmu)@.supported(),
    ensures
        final(cpu).inv(),
        final(mmu)@.inv(),
        final(mmu)@.supported(),
        *final(cpu) == *old(cpu),
        final(mmu)@ == old(mmu)@.wb(old(cpu).r.spec_hl(), spec_res(3, old(mmu)@.rb(old(cpu).r.spec_hl()))),
        r == 4,
{
    let addr = cpu.r.hl();
    let v = mmu.rb(addr);
    let nv = res(3, v);
    mmu.wb(addr, nv);
    4
}

pub fn cb_res_4_b(cpu: &mut CPU, _mmu: &mut MMU) -> (r: Cycles)
    requires
        old(cpu).inv(),
    ensures
        final(cpu).inv(),
        final(_mmu)@ == old(_mmu)@,
        *final(cpu) == (CPU { r: (Registers { b: spec_res(4, old(cpu).r.b), ..old(cpu).r }), ..*old(cpu) }),
        r == 2,
{
    let v = cpu.r.b;
    let nv = res(4, v);
    cpu.r.b = nv;
    2
}

pub fn cb_res_4_c(cpu: &mut CPU, _mmu: &mut MMU) -> (r: Cycles)
    requires
        old(cpu).inv(),
    ensures
        final(cpu).inv(),
        final(_mmu)@ == old(_mmu)@,
        *final(cpu) == (CPU { r: (Registers { c: spec_res(4, old(cpu).r.c), ..old(cpu).r }), ..*old(cpu) }),
        r == 2,
{
    let v = cpu.r.c;
    let nv = res(4, v);
    cpu.r.c = nv;
    2
}

pub fn cb_res_4_d(cpu: &mut CPU, _mmu: &mut MMU) -> (r: Cycles)
    requires
        old(cpu).inv(),
    ensures
        final(cpu).inv(),
        final(_mmu)@ == old(_mmu)@,
        *final(cpu) == (CPU { r: (Registers { d: spec_res(4, old(cpu).r.d), ..old(cpu).r }), ..*old(cpu) }),
        r == 2,
{
    let v = cpu.r.d;
    let nv = res(4, v);
    cpu.r.d = nv;
    2
}

pub fn cb_res_4_e(cpu: &mut CPU, _mmu: &mut MMU) -> (r: Cycles)
    requires
        old(cpu).inv(),
    ensures
        final(cpu).inv(),
        final(_mmu)@ == old(_mmu)@,
        *final(cpu) == (CPU { r: (Registers { e: spec_res(4, old(cpu).r.e), ..old(cpu).r }), ..*old(cpu) }),
        r == 2,
{
    let v = cpu.r.e;
    let nv = res(4, v);
    cpu.r.e = nv;
    2
}

pub fn cb_res_4_h(cpu: &mut CPU, _mmu: &mut MMU) -> (r: Cycles)
    requires
        old(cpu).inv(),
    ensures
        final(cpu).inv(),
        final(_mmu)@ == old(_mmu)@,
        *final(cpu) == (CPU { r: (Registers { h: spec_res(4, old(cpu).r.h), ..old(cpu).r }), ..*old(cpu) }),
        r == 2,
{
    let v = cpu.r.h;
    let nv = res(4, v);
    cpu.r.h = nv;
    2
}

pub fn cb_res_4_l(cpu: &mut CPU, _mmu: &mut MMU) -> (r: Cycles)
    requires
        old(cpu).inv(),
    ensures
        final(cpu).inv(),
        final(_mmu)@ == old(_mmu)@,
        *final(cpu) == (CPU { r: (Registers { l: spec_res(4, old(cpu).r.l), ..old(cpu).r }), ..*old(cpu) }),
        r == 2,
{
    let v = cpu.r.l;
    let nv = res(4, v);
    cpu.r.l = nv;
    2
}

pub fn cb_res_4_a(cpu: &mut CPU, _mmu: &mut MMU) -> (r: Cycles)
    requires
        old(cpu).inv(),
    ensures
        final(cpu).inv(),
        final(_mmu)@ == old(_mmu)@,
        *final(cpu) == (CPU { r: (Registers { a: spec_res(4, old(cpu).r.a), ..old(cpu).r }), ..*old(cpu) }),
        r == 2,
{
    let v = cpu.r.a;
    let nv = res(4, v);
    cpu.r.a = nv;
    2
}

pub fn cb_res_4_hl(cpu: &mut CPU, mmu: &mut MMU) -> (r: Cycles)
    requires
        old(cpu).inv(),
        old(mmu)@.inv(),
        old(mmu)@.supported(),
    ensures
        final(cpu).inv(),
        final(mmu)@.inv(),
        final(mmu)@.supported(),
        *final(cpu) == *old(cpu),
        final(mmu)@ == old(mmu)@.wb(old(cpu).r.spec_hl(), spec_res(4, old(mmu)@.rb(old(cpu).r.spec_hl()))),
        r == 4,
{
    let addr = cpu.r.hl();
    let v = mmu.rb(addr);
    let nv = res(4, v);
    mmu.wb(addr, nv);
    4
}

pub fn cb_res_5_b(cpu: &mut CPU, _mmu: &mut MMU) -> (r: Cycles)
    requires
        old(cpu).inv(),
    ensures
        final(cpu).inv(),
        final(_mmu)@ == old(_mmu)@,
        *final(cpu) == (CPU { r: (Registers { b: spec_res(5, old(cpu).r.b), ..old(cpu).r }), ..*old(cpu) }),
        r == 2,
{
    let v = cpu.r.b;
    let nv = res(5, v);
    cpu.r.b = nv;
    2
}

pub fn cb_res_5_c(cpu: &mut CPU, _mmu: &mut MMU) -> (r: Cycles)
    requires
        old(cpu).inv(),
    ensures
        final(cpu).inv(),
        final(_mmu)@ == old(_mmu)@,
        *final(cpu) == (CPU { r: (Registers { c: spec_res(5, old(cpu).r.c), ..old(cpu).r }), ..*old(cpu) }),
        r == 2,
{
    let v = cpu.r.c;
    let nv = res(5, v);
    cpu.r.c = nv;
    2
}

pub fn cb_res_5_d(cpu: &mut CPU, _mmu: &mut MMU) -> (r: Cycles)
    requires
        old(cpu).inv(),
    ensures
        final(cpu).inv(),
        final(_mmu)@ == old(_mmu)@,
        *final(cpu) == (CPU { r: (Registers { d: spec_res(5, old(cpu).r.d), ..old(cpu).r }), ..*old(cpu) }),
        r == 2,
{
    let v = cpu.r.d;
    let nv = res(5, v);
    cpu.r.d = nv;
    2
}

pub fn cb_res_5_e(cpu: &mut CPU, _mmu: &mut MMU) -> (r: Cycles)
    requires
        old(cpu).inv(),
    ensures
        final(cpu).inv(),
        final(_mmu)@ == old(_mmu)@,
        *final(cpu) == (CPU { r: (Registers { e: spec_res(5, old(cpu).r.e), ..old(cpu).r }), ..*old(cpu) }),
        r == 2,
{
    let v = cpu.r.e;
    let nv = res(5, v);
    cpu.r.e = nv;
    2
}

pub fn cb_res_5_h(cpu: &mut CPU, _mmu: &mut MMU) -> (r: Cycles)
    requires
        old(cpu).inv(),
    ensures
        final(cpu).inv(),
        final(_mmu)@ == old(_mmu)@,
        *final(cpu) == (CPU { r: (Registers { h: spec_res(5, old(cpu).r.h), ..old(cpu).r }), ..*old(cpu) }),
        r == 2,
{
    let v = cpu.r.h;
    let nv = res(5, v);
    cpu.r.h = nv;
    2
}

pub fn cb_res_5_l(cpu: &mut CPU, _mmu: &mut MMU) -> (r: Cycles)
    requires
        old(cpu).inv(),
    ensures
        final(cpu).inv(),
        final(_mmu)@ == old(_mmu)@,
        *final(cpu) == (CPU { r: (Registers { l: spec_res(5, old(cpu).r.l), ..old(cpu).r }), ..*old(cpu) }),
        r == 2,
{
    let v = cpu.r.l;
    let nv = res(5, v);
    cpu.r.l = nv;
    2
}

pub fn cb_res_5_a(cpu: &mut CPU, _mmu: &mut MMU) -> (r: Cycles)
    requires
        old(cpu).inv(),
    ensures
        final(cpu).inv(),
        final(_mmu)@ == old(_mmu)@,
        *final(cpu) == (CPU { r: (Registers { a: spec_res(5, old(cpu).r.a), ..old(cpu).r }), ..*old(cpu) }),
        r == 2,
{
    let v = cpu.r.a;
    let nv = res(5, v);
    cpu.r.a = nv;
    2
}

pub fn cb_res_5_hl(cpu: &mut CPU, mmu: &mut MMU) -> (r: Cycles)
    requires
        old(cpu).inv(),
        old(mmu)@.inv(),
        old(mmu)@.supported(),
    ensures
        final(cpu).inv(),
        final(mmu)@.inv(),
        final(mmu)@.supported(),
        *final(cpu) == *old(cpu),
        final(mmu)@ == old(mmu)@.wb(old(cpu).r.spec_hl(), spec_res(5, old(mmu)@.rb(old(cpu).r.spec_hl()))),
        r == 4,
{
    let addr = cpu.r.hl();
    let v = mmu.rb(addr);
    let nv = res(5, v);
    mmu.wb(addr, nv);
    4
}

pub fn cb_res_6_b(cpu: &mut CPU, _mmu: &mut MMU) -> (r: Cycles)
    requires
        old(cpu).inv(),
    ensures
        final(cpu).inv(),
        final(_mmu)@ == old(_mmu)@,
        *final(cpu) == (CPU { r: (Registers { b: spec_res(6, old(cpu).r.b), ..old(cpu).r }), ..*old(cpu) }),
        r == 2,
{
    let v = cpu.r.b;
    let nv = res(6, v);
    cpu.r.b = nv;
    2
}

pub fn cb_res_6_c(cpu: &mut CPU, _mmu: &mut MMU) -> (r: Cycles)
    requires
        old(cpu).inv(),
    ensures
        final(cpu).inv(),
        final(_mmu)@ == old(_mmu)@,
        *final(cpu) == (CPU { r: (Registers { c: spec_res(6, old(cpu).r.c), ..old(cpu).r }), ..*old(cpu) }),
        r == 2,
{
    let v = cpu.r.c;
    let nv = res(6, v);
    cpu.r.c = nv;
    2
}

pub fn cb_res_6_d(cpu: &mut CPU, _mmu: &mut MMU) -> (r: Cycles)
    requires
        old(cpu).inv(),
    ensures
        final(cpu).inv(),
        final(_mmu)@ == old(_mmu)@,
        *final(cpu) == (CPU { r: (Registers { d: spec_res(6, old(cpu).r.d), ..old(cpu).r }), ..*old(cpu) }),
        r == 2,
{
    let v = cpu.r.d;
    let nv = res(6, v);
    cpu.r.d = nv;
    2
}

pub fn cb_res_6_e(cpu: &mut CPU, _mmu: &mut MMU) -> (r: Cycles)
    requires
        old(cpu).inv(),
    ensures
        final(cpu).inv(),
        final(_mmu)@ == old(_mmu)@,
        *final(cpu) == (CPU { r: (Registers { e: spec_res(6, old(cpu).r.e), ..old(cpu).r }), ..*old(cpu) }),
        r == 2,
{
    let v = cpu.r.e;
    let nv = res(6, v);
    cpu.r.e = nv;
    2
}

pub fn cb_res_6_h(cpu: &mut CPU, _mmu: &mut MMU) -> (r: Cycles)
    requires
        old(cpu).inv(),
    ensures
        final(cpu).inv(),
        final(_mmu)@ == old(_mmu)@,
        *final(cpu) == (CPU { r: (Registers { h: spec_res(6, old(cpu).r.h), ..old(cpu).r }), ..*old(cpu) }),
        r == 2,
{
    let v = cpu.r.h;
    let nv = res(6, v);
    cpu.r.h = nv;
    2
}

pub fn cb_res_6_l(cpu: &mut CPU, _mmu: &mut MMU) -> (r: Cycles)
    requires
        old(cpu).inv(),
    ensures
        final(cpu).inv(),
        final(_mmu)@ == old(_mmu)@,
        *final(cpu) == (CPU { r: (Registers { l: spec_res(6, old(cpu).r.l), ..old(cpu).r }), ..*old(cpu) }),
        r == 2,
{
    let v = cpu.r.l;
    let nv = res(6, v);
    cpu.r.l = nv;
    2
}

pub fn cb_res_6_a(cpu: &mut CPU, _mmu: &mut MMU) -> (r: Cycles)
    requires
        old(cpu).inv(),
    ensures
        final(cpu).inv(),
        final(_mmu)@ == old(_mmu)@,
        *final(cpu) == (CPU { r: (Registers { a: spec_res(6, old(cpu).r.a), ..old(cpu).r }), ..*old(cpu) }),
        r == 2,
{
    let v = cpu.r.a;
    let nv = res(6, v);
    cpu.r.a = nv;
    2
}

pub fn cb_res_6_hl(cpu: &mut CPU, mmu: &mut MMU) -> (r: Cycles)
    requires
        old(cpu).inv(),
        old(mmu)@.inv(),
        old(mmu)@.supported(),
    ensures
        final(cpu).inv(),
        final(mmu)@.inv(),
        final(mmu)@.supported(),
        *final(cpu) == *old(cpu),
        final(mmu)@ == old(mmu)@.wb(old(cpu).r.spec_hl(), spec_res(6, old(mmu)@.rb(old(cpu).r.spec_hl()))),
        r == 4,
{
    let addr = cpu.r.hl();
    let v = mmu.rb(addr);
    let nv = res(6, v);
    mmu.wb(addr, nv);
    4
}

pub fn cb_res_7_b(cpu: &mut CPU, _mmu: &mut MMU) -> (r: Cycles)
    requires
        old(cpu).inv(),
    ensures
        final(cpu).inv(),
        final(_mmu)@ == old(_mmu)@,
        *final(cpu) == (CPU { r: (Registers { b: spec_res(7, old(cpu).r.b), ..old(cpu).r }), ..*old(cpu) }),
        r == 2,
{
    let v = cpu.r.b;
    let nv = res(7, v);
    cpu.r.b = nv;
    2
}

pub fn cb_res_7_c(cpu: &mut CPU, _mmu: &mut MMU) -> (r: Cycles)
    requires
        old(cpu).inv(),
    ensures
        final(cpu).inv(),
        final(_mmu)@ == old(_mmu)@,
        *final(cpu) == (CPU { r: (Registers { c: spec_res(7, old(cpu).r.c), ..old(cpu).r }), ..*old(cpu) }),
        r == 2,
{
    let v = cpu.r.c;
    let nv = res(7, v);
    cpu.r.c = nv;
    2
}

pub fn cb_res_7_d(cpu: &mut CPU, _mmu: &mut MMU) -> (r: Cycles)
    requires
        old(cpu).inv(),
    ensures
        final(cpu).inv(),
        final(_mmu)@ == old(_mmu)@,
        *final(cpu) == (CPU { r: (Registers { d: spec_res(7, old(cpu).r.d), ..old(cpu).r }), ..*old(cpu) }),
        r == 2,
{
    let v = cpu.r.d;
    let nv = res(7, v);
    cpu.r.d = nv;
    2
}

pub fn cb_res_7_e(cpu: &mut CPU, _mmu: &mut MMU) -> (r: Cycles)
    requires
        old(cpu).inv(),
    ensures
        final(cpu).inv(),
        final(_mmu)@ == old(_mmu)@,
        *final(cpu) == (CPU { r: (Registers { e: spec_res(7, old(cpu).r.e), ..old(cpu).r }), ..*old(cpu) }),
        r == 2,
{
    let v = cpu.r.e;
    let nv = res(7, v);
    cpu.r.e = nv;
    2
}

pub fn cb_res_7_h(cpu: &mut CPU, _mmu: &mut MMU) -> (r: Cycles)
    requires
        old(cpu).inv(),
    ensures
        final(cpu).inv(),
        final(_mmu)@ == old(_mmu)@,
        *final(cpu) == (CPU { r: (Registers { h: spec_res(7, old(cpu).r.h), ..old(cpu).r }), ..*old(cpu) }),
        r == 2,
{
    let v = cpu.r.h;
    let nv = res(7, v);
    cpu.r.h = nv;
    2
}

pub fn cb_res_7_l(cpu: &mut CPU, _mmu: &mut MMU) -> (r: Cycles)
    requires
        old(cpu).inv(),
    ensures
        final(cpu).inv(),
        final(_mmu)@ == old(_mmu)@,
        *final(cpu) == (CPU { r: (Registers { l: spec_res(7, old(cpu).r.l), ..old(cpu).r }), ..*old(cpu) }),
        r == 2,
{
    let v = cpu.r.l;
    let nv = res(7, v);
    cpu.r.l = nv;
    2
}

pub fn cb_res_7_a(cpu: &mut CPU, _mmu: &mut MMU) -> (r: Cycles)
    requires
        old(cpu).inv(),
    ensures
        final(cpu).inv(),
        final(_mmu)@ == old(_mmu)@,
        *final(cpu) == (CPU { r: (Registers { a: spec_res(7, old(cpu).r.a), ..old(cpu).r }), ..*old(cpu) }),
        r == 2,
{
    let v = cpu.r.a;
    let nv = res(7, v);
    cpu.r.a = nv;
    2
}

pub fn cb_res_7_hl(cpu: &mut CPU, mmu: &mut MMU) -> (r: Cycles)
    requires
        old(cpu).inv(),
        old(mmu)@.inv(),
        old(mmu)@.supported(),
    ensures
        final(cpu).inv(),
        final(mmu)@.inv(),
        final(mmu)@.supported(),
        *final(cpu) == *old(cpu),
        final(mmu)@ == old(mmu)@.wb(old(cpu).r.spec_hl(), spec_res(7, old(mmu)@.rb(old(cpu).r.spec_hl()))),
        r == 4,
{
    let addr = cpu.r.hl();
    let v = mmu.rb(addr);
    let nv = res(7, v);
    mmu.wb(addr, nv);
    4
}

pub fn cb_set_0_b(cpu: &mut CPU, _mmu: &mut MMU) -> (r: Cycles)
    requires
        old(cpu).inv(),
    ensures
        final(cpu).inv(),
        final(_mmu)@ == old(_mmu)@,
        *final(cpu) == (CPU { r: (Registers { b: spec_set(0, old(cpu).r.b), ..old(cpu).r }), ..*old(cpu) }),
        r == 2,
{
    let v = cpu.r.b;
    let nv = crate::cpu::instructions::set(0, v);
    cpu.r.b = nv;
    2
}

pub fn cb_set_0_c(cpu: &mut CPU, _mmu: &mut MMU) -> (r: Cycles)
    requires
        old(cpu).inv(),
    ensures
        final(cpu).inv(),
        final(_mmu)@ == old(_mmu)@,
        *final(cpu) == (CPU { r: (Registers { c: spec_set(0, old(cpu).r.c), ..old(cpu).r }), ..*old(cpu) }),
        r == 2,
{
    let v = cpu.r.c;
    let nv = crate::cpu::instructions::set(0, v);
    cpu.r.c = nv;
    2
}

pub fn cb_set_0_d(cpu: &mut CPU, _mmu: &mut MMU) -> (r: Cycles)
    requires
        old(cpu).inv(),
    ensures
        final(cpu).inv(),
        final(_mmu)@ == old(_mmu)@,
        *final(cpu) == (CPU { r: (Registers { d: spec_set(0, old(cpu).r.d), ..old(cpu).r }), ..*old(cpu) }),
        r == 2,
{
    let v = cpu.r.d;
    let nv = crate::cpu::instructions::set(0, v);
    cpu.r.d = nv;
    2
}

pub fn cb_set_0_e(cpu: &mut CPU, _mmu: &mut MMU) -> (r: Cycles)
    requires
        old(cpu).inv(),
    ensures
        final(cpu).inv(),
        final(_mmu)@ == old(_mmu)@,
        *final(cpu) == (CPU { r: (Registers { e: spec_set(0, old(cpu).r.e), ..old(cpu).r }), ..*old(cpu) }),
        r == 2,
{
    let v = cpu.r.e;
    let nv = crate::cpu::instructions::set(0, v);
    cpu.r.e = nv;
    2
}

pub fn cb_set_0_h(cpu: &mut CPU, _mmu: &mut MMU) -> (r: Cycles)
    requires
        old(cpu).inv(),
    ensures
        final(cpu).inv(),
        final(_mmu)@ == old(_mmu)@,
        *final(cpu) == (CPU { r: (Registers { h: spec_set(0, old(cpu).r.h), ..old(cpu).r }), ..*old(cpu) }),
        r == 2,
{
    let v = cpu.r.h;
    let nv = crate::cpu::instructions::set(0, v);
    cpu.r.h = nv;
    2
}

pub fn cb_set_0_l(cpu: &mut CPU, _mmu: &mut MMU) -> (r: Cycles)
    requires
        old(cpu).inv(),
    ensures
        final(cpu).inv(),
        final(_mmu)@ == old(_mmu)@,
        *final(cpu) == (CPU { r: (Registers { l: spec_set(0, old(cpu).r.l), ..old(cpu).r }), ..*old(cpu) }),
        r == 2,
{
    let v = cpu.r.l;
    let nv = crate::cpu::instructions::set(0, v);
    cpu.r.l = nv;
    2
}

pub fn cb_set_0_a(cpu: &mut CPU, _mmu: &mut MMU) -> (r: Cycles)
    requires
        old(cpu).inv(),
    ensures
        final(cpu).inv(),
        final(_mmu)@ == old(_mmu)@,
        *final(cpu) == (CPU { r: (Registers { a: spec_set(0, old(cpu).r.a), ..old(cpu).r }), ..*old(cpu) }),
        r == 2,
{
    let v = cpu.r.a;
    let nv = crate::cpu::instructions::set(0, v);
    cpu.r.a = nv;
    2
}

pub fn cb_set_0_hl(cpu: &mut CPU, mmu: &mut MMU) -> (r: Cycles)
    requires
        old(cpu).inv(),
        old(mmu)@.inv(),
        old(mmu)@.supported(),
    ensures
        final(cpu).inv(),
        final(mmu)@.inv(),
        final(mmu)@.supported(),
        *final(cpu) == *old(cpu),
        final(mmu)@ == old(mmu)@.wb(old(cpu).r.spec_hl(), spec_set(0, old(mmu)@.rb(old(cpu).r.spec_hl()))),
        r == 4,
{
    let addr = cpu.r.hl();
    let v = mmu.rb(addr);
    let nv = crate::cpu::instructions::set(0, v);
    mmu.wb(addr, nv);
    4
}

pub fn cb_set_1_b(cpu: &mut CPU, _mmu: &mut MMU) -> (r: Cycles)
    requires
        old(cpu).inv(),
    ensures
        final(cpu).inv(),
        final(_mmu)@ == old(_mmu)@,
        *final(cpu) == (CPU { r: (Registers { b: spec_set(1, old(cpu).r.b), ..old(cpu).r }), ..*old(cpu) }),
        r == 2,
{
    let v = cpu.r.b;
    let nv = crate::cpu::instructions::set(1, v);
    cpu.r.b = nv;
    2
}

pub fn cb_set_1_c(cpu: &mut CPU, _mmu: &mut MMU) -> (r: Cycles)
    requires
        old(cpu).inv(),
    ensures
        final(cpu).inv(),
        final(_mmu)@ == old(_mmu)@,
        *final(cpu) == (CPU { r: (Registers { c: spec_set(1, old(cpu).r.c), ..old(cpu).r }), ..*old(cpu) }),
        r == 2,
{
    let v = cpu.r.c;
    let nv = crate::cpu::instructions::set(1, v);
    cpu.r.c = nv;
    2
}

pub fn cb_set_1_d(cpu: &mut CPU, _mmu: &mut MMU) -> (r: Cycles)
    requires
        old(cpu).inv(),
    ensures
        final(cpu).inv(),
        final(_mmu)@ == old(_mmu)@,
        *final(cpu) == (CPU { r: (Registers { d: spec_set(1, old(cpu).r.d), ..old(cpu).r }), ..*old(cpu) }),
        r == 2,
{
    let v = cpu.r.d;
    let nv = crate::cpu::instructions::set(1, v);
    cpu.r.d = nv;
    2
}

pub fn cb_set_1_e(cpu: &mut CPU, _mmu: &mut MMU) -> (r: Cycles)
    requires
        old(cpu).inv(),
    ensures
        final(cpu).inv(),
        final(_mmu)@ == old(_mmu)@,
        *final(cpu) == (CPU { r: (Registers { e: spec_set(1, old(cpu).r.e), ..old(cpu).r }), ..*old(cpu) }),
        r == 2,
{
    let v = cpu.r.e;
    let nv = crate::cpu::instructions::set(1, v);
    cpu.r.e = nv;
    2
}

pub fn cb_set_1_h(cpu: &mut CPU, _mmu: &mut MMU) -> (r: Cycles)
    requires
        old(cpu).inv(),
    ensures
        final(cpu).inv(),
        final(_mmu)@ == old(_mmu)@,
        *final(cpu) == (CPU { r: (Registers { h: spec_set(1, old(cpu).r.h), ..old(cpu).r }), ..*old(cpu) }),
        r == 2,
{
    let v = cpu.r.h;
    let nv = crate::cpu::instructions::set(1, v);
    cpu.r.h = nv;
    2
}

pub fn cb_set_1_l(cpu: &mut CPU, _mmu: &mut MMU) -> (r: Cycles)
    requires
        old(cpu).inv(),
    ensures
        final(cpu).inv(),
        final(_mmu)@ == old(_mmu)@,
        *final(cpu) == (CPU { r: (Registers { l: spec_set(1, old(cpu).r.l), ..old(cpu).r }), ..*old(cpu) }),
        r == 2,
{
    let v = cpu.r.l;
    let nv = crate::cpu::instructions::set(1, v);
    cpu.r.l = nv;
    2
}

pub fn cb_set_1_a(cpu: &mut CPU, _mmu: &mut MMU) -> (r: Cycles)
    requires
        old(cpu).inv(),
    ensures
        final(cpu).inv(),
        final(_mmu)@ == old(_mmu)@,
        *final(cpu) == (CPU { r: (Registers { a: spec_set(1, old(cpu).r.a), ..old(cpu).r }), ..*old(cpu) }),
        r == 2,
{
    let v = cpu.r.a;
    let nv = crate::cpu::instructions::set(1, v);
    cpu.r.a = nv;
    2
}

pub fn cb_set_1_hl(cpu: &mut CPU, mmu: &mut MMU) -> (r: Cycles)
    requires
        old(cpu).inv(),
        old(mmu)@.inv(),
        old(mmu)@.supported(),
    ensures
        final(cpu).inv(),
        final(mmu)@.inv(),
        final(mmu)@.supported(),
        *final(cpu) == *old(cpu),
        final(mmu)@ == old(mmu)@.wb(old(cpu).r.spec_hl(), spec_set(1, old(mmu)@.rb(old(cpu).r.spec_hl()))),
        r == 4,
{
    let addr = cpu.r.hl();
    let v = mmu.rb(addr);
    let nv = crate::cpu::instructions::set(1, v);
    mmu.wb(addr, nv);
    4
}

pub fn cb_set_2_b(cpu: &mut CPU, _mmu: &mut MMU) -> (r: Cycles)
    requires
        old(cpu).inv(),
    ensures
        final(cpu).inv(),
        final(_mmu)@ == old(_mmu)@,
        *final(cpu) == (CPU { r: (Registers { b: spec_set(2, old(cpu).r.b), ..old(cpu).r }), ..*old(cpu) }),
        r == 2,
{
    let v = cpu.r.b;
    let nv = crate::cpu::instructions::set(2, v);
    cpu.r.b = nv;
    2
}

pub fn cb_set_2_c(cpu: &mut CPU, _mmu: &mut MMU) -> (r: Cycles)
    requires
        old(cpu).inv(),
    ensures
        final(cpu).inv(),
        final(_mmu)@ == old(_mmu)@,
        *final(cpu) == (CPU { r: (Registers { c: spec_set(2, old(cpu).r.c), ..old(cpu).r }), ..*old(cpu) }),
        r == 2,
{
    let v = cpu.r.c;
    let nv = crate::cpu::instructions::set(2, v);
    cpu.r.c = nv;
    2
}

pub fn cb_set_2_d(cpu: &mut CPU, _mmu: &mut MMU) -> (r: Cycles)
    requires
        old(cpu).inv(),
    ensures
        final(cpu).inv(),
        final(_mmu)@ == old(_mmu)@,
        *final(cpu) == (CPU { r: (Registers { d: spec_set(2, old(cpu).r.d), ..old(cpu).r }), ..*old(cpu) }),
        r == 2,
{
    let v = cpu.r.d;
    let nv = crate::cpu::instructions::set(2, v);
    cpu.r.d = nv;
    2
}

pub fn cb_set_2_e(cpu: &mut CPU, _mmu: &mut MMU) -> (r: Cycles)
    requires
        old(cpu).inv(),
    ensures
        final(cpu).inv(),
        final(_mmu)@ == old(_mmu)@,
        *final(cpu) == (CPU { r: (Registers { e: spec_set(2, old(cpu).r.e), ..old(cpu).r }), ..*old(cpu) }),
        r == 2,
{
    let v = cpu.r.e;
    let nv = crate::cpu::instructions::set(2, v);
    cpu.r.e = nv;
    2
}

pub fn cb_set_2_h(cpu: &mut CPU, _mmu: &mut MMU) -> (r: Cycles)
    requires
        old(cpu).inv(),
    ensures
        final(cpu).inv(),
        final(_mmu)@ == old(_mmu)@,
        *final(cpu) == (CPU { r: (Registers { h: spec_set(2, old(cpu).r.h), ..old(cpu).r }), ..*old(cpu) }),
        r == 2,
{
    let v = cpu.r.h;
    let nv = crate::cpu::instructions::set(2, v);
    cpu.r.h = nv;
    2
}

pub fn cb_set_2_l(cpu: &mut CPU, _mmu: &mut MMU) -> (r: Cycles)
    requires
        old(cpu).inv(),
    ensures
        final(cpu).inv(),
        final(_mmu)@ == old(_mmu)@,
        *final(cpu) == (CPU { r: (Registers { l: spec_set(2, old(cpu).r.l), ..old(cpu).r }), ..*old(cpu) }),
        r == 2,
{
    let v = cpu.r.l;
    let nv = crate::cpu::instructions::set(2, v);
    cpu.r.l = nv;
    2
}

pub fn cb_set_2_a(cpu: &mut CPU, _mmu: &mut MMU) -> (r: Cycles)
    requires
        old(cpu).inv(),
    ensures
        final(cpu).inv(),
        final(_mmu)@ == old(_mmu)@,
        *final(cpu) == (CPU { r: (Registers { a: spec_set(2, old(cpu).r.a), ..old(cpu).r }), ..*old(cpu) }),
        r == 2,
{
    let v = cpu.r.a;
    let nv = crate::cpu::instructions::set(2, v);
    cpu.r.a = nv;
    2
}

pub fn cb_set_2_hl(cpu: &mut CPU, mmu: &mut MMU) -> (r: Cycles)
    requires
        old(cpu).inv(),
        old(mmu)@.inv(),
        old(mmu)@.supported(),
    ensures
        final(cpu).inv(),
        final(mmu)@.inv(),
        final(mmu)@.supported(),
        *final(cpu) == *old(cpu),
        final(mmu)@ == old(mmu)@.wb(old(cpu).r.spec_hl(), spec_set(2, old(mmu)@.rb(old(cpu).r.spec_hl()))),
        r == 4,
{
    let addr = cpu.r.hl();
    let v = mmu.rb(addr);
    let nv = crate::cpu::instructions::set(2, v);
    mmu.wb(addr, nv);
    4
}

pub fn cb_set_3_b(cpu: &mut CPU, _mmu: &mut MMU) -> (r: Cycles)
    requires
        old(cpu).inv(),
    ensures
        final(cpu).inv(),
        final(_mmu)@ == old(_mmu)@,
        *final(cpu) == (CPU { r: (Registers { b: spec_set(3, old(cpu).r.b), ..old(cpu).r }), ..*old(cpu) }),
        r == 2,
{
    let v = cpu.r.b;
    let nv = crate::cpu::instructions::set(3, v);
    cpu.r.b = nv;
    2
}

pub fn cb_set_3_c(cpu: &mut CPU, _mmu: &mut MMU) -> (r: Cycles)
    requires
        old(cpu).inv(),
    ensures
        final(cpu).inv(),
        final(_mmu)@ == old(_mmu)@,
        *final(cpu) == (CPU { r: (Registers { c: spec_set(3, old(cpu).r.c), ..old(cpu).r }), ..*old(cpu) }),
        r == 2,
{
    let v = cpu.r.c;
    let nv = crate::cpu::instructions::set(3, v);
    cpu.r.c = nv;
    2
}

pub fn cb_set_3_d(cpu: &mut CPU, _mmu: &mut MMU) -> (r: Cycles)
    requires
        old(cpu).inv(),
    ensures
        final(cpu).inv(),
        final(_mmu)@ == old(_mmu)@,
        *final(cpu) == (CPU { r: (Registers { d: spec_set(3, old(cpu).r.d), ..old(cpu).r }), ..*old(cpu) }),
        r == 2,
{
    let v = cpu.r.d;
    let nv = crate::cpu::instructions::set(3, v);
    cpu.r.d = nv;
    2
}

pub fn cb_set_3_e(cpu: &mut CPU, _mmu: &mut MMU) -> (r: Cycles)
    requires
        old(cpu).inv(),
    ensures
        final(cpu).inv(),
        final(_mmu)@ == old(_mmu)@,
        *final(cpu) == (CPU { r: (Registers { e: spec_set(3, old(cpu).r.e), ..old(cpu).r }), ..*old(cpu) }),
        r == 2,
{
    let v = cpu.r.e;
    let nv = crate::cpu::instructions::set(3, v);
    cpu.r.e = nv;
    2
}

pub fn cb_set_3_h(cpu: &mut CPU, _mmu: &mut MMU) -> (r: Cycles)
    requires
        old(cpu).inv(),
    ensures
        final(cpu).inv(),
        final(_mmu)@ == old(_mmu)@,
        *final(cpu) == (CPU { r: (Registers { h: spec_set(3, old(cpu).r.h), ..old(cpu).r }), ..*old(cpu) }),
        r == 2,
{
    let v = cpu.r.h;
    let nv = crate::cpu::instructions::set(3, v);
    cpu.r.h = nv;
    2
}

pub fn cb_set_3_l(cpu: &mut CPU, _mmu: &mut MMU) -> (r: Cycles)
    requires
        old(cpu).inv(),
    ensures
        final(cpu).inv(),
        final(_mmu)@ == old(_mmu)@,
        *final(cpu) == (CPU { r: (Registers { l: spec_set(3, old(cpu).r.l), ..old(cpu).r }), ..*old(cpu) }),
        r == 2,
{
    let v = cpu.r.l;
    let nv = crate::cpu::instructions::set(3, v);
    cpu.r.l = nv;
    2
}

pub fn cb_set_3_a(cpu: &mut CPU, _mmu: &mut MMU) -> (r: Cycles)
    requires
        old(cpu).inv(),
    ensures
        final(cpu).inv(),
        final(_mmu)@ == old(_mmu)@,
        *final(cpu) == (CPU { r: (Registers { a: spec_set(3, old(cpu).r.a), ..old(cpu).r }), ..*old(cpu) }),
        r == 2,
{
    let v = cpu.r.a;
    let nv = crate::cpu::instructions::set(3, v);
    cpu.r.a = nv;
    2
}

pub fn cb_set_3_hl(cpu: &mut CPU, mmu: &mut MMU) -> (r: Cycles)
    requires
        old(cpu).inv(),
        old(mmu)@.inv(),
        old(mmu)@.supported(),
    ensures
        final(cpu).inv(),
        final(mmu)@.inv(),
        final(mmu)@.supported(),
        *final(cpu) == *old(cpu),
        final(mmu)@ == old(mmu)@.wb(old(cpu).r.spec_hl(), spec_set(3, old(mmu)@.rb(old(cpu).r.spec_hl()))),
        r == 4,
{
    let addr = cpu.r.hl();
    let v = mmu.rb(addr);
    let nv = crate::cpu::instructions::set(3, v);
    mmu.wb(addr, nv);
    4
}

pub fn cb_set_4_b(cpu: &mut CPU, _mmu: &mut MMU) -> (r: Cycles)
    requires
        old(cpu).inv(),
    ensures
        final(cpu).inv(),
        final(_mmu)@ == old(_mmu)@,
        *final(cpu) == (CPU { r: (Registers { b: spec_set(4, old(cpu).r.b), ..old(cpu).r }), ..*old(cpu) }),
        r == 2,
{
    let v = cpu.r.b;
    let nv = crate::cpu::instructions::set(4, v);
    cpu.r.b = nv;
    2
}

pub fn cb_set_4_c(cpu: &mut CPU, _mmu: &mut MMU) -> (r: Cycles)
    requires
        old(cpu).inv(),
    ensures
        final(cpu).inv(),
        final(_mmu)@ == old(_mmu)@,
        *final(cpu) == (CPU { r: (Registers { c: spec_set(4, old(cpu).r.c), ..old(cpu).r }), ..*old(cpu) }),
        r == 2,
{
    let v = cpu.r.c;
    let nv = crate::cpu::instructions::set(4, v);
    cpu.r.c = nv;
    2
}

pub fn cb_set_4_d(cpu: &mut CPU, _mmu: &mut MMU) -> (r: Cycles)
    requires
        old(cpu).inv(),
    ensures
        final(cpu).inv(),
        final(_mmu)@ == old(_mmu)@,
        *final(cpu) == (CPU { r: (Registers { d: spec_set(4, old(cpu).r.d), ..old(cpu).r }), ..*old(cpu) }),
        r == 2,
{
    let v = cpu.r.d;
    let nv = crate::cpu::instructions::set(4, v);
    cpu.r.d = nv;
    2
}

pub fn cb_set_4_e(cpu: &mut CPU, _mmu: &mut MMU) -> (r: Cycles)
    requires
        old(cpu).inv(),
    ensures
        final(cpu).inv(),
        final(_mmu)@ == old(_mmu)@,
        *final(cpu) == (CPU { r: (Registers { e: spec_set(4, old(cpu).r.e), ..old(cpu).r }), ..*old(cpu) }),
        r == 2,
{
    let v = cpu.r.e;
    let nv = crate::cpu::instructions::set(4, v);
    cpu.r.e = nv;
    2
}

pub fn cb_set_4_h(cpu: &mut CPU, _mmu: &mut MMU) -> (r: Cycles)
    requires
        old(cpu).inv(),
    ensures
        final(cpu).inv(),
        final(_mmu)@ == old(_mmu)@,
        *final(cpu) == (CPU { r: (Registers { h: spec_set(4, old(cpu).r.h), ..old(cpu).r }), ..*old(cpu) }),
        r == 2,
{
    let v = cpu.r.h;
    let nv = crate::cpu::instructions::set(4, v);
    cpu.r.h = nv;
    2
}

pub fn cb_set_4_l(cpu: &mut CPU, _mmu: &mut MMU) -> (r: Cycles)
    requires
        old(cpu).inv(),
    ensures
        final(cpu).inv(),
        final(_mmu)@ == old(_mmu)@,
        *final(cpu) == (CPU { r: (Registers { l: spec_set(4, old(cpu).r.l), ..old(cpu).r }), ..*old(cpu) }),
        r == 2,
{
    let v = cpu.r.l;
    let nv = crate::cpu::instructions::set(4, v);
    cpu.r.l = nv;
    2
}

pub fn cb_set_4_a(cpu: &mut CPU, _mmu: &mut MMU) -> (r: Cycles)
    requires
        old(cpu).inv(),
    ensures
        final(cpu).inv(),
        final(_mmu)@ == old(_mmu)@,
        *final(cpu) == (CPU { r: (Registers { a: spec_set(4, old(cpu).r.a), ..old(cpu).r }), ..*old(cpu) }),
        r == 2,
{
    let v = cpu.r.a;
    let nv = crate::cpu::instructions::set(4, v);
    cpu.r.a = nv;
    2
}

pub fn cb_set_4_hl(cpu: &mut CPU, mmu: &mut MMU) -> (r: Cycles)
    requires
        old(cpu).inv(),
        old(mmu)@.inv(),
        old(mmu)@.supported(),
    ensures
        final(cpu).inv(),
        final(mmu)@.inv(),
        final(mmu)@.supported(),
        *final(cpu) == *old(cpu),
        final(mmu)@ == old(mmu)@.wb(old(cpu).r.spec_hl(), spec_set(4, old(mmu)@.rb(old(cpu).r.spec_hl()))),
        r == 4,
{
    let addr = cpu.r.hl();
    let v = mmu.rb(addr);
    let nv = crate::cpu::instructions::set(4, v);
    mmu.wb(addr, nv);
    4
}

pub fn cb_set_5_b(cpu: &mut CPU, _mmu: &mut MMU) -> (r: Cycles)
    requires
        old(cpu).inv(),
    ensures
        final(cpu).inv(),
        final(_mmu)@ == old(_mmu)@,
        *final(cpu) == (CPU { r: (Registers { b: spec_set(5, old(cpu).r.b), ..old(cpu).r }), ..*old(cpu) }),
        r == 2,
{
    let v = cpu.r.b;
    let nv = crate::cpu::instructions::set(5, v);
    cpu.r.b = nv;
    2
}

pub fn cb_set_5_c(cpu: &mut CPU, _mmu: &mut MMU) -> (r: Cycles)
    requires
        old(cpu).inv(),
    ensures
        final(cpu).inv(),
        final(_mmu)@ == old(_mmu)@,
        *final(cpu) == (CPU { r: (Registers { c: spec_set(5, old(cpu).r.c), ..old(cpu).r }), ..*old(cpu) }),
        r == 2,
{
    let v = cpu.r.c;
    let nv = crate::cpu::instructions::set(5, v);
    cpu.r.c = nv;
    2
}

pub fn cb_set_5_d(cpu: &mut CPU, _mmu: &mut MMU) -> (r: Cycles)
    requires
        old(cpu).inv(),
    ensures
        final(cpu).inv(),
        final(_mmu)@ == old(_mmu)@,
        *final(cpu) == (CPU { r: (Registers { d: spec_set(5, old(cpu).r.d), ..old(cpu).r }), ..*old(cpu) }),
        r == 2,
{
    let v = cpu.r.d;
    let nv = crate::cpu::instructions::set(5, v);
    cpu.r.d = nv;
    2
}

pub fn cb_set_5_e(cpu: &mut CPU, _mmu: &mut MMU) -> (r: Cycles)
    requires
        old(cpu).inv(),
    ensures
        final(cpu).inv(),
        final(_mmu)@ == old(_mmu)@,
        *final(cpu) == (CPU { r: (Registers { e: spec_set(5, old(cpu).r.e), ..old(cpu).r }), ..*old(cpu) }),
        r == 2,
{
    let v = cpu.r.e;
    let nv = crate::cpu::instructions::set(5, v);
    cpu.r.e = nv;
    2
}

pub fn cb_set_5_h(cpu: &mut CPU, _mmu: &mut MMU) -> (r: Cycles)
    requires
        old(cpu).inv(),
    ensures
        final(cpu).inv(),
        final(_mmu)@ == old(_mmu)@,
        *final(cpu) == (CPU { r: (Registers { h: spec_set(5, old(cpu).r.h), ..old(cpu).r }), ..*old(cpu) }),
        r == 2,
{
    let v = cpu.r.h;
    let nv = crate::cpu::instructions::set(5, v);
    cpu.r.h = nv;
    2
}

pub fn cb_set_5_l(cpu: &mut CPU, _mmu: &mut MMU) -> (r: Cycles)
    requires
        old(cpu).inv(),
    ensures
        final(cpu).inv(),
        final(_mmu)@ == old(_mmu)@,
        *final(cpu) == (CPU { r: (Registers { l: spec_set(5, old(cpu).r.l), ..old(cpu).r }), ..*old(cpu) }),
        r == 2,
{
    let v = cpu.r.l;
    let nv = crate::cpu::instructions::set(5, v);
    cpu.r.l = nv;
    2
}

pub fn cb_set_5_a(cpu: &mut CPU, _mmu: &mut MMU) -> (r: Cycles)
    requires
        old(cpu).inv(),
    ensures
        final(cpu).inv(),
        final(_mmu)@ == old(_mmu)@,
        *final(cpu) == (CPU { r: (Registers { a: spec_set(5, old(cpu).r.a), ..old(cpu).r }), ..*old(cpu) }),
        r == 2,
{
    let v = cpu.r.a;
    let nv = crate::cpu::instructions::set(5, v);
    cpu.r.a = nv;
    2
}

pub fn cb_set_5_hl(cpu: &mut CPU, mmu: &mut MMU) -> (r: Cycles)
    requires
        old(cpu).inv(),
        old(mmu)@.inv(),
        old(mmu)@.supported(),
    ensures
        final(cpu).inv(),
        final(mmu)@.inv(),
        final(mmu)@.supported(),
        *final(cpu) == *old(cpu),
        final(mmu)@ == old(mmu)@.wb(old(cpu).r.spec_hl(), spec_set(5, old(mmu)@.rb(old(cpu).r.spec_hl()))),
        r == 4,
{
    let addr = cpu.r.hl();
    let v = mmu.rb(addr);
    let nv = crate::cpu::instructions::set(5, v);
    mmu.wb(addr, nv);
    4
}

pub fn cb_set_6_b(cpu: &mut CPU, _mmu: &mut MMU) -> (r: Cycles)
    requires
        old(cpu).inv(),
    ensures
        final(cpu).inv(),
        final(_mmu)@ == old(_mmu)@,
        *final(cpu) == (CPU { r: (Registers { b: spec_set(6, old(cpu).r.b), ..old(cpu).r }), ..*old(cpu) }),
        r == 2,
{
    let v = cpu.r.b;
    let nv = crate::cpu::instructions::set(6, v);
    cpu.r.b = nv;
    2
}

pub fn cb_set_6_c(cpu: &mut CPU, _mmu: &mut MMU) -> (r: Cycles)
    requires
        old(cpu).inv(),
    ensures
        final(cpu).inv(),
        final(_mmu)@ == old(_mmu)@,
        *final(cpu) == (CPU { r: (Registers { c: spec_set(6, old(cpu).r.c), ..old(cpu).r }), ..*old(cpu) }),
        r == 2,
{
    let v = cpu.r.c;
    let nv = crate::cpu::instructions::set(6, v);
    cpu.r.c = nv;
    2
}

pub fn cb_set_6_d(cpu: &mut CPU, _mmu: &mut MMU) -> (r: Cycles)
    requires
        old(cpu).inv(),
    ensures
        final(cpu).inv(),
        final(_mmu)@ == old(_mmu)@,
        *final(cpu) == (CPU { r: (Registers { d: spec_set(6, old(cpu).r.d), ..old(cpu).r }), ..*old(cpu) }),
        r == 2,
{
    let v = cpu.r.d;
    let nv = crate::cpu::instructions::set(6, v);
    cpu.r.d = nv;
    2
}

pub fn cb_set_6_e(cpu: &mut CPU, _mmu: &mut MMU) -> (r: Cycles)
    requires
        old(cpu).inv(),
    ensures
        final(cpu).inv(),
        final(_mmu)@ == old(_mmu)@,
        *final(cpu) == (CPU { r: (Registers { e: spec_set(6, old(cpu).r.e), ..old(cpu).r }), ..*old(cpu) }),
        r == 2,
{
    let v = cpu.r.e;
    let nv = crate::cpu::instructions::set(6, v);
    cpu.r.e = nv;
    2
}

pub fn cb_set_6_h(cpu: &mut CPU, _mmu: &mut MMU) -> (r: Cycles)
    requires
        old(cpu).inv(),
    ensures
        final(cpu).inv(),
        final(_mmu)@ == old(_mmu)@,
        *final(cpu) == (CPU { r: (Registers { h: spec_set(6, old(cpu).r.h), ..old(cpu).r }), ..*old(cpu) }),
        r == 2,
{
    let v = cpu.r.h;
    let nv = crate::cpu::instructions::set(6, v);
    cpu.r.h = nv;
    2
}

pub fn cb_set_6_l(cpu: &mut CPU, _mmu: &mut MMU) -> (r: Cycles)
    requires
        old(cpu).inv(),
    ensures
        final(cpu).inv(),
        final(_mmu)@ == old(_mmu)@,
        *final(cpu) == (CPU { r: (Registers { l: spec_set(6, old(cpu).r.l), ..old(cpu).r }), ..*old(cpu) }),
        r == 2,
{
    let v = cpu.r.l;
    let nv = crate::cpu::instructions::set(6, v);
    cpu.r.l = nv;
    2
}

pub fn cb_set_6_a(cpu: &mut CPU, _mmu: &mut MMU) -> (r: Cycles)
    requires
        old(cpu).inv(),
    ensures
        final(cpu).inv(),
        final(_mmu)@ == old(_mmu)@,
        *final(cpu) == (CPU { r: (Registers { a: spec_set(6, old(cpu).r.a), ..old(cpu).r }), ..*old(cpu) }),
        r == 2,
{
    let v = cpu.r.a;
    let nv = crate::cpu::instructions::set(6, v);
    cpu.r.a = nv;
    2
}

pub fn cb_set_6_hl(cpu: &mut CPU, mmu: &mut MMU) -> (r: Cycles)
    requires
        old(cpu).inv(),
        old(mmu)@.inv(),
        old(mmu)@.supported(),
    ensures
        final(cpu).inv(),
        final(mmu)@.inv(),
        final(mmu)@.supported(),
        *final(cpu) == *old(cpu),
        final(mmu)@ == old(mmu)@.wb(old(cpu).r.spec_hl(), spec_set(6, old(mmu)@.rb(old(cpu).r.spec_hl()))),
        r == 4,
{
    let addr = cpu.r.hl();
    let v = mmu.rb(addr);
    let nv = crate::cpu::instructions::set(6, v);
    mmu.wb(addr, nv);
    4
}

pub fn cb_set_7_b(cpu: &mut CPU, _mmu: &mut MMU) -> (r: Cycles)
    requires
        old(cpu).inv(),
    ensures
        final(cpu).inv(),
        final(_mmu)@ == old(_mmu)@,
        *final(cpu) == (CPU { r: (Registers { b: spec_set(7, old(cpu).r.b), ..old(cpu).r }), ..*old(cpu) }),
        r == 2,
{
    let v = cpu.r.b;
    let nv = crate::cpu::instructions::set(7, v);
    cpu.r.b = nv;
    2
}

pub fn cb_set_7_c(cpu: &mut CPU, _mmu: &mut MMU) -> (r: Cycles)
    requires
        old(cpu).inv(),
    ensures
        final(cpu).inv(),
        final(_mmu)@ == old(_mmu)@,
        *final(cpu) == (CPU { r: (Registers { c: spec_set(7, old(cpu).r.c), ..old(cpu).r }), ..*old(cpu) }),
        r == 2,
{
    let v = cpu.r.c;
    let nv = crate::cpu::instructions::set(7, v);
    cpu.r.c = nv;
    2
}

pub fn cb_set_7_d(cpu: &mut CPU, _mmu: &mut MMU) -> (r: Cycles)
    requires
        old(cpu).inv(),
    ensures
        final(cpu).inv(),
        final(_mmu)@ == old(_mmu)@,
        *final(cpu) == (CPU { r: (Registers { d: spec_set(7, old(cpu).r.d), ..old(cpu).r }), ..*old(cpu) }),
        r == 2,
{
    let v = cpu.r.d;
    let nv = crate::cpu::instructions::set(7, v);
    cpu.r.d = nv;
    2
}

pub fn cb_set_7_e(cpu: &mut CPU, _mmu: &mut MMU) -> (r: Cycles)
    requires
        old(cpu).inv(),
    ensures
        final(cpu).inv(),
        final(_mmu)@ == old(_mmu)@,
        *final(cpu) == (CPU { r: (Registers { e: spec_set(7, old(cpu).r.e), ..old(cpu).r }), ..*old(cpu) }),
        r == 2,
{
    let v = cpu.r.e;
    let nv = crate::cpu::instructions::set(7, v);
    cpu.r.e = nv;
    2
}

pub fn cb_set_7_h(cpu: &mut CPU, _mmu: &mut MMU) -> (r: Cycles)
    requires
        old(cpu).inv(),
    ensures
        final(cpu).inv(),
        final(_mmu)@ == old(_mmu)@,
        *final(cpu) == (CPU { r: (Registers { h: spec_set(7, old(cpu).r.h), ..old(cpu).r }), ..*old(cpu) }),
        r == 2,
{
    let v = cpu.r.h;
    let nv = crate::cpu::instructions::set(7, v);
    cpu.r.h = nv;
    2
}

pub fn cb_set_7_l(cpu: &mut CPU, _mmu: &mut MMU) -> (r: Cycles)
    requires
        old(cpu).inv(),
    ensures
        final(cpu).inv(),
        final(_mmu)@ == old(_mmu)@,
        *final(cpu) == (CPU { r: (Registers { l: spec_set(7, old(cpu).r.l), ..old(cpu).r }), ..*old(cpu) }),
        r == 2,
{
    let v = cpu.r.l;
    let nv = crate::cpu::instructions::set(7, v);
    cpu.r.l = nv;
    2
}

pub fn cb_set_7_a(cpu: &mut CPU, _mmu: &mut MMU) -> (r: Cycles)
    requires
        old(cpu).inv(),
    ensures
        final(cpu).inv(),
        final(_mmu)@ == old(_mmu)@,
        *final(cpu) == (CPU { r: (Registers { a: spec_set(7, old(cpu).r.a), ..old(cpu).r }), ..*old(cpu) }),
        r == 2,
{
    let v = cpu.r.a;
    let nv = crate::cpu::instructions::set(7, v);
    cpu.r.a = nv;
    2
}

pub fn cb_set_7_hl(cpu: &mut CPU, mmu: &mut MMU) -> (r: Cycles)
    requires
        old(cpu).inv(),
        old(mmu)@.inv(),
        old(mmu)@.supported(),
    ensures
        final(cpu).inv(),
        final(mmu)@.inv(),
        final(mmu)@.supported(),
        *final(cpu) == *old(cpu),
        final(mmu)@ == old(mmu)@.wb(old(cpu).r.spec_hl(), spec_set(7, old(mmu)@.rb(old(cpu).r.spec_hl()))),
        r == 4,
{
    let addr = cpu.r.hl();
    let v = mmu.rb(addr);
    let nv = crate::cpu::instructions::set(7, v);
    mmu.wb(addr, nv);
    4
}

#[verifier::rlimit(100)]
fn dispatch_cb_q0(cpu: &mut CPU, mmu: &mut MMU, op: u8) -> (r: Cycles)
    requires
        op < 0x40,
        old(cpu).inv(),
        old(mmu)@.inv(),
        old(mmu)@.supported(),
    ensures
        final(cpu).inv(),
        final(mmu)@.inv(),
        final(mmu)@.supported(),
        2 <= r <= 4,
        final(cpu).ime == old(cpu).ime,
        final(cpu).ime_delay == old(cpu).ime_delay,
        final(cpu).halted == old(cpu).halted,
        final(cpu).stopped == old(cpu).stopped,
        final(cpu).r.pc == old(cpu).r.pc,
        final(cpu).r.sp == old(cpu).r.sp,
        (*final(cpu), final(mmu)@, r) == crate::cpu::exec::spec_dispatch_cb_q0(
            *old(cpu),
            old(mmu)@,
            op,
        ),
{
    proof {
        reveal(crate::cpu::exec::spec_dispatch_cb_q0);
    }
    match op {
        0 => cb_rlc_b(cpu, mmu),
        1 => cb_rlc_c(cpu, mmu),
        2 => cb_rlc_d(cpu, mmu),
        3 => cb_rlc_e(cpu, mmu),
        4 => cb_rlc_h(cpu, mmu),
        5 => cb_rlc_l(cpu, mmu),
        6 => cb_rlc_hl(cpu, mmu),
        7 => cb_rlc_a(cpu, mmu),
        8 => cb_rrc_b(cpu, mmu),
        9 => cb_rrc_c(cpu, mmu),
        10 => cb_rrc_d(cpu, mmu),
        11 => cb_rrc_e(cpu, mmu),
        12 => cb_rrc_h(cpu, mmu),
        13 => cb_rrc_l(cpu, mmu),
        14 => cb_rrc_hl(cpu, mmu),
        15 => cb_rrc_a(cpu, mmu),
        16 => cb_rl_b(cpu, mmu),
        17 => cb_rl_c(cpu, mmu),
        18 => cb_rl_d(cpu, mmu),
        19 => cb_rl_e(cpu, mmu),
        20 => cb_rl_h(cpu, mmu),
        21 => cb_rl_l(cpu, mmu),
        22 => cb_rl_hl(cpu, mmu),
        23 => cb_rl_a(cpu, mmu),
        24 => cb_rr_b(cpu, mmu),
        25 => cb_rr_c(cpu, mmu),
        26 => cb_rr_d(cpu, mmu),
        27 => cb_rr_e(cpu, mmu),
        28 => cb_rr_h(cpu, mmu),
        29 => cb_rr_l(cpu, mmu),
        30 => cb_rr_hl(cpu, mmu),
        31 => cb_rr_a(cpu, mmu),
        32 => cb_sla_b(cpu, mmu),
        33 => cb_sla_c(cpu, mmu),
        34 => cb_sla_d(cpu, mmu),
        35 => cb_sla_e(cpu, mmu),
        36 => cb_sla_h(cpu, mmu),
        37 => cb_sla_l(cpu, mmu),
        38 => cb_sla_hl(cpu, mmu),
        39 => cb_sla_a(cpu, mmu),
        40 => cb_sra_b(cpu, mmu),
        41 => cb_sra_c(cpu, mmu),
        42 => cb_sra_d(cpu, mmu),
        43 => cb_sra_e(cpu, mmu),
        44 => cb_sra_h(cpu, mmu),
        45 => cb_sra_l(cpu, mmu),
        46 => cb_sra_hl(cpu, mmu),
        47 => cb_sra_a(cpu, mmu),
        48 => cb_swap_b(cpu, mmu),
        49 => cb_swap_c(cpu, mmu),
        50 => cb_swap_d(cpu, mmu),
        51 => cb_swap_e(cpu, mmu),
        52 => cb_swap_h(cpu, mmu),
        53 => cb_swap_l(cpu, mmu),
        54 => cb_swap_hl(cpu, mmu),
        55 => cb_swap_a(cpu, mmu),
        56 => cb_srl_b(cpu, mmu),
        57 => cb_srl_c(cpu, mmu),
        58 => cb_srl_d(cpu, mmu),
        59 => cb_srl_e(cpu, mmu),
        60 => cb_srl_h(cpu, mmu),
        61 => cb_srl_l(cpu, mmu),
        62 => cb_srl_hl(cpu, mmu),
        63 => cb_srl_a(cpu, mmu),
        _ => vstd::pervasive::unreached(),
    }
}


#[verifier::rlimit(100)]
fn dispatch_cb_q1(cpu: &mut CPU, mmu: &mut MMU, op: u8) -> (r: Cycles)
    requires
        0x40 <= op < 0x80,
        old(cpu).inv(),
        old(mmu)@.inv(),
        old(mmu)@.supported(),
    ensures
        final(cpu).inv(),
        final(mmu)@.inv(),
        final(mmu)@.supported(),
        2 <= r <= 4,
        final(cpu).ime == old(cpu).ime,
        final(cpu).ime_delay == old(cpu).ime_delay,
        final(cpu).halted == old(cpu).halted,
        final(cpu).stopped == old(cpu).stopped,
        final(cpu).r.pc == old(cpu).r.pc,
        final(cpu).r.sp == old(cpu).r.sp,
        (*final(cpu), final(mmu)@, r) == crate::cpu::exec::spec_dispatch_cb_q1(
            *old(cpu),
            old(mmu)@,
            op,
        ),
{
    proof {
        reveal(crate::cpu::exec::spec_dispatch_cb_q1);
    }
    match op {
        64 => cb_bit_0_b(cpu, mmu),
        65 => cb_bit_0_c(cpu, mmu),
        66 => cb_bit_0_d(cpu, mmu),
        67 => cb_bit_0_e(cpu, mmu),
        68 => cb_bit_0_h(cpu, mmu),
        69 => cb_bit_0_l(cpu, mmu),
        70 => cb_bit_0_hl(cpu, mmu),
        71 => cb_bit_0_a(cpu, mmu),
        72 => cb_bit_1_b(cpu, mmu),
        73 => cb_bit_1_c(cpu, mmu),
        74 => cb_bit_1_d(cpu, mmu),
        75 => cb_bit_1_e(cpu, mmu),
        76 => cb_bit_1_h(cpu, mmu),
        77 => cb_bit_1_l(cpu, mmu),
        78 => cb_bit_1_hl(cpu, mmu),
        79 => cb_bit_1_a(cpu, mmu),
        80 => cb_bit_2_b(cpu, mmu),
        81 => cb_bit_2_c(cpu, mmu),
        82 => cb_bit_2_d(cpu, mmu),
        83 => cb_bit_2_e(cpu, mmu),
        84 => cb_bit_2_h(cpu, mmu),
        85 => cb_bit_2_l(cpu, mmu),
        86 => cb_bit_2_hl(cpu, mmu),
        87 => cb_bit_2_a(cpu, mmu),
        88 => cb_bit_3_b(cpu, mmu),
        89 => cb_bit_3_c(cpu, mmu),
        90 => cb_bit_3_d(cpu, mmu),
        91 => cb_bit_3_e(cpu, mmu),
        92 => cb_bit_3_h(cpu, mmu),
        93 => cb_bit_3_l(cpu, mmu),
        94 => cb_bit_3_hl(cpu, mmu),
        95 => cb_bit_3_a(cpu, mmu),
        96 => cb_bit_4_b(cpu, mmu),
        97 => cb_bit_4_c(cpu, mmu),
        98 => cb_bit_4_d(cpu, mmu),
        99 => cb_bit_4_e(cpu, mmu),
        100 => cb_bit_4_h(cpu, mmu),
        101 => cb_bit_4_l(cpu, mmu),
        102 => cb_bit_4_hl(cpu, mmu),
        103 => cb_bit_4_a(cpu, mmu),
        104 => cb_bit_5_b(cpu, mmu),
        105 => cb_bit_5_c(cpu, mmu),
        106 => cb_bit_5_d(cpu, mmu),
        107 => cb_bit_5_e(cpu, mmu),
        108 => cb_bit_5_h(cpu, mmu),
        109 => cb_bit_5_l(cpu, mmu),
        110 => cb_bit_5_hl(cpu, mmu),
        111 => cb_bit_5_a(cpu, mmu),
        112 => cb_bit_6_b(cpu, mmu),
        113 => cb_bit_6_c(cpu, mmu),
        114 => cb_bit_6_d(cpu, mmu),
        115 => cb_bit_6_e(cpu, mmu),
        116 => cb_bit_6_h(cpu, mmu),
        117 => cb_bit_6_l(cpu, mmu),
        118 => cb_bit_6_hl(cpu, mmu),
        119 => cb_bit_6_a(cpu, mmu),
        120 => cb_bit_7_b(cpu, mmu),
        121 => cb_bit_7_c(cpu, mmu),
        122 => cb_bit_7_d(cpu, mmu),
        123 => cb_bit_7_e(cpu, mmu),
        124 => cb_bit_7_h(cpu, mmu),
        125 => cb_bit_7_l(cpu, mmu),
        126 => cb_bit_7_hl(cpu, mmu),
        127 => cb_bit_7_a(cpu, mmu),
        _ => vstd::pervasive::unreached(),
    }
}


#[verifier::rlimit(100)]
fn dispatch_cb_q2(cpu: &mut CPU, mmu: &mut MMU, op: u8) -> (r: Cycles)
    requires
        0x80 <= op < 0xC0,
        old(cpu).inv(),
        old(mmu)@.inv(),
        old(mmu)@.supported(),
    ensures
        final(cpu).inv(),
        final(mmu)@.inv(),
        final(mmu)@.supported(),
        2 <= r <= 4,
        final(cpu).ime == old(cpu).ime,
        final(cpu).ime_delay == old(cpu).ime_delay,
        final(cpu).halted == old(cpu).halted,
        final(cpu).stopped == old(cpu).stopped,
        final(cpu).r.pc == old(cpu).r.pc,
        final(cpu).r.sp == old(cpu).r.sp,
        (*final(cpu), final(mmu)@, r) == crate::cpu::exec::spec_dispatch_cb_q2(
            *old(cpu),
            old(mmu)@,
            op,
        ),
{
    proof {
        reveal(crate::cpu::exec::spec_dispatch_cb_q2);
    }
    match op {
        128 => cb_res_0_b(cpu, mmu),
        129 => cb_res_0_c(cpu, mmu),
        130 => cb_res_0_d(cpu, mmu),
        131 => cb_res_0_e(cpu, mmu),
        132 => cb_res_0_h(cpu, mmu),
        133 => cb_res_0_l(cpu, mmu),
        134 => cb_res_0_hl(cpu, mmu),
        135 => cb_res_0_a(cpu, mmu),
        136 => cb_res_1_b(cpu, mmu),
        137 => cb_res_1_c(cpu, mmu),
        138 => cb_res_1_d(cpu, mmu),
        139 => cb_res_1_e(cpu, mmu),
        140 => cb_res_1_h(cpu, mmu),
        141 => cb_res_1_l(cpu, mmu),
        142 => cb_res_1_hl(cpu, mmu),
        143 => cb_res_1_a(cpu, mmu),
        144 => cb_res_2_b(cpu, mmu),
        145 => cb_res_2_c(cpu, mmu),
        146 => cb_res_2_d(cpu, mmu),
        147 => cb_res_2_e(cpu, mmu),
        148 => cb_res_2_h(cpu, mmu),
        149 => cb_res_2_l(cpu, mmu),
        150 => cb_res_2_hl(cpu, mmu),
        151 => cb_res_2_a(cpu, mmu),
        152 => cb_res_3_b(cpu, mmu),
        153 => cb_res_3_c(cpu, mmu),
        154 => cb_res_3_d(cpu, mmu),
        155 => cb_res_3_e(cpu, mmu),
        156 => cb_res_3_h(cpu, mmu),
        157 => cb_res_3_l(cpu, mmu),
        158 => cb_res_3_hl(cpu, mmu),
        159 => cb_res_3_a(cpu, mmu),
        160 => cb_res_4_b(cpu, mmu),
        161 => cb_res_4_c(cpu, mmu),
        162 => cb_res_4_d(cpu, mmu),
        163 => cb_res_4_e(cpu, mmu),
        164 => cb_res_4_h(cpu, mmu),
        165 => cb_res_4_l(cpu, mmu),
        166 => cb_res_4_hl(cpu, mmu),
        167 => cb_res_4_a(cpu, mmu),
        168 => cb_res_5_b(cpu, mmu),
        169 => cb_res_5_c(cpu, mmu),
        170 => cb_res_5_d(cpu, mmu),
        171 => cb_res_5_e(cpu, mmu),
        172 => cb_res_5_h(cpu, mmu),
        173 => cb_res_5_l(cpu, mmu),
        174 => cb_res_5_hl(cpu, mmu),
        175 => cb_res_5_a(cpu, mmu),
        176 => cb_res_6_b(cpu, mmu),
        177 => cb_res_6_c(cpu, mmu),
        178 => cb_res_6_d(cpu, mmu),
        179 => cb_res_6_e(cpu, mmu),
        180 => cb_res_6_h(cpu, mmu),
        181 => cb_res_6_l(cpu, mmu),
        182 => cb_res_6_hl(cpu, mmu),
        183 => cb_res_6_a(cpu, mmu),
        184 => cb_res_7_b(cpu, mmu),
        185 => cb_res_7_c(cpu, mmu),
        186 => cb_res_7_d(cpu, mmu),
        187 => cb_res_7_e(cpu, mmu),
        188 => cb_res_7_h(cpu, mmu),
        189 => cb_res_7_l(cpu, mmu),
        190 => cb_res_7_hl(cpu, mmu),
        191 => cb_res_7_a(cpu, mmu),
        _ => vstd::pervasive::unreached(),
    }
}


#[verifier::rlimit(100)]
fn dispatch_cb_q3(cpu: &mut CPU, mmu: &mut MMU, op: u8) -> (r: Cycles)
    requires
        0xC0 <= op < 0x100,
        old(cpu).inv(),
        old(mmu)@.inv(),
        old(mmu)@.supported(),
    ensures
        final(cpu).inv(),
        final(mmu)@.inv(),
        final(mmu)@.supported(),
        2 <= r <= 4,
        final(cpu).ime == old(cpu).ime,
        final(cpu).ime_delay == old(cpu).ime_delay,
        final(cpu).halted == old(cpu).halted,
        final(cpu).stopped == old(cpu).stopped,
        final(cpu).r.pc == old(cpu).r.pc,
        final(cpu).r.sp == old(cpu).r.sp,
        (*final(cpu), final(mmu)@, r) == crate::cpu::exec::spec_dispatch_cb_q3(
            *old(cpu),
            old(mmu)@,
            op,
        ),
{
    proof {
        reveal(crate::cpu::exec::spec_dispatch_cb_q3);
    }
    match op {
        192 => cb_set_0_b(cpu, mmu),
        193 => cb_set_0_c(cpu, mmu),
        194 => cb_set_0_d(cpu, mmu),
        195 => cb_set_0_e(cpu, mmu),
        196 => cb_set_0_h(cpu, mmu),
        197 => cb_set_0_l(cpu, mmu),
        198 => cb_set_0_hl(cpu, mmu),
        199 => cb_set_0_a(cpu, mmu),
        200 => cb_set_1_b(cpu, mmu),
        201 => cb_set_1_c(cpu, mmu),
        202 => cb_set_1_d(cpu, mmu),
        203 => cb_set_1_e(cpu, mmu),
        204 => cb_set_1_h(cpu, mmu),
        205 => cb_set_1_l(cpu, mmu),
        206 => cb_set_1_hl(cpu, mmu),
        207 => cb_set_1_a(cpu, mmu),
        208 => cb_set_2_b(cpu, mmu),
        209 => cb_set_2_c(cpu, mmu),
        210 => cb_set_2_d(cpu, mmu),
        211 => cb_set_2_e(cpu, mmu),
        212 => cb_set_2_h(cpu, mmu),
        213 => cb_set_2_l(cpu, mmu),
        214 => cb_set_2_hl(cpu, mmu),
        215 => cb_set_2_a(cpu, mmu),
        216 => cb_set_3_b(cpu, mmu),
        217 => cb_set_3_c(cpu, mmu),
        218 => cb_set_3_d(cpu, mmu),
        219 => cb_set_3_e(cpu, mmu),
        220 => cb_set_3_h(cpu, mmu),
        221 => cb_set_3_l(cpu, mmu),
        222 => cb_set_3_hl(cpu, mmu),
        223 => cb_set_3_a(cpu, mmu),
        224 => cb_set_4_b(cpu, mmu),
        225 => cb_set_4_c(cpu, mmu),
        226 => cb_set_4_d(cpu, mmu),
        227 => cb_set_4_e(cpu, mmu),
        228 => cb_set_4_h(cpu, mmu),
        229 => cb_set_4_l(cpu, mmu),
        230 => cb_set_4_hl(cpu, mmu),
        231 => cb_set_4_a(cpu, mmu),
        232 => cb_set_5_b(cpu, mmu),
        233 => cb_set_5_c(cpu, mmu),
        234 => cb_set_5_d(cpu, mmu),
        235 => cb_set_5_e(cpu, mmu),
        236 => cb_set_5_h(cpu, mmu),
        237 => cb_set_5_l(cpu, mmu),
        238 => cb_set_5_hl(cpu, mmu),
        239 => cb_set_5_a(cpu, mmu),
        240 => cb_set_6_b(cpu, mmu),
        241 => cb_set_6_c(cpu, mmu),
        242 => cb_set_6_d(cpu, mmu),
        243 => cb_set_6_e(cpu, mmu),
        244 => cb_set_6_h(cpu, mmu),
        245 => cb_set_6_l(cpu, mmu),
        246 => cb_set_6_hl(cpu, mmu),
        247 => cb_set_6_a(cpu, mmu),
        248 => cb_set_7_b(cpu, mmu),
        249 => cb_set_7_c(cpu, mmu),
        250 => cb_set_7_d(cpu, mmu),
        251 => cb_set_7_e(cpu, mmu),
        252 => cb_set_7_h(cpu, mmu),
        253 => cb_set_7_l(cpu, mmu),
        254 => cb_set_7_hl(cpu, mmu),
        255 => cb_set_7_a(cpu, mmu),
        _ => vstd::pervasive::unreached(),
    }
}

/// Decode and run one prefixed opcode.
pub fn dispatch_cb(cpu: &mut CPU, mmu: &mut MMU, op: u8) -> (r: Cycles)
    requires
        old(cpu).inv(),
        old(mmu)@.inv(),
        old(mmu)@.supported(),
    ensures
        final(cpu).inv(),
        final(mmu)@.inv(),
        final(mmu)@.supported(),
        2 <= r <= 4,
        final(cpu).ime == old(cpu).ime,
        final(cpu).ime_delay == old(cpu).ime_delay,
        final(cpu).halted == old(cpu).halted,
        final(cpu).stopped == old(cpu).stopped,
        final(cpu).r.pc == old(cpu).r.pc,
        final(cpu).r.sp == old(cpu).r.sp,
        (*final(cpu), final(mmu)@, r) == crate::cpu::exec::spec_dispatch_cb(
            *old(cpu),
            old(mmu)@,
            op,
        ),
{
    if op < 0x40 {
        dispatch_cb_q0(cpu, mmu, op)
    } else if op < 0x80 {
        dispatch_cb_q1(cpu, mmu, op)
    } else if op < 0xC0 {
        dispatch_cb_q2(cpu, mmu, op)
    } else {
        dispatch_cb_q3(cpu, mmu, op)
    }
}

} // verus!
