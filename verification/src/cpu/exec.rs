//! The one-instruction transition, stated as a function of the machine
//! state: each opcode's effect as a spec-level triple of processor, bus
//! and machine cycles, the dispatch over the two opcode tables, and the
//! whole processor step built from them. `dispatch`, `dispatch_cb` and
//! `CPU::step` promise exactly these transitions.

use vstd::prelude::*;

use crate::bits::{w8, w16, spec_word, spec_hi, spec_lo, spec_sign_ext};
use crate::cpu::{CPU, Cycles};
use crate::cpu::instructions::{
    spec_add8, spec_add8_h, spec_add8_c, spec_sub8, spec_sub8_h, spec_sub8_c,
    spec_addhl_h, spec_addhl_c, spec_addsp_h, spec_addsp_c,
    spec_daa_res, spec_daa_c, spec_res, spec_set, spec_bit_z,
    spec_rlc_res, spec_rrc_res, spec_rl_res, spec_rr_res,
    spec_sla_res, spec_sra_res, spec_srl_res, spec_swap_res,
};
use crate::interrupt::{spec_highest_priority, INTERRUPT_CYCLES};
use crate::mmu::MmuView;
use crate::registers::Registers;

verus! {

pub open spec fn spec_op_nop(c: CPU, m: MmuView) -> (CPU, MmuView, Cycles) {
    (c, m, 1)
}

pub open spec fn spec_op_ld_bc_d16(c: CPU, m: MmuView) -> (CPU, MmuView, Cycles) {
    ((CPU { r: (Registers { pc: w16(c.r.pc + 2), ..c.r.spec_with_bc(m.rw(c.r.pc)) }), ..c }), m, 3)
}

pub open spec fn spec_op_ld_bc_a(c: CPU, m: MmuView) -> (CPU, MmuView, Cycles) {
    (c, m.wb(c.r.spec_bc(), c.r.a), 2)
}

pub open spec fn spec_op_inc_bc(c: CPU, m: MmuView) -> (CPU, MmuView, Cycles) {
    ((CPU { r: c.r.spec_with_bc(w16(c.r.spec_bc() + 1)), ..c }), m, 2)
}

pub open spec fn spec_op_inc_b(c: CPU, m: MmuView) -> (CPU, MmuView, Cycles) {
    ((CPU { r: (Registers { b: w8(c.r.b + 1), zf: (w8(c.r.b + 1) == 0), nf: false, hf: (c.r.b % 16 == 0x0F), ..c.r }), ..c }), m, 1)
}

pub open spec fn spec_op_dec_b(c: CPU, m: MmuView) -> (CPU, MmuView, Cycles) {
    ((CPU { r: (Registers { b: w8(c.r.b - 1), zf: (w8(c.r.b - 1) == 0), nf: true, hf: (c.r.b % 16 == 0), ..c.r }), ..c }), m, 1)
}

pub open spec fn spec_op_ld_b_d8(c: CPU, m: MmuView) -> (CPU, MmuView, Cycles) {
    ((CPU { r: (Registers { b: m.rb(c.r.pc), pc: w16(c.r.pc + 1), ..c.r }), ..c }), m, 2)
}

pub open spec fn spec_op_rlca(c: CPU, m: MmuView) -> (CPU, MmuView, Cycles) {
    ((CPU { r: (Registers { a: spec_rlc_res(c.r.a), zf: false, nf: false, hf: false, cf: (c.r.a >= 0x80), ..c.r }), ..c }), m, 1)
}

pub open spec fn spec_op_ld_a16_sp(c: CPU, m: MmuView) -> (CPU, MmuView, Cycles) {
    ((CPU { r: (Registers { pc: w16(c.r.pc + 2), ..c.r }), ..c }), m.ww(m.rw(c.r.pc), c.r.sp), 5)
}

pub open spec fn spec_op_add_hl_bc(c: CPU, m: MmuView) -> (CPU, MmuView, Cycles) {
    ((CPU { r: (Registers { nf: false, hf: spec_addhl_h(c.r.spec_hl(), c.r.spec_bc()), cf: spec_addhl_c(c.r.spec_hl(), c.r.spec_bc()), ..c.r.spec_with_hl(w16(c.r.spec_hl() + c.r.spec_bc())) }), ..c }), m, 2)
}

pub open spec fn spec_op_ld_a_bc(c: CPU, m: MmuView) -> (CPU, MmuView, Cycles) {
    ((CPU { r: (Registers { a: m.rb(c.r.spec_bc()), ..c.r }), ..c }), m, 2)
}

pub open spec fn spec_op_dec_bc(c: CPU, m: MmuView) -> (CPU, MmuView, Cycles) {
    ((CPU { r: c.r.spec_with_bc(w16(c.r.spec_bc() - 1)), ..c }), m, 2)
}

pub open spec fn spec_op_inc_c(c: CPU, m: MmuView) -> (CPU, MmuView, Cycles) {
    ((CPU { r: (Registers { c: w8(c.r.c + 1), zf: (w8(c.r.c + 1) == 0), nf: false, hf: (c.r.c % 16 == 0x0F), ..c.r }), ..c }), m, 1)
}

pub open spec fn spec_op_dec_c(c: CPU, m: MmuView) -> (CPU, MmuView, Cycles) {
    ((CPU { r: (Registers { c: w8(c.r.c - 1), zf: (w8(c.r.c - 1) == 0), nf: true, hf: (c.r.c % 16 == 0), ..c.r }), ..c }), m, 1)
}

pub open spec fn spec_op_ld_c_d8(c: CPU, m: MmuView) -> (CPU, MmuView, Cycles) {
    ((CPU { r: (Registers { c: m.rb(c.r.pc), pc: w16(c.r.pc + 1), ..c.r }), ..c }), m, 2)
}

pub open spec fn spec_op_rrca(c: CPU, m: MmuView) -> (CPU, MmuView, Cycles) {
    ((CPU { r: (Registers { a: spec_rrc_res(c.r.a), zf: false, nf: false, hf: false, cf: (c.r.a % 2 == 1), ..c.r }), ..c }), m, 1)
}

pub open spec fn spec_op_stop(c: CPU, m: MmuView) -> (CPU, MmuView, Cycles) {
    ((CPU { r: (Registers { pc: w16(c.r.pc + 1), ..c.r }), stopped: true, ..c }), m, 1)
}

pub open spec fn spec_op_ld_de_d16(c: CPU, m: MmuView) -> (CPU, MmuView, Cycles) {
    ((CPU { r: (Registers { pc: w16(c.r.pc + 2), ..c.r.spec_with_de(m.rw(c.r.pc)) }), ..c }), m, 3)
}

pub open spec fn spec_op_ld_de_a(c: CPU, m: MmuView) -> (CPU, MmuView, Cycles) {
    (c, m.wb(c.r.spec_de(), c.r.a), 2)
}

pub open spec fn spec_op_inc_de(c: CPU, m: MmuView) -> (CPU, MmuView, Cycles) {
    ((CPU { r: c.r.spec_with_de(w16(c.r.spec_de() + 1)), ..c }), m, 2)
}

pub open spec fn spec_op_inc_d(c: CPU, m: MmuView) -> (CPU, MmuView, Cycles) {
    ((CPU { r: (Registers { d: w8(c.r.d + 1), zf: (w8(c.r.d + 1) == 0), nf: false, hf: (c.r.d % 16 == 0x0F), ..c.r }), ..c }), m, 1)
}

pub open spec fn spec_op_dec_d(c: CPU, m: MmuView) -> (CPU, MmuView, Cycles) {
    ((CPU { r: (Registers { d: w8(c.r.d - 1), zf: (w8(c.r.d - 1) == 0), nf: true, hf: (c.r.d % 16 == 0), ..c.r }), ..c }), m, 1)
}

pub open spec fn spec_op_ld_d_d8(c: CPU, m: MmuView) -> (CPU, MmuView, Cycles) {
    ((CPU { r: (Registers { d: m.rb(c.r.pc), pc: w16(c.r.pc + 1), ..c.r }), ..c }), m, 2)
}

pub open spec fn spec_op_rla(c: CPU, m: MmuView) -> (CPU, MmuView, Cycles) {
    ((CPU { r: (Registers { a: spec_rl_res(c.r.a, c.r.cf), zf: false, nf: false, hf: false, cf: (c.r.a >= 0x80), ..c.r }), ..c }), m, 1)
}

pub open spec fn spec_op_jr(c: CPU, m: MmuView) -> (CPU, MmuView, Cycles) {
    ((CPU { r: (Registers { pc: w16(w16(c.r.pc + 1) + spec_sign_ext(m.rb(c.r.pc))), ..c.r }), ..c }), m, 3)
}

pub open spec fn spec_op_add_hl_de(c: CPU, m: MmuView) -> (CPU, MmuView, Cycles) {
    ((CPU { r: (Registers { nf: false, hf: spec_addhl_h(c.r.spec_hl(), c.r.spec_de()), cf: spec_addhl_c(c.r.spec_hl(), c.r.spec_de()), ..c.r.spec_with_hl(w16(c.r.spec_hl() + c.r.spec_de())) }), ..c }), m, 2)
}

pub open spec fn spec_op_ld_a_de(c: CPU, m: MmuView) -> (CPU, MmuView, Cycles) {
    ((CPU { r: (Registers { a: m.rb(c.r.spec_de()), ..c.r }), ..c }), m, 2)
}

pub open spec fn spec_op_dec_de(c: CPU, m: MmuView) -> (CPU, MmuView, Cycles) {
    ((CPU { r: c.r.spec_with_de(w16(c.r.spec_de() - 1)), ..c }), m, 2)
}

pub open spec fn spec_op_inc_e(c: CPU, m: MmuView) -> (CPU, MmuView, Cycles) {
    ((CPU { r: (Registers { e: w8(c.r.e + 1), zf: (w8(c.r.e + 1) == 0), nf: false, hf: (c.r.e % 16 == 0x0F), ..c.r }), ..c }), m, 1)
}

pub open spec fn spec_op_dec_e(c: CPU, m: MmuView) -> (CPU, MmuView, Cycles) {
    ((CPU { r: (Registers { e: w8(c.r.e - 1), zf: (w8(c.r.e - 1) == 0), nf: true, hf: (c.r.e % 16 == 0), ..c.r }), ..c }), m, 1)
}

pub open spec fn spec_op_ld_e_d8(c: CPU, m: MmuView) -> (CPU, MmuView, Cycles) {
    ((CPU { r: (Registers { e: m.rb(c.r.pc), pc: w16(c.r.pc + 1), ..c.r }), ..c }), m, 2)
}

pub open spec fn spec_op_rra(c: CPU, m: MmuView) -> (CPU, MmuView, Cycles) {
    ((CPU { r: (Registers { a: spec_rr_res(c.r.a, c.r.cf), zf: false, nf: false, hf: false, cf: (c.r.a % 2 == 1), ..c.r }), ..c }), m, 1)
}

pub open spec fn spec_op_jr_nz(c: CPU, m: MmuView) -> (CPU, MmuView, Cycles) {
    if !c.r.zf {
        ((CPU { r: (Registers { pc: w16(w16(c.r.pc + 1) + spec_sign_ext(m.rb(c.r.pc))), ..c.r }), ..c }), m, 3)
    } else {
        ((CPU { r: (Registers { pc: w16(c.r.pc + 1), ..c.r }), ..c }), m, 2)
    }
}

pub open spec fn spec_op_ld_hl_d16(c: CPU, m: MmuView) -> (CPU, MmuView, Cycles) {
    ((CPU { r: (Registers { pc: w16(c.r.pc + 2), ..c.r.spec_with_hl(m.rw(c.r.pc)) }), ..c }), m, 3)
}

pub open spec fn spec_op_ld_hli_a(c: CPU, m: MmuView) -> (CPU, MmuView, Cycles) {
    ((CPU { r: c.r.spec_with_hl(w16(c.r.spec_hl() + 1)), ..c }), m.wb(c.r.spec_hl(), c.r.a), 2)
}

pub open spec fn spec_op_inc_hl(c: CPU, m: MmuView) -> (CPU, MmuView, Cycles) {
    ((CPU { r: c.r.spec_with_hl(w16(c.r.spec_hl() + 1)), ..c }), m, 2)
}

pub open spec fn spec_op_inc_h(c: CPU, m: MmuView) -> (CPU, MmuView, Cycles) {
    ((CPU { r: (Registers { h: w8(c.r.h + 1), zf: (w8(c.r.h + 1) == 0), nf: false, hf: (c.r.h % 16 == 0x0F), ..c.r }), ..c }), m, 1)
}

pub open spec fn spec_op_dec_h(c: CPU, m: MmuView) -> (CPU, MmuView, Cycles) {
    ((CPU { r: (Registers { h: w8(c.r.h - 1), zf: (w8(c.r.h - 1) == 0), nf: true, hf: (c.r.h % 16 == 0), ..c.r }), ..c }), m, 1)
}

pub open spec fn spec_op_ld_h_d8(c: CPU, m: MmuView) -> (CPU, MmuView, Cycles) {
    ((CPU { r: (Registers { h: m.rb(c.r.pc), pc: w16(c.r.pc + 1), ..c.r }), ..c }), m, 2)
}

pub open spec fn spec_op_daa(c: CPU, m: MmuView) -> (CPU, MmuView, Cycles) {
    ((CPU { r: (Registers { a: spec_daa_res(c.r.a, c.r.nf, c.r.hf, c.r.cf), zf: (spec_daa_res(c.r.a, c.r.nf, c.r.hf, c.r.cf) == 0), hf: false, cf: spec_daa_c(c.r.a, c.r.nf, c.r.hf, c.r.cf), ..c.r }), ..c }), m, 1)
}

pub open spec fn spec_op_jr_z(c: CPU, m: MmuView) -> (CPU, MmuView, Cycles) {
    if c.r.zf {
        ((CPU { r: (Registers { pc: w16(w16(c.r.pc + 1) + spec_sign_ext(m.rb(c.r.pc))), ..c.r }), ..c }), m, 3)
    } else {
        ((CPU { r: (Registers { pc: w16(c.r.pc + 1), ..c.r }), ..c }), m, 2)
    }
}

pub open spec fn spec_op_add_hl_hl(c: CPU, m: MmuView) -> (CPU, MmuView, Cycles) {
    ((CPU { r: (Registers { nf: false, hf: spec_addhl_h(c.r.spec_hl(), c.r.spec_hl()), cf: spec_addhl_c(c.r.spec_hl(), c.r.spec_hl()), ..c.r.spec_with_hl(w16(c.r.spec_hl() + c.r.spec_hl())) }), ..c }), m, 2)
}

pub open spec fn spec_op_ld_a_hli(c: CPU, m: MmuView) -> (CPU, MmuView, Cycles) {
    ((CPU { r: (Registers { a: m.rb(c.r.spec_hl()), ..c.r.spec_with_hl(w16(c.r.spec_hl() + 1)) }), ..c }), m, 2)
}

pub open spec fn spec_op_dec_hl(c: CPU, m: MmuView) -> (CPU, MmuView, Cycles) {
    ((CPU { r: c.r.spec_with_hl(w16(c.r.spec_hl() - 1)), ..c }), m, 2)
}

pub open spec fn spec_op_inc_l(c: CPU, m: MmuView) -> (CPU, MmuView, Cycles) {
    ((CPU { r: (Registers { l: w8(c.r.l + 1), zf: (w8(c.r.l + 1) == 0), nf: false, hf: (c.r.l % 16 == 0x0F), ..c.r }), ..c }), m, 1)
}

pub open spec fn spec_op_dec_l(c: CPU, m: MmuView) -> (CPU, MmuView, Cycles) {
    ((CPU { r: (Registers { l: w8(c.r.l - 1), zf: (w8(c.r.l - 1) == 0), nf: true, hf: (c.r.l % 16 == 0), ..c.r }), ..c }), m, 1)
}

pub open spec fn spec_op_ld_l_d8(c: CPU, m: MmuView) -> (CPU, MmuView, Cycles) {
    ((CPU { r: (Registers { l: m.rb(c.r.pc), pc: w16(c.r.pc + 1), ..c.r }), ..c }), m, 2)
}

pub open spec fn spec_op_cpl(c: CPU, m: MmuView) -> (CPU, MmuView, Cycles) {
    ((CPU { r: (Registers { a: (255 - c.r.a) as u8, nf: true, hf: true, ..c.r }), ..c }), m, 1)
}

pub open spec fn spec_op_jr_nc(c: CPU, m: MmuView) -> (CPU, MmuView, Cycles) {
    if !c.r.cf {
        ((CPU { r: (Registers { pc: w16(w16(c.r.pc + 1) + spec_sign_ext(m.rb(c.r.pc))), ..c.r }), ..c }), m, 3)
    } else {
        ((CPU { r: (Registers { pc: w16(c.r.pc + 1), ..c.r }), ..c }), m, 2)
    }
}

pub open spec fn spec_op_ld_sp_d16(c: CPU, m: MmuView) -> (CPU, MmuView, Cycles) {
    ((CPU { r: (Registers { sp: m.rw(c.r.pc), pc: w16(c.r.pc + 2), ..c.r }), ..c }), m, 3)
}

pub open spec fn spec_op_ld_hld_a(c: CPU, m: MmuView) -> (CPU, MmuView, Cycles) {
    ((CPU { r: c.r.spec_with_hl(w16(c.r.spec_hl() - 1)), ..c }), m.wb(c.r.spec_hl(), c.r.a), 2)
}

pub open spec fn spec_op_inc_sp(c: CPU, m: MmuView) -> (CPU, MmuView, Cycles) {
    ((CPU { r: (Registers { sp: w16(c.r.sp + 1), ..c.r }), ..c }), m, 2)
}

pub open spec fn spec_op_inc_hl_ptr(c: CPU, m: MmuView) -> (CPU, MmuView, Cycles) {
    ((CPU { r: (Registers { zf: (w8(m.rb(c.r.spec_hl()) + 1) == 0), nf: false, hf: (m.rb(c.r.spec_hl()) % 16 == 0x0F), ..c.r }), ..c }), m.wb(c.r.spec_hl(), w8(m.rb(c.r.spec_hl()) + 1)), 3)
}

pub open spec fn spec_op_dec_hl_ptr(c: CPU, m: MmuView) -> (CPU, MmuView, Cycles) {
    ((CPU { r: (Registers { zf: (w8(m.rb(c.r.spec_hl()) - 1) == 0), nf: true, hf: (m.rb(c.r.spec_hl()) % 16 == 0), ..c.r }), ..c }), m.wb(c.r.spec_hl(), w8(m.rb(c.r.spec_hl()) - 1)), 3)
}

pub open spec fn spec_op_ld_hl_d8(c: CPU, m: MmuView) -> (CPU, MmuView, Cycles) {
    ((CPU { r: (Registers { pc: w16(c.r.pc + 1), ..c.r }), ..c }), m.wb(c.r.spec_hl(), m.rb(c.r.pc)), 3)
}

pub open spec fn spec_op_scf(c: CPU, m: MmuView) -> (CPU, MmuView, Cycles) {
    ((CPU { r: (Registers { nf: false, hf: false, cf: true, ..c.r }), ..c }), m, 1)
}

pub open spec fn spec_op_jr_c(c: CPU, m: MmuView) -> (CPU, MmuView, Cycles) {
    if c.r.cf {
        ((CPU { r: (Registers { pc: w16(w16(c.r.pc + 1) + spec_sign_ext(m.rb(c.r.pc))), ..c.r }), ..c }), m, 3)
    } else {
        ((CPU { r: (Registers { pc: w16(c.r.pc + 1), ..c.r }), ..c }), m, 2)
    }
}

pub open spec fn spec_op_add_hl_sp(c: CPU, m: MmuView) -> (CPU, MmuView, Cycles) {
    ((CPU { r: (Registers { nf: false, hf: spec_addhl_h(c.r.spec_hl(), c.r.sp), cf: spec_addhl_c(c.r.spec_hl(), c.r.sp), ..c.r.spec_with_hl(w16(c.r.spec_hl() + c.r.sp)) }), ..c }), m, 2)
}

pub open spec fn spec_op_ld_a_hld(c: CPU, m: MmuView) -> (CPU, MmuView, Cycles) {
    ((CPU { r: (Registers { a: m.rb(c.r.spec_hl()), ..c.r.spec_with_hl(w16(c.r.spec_hl() - 1)) }), ..c }), m, 2)
}

pub open spec fn spec_op_dec_sp(c: CPU, m: MmuView) -> (CPU, MmuView, Cycles) {
    ((CPU { r: (Registers { sp: w16(c.r.sp - 1), ..c.r }), ..c }), m, 2)
}

pub open spec fn spec_op_inc_a(c: CPU, m: MmuView) -> (CPU, MmuView, Cycles) {
    ((CPU { r: (Registers { a: w8(c.r.a + 1), zf: (w8(c.r.a + 1) == 0), nf: false, hf: (c.r.a % 16 == 0x0F), ..c.r }), ..c }), m, 1)
}

pub open spec fn spec_op_dec_a(c: CPU, m: MmuView) -> (CPU, MmuView, Cycles) {
    ((CPU { r: (Registers { a: w8(c.r.a - 1), zf: (w8(c.r.a - 1) == 0), nf: true, hf: (c.r.a % 16 == 0), ..c.r }), ..c }), m, 1)
}

pub open spec fn spec_op_ld_a_d8(c: CPU, m: MmuView) -> (CPU, MmuView, Cycles) {
    ((CPU { r: (Registers { a: m.rb(c.r.pc), pc: w16(c.r.pc + 1), ..c.r }), ..c }), m, 2)
}

pub open spec fn spec_op_ccf(c: CPU, m: MmuView) -> (CPU, MmuView, Cycles) {
    ((CPU { r: (Registers { nf: false, hf: false, cf: !c.r.cf, ..c.r }), ..c }), m, 1)
}

pub open spec fn spec_op_ld_b_b(c: CPU, m: MmuView) -> (CPU, MmuView, Cycles) {
    ((CPU { r: (Registers { b: c.r.b, ..c.r }), ..c }), m, 1)
}

pub open spec fn spec_op_ld_b_c(c: CPU, m: MmuView) -> (CPU, MmuView, Cycles) {
    ((CPU { r: (Registers { b: c.r.c, ..c.r }), ..c }), m, 1)
}

pub open spec fn spec_op_ld_b_d(c: CPU, m: MmuView) -> (CPU, MmuView, Cycles) {
    ((CPU { r: (Registers { b: c.r.d, ..c.r }), ..c }), m, 1)
}

pub open spec fn spec_op_ld_b_e(c: CPU, m: MmuView) -> (CPU, MmuView, Cycles) {
    ((CPU { r: (Registers { b: c.r.e, ..c.r }), ..c }), m, 1)
}

pub open spec fn spec_op_ld_b_h(c: CPU, m: MmuView) -> (CPU, MmuView, Cycles) {
    ((CPU { r: (Registers { b: c.r.h, ..c.r }), ..c }), m, 1)
}

pub open spec fn spec_op_ld_b_l(c: CPU, m: MmuView) -> (CPU, MmuView, Cycles) {
    ((CPU { r: (Registers { b: c.r.l, ..c.r }), ..c }), m, 1)
}

pub open spec fn spec_op_ld_b_hl(c: CPU, m: MmuView) -> (CPU, MmuView, Cycles) {
    ((CPU { r: (Registers { b: m.rb(c.r.spec_hl()), ..c.r }), ..c }), m, 2)
}

pub open spec fn spec_op_ld_b_a(c: CPU, m: MmuView) -> (CPU, MmuView, Cycles) {
    ((CPU { r: (Registers { b: c.r.a, ..c.r }), ..c }), m, 1)
}

pub open spec fn spec_op_ld_c_b(c: CPU, m: MmuView) -> (CPU, MmuView, Cycles) {
    ((CPU { r: (Registers { c: c.r.b, ..c.r }), ..c }), m, 1)
}

pub open spec fn spec_op_ld_c_c(c: CPU, m: MmuView) -> (CPU, MmuView, Cycles) {
    ((CPU { r: (Registers { c: c.r.c, ..c.r }), ..c }), m, 1)
}

pub open spec fn spec_op_ld_c_d(c: CPU, m: MmuView) -> (CPU, MmuView, Cycles) {
    ((CPU { r: (Registers { c: c.r.d, ..c.r }), ..c }), m, 1)
}

pub open spec fn spec_op_ld_c_e(c: CPU, m: MmuView) -> (CPU, MmuView, Cycles) {
    ((CPU { r: (Registers { c: c.r.e, ..c.r }), ..c }), m, 1)
}

pub open spec fn spec_op_ld_c_h(c: CPU, m: MmuView) -> (CPU, MmuView, Cycles) {
    ((CPU { r: (Registers { c: c.r.h, ..c.r }), ..c }), m, 1)
}

pub open spec fn spec_op_ld_c_l(c: CPU, m: MmuView) -> (CPU, MmuView, Cycles) {
    ((CPU { r: (Registers { c: c.r.l, ..c.r }), ..c }), m, 1)
}

pub open spec fn spec_op_ld_c_hl(c: CPU, m: MmuView) -> (CPU, MmuView, Cycles) {
    ((CPU { r: (Registers { c: m.rb(c.r.spec_hl()), ..c.r }), ..c }), m, 2)
}

pub open spec fn spec_op_ld_c_a(c: CPU, m: MmuView) -> (CPU, MmuView, Cycles) {
    ((CPU { r: (Registers { c: c.r.a, ..c.r }), ..c }), m, 1)
}

pub open spec fn spec_op_ld_d_b(c: CPU, m: MmuView) -> (CPU, MmuView, Cycles) {
    ((CPU { r: (Registers { d: c.r.b, ..c.r }), ..c }), m, 1)
}

pub open spec fn spec_op_ld_d_c(c: CPU, m: MmuView) -> (CPU, MmuView, Cycles) {
    ((CPU { r: (Registers { d: c.r.c, ..c.r }), ..c }), m, 1)
}

pub open spec fn spec_op_ld_d_d(c: CPU, m: MmuView) -> (CPU, MmuView, Cycles) {
    ((CPU { r: (Registers { d: c.r.d, ..c.r }), ..c }), m, 1)
}

pub open spec fn spec_op_ld_d_e(c: CPU, m: MmuView) -> (CPU, MmuView, Cycles) {
    ((CPU { r: (Registers { d: c.r.e, ..c.r }), ..c }), m, 1)
}

pub open spec fn spec_op_ld_d_h(c: CPU, m: MmuView) -> (CPU, MmuView, Cycles) {
    ((CPU { r: (Registers { d: c.r.h, ..c.r }), ..c }), m, 1)
}

pub open spec fn spec_op_ld_d_l(c: CPU, m: MmuView) -> (CPU, MmuView, Cycles) {
    ((CPU { r: (Registers { d: c.r.l, ..c.r }), ..c }), m, 1)
}

pub open spec fn spec_op_ld_d_hl(c: CPU, m: MmuView) -> (CPU, MmuView, Cycles) {
    ((CPU { r: (Registers { d: m.rb(c.r.spec_hl()), ..c.r }), ..c }), m, 2)
}

pub open spec fn spec_op_ld_d_a(c: CPU, m: MmuView) -> (CPU, MmuView, Cycles) {
    ((CPU { r: (Registers { d: c.r.a, ..c.r }), ..c }), m, 1)
}

pub open spec fn spec_op_ld_e_b(c: CPU, m: MmuView) -> (CPU, MmuView, Cycles) {
    ((CPU { r: (Registers { e: c.r.b, ..c.r }), ..c }), m, 1)
}

pub open spec fn spec_op_ld_e_c(c: CPU, m: MmuView) -> (CPU, MmuView, Cycles) {
    ((CPU { r: (Registers { e: c.r.c, ..c.r }), ..c }), m, 1)
}

pub open spec fn spec_op_ld_e_d(c: CPU, m: MmuView) -> (CPU, MmuView, Cycles) {
    ((CPU { r: (Registers { e: c.r.d, ..c.r }), ..c }), m, 1)
}

pub open spec fn spec_op_ld_e_e(c: CPU, m: MmuView) -> (CPU, MmuView, Cycles) {
    ((CPU { r: (Registers { e: c.r.e, ..c.r }), ..c }), m, 1)
}

pub open spec fn spec_op_ld_e_h(c: CPU, m: MmuView) -> (CPU, MmuView, Cycles) {
    ((CPU { r: (Registers { e: c.r.h, ..c.r }), ..c }), m, 1)
}

pub open spec fn spec_op_ld_e_l(c: CPU, m: MmuView) -> (CPU, MmuView, Cycles) {
    ((CPU { r: (Registers { e: c.r.l, ..c.r }), ..c }), m, 1)
}

pub open spec fn spec_op_ld_e_hl(c: CPU, m: MmuView) -> (CPU, MmuView, Cycles) {
    ((CPU { r: (Registers { e: m.rb(c.r.spec_hl()), ..c.r }), ..c }), m, 2)
}

pub open spec fn spec_op_ld_e_a(c: CPU, m: MmuView) -> (CPU, MmuView, Cycles) {
    ((CPU { r: (Registers { e: c.r.a, ..c.r }), ..c }), m, 1)
}

pub open spec fn spec_op_ld_h_b(c: CPU, m: MmuView) -> (CPU, MmuView, Cycles) {
    ((CPU { r: (Registers { h: c.r.b, ..c.r }), ..c }), m, 1)
}

pub open spec fn spec_op_ld_h_c(c: CPU, m: MmuView) -> (CPU, MmuView, Cycles) {
    ((CPU { r: (Registers { h: c.r.c, ..c.r }), ..c }), m, 1)
}

pub open spec fn spec_op_ld_h_d(c: CPU, m: MmuView) -> (CPU, MmuView, Cycles) {
    ((CPU { r: (Registers { h: c.r.d, ..c.r }), ..c }), m, 1)
}

pub open spec fn spec_op_ld_h_e(c: CPU, m: MmuView) -> (CPU, MmuView, Cycles) {
    ((CPU { r: (Registers { h: c.r.e, ..c.r }), ..c }), m, 1)
}

pub open spec fn spec_op_ld_h_h(c: CPU, m: MmuView) -> (CPU, MmuView, Cycles) {
    ((CPU { r: (Registers { h: c.r.h, ..c.r }), ..c }), m, 1)
}

pub open spec fn spec_op_ld_h_l(c: CPU, m: MmuView) -> (CPU, MmuView, Cycles) {
    ((CPU { r: (Registers { h: c.r.l, ..c.r }), ..c }), m, 1)
}

pub open spec fn spec_op_ld_h_hl(c: CPU, m: MmuView) -> (CPU, MmuView, Cycles) {
    ((CPU { r: (Registers { h: m.rb(c.r.spec_hl()), ..c.r }), ..c }), m, 2)
}

pub open spec fn spec_op_ld_h_a(c: CPU, m: MmuView) -> (CPU, MmuView, Cycles) {
    ((CPU { r: (Registers { h: c.r.a, ..c.r }), ..c }), m, 1)
}

pub open spec fn spec_op_ld_l_b(c: CPU, m: MmuView) -> (CPU, MmuView, Cycles) {
    ((CPU { r: (Registers { l: c.r.b, ..c.r }), ..c }), m, 1)
}

pub open spec fn spec_op_ld_l_c(c: CPU, m: MmuView) -> (CPU, MmuView, Cycles) {
    ((CPU { r: (Registers { l: c.r.c, ..c.r }), ..c }), m, 1)
}

pub open spec fn spec_op_ld_l_d(c: CPU, m: MmuView) -> (CPU, MmuView, Cycles) {
    ((CPU { r: (Registers { l: c.r.d, ..c.r }), ..c }), m, 1)
}

pub open spec fn spec_op_ld_l_e(c: CPU, m: MmuView) -> (CPU, MmuView, Cycles) {
    ((CPU { r: (Registers { l: c.r.e, ..c.r }), ..c }), m, 1)
}

pub open spec fn spec_op_ld_l_h(c: CPU, m: MmuView) -> (CPU, MmuView, Cycles) {
    ((CPU { r: (Registers { l: c.r.h, ..c.r }), ..c }), m, 1)
}

pub open spec fn spec_op_ld_l_l(c: CPU, m: MmuView) -> (CPU, MmuView, Cycles) {
    ((CPU { r: (Registers { l: c.r.l, ..c.r }), ..c }), m, 1)
}

pub open spec fn spec_op_ld_l_hl(c: CPU, m: MmuView) -> (CPU, MmuView, Cycles) {
    ((CPU { r: (Registers { l: m.rb(c.r.spec_hl()), ..c.r }), ..c }), m, 2)
}

pub open spec fn spec_op_ld_l_a(c: CPU, m: MmuView) -> (CPU, MmuView, Cycles) {
    ((CPU { r: (Registers { l: c.r.a, ..c.r }), ..c }), m, 1)
}

pub open spec fn spec_op_ld_hl_b(c: CPU, m: MmuView) -> (CPU, MmuView, Cycles) {
    (c, m.wb(c.r.spec_hl(), c.r.b), 2)
}

pub open spec fn spec_op_ld_hl_c(c: CPU, m: MmuView) -> (CPU, MmuView, Cycles) {
    (c, m.wb(c.r.spec_hl(), c.r.c), 2)
}

pub open spec fn spec_op_ld_hl_d(c: CPU, m: MmuView) -> (CPU, MmuView, Cycles) {
    (c, m.wb(c.r.spec_hl(), c.r.d), 2)
}

pub open spec fn spec_op_ld_hl_e(c: CPU, m: MmuView) -> (CPU, MmuView, Cycles) {
    (c, m.wb(c.r.spec_hl(), c.r.e), 2)
}

pub open spec fn spec_op_ld_hl_h(c: CPU, m: MmuView) -> (CPU, MmuView, Cycles) {
    (c, m.wb(c.r.spec_hl(), c.r.h), 2)
}

pub open spec fn spec_op_ld_hl_l(c: CPU, m: MmuView) -> (CPU, MmuView, Cycles) {
    (c, m.wb(c.r.spec_hl(), c.r.l), 2)
}

pub open spec fn spec_op_halt(c: CPU, m: MmuView) -> (CPU, MmuView, Cycles) {
    ((CPU { halted: true, ..c }), m, 1)
}

pub open spec fn spec_op_ld_hl_a(c: CPU, m: MmuView) -> (CPU, MmuView, Cycles) {
    (c, m.wb(c.r.spec_hl(), c.r.a), 2)
}

pub open spec fn spec_op_ld_a_b(c: CPU, m: MmuView) -> (CPU, MmuView, Cycles) {
    ((CPU { r: (Registers { a: c.r.b, ..c.r }), ..c }), m, 1)
}

pub open spec fn spec_op_ld_a_c(c: CPU, m: MmuView) -> (CPU, MmuView, Cycles) {
    ((CPU { r: (Registers { a: c.r.c, ..c.r }), ..c }), m, 1)
}

pub open spec fn spec_op_ld_a_d(c: CPU, m: MmuView) -> (CPU, MmuView, Cycles) {
    ((CPU { r: (Registers { a: c.r.d, ..c.r }), ..c }), m, 1)
}

pub open spec fn spec_op_ld_a_e(c: CPU, m: MmuView) -> (CPU, MmuView, Cycles) {
    ((CPU { r: (Registers { a: c.r.e, ..c.r }), ..c }), m, 1)
}

pub open spec fn spec_op_ld_a_h(c: CPU, m: MmuView) -> (CPU, MmuView, Cycles) {
    ((CPU { r: (Registers { a: c.r.h, ..c.r }), ..c }), m, 1)
}

pub open spec fn spec_op_ld_a_l(c: CPU, m: MmuView) -> (CPU, MmuView, Cycles) {
    ((CPU { r: (Registers { a: c.r.l, ..c.r }), ..c }), m, 1)
}

pub open spec fn spec_op_ld_a_hl(c: CPU, m: MmuView) -> (CPU, MmuView, Cycles) {
    ((CPU { r: (Registers { a: m.rb(c.r.spec_hl()), ..c.r }), ..c }), m, 2)
}

pub open spec fn spec_op_ld_a_a(c: CPU, m: MmuView) -> (CPU, MmuView, Cycles) {
    ((CPU { r: (Registers { a: c.r.a, ..c.r }), ..c }), m, 1)
}

pub open spec fn spec_op_add_a_b(c: CPU, m: MmuView) -> (CPU, MmuView, Cycles) {
    ((CPU { r: (Registers { a: spec_add8(c.r.a, c.r.b, false), zf: (spec_add8(c.r.a, c.r.b, false) == 0), nf: false, hf: spec_add8_h(c.r.a, c.r.b, false), cf: spec_add8_c(c.r.a, c.r.b, false), ..c.r }), ..c }), m, 1)
}

pub open spec fn spec_op_add_a_c(c: CPU, m: MmuView) -> (CPU, MmuView, Cycles) {
    ((CPU { r: (Registers { a: spec_add8(c.r.a, c.r.c, false), zf: (spec_add8(c.r.a, c.r.c, false) == 0), nf: false, hf: spec_add8_h(c.r.a, c.r.c, false), cf: spec_add8_c(c.r.a, c.r.c, false), ..c.r }), ..c }), m, 1)
}

pub open spec fn spec_op_add_a_d(c: CPU, m: MmuView) -> (CPU, MmuView, Cycles) {
    ((CPU { r: (Registers { a: spec_add8(c.r.a, c.r.d, false), zf: (spec_add8(c.r.a, c.r.d, false) == 0), nf: false, hf: spec_add8_h(c.r.a, c.r.d, false), cf: spec_add8_c(c.r.a, c.r.d, false), ..c.r }), ..c }), m, 1)
}

pub open spec fn spec_op_add_a_e(c: CPU, m: MmuView) -> (CPU, MmuView, Cycles) {
    ((CPU { r: (Registers { a: spec_add8(c.r.a, c.r.e, false), zf: (spec_add8(c.r.a, c.r.e, false) == 0), nf: false, hf: spec_add8_h(c.r.a, c.r.e, false), cf: spec_add8_c(c.r.a, c.r.e, false), ..c.r }), ..c }), m, 1)
}

pub open spec fn spec_op_add_a_h(c: CPU, m: MmuView) -> (CPU, MmuView, Cycles) {
    ((CPU { r: (Registers { a: spec_add8(c.r.a, c.r.h, false), zf: (spec_add8(c.r.a, c.r.h, false) == 0), nf: false, hf: spec_add8_h(c.r.a, c.r.h, false), cf: spec_add8_c(c.r.a, c.r.h, false), ..c.r }), ..c }), m, 1)
}

pub open spec fn spec_op_add_a_l(c: CPU, m: MmuView) -> (CPU, MmuView, Cycles) {
    ((CPU { r: (Registers { a: spec_add8(c.r.a, c.r.l, false), zf: (spec_add8(c.r.a, c.r.l, false) == 0), nf: false, hf: spec_add8_h(c.r.a, c.r.l, false), cf: spec_add8_c(c.r.a, c.r.l, false), ..c.r }), ..c }), m, 1)
}

pub open spec fn spec_op_add_a_hl(c: CPU, m: MmuView) -> (CPU, MmuView, Cycles) {
    ((CPU { r: (Registers { a: spec_add8(c.r.a, m.rb(c.r.spec_hl()), false), zf: (spec_add8(c.r.a, m.rb(c.r.spec_hl()), false) == 0), nf: false, hf: spec_add8_h(c.r.a, m.rb(c.r.spec_hl()), false), cf: spec_add8_c(c.r.a, m.rb(c.r.spec_hl()), false), ..c.r }), ..c }), m, 2)
}

pub open spec fn spec_op_add_a_a(c: CPU, m: MmuView) -> (CPU, MmuView, Cycles) {
    ((CPU { r: (Registers { a: spec_add8(c.r.a, c.r.a, false), zf: (spec_add8(c.r.a, c.r.a, false) == 0), nf: false, hf: spec_add8_h(c.r.a, c.r.a, false), cf: spec_add8_c(c.r.a, c.r.a, false), ..c.r }), ..c }), m, 1)
}

pub open spec fn spec_op_adc_a_b(c: CPU, m: MmuView) -> (CPU, MmuView, Cycles) {
    ((CPU { r: (Registers { a: spec_add8(c.r.a, c.r.b, c.r.cf), zf: (spec_add8(c.r.a, c.r.b, c.r.cf) == 0), nf: false, hf: spec_add8_h(c.r.a, c.r.b, c.r.cf), cf: spec_add8_c(c.r.a, c.r.b, c.r.cf), ..c.r }), ..c }), m, 1)
}

pub open spec fn spec_op_adc_a_c(c: CPU, m: MmuView) -> (CPU, MmuView, Cycles) {
    ((CPU { r: (Registers { a: spec_add8(c.r.a, c.r.c, c.r.cf), zf: (spec_add8(c.r.a, c.r.c, c.r.cf) == 0), nf: false, hf: spec_add8_h(c.r.a, c.r.c, c.r.cf), cf: spec_add8_c(c.r.a, c.r.c, c.r.cf), ..c.r }), ..c }), m, 1)
}

pub open spec fn spec_op_adc_a_d(c: CPU, m: MmuView) -> (CPU, MmuView, Cycles) {
    ((CPU { r: (Registers { a: spec_add8(c.r.a, c.r.d, c.r.cf), zf: (spec_add8(c.r.a, c.r.d, c.r.cf) == 0), nf: false, hf: spec_add8_h(c.r.a, c.r.d, c.r.cf), cf: spec_add8_c(c.r.a, c.r.d, c.r.cf), ..c.r }), ..c }), m, 1)
}

pub open spec fn spec_op_adc_a_e(c: CPU, m: MmuView) -> (CPU, MmuView, Cycles) {
    ((CPU { r: (Registers { a: spec_add8(c.r.a, c.r.e, c.r.cf), zf: (spec_add8(c.r.a, c.r.e, c.r.cf) == 0), nf: false, hf: spec_add8_h(c.r.a, c.r.e, c.r.cf), cf: spec_add8_c(c.r.a, c.r.e, c.r.cf), ..c.r }), ..c }), m, 1)
}

pub open spec fn spec_op_adc_a_h(c: CPU, m: MmuView) -> (CPU, MmuView, Cycles) {
    ((CPU { r: (Registers { a: spec_add8(c.r.a, c.r.h, c.r.cf), zf: (spec_add8(c.r.a, c.r.h, c.r.cf) == 0), nf: false, hf: spec_add8_h(c.r.a, c.r.h, c.r.cf), cf: spec_add8_c(c.r.a, c.r.h, c.r.cf), ..c.r }), ..c }), m, 1)
}

pub open spec fn spec_op_adc_a_l(c: CPU, m: MmuView) -> (CPU, MmuView, Cycles) {
    ((CPU { r: (Registers { a: spec_add8(c.r.a, c.r.l, c.r.cf), zf: (spec_add8(c.r.a, c.r.l, c.r.cf) == 0), nf: false, hf: spec_add8_h(c.r.a, c.r.l, c.r.cf), cf: spec_add8_c(c.r.a, c.r.l, c.r.cf), ..c.r }), ..c }), m, 1)
}

pub open spec fn spec_op_adc_a_hl(c: CPU, m: MmuView) -> (CPU, MmuView, Cycles) {
    ((CPU { r: (Registers { a: spec_add8(c.r.a, m.rb(c.r.spec_hl()), c.r.cf), zf: (spec_add8(c.r.a, m.rb(c.r.spec_hl()), c.r.cf) == 0), nf: false, hf: spec_add8_h(c.r.a, m.rb(c.r.spec_hl()), c.r.cf), cf: spec_add8_c(c.r.a, m.rb(c.r.spec_hl()), c.r.cf), ..c.r }), ..c }), m, 2)
}

pub open spec fn spec_op_adc_a_a(c: CPU, m: MmuView) -> (CPU, MmuView, Cycles) {
    ((CPU { r: (Registers { a: spec_add8(c.r.a, c.r.a, c.r.cf), zf: (spec_add8(c.r.a, c.r.a, c.r.cf) == 0), nf: false, hf: spec_add8_h(c.r.a, c.r.a, c.r.cf), cf: spec_add8_c(c.r.a, c.r.a, c.r.cf), ..c.r }), ..c }), m, 1)
}

pub open spec fn spec_op_sub_b(c: CPU, m: MmuView) -> (CPU, MmuView, Cycles) {
    ((CPU { r: (Registers { a: spec_sub8(c.r.a, c.r.b, false), zf: (spec_sub8(c.r.a, c.r.b, false) == 0), nf: true, hf: spec_sub8_h(c.r.a, c.r.b, false), cf: spec_sub8_c(c.r.a, c.r.b, false), ..c.r }), ..c }), m, 1)
}

pub open spec fn spec_op_sub_c(c: CPU, m: MmuView) -> (CPU, MmuView, Cycles) {
    ((CPU { r: (Registers { a: spec_sub8(c.r.a, c.r.c, false), zf: (spec_sub8(c.r.a, c.r.c, false) == 0), nf: true, hf: spec_sub8_h(c.r.a, c.r.c, false), cf: spec_sub8_c(c.r.a, c.r.c, false), ..c.r }), ..c }), m, 1)
}

pub open spec fn spec_op_sub_d(c: CPU, m: MmuView) -> (CPU, MmuView, Cycles) {
    ((CPU { r: (Registers { a: spec_sub8(c.r.a, c.r.d, false), zf: (spec_sub8(c.r.a, c.r.d, false) == 0), nf: true, hf: spec_sub8_h(c.r.a, c.r.d, false), cf: spec_sub8_c(c.r.a, c.r.d, false), ..c.r }), ..c }), m, 1)
}

pub open spec fn spec_op_sub_e(c: CPU, m: MmuView) -> (CPU, MmuView, Cycles) {
    ((CPU { r: (Registers { a: spec_sub8(c.r.a, c.r.e, false), zf: (spec_sub8(c.r.a, c.r.e, false) == 0), nf: true, hf: spec_sub8_h(c.r.a, c.r.e, false), cf: spec_sub8_c(c.r.a, c.r.e, false), ..c.r }), ..c }), m, 1)
}

pub open spec fn spec_op_sub_h(c: CPU, m: MmuView) -> (CPU, MmuView, Cycles) {
    ((CPU { r: (Registers { a: spec_sub8(c.r.a, c.r.h, false), zf: (spec_sub8(c.r.a, c.r.h, false) == 0), nf: true, hf: spec_sub8_h(c.r.a, c.r.h, false), cf: spec_sub8_c(c.r.a, c.r.h, false), ..c.r }), ..c }), m, 1)
}

pub open spec fn spec_op_sub_l(c: CPU, m: MmuView) -> (CPU, MmuView, Cycles) {
    ((CPU { r: (Registers { a: spec_sub8(c.r.a, c.r.l, false), zf: (spec_sub8(c.r.a, c.r.l, false) == 0), nf: true, hf: spec_sub8_h(c.r.a, c.r.l, false), cf: spec_sub8_c(c.r.a, c.r.l, false), ..c.r }), ..c }), m, 1)
}

pub open spec fn spec_op_sub_hl(c: CPU, m: MmuView) -> (CPU, MmuView, Cycles) {
    ((CPU { r: (Registers { a: spec_sub8(c.r.a, m.rb(c.r.spec_hl()), false), zf: (spec_sub8(c.r.a, m.rb(c.r.spec_hl()), false) == 0), nf: true, hf: spec_sub8_h(c.r.a, m.rb(c.r.spec_hl()), false), cf: spec_sub8_c(c.r.a, m.rb(c.r.spec_hl()), false), ..c.r }), ..c }), m, 2)
}

pub open spec fn spec_op_sub_a(c: CPU, m: MmuView) -> (CPU, MmuView, Cycles) {
    ((CPU { r: (Registers { a: spec_sub8(c.r.a, c.r.a, false), zf: (spec_sub8(c.r.a, c.r.a, false) == 0), nf: true, hf: spec_sub8_h(c.r.a, c.r.a, false), cf: spec_sub8_c(c.r.a, c.r.a, false), ..c.r }), ..c }), m, 1)
}

pub open spec fn spec_op_sbc_a_b(c: CPU, m: MmuView) -> (CPU, MmuView, Cycles) {
    ((CPU { r: (Registers { a: spec_sub8(c.r.a, c.r.b, c.r.cf), zf: (spec_sub8(c.r.a, c.r.b, c.r.cf) == 0), nf: true, hf: spec_sub8_h(c.r.a, c.r.b, c.r.cf), cf: spec_sub8_c(c.r.a, c.r.b, c.r.cf), ..c.r }), ..c }), m, 1)
}

pub open spec fn spec_op_sbc_a_c(c: CPU, m: MmuView) -> (CPU, MmuView, Cycles) {
    ((CPU { r: (Registers { a: spec_sub8(c.r.a, c.r.c, c.r.cf), zf: (spec_sub8(c.r.a, c.r.c, c.r.cf) == 0), nf: true, hf: spec_sub8_h(c.r.a, c.r.c, c.r.cf), cf: spec_sub8_c(c.r.a, c.r.c, c.r.cf), ..c.r }), ..c }), m, 1)
}

pub open spec fn spec_op_sbc_a_d(c: CPU, m: MmuView) -> (CPU, MmuView, Cycles) {
    ((CPU { r: (Registers { a: spec_sub8(c.r.a, c.r.d, c.r.cf), zf: (spec_sub8(c.r.a, c.r.d, c.r.cf) == 0), nf: true, hf: spec_sub8_h(c.r.a, c.r.d, c.r.cf), cf: spec_sub8_c(c.r.a, c.r.d, c.r.cf), ..c.r }), ..c }), m, 1)
}

pub open spec fn spec_op_sbc_a_e(c: CPU, m: MmuView) -> (CPU, MmuView, Cycles) {
    ((CPU { r: (Registers { a: spec_sub8(c.r.a, c.r.e, c.r.cf), zf: (spec_sub8(c.r.a, c.r.e, c.r.cf) == 0), nf: true, hf: spec_sub8_h(c.r.a, c.r.e, c.r.cf), cf: spec_sub8_c(c.r.a, c.r.e, c.r.cf), ..c.r }), ..c }), m, 1)
}

pub open spec fn spec_op_sbc_a_h(c: CPU, m: MmuView) -> (CPU, MmuView, Cycles) {
    ((CPU { r: (Registers { a: spec_sub8(c.r.a, c.r.h, c.r.cf), zf: (spec_sub8(c.r.a, c.r.h, c.r.cf) == 0), nf: true, hf: spec_sub8_h(c.r.a, c.r.h, c.r.cf), cf: spec_sub8_c(c.r.a, c.r.h, c.r.cf), ..c.r }), ..c }), m, 1)
}

pub open spec fn spec_op_sbc_a_l(c: CPU, m: MmuView) -> (CPU, MmuView, Cycles) {
    ((CPU { r: (Registers { a: spec_sub8(c.r.a, c.r.l, c.r.cf), zf: (spec_sub8(c.r.a, c.r.l, c.r.cf) == 0), nf: true, hf: spec_sub8_h(c.r.a, c.r.l, c.r.cf), cf: spec_sub8_c(c.r.a, c.r.l, c.r.cf), ..c.r }), ..c }), m, 1)
}

pub open spec fn spec_op_sbc_a_hl(c: CPU, m: MmuView) -> (CPU, MmuView, Cycles) {
    ((CPU { r: (Registers { a: spec_sub8(c.r.a, m.rb(c.r.spec_hl()), c.r.cf), zf: (spec_sub8(c.r.a, m.rb(c.r.spec_hl()), c.r.cf) == 0), nf: true, hf: spec_sub8_h(c.r.a, m.rb(c.r.spec_hl()), c.r.cf), cf: spec_sub8_c(c.r.a, m.rb(c.r.spec_hl()), c.r.cf), ..c.r }), ..c }), m, 2)
}

pub open spec fn spec_op_sbc_a_a(c: CPU, m: MmuView) -> (CPU, MmuView, Cycles) {
    ((CPU { r: (Registers { a: spec_sub8(c.r.a, c.r.a, c.r.cf), zf: (spec_sub8(c.r.a, c.r.a, c.r.cf) == 0), nf: true, hf: spec_sub8_h(c.r.a, c.r.a, c.r.cf), cf: spec_sub8_c(c.r.a, c.r.a, c.r.cf), ..c.r }), ..c }), m, 1)
}

pub open spec fn spec_op_and_b(c: CPU, m: MmuView) -> (CPU, MmuView, Cycles) {
    ((CPU { r: (Registers { a: (c.r.a & c.r.b), zf: ((c.r.a & c.r.b) == 0), nf: false, hf: true, cf: false, ..c.r }), ..c }), m, 1)
}

pub open spec fn spec_op_and_c(c: CPU, m: MmuView) -> (CPU, MmuView, Cycles) {
    ((CPU { r: (Registers { a: (c.r.a & c.r.c), zf: ((c.r.a & c.r.c) == 0), nf: false, hf: true, cf: false, ..c.r }), ..c }), m, 1)
}

pub open spec fn spec_op_and_d(c: CPU, m: MmuView) -> (CPU, MmuView, Cycles) {
    ((CPU { r: (Registers { a: (c.r.a & c.r.d), zf: ((c.r.a & c.r.d) == 0), nf: false, hf: true, cf: false, ..c.r }), ..c }), m, 1)
}

pub open spec fn spec_op_and_e(c: CPU, m: MmuView) -> (CPU, MmuView, Cycles) {
    ((CPU { r: (Registers { a: (c.r.a & c.r.e), zf: ((c.r.a & c.r.e) == 0), nf: false, hf: true, cf: false, ..c.r }), ..c }), m, 1)
}

pub open spec fn spec_op_and_h(c: CPU, m: MmuView) -> (CPU, MmuView, Cycles) {
    ((CPU { r: (Registers { a: (c.r.a & c.r.h), zf: ((c.r.a & c.r.h) == 0), nf: false, hf: true, cf: false, ..c.r }), ..c }), m, 1)
}

pub open spec fn spec_op_and_l(c: CPU, m: MmuView) -> (CPU, MmuView, Cycles) {
    ((CPU { r: (Registers { a: (c.r.a & c.r.l), zf: ((c.r.a & c.r.l) == 0), nf: false, hf: true, cf: false, ..c.r }), ..c }), m, 1)
}

pub open spec fn spec_op_and_hl(c: CPU, m: MmuView) -> (CPU, MmuView, Cycles) {
    ((CPU { r: (Registers { a: (c.r.a & m.rb(c.r.spec_hl())), zf: ((c.r.a & m.rb(c.r.spec_hl())) == 0), nf: false, hf: true, cf: false, ..c.r }), ..c }), m, 2)
}

pub open spec fn spec_op_and_a(c: CPU, m: MmuView) -> (CPU, MmuView, Cycles) {
    ((CPU { r: (Registers { a: (c.r.a & c.r.a), zf: ((c.r.a & c.r.a) == 0), nf: false, hf: true, cf: false, ..c.r }), ..c }), m, 1)
}

pub open spec fn spec_op_xor_b(c: CPU, m: MmuView) -> (CPU, MmuView, Cycles) {
    ((CPU { r: (Registers { a: (c.r.a ^ c.r.b), zf: ((c.r.a ^ c.r.b) == 0), nf: false, hf: false, cf: false, ..c.r }), ..c }), m, 1)
}

pub open spec fn spec_op_xor_c(c: CPU, m: MmuView) -> (CPU, MmuView, Cycles) {
    ((CPU { r: (Registers { a: (c.r.a ^ c.r.c), zf: ((c.r.a ^ c.r.c) == 0), nf: false, hf: false, cf: false, ..c.r }), ..c }), m, 1)
}

pub open spec fn spec_op_xor_d(c: CPU, m: MmuView) -> (CPU, MmuView, Cycles) {
    ((CPU { r: (Registers { a: (c.r.a ^ c.r.d), zf: ((c.r.a ^ c.r.d) == 0), nf: false, hf: false, cf: false, ..c.r }), ..c }), m, 1)
}

pub open spec fn spec_op_xor_e(c: CPU, m: MmuView) -> (CPU, MmuView, Cycles) {
    ((CPU { r: (Registers { a: (c.r.a ^ c.r.e), zf: ((c.r.a ^ c.r.e) == 0), nf: false, hf: false, cf: false, ..c.r }), ..c }), m, 1)
}

pub open spec fn spec_op_xor_h(c: CPU, m: MmuView) -> (CPU, MmuView, Cycles) {
    ((CPU { r: (Registers { a: (c.r.a ^ c.r.h), zf: ((c.r.a ^ c.r.h) == 0), nf: false, hf: false, cf: false, ..c.r }), ..c }), m, 1)
}

pub open spec fn spec_op_xor_l(c: CPU, m: MmuView) -> (CPU, MmuView, Cycles) {
    ((CPU { r: (Registers { a: (c.r.a ^ c.r.l), zf: ((c.r.a ^ c.r.l) == 0), nf: false, hf: false, cf: false, ..c.r }), ..c }), m, 1)
}

pub open spec fn spec_op_xor_hl(c: CPU, m: MmuView) -> (CPU, MmuView, Cycles) {
    ((CPU { r: (Registers { a: (c.r.a ^ m.rb(c.r.spec_hl())), zf: ((c.r.a ^ m.rb(c.r.spec_hl())) == 0), nf: false, hf: false, cf: false, ..c.r }), ..c }), m, 2)
}

pub open spec fn spec_op_xor_a(c: CPU, m: MmuView) -> (CPU, MmuView, Cycles) {
    ((CPU { r: (Registers { a: (c.r.a ^ c.r.a), zf: ((c.r.a ^ c.r.a) == 0), nf: false, hf: false, cf: false, ..c.r }), ..c }), m, 1)
}

pub open spec fn spec_op_or_b(c: CPU, m: MmuView) -> (CPU, MmuView, Cycles) {
    ((CPU { r: (Registers { a: (c.r.a | c.r.b), zf: ((c.r.a | c.r.b) == 0), nf: false, hf: false, cf: false, ..c.r }), ..c }), m, 1)
}

pub open spec fn spec_op_or_c(c: CPU, m: MmuView) -> (CPU, MmuView, Cycles) {
    ((CPU { r: (Registers { a: (c.r.a | c.r.c), zf: ((c.r.a | c.r.c) == 0), nf: false, hf: false, cf: false, ..c.r }), ..c }), m, 1)
}

pub open spec fn spec_op_or_d(c: CPU, m: MmuView) -> (CPU, MmuView, Cycles) {
    ((CPU { r: (Registers { a: (c.r.a | c.r.d), zf: ((c.r.a | c.r.d) == 0), nf: false, hf: false, cf: false, ..c.r }), ..c }), m, 1)
}

pub open spec fn spec_op_or_e(c: CPU, m: MmuView) -> (CPU, MmuView, Cycles) {
    ((CPU { r: (Registers { a: (c.r.a | c.r.e), zf: ((c.r.a | c.r.e) == 0), nf: false, hf: false, cf: false, ..c.r }), ..c }), m, 1)
}

pub open spec fn spec_op_or_h(c: CPU, m: MmuView) -> (CPU, MmuView, Cycles) {
    ((CPU { r: (Registers { a: (c.r.a | c.r.h), zf: ((c.r.a | c.r.h) == 0), nf: false, hf: false, cf: false, ..c.r }), ..c }), m, 1)
}

pub open spec fn spec_op_or_l(c: CPU, m: MmuView) -> (CPU, MmuView, Cycles) {
    ((CPU { r: (Registers { a: (c.r.a | c.r.l), zf: ((c.r.a | c.r.l) == 0), nf: false, hf: false, cf: false, ..c.r }), ..c }), m, 1)
}

pub open spec fn spec_op_or_hl(c: CPU, m: MmuView) -> (CPU, MmuView, Cycles) {
    ((CPU { r: (Registers { a: (c.r.a | m.rb(c.r.spec_hl())), zf: ((c.r.a | m.rb(c.r.spec_hl())) == 0), nf: false, hf: false, cf: false, ..c.r }), ..c }), m, 2)
}

pub open spec fn spec_op_or_a(c: CPU, m: MmuView) -> (CPU, MmuView, Cycles) {
    ((CPU { r: (Registers { a: (c.r.a | c.r.a), zf: ((c.r.a | c.r.a) == 0), nf: false, hf: false, cf: false, ..c.r }), ..c }), m, 1)
}

pub open spec fn spec_op_cp_b(c: CPU, m: MmuView) -> (CPU, MmuView, Cycles) {
    ((CPU { r: (Registers { zf: (spec_sub8(c.r.a, c.r.b, false) == 0), nf: true, hf: spec_sub8_h(c.r.a, c.r.b, false), cf: spec_sub8_c(c.r.a, c.r.b, false), ..c.r }), ..c }), m, 1)
}

pub open spec fn spec_op_cp_c(c: CPU, m: MmuView) -> (CPU, MmuView, Cycles) {
    ((CPU { r: (Registers { zf: (spec_sub8(c.r.a, c.r.c, false) == 0), nf: true, hf: spec_sub8_h(c.r.a, c.r.c, false), cf: spec_sub8_c(c.r.a, c.r.c, false), ..c.r }), ..c }), m, 1)
}

pub open spec fn spec_op_cp_d(c: CPU, m: MmuView) -> (CPU, MmuView, Cycles) {
    ((CPU { r: (Registers { zf: (spec_sub8(c.r.a, c.r.d, false) == 0), nf: true, hf: spec_sub8_h(c.r.a, c.r.d, false), cf: spec_sub8_c(c.r.a, c.r.d, false), ..c.r }), ..c }), m, 1)
}

pub open spec fn spec_op_cp_e(c: CPU, m: MmuView) -> (CPU, MmuView, Cycles) {
    ((CPU { r: (Registers { zf: (spec_sub8(c.r.a, c.r.e, false) == 0), nf: true, hf: spec_sub8_h(c.r.a, c.r.e, false), cf: spec_sub8_c(c.r.a, c.r.e, false), ..c.r }), ..c }), m, 1)
}

pub open spec fn spec_op_cp_h(c: CPU, m: MmuView) -> (CPU, MmuView, Cycles) {
    ((CPU { r: (Registers { zf: (spec_sub8(c.r.a, c.r.h, false) == 0), nf: true, hf: spec_sub8_h(c.r.a, c.r.h, false), cf: spec_sub8_c(c.r.a, c.r.h, false), ..c.r }), ..c }), m, 1)
}

pub open spec fn spec_op_cp_l(c: CPU, m: MmuView) -> (CPU, MmuView, Cycles) {
    ((CPU { r: (Registers { zf: (spec_sub8(c.r.a, c.r.l, false) == 0), nf: true, hf: spec_sub8_h(c.r.a, c.r.l, false), cf: spec_sub8_c(c.r.a, c.r.l, false), ..c.r }), ..c }), m, 1)
}

pub open spec fn spec_op_cp_hl(c: CPU, m: MmuView) -> (CPU, MmuView, Cycles) {
    ((CPU { r: (Registers { zf: (spec_sub8(c.r.a, m.rb(c.r.spec_hl()), false) == 0), nf: true, hf: spec_sub8_h(c.r.a, m.rb(c.r.spec_hl()), false), cf: spec_sub8_c(c.r.a, m.rb(c.r.spec_hl()), false), ..c.r }), ..c }), m, 2)
}

pub open spec fn spec_op_cp_a(c: CPU, m: MmuView) -> (CPU, MmuView, Cycles) {
    ((CPU { r: (Registers { zf: (spec_sub8(c.r.a, c.r.a, false) == 0), nf: true, hf: spec_sub8_h(c.r.a, c.r.a, false), cf: spec_sub8_c(c.r.a, c.r.a, false), ..c.r }), ..c }), m, 1)
}

pub open spec fn spec_op_ret_nz(c: CPU, m: MmuView) -> (CPU, MmuView, Cycles) {
    if !c.r.zf {
        ((CPU { r: (Registers { pc: m.rw(c.r.sp), sp: w16(c.r.sp + 2), ..c.r }), ..c }), m, 5)
    } else {
        (c, m, 2)
    }
}

pub open spec fn spec_op_pop_bc(c: CPU, m: MmuView) -> (CPU, MmuView, Cycles) {
    ((CPU { r: (Registers { sp: w16(c.r.sp + 2), ..c.r.spec_with_bc(m.rw(c.r.sp)) }), ..c }), m, 3)
}

pub open spec fn spec_op_jp_nz(c: CPU, m: MmuView) -> (CPU, MmuView, Cycles) {
    if !c.r.zf {
        ((CPU { r: (Registers { pc: m.rw(c.r.pc), ..c.r }), ..c }), m, 4)
    } else {
        ((CPU { r: (Registers { pc: w16(c.r.pc + 2), ..c.r }), ..c }), m, 3)
    }
}

pub open spec fn spec_op_jp_a16(c: CPU, m: MmuView) -> (CPU, MmuView, Cycles) {
    ((CPU { r: (Registers { pc: m.rw(c.r.pc), ..c.r }), ..c }), m, 4)
}

pub open spec fn spec_op_call_nz(c: CPU, m: MmuView) -> (CPU, MmuView, Cycles) {
    if !c.r.zf {
        ((CPU { r: (Registers { pc: m.rw(c.r.pc), sp: w16(c.r.sp - 2), ..c.r }), ..c }), m.ww(w16(c.r.sp - 2), w16(c.r.pc + 2)), 6)
    } else {
        ((CPU { r: (Registers { pc: w16(c.r.pc + 2), ..c.r }), ..c }), m, 3)
    }
}

pub open spec fn spec_op_push_bc(c: CPU, m: MmuView) -> (CPU, MmuView, Cycles) {
    ((CPU { r: (Registers { sp: w16(c.r.sp - 2), ..c.r }), ..c }), m.ww(w16(c.r.sp - 2), c.r.spec_bc()), 4)
}

pub open spec fn spec_op_add_a_d8(c: CPU, m: MmuView) -> (CPU, MmuView, Cycles) {
    ((CPU { r: (Registers { a: spec_add8(c.r.a, m.rb(c.r.pc), false), zf: (spec_add8(c.r.a, m.rb(c.r.pc), false) == 0), nf: false, hf: spec_add8_h(c.r.a, m.rb(c.r.pc), false), cf: spec_add8_c(c.r.a, m.rb(c.r.pc), false), pc: w16(c.r.pc + 1), ..c.r }), ..c }), m, 2)
}

pub open spec fn spec_op_rst_00(c: CPU, m: MmuView) -> (CPU, MmuView, Cycles) {
    ((CPU { r: (Registers { pc: 0x0000, sp: w16(c.r.sp - 2), ..c.r }), ..c }), m.ww(w16(c.r.sp - 2), c.r.pc), 4)
}

pub open spec fn spec_op_ret_z(c: CPU, m: MmuView) -> (CPU, MmuView, Cycles) {
    if c.r.zf {
        ((CPU { r: (Registers { pc: m.rw(c.r.sp), sp: w16(c.r.sp + 2), ..c.r }), ..c }), m, 5)
    } else {
        (c, m, 2)
    }
}

pub open spec fn spec_op_ret(c: CPU, m: MmuView) -> (CPU, MmuView, Cycles) {
    ((CPU { r: (Registers { pc: m.rw(c.r.sp), sp: w16(c.r.sp + 2), ..c.r }), ..c }), m, 4)
}

pub open spec fn spec_op_jp_z(c: CPU, m: MmuView) -> (CPU, MmuView, Cycles) {
    if c.r.zf {
        ((CPU { r: (Registers { pc: m.rw(c.r.pc), ..c.r }), ..c }), m, 4)
    } else {
        ((CPU { r: (Registers { pc: w16(c.r.pc + 2), ..c.r }), ..c }), m, 3)
    }
}

pub open spec fn spec_op_call_z(c: CPU, m: MmuView) -> (CPU, MmuView, Cycles) {
    if c.r.zf {
        ((CPU { r: (Registers { pc: m.rw(c.r.pc), sp: w16(c.r.sp - 2), ..c.r }), ..c }), m.ww(w16(c.r.sp - 2), w16(c.r.pc + 2)), 6)
    } else {
        ((CPU { r: (Registers { pc: w16(c.r.pc + 2), ..c.r }), ..c }), m, 3)
    }
}

pub open spec fn spec_op_call_a16(c: CPU, m: MmuView) -> (CPU, MmuView, Cycles) {
    (
        (CPU { r: (Registers { pc: m.rw(c.r.pc), sp: w16(c.r.sp - 2), ..c.r }), ..c }),
        m.ww(w16(c.r.sp - 2), w16(c.r.pc + 2)),
        6,
    )
}

pub open spec fn spec_op_adc_a_d8(c: CPU, m: MmuView) -> (CPU, MmuView, Cycles) {
    ((CPU { r: (Registers { a: spec_add8(c.r.a, m.rb(c.r.pc), c.r.cf), zf: (spec_add8(c.r.a, m.rb(c.r.pc), c.r.cf) == 0), nf: false, hf: spec_add8_h(c.r.a, m.rb(c.r.pc), c.r.cf), cf: spec_add8_c(c.r.a, m.rb(c.r.pc), c.r.cf), pc: w16(c.r.pc + 1), ..c.r }), ..c }), m, 2)
}

pub open spec fn spec_op_rst_08(c: CPU, m: MmuView) -> (CPU, MmuView, Cycles) {
    ((CPU { r: (Registers { pc: 0x0008, sp: w16(c.r.sp - 2), ..c.r }), ..c }), m.ww(w16(c.r.sp - 2), c.r.pc), 4)
}

pub open spec fn spec_op_ret_nc(c: CPU, m: MmuView) -> (CPU, MmuView, Cycles) {
    if !c.r.cf {
        ((CPU { r: (Registers { pc: m.rw(c.r.sp), sp: w16(c.r.sp + 2), ..c.r }), ..c }), m, 5)
    } else {
        (c, m, 2)
    }
}

pub open spec fn spec_op_pop_de(c: CPU, m: MmuView) -> (CPU, MmuView, Cycles) {
    ((CPU { r: (Registers { sp: w16(c.r.sp + 2), ..c.r.spec_with_de(m.rw(c.r.sp)) }), ..c }), m, 3)
}

pub open spec fn spec_op_jp_nc(c: CPU, m: MmuView) -> (CPU, MmuView, Cycles) {
    if !c.r.cf {
        ((CPU { r: (Registers { pc: m.rw(c.r.pc), ..c.r }), ..c }), m, 4)
    } else {
        ((CPU { r: (Registers { pc: w16(c.r.pc + 2), ..c.r }), ..c }), m, 3)
    }
}

pub open spec fn spec_op_call_nc(c: CPU, m: MmuView) -> (CPU, MmuView, Cycles) {
    if !c.r.cf {
        ((CPU { r: (Registers { pc: m.rw(c.r.pc), sp: w16(c.r.sp - 2), ..c.r }), ..c }), m.ww(w16(c.r.sp - 2), w16(c.r.pc + 2)), 6)
    } else {
        ((CPU { r: (Registers { pc: w16(c.r.pc + 2), ..c.r }), ..c }), m, 3)
    }
}

pub open spec fn spec_op_push_de(c: CPU, m: MmuView) -> (CPU, MmuView, Cycles) {
    ((CPU { r: (Registers { sp: w16(c.r.sp - 2), ..c.r }), ..c }), m.ww(w16(c.r.sp - 2), c.r.spec_de()), 4)
}

pub open spec fn spec_op_sub_d8(c: CPU, m: MmuView) -> (CPU, MmuView, Cycles) {
    ((CPU { r: (Registers { a: spec_sub8(c.r.a, m.rb(c.r.pc), false), zf: (spec_sub8(c.r.a, m.rb(c.r.pc), false) == 0), nf: true, hf: spec_sub8_h(c.r.a, m.rb(c.r.pc), false), cf: spec_sub8_c(c.r.a, m.rb(c.r.pc), false), pc: w16(c.r.pc + 1), ..c.r }), ..c }), m, 2)
}

pub open spec fn spec_op_rst_10(c: CPU, m: MmuView) -> (CPU, MmuView, Cycles) {
    ((CPU { r: (Registers { pc: 0x0010, sp: w16(c.r.sp - 2), ..c.r }), ..c }), m.ww(w16(c.r.sp - 2), c.r.pc), 4)
}

pub open spec fn spec_op_ret_c(c: CPU, m: MmuView) -> (CPU, MmuView, Cycles) {
    if c.r.cf {
        ((CPU { r: (Registers { pc: m.rw(c.r.sp), sp: w16(c.r.sp + 2), ..c.r }), ..c }), m, 5)
    } else {
        (c, m, 2)
    }
}

pub open spec fn spec_op_reti(c: CPU, m: MmuView) -> (CPU, MmuView, Cycles) {
    ((CPU { r: (Registers { pc: m.rw(c.r.sp), sp: w16(c.r.sp + 2), ..c.r }), ime: true, ..c }), m, 4)
}

pub open spec fn spec_op_jp_c(c: CPU, m: MmuView) -> (CPU, MmuView, Cycles) {
    if c.r.cf {
        ((CPU { r: (Registers { pc: m.rw(c.r.pc), ..c.r }), ..c }), m, 4)
    } else {
        ((CPU { r: (Registers { pc: w16(c.r.pc + 2), ..c.r }), ..c }), m, 3)
    }
}

pub open spec fn spec_op_call_c(c: CPU, m: MmuView) -> (CPU, MmuView, Cycles) {
    if c.r.cf {
        ((CPU { r: (Registers { pc: m.rw(c.r.pc), sp: w16(c.r.sp - 2), ..c.r }), ..c }), m.ww(w16(c.r.sp - 2), w16(c.r.pc + 2)), 6)
    } else {
        ((CPU { r: (Registers { pc: w16(c.r.pc + 2), ..c.r }), ..c }), m, 3)
    }
}

pub open spec fn spec_op_sbc_a_d8(c: CPU, m: MmuView) -> (CPU, MmuView, Cycles) {
    ((CPU { r: (Registers { a: spec_sub8(c.r.a, m.rb(c.r.pc), c.r.cf), zf: (spec_sub8(c.r.a, m.rb(c.r.pc), c.r.cf) == 0), nf: true, hf: spec_sub8_h(c.r.a, m.rb(c.r.pc), c.r.cf), cf: spec_sub8_c(c.r.a, m.rb(c.r.pc), c.r.cf), pc: w16(c.r.pc + 1), ..c.r }), ..c }), m, 2)
}

pub open spec fn spec_op_rst_18(c: CPU, m: MmuView) -> (CPU, MmuView, Cycles) {
    ((CPU { r: (Registers { pc: 0x0018, sp: w16(c.r.sp - 2), ..c.r }), ..c }), m.ww(w16(c.r.sp - 2), c.r.pc), 4)
}

pub open spec fn spec_op_ldh_a8_a(c: CPU, m: MmuView) -> (CPU, MmuView, Cycles) {
    ((CPU { r: (Registers { pc: w16(c.r.pc + 1), ..c.r }), ..c }), m.wb((0xFF00 + m.rb(c.r.pc)) as u16, c.r.a), 3)
}

pub open spec fn spec_op_pop_hl(c: CPU, m: MmuView) -> (CPU, MmuView, Cycles) {
    ((CPU { r: (Registers { sp: w16(c.r.sp + 2), ..c.r.spec_with_hl(m.rw(c.r.sp)) }), ..c }), m, 3)
}

pub open spec fn spec_op_ld_ff00_c_a(c: CPU, m: MmuView) -> (CPU, MmuView, Cycles) {
    (c, m.wb((0xFF00 + c.r.c) as u16, c.r.a), 2)
}

pub open spec fn spec_op_push_hl(c: CPU, m: MmuView) -> (CPU, MmuView, Cycles) {
    ((CPU { r: (Registers { sp: w16(c.r.sp - 2), ..c.r }), ..c }), m.ww(w16(c.r.sp - 2), c.r.spec_hl()), 4)
}

pub open spec fn spec_op_and_d8(c: CPU, m: MmuView) -> (CPU, MmuView, Cycles) {
    ((CPU { r: (Registers { a: (c.r.a & m.rb(c.r.pc)), zf: ((c.r.a & m.rb(c.r.pc)) == 0), nf: false, hf: true, cf: false, pc: w16(c.r.pc + 1), ..c.r }), ..c }), m, 2)
}

pub open spec fn spec_op_rst_20(c: CPU, m: MmuView) -> (CPU, MmuView, Cycles) {
    ((CPU { r: (Registers { pc: 0x0020, sp: w16(c.r.sp - 2), ..c.r }), ..c }), m.ww(w16(c.r.sp - 2), c.r.pc), 4)
}

pub open spec fn spec_op_add_sp_r8(c: CPU, m: MmuView) -> (CPU, MmuView, Cycles) {
    ((CPU { r: (Registers { sp: w16(c.r.sp + spec_sign_ext(m.rb(c.r.pc))), zf: false, nf: false, hf: spec_addsp_h(c.r.sp, m.rb(c.r.pc)), cf: spec_addsp_c(c.r.sp, m.rb(c.r.pc)), pc: w16(c.r.pc + 1), ..c.r }), ..c }), m, 4)
}

pub open spec fn spec_op_jp_hl(c: CPU, m: MmuView) -> (CPU, MmuView, Cycles) {
    ((CPU { r: (Registers { pc: c.r.spec_hl(), ..c.r }), ..c }), m, 1)
}

pub open spec fn spec_op_ld_a16_a(c: CPU, m: MmuView) -> (CPU, MmuView, Cycles) {
    ((CPU { r: (Registers { pc: w16(c.r.pc + 2), ..c.r }), ..c }), m.wb(m.rw(c.r.pc), c.r.a), 4)
}

pub open spec fn spec_op_xor_d8(c: CPU, m: MmuView) -> (CPU, MmuView, Cycles) {
    ((CPU { r: (Registers { a: (c.r.a ^ m.rb(c.r.pc)), zf: ((c.r.a ^ m.rb(c.r.pc)) == 0), nf: false, hf: false, cf: false, pc: w16(c.r.pc + 1), ..c.r }), ..c }), m, 2)
}

pub open spec fn spec_op_rst_28(c: CPU, m: MmuView) -> (CPU, MmuView, Cycles) {
    ((CPU { r: (Registers { pc: 0x0028, sp: w16(c.r.sp - 2), ..c.r }), ..c }), m.ww(w16(c.r.sp - 2), c.r.pc), 4)
}

pub open spec fn spec_op_ldh_a_a8(c: CPU, m: MmuView) -> (CPU, MmuView, Cycles) {
    ((CPU { r: (Registers { a: m.rb((0xFF00 + m.rb(c.r.pc)) as u16), pc: w16(c.r.pc + 1), ..c.r }), ..c }), m, 3)
}

pub open spec fn spec_op_pop_af(c: CPU, m: MmuView) -> (CPU, MmuView, Cycles) {
    ((CPU { r: (Registers { sp: w16(c.r.sp + 2), ..c.r.spec_with_af(m.rw(c.r.sp)) }), ..c }), m, 3)
}

pub open spec fn spec_op_ld_a_ff00_c(c: CPU, m: MmuView) -> (CPU, MmuView, Cycles) {
    ((CPU { r: (Registers { a: m.rb((0xFF00 + c.r.c) as u16), ..c.r }), ..c }), m, 2)
}

pub open spec fn spec_op_di(c: CPU, m: MmuView) -> (CPU, MmuView, Cycles) {
    ((CPU { ime: false, ime_delay: 0, ..c }), m, 1)
}

pub open spec fn spec_op_push_af(c: CPU, m: MmuView) -> (CPU, MmuView, Cycles) {
    ((CPU { r: (Registers { sp: w16(c.r.sp - 2), ..c.r }), ..c }), m.ww(w16(c.r.sp - 2), c.r.spec_af()), 4)
}

pub open spec fn spec_op_or_d8(c: CPU, m: MmuView) -> (CPU, MmuView, Cycles) {
    ((CPU { r: (Registers { a: (c.r.a | m.rb(c.r.pc)), zf: ((c.r.a | m.rb(c.r.pc)) == 0), nf: false, hf: false, cf: false, pc: w16(c.r.pc + 1), ..c.r }), ..c }), m, 2)
}

pub open spec fn spec_op_rst_30(c: CPU, m: MmuView) -> (CPU, MmuView, Cycles) {
    ((CPU { r: (Registers { pc: 0x0030, sp: w16(c.r.sp - 2), ..c.r }), ..c }), m.ww(w16(c.r.sp - 2), c.r.pc), 4)
}

pub open spec fn spec_op_ld_hl_sp_r8(c: CPU, m: MmuView) -> (CPU, MmuView, Cycles) {
    ((CPU { r: (Registers { zf: false, nf: false, hf: spec_addsp_h(c.r.sp, m.rb(c.r.pc)), cf: spec_addsp_c(c.r.sp, m.rb(c.r.pc)), pc: w16(c.r.pc + 1), ..c.r.spec_with_hl(w16(c.r.sp + spec_sign_ext(m.rb(c.r.pc)))) }), ..c }), m, 3)
}

pub open spec fn spec_op_ld_sp_hl(c: CPU, m: MmuView) -> (CPU, MmuView, Cycles) {
    ((CPU { r: (Registers { sp: c.r.spec_hl(), ..c.r }), ..c }), m, 2)
}

pub open spec fn spec_op_ld_a_a16(c: CPU, m: MmuView) -> (CPU, MmuView, Cycles) {
    ((CPU { r: (Registers { a: m.rb(m.rw(c.r.pc)), pc: w16(c.r.pc + 2), ..c.r }), ..c }), m, 4)
}

pub open spec fn spec_op_ei(c: CPU, m: MmuView) -> (CPU, MmuView, Cycles) {
    ((CPU { ime_delay: 2, ..c }), m, 1)
}

pub open spec fn spec_op_cp_d8(c: CPU, m: MmuView) -> (CPU, MmuView, Cycles) {
    ((CPU { r: (Registers { zf: (spec_sub8(c.r.a, m.rb(c.r.pc), false) == 0), nf: true, hf: spec_sub8_h(c.r.a, m.rb(c.r.pc), false), cf: spec_sub8_c(c.r.a, m.rb(c.r.pc), false), pc: w16(c.r.pc + 1), ..c.r }), ..c }), m, 2)
}

pub open spec fn spec_op_rst_38(c: CPU, m: MmuView) -> (CPU, MmuView, Cycles) {
    ((CPU { r: (Registers { pc: 0x0038, sp: w16(c.r.sp - 2), ..c.r }), ..c }), m.ww(w16(c.r.sp - 2), c.r.pc), 4)
}

pub open spec fn spec_cb_rlc_b(c: CPU, m: MmuView) -> (CPU, MmuView, Cycles) {
    ((CPU { r: (Registers { b: spec_rlc_res(c.r.b), zf: (spec_rlc_res(c.r.b) == 0), nf: false, hf: false, cf: (c.r.b >= 0x80), ..c.r }), ..c }), m, 2)
}

pub open spec fn spec_cb_rlc_c(c: CPU, m: MmuView) -> (CPU, MmuView, Cycles) {
    ((CPU { r: (Registers { c: spec_rlc_res(c.r.c), zf: (spec_rlc_res(c.r.c) == 0), nf: false, hf: false, cf: (c.r.c >= 0x80), ..c.r }), ..c }), m, 2)
}

pub open spec fn spec_cb_rlc_d(c: CPU, m: MmuView) -> (CPU, MmuView, Cycles) {
    ((CPU { r: (Registers { d: spec_rlc_res(c.r.d), zf: (spec_rlc_res(c.r.d) == 0), nf: false, hf: false, cf: (c.r.d >= 0x80), ..c.r }), ..c }), m, 2)
}

pub open spec fn spec_cb_rlc_e(c: CPU, m: MmuView) -> (CPU, MmuView, Cycles) {
    ((CPU { r: (Registers { e: spec_rlc_res(c.r.e), zf: (spec_rlc_res(c.r.e) == 0), nf: false, hf: false, cf: (c.r.e >= 0x80), ..c.r }), ..c }), m, 2)
}

pub open spec fn spec_cb_rlc_h(c: CPU, m: MmuView) -> (CPU, MmuView, Cycles) {
    ((CPU { r: (Registers { h: spec_rlc_res(c.r.h), zf: (spec_rlc_res(c.r.h) == 0), nf: false, hf: false, cf: (c.r.h >= 0x80), ..c.r }), ..c }), m, 2)
}

pub open spec fn spec_cb_rlc_l(c: CPU, m: MmuView) -> (CPU, MmuView, Cycles) {
    ((CPU { r: (Registers { l: spec_rlc_res(c.r.l), zf: (spec_rlc_res(c.r.l) == 0), nf: false, hf: false, cf: (c.r.l >= 0x80), ..c.r }), ..c }), m, 2)
}

pub open spec fn spec_cb_rlc_hl(c: CPU, m: MmuView) -> (CPU, MmuView, Cycles) {
    ((CPU { r: (Registers { zf: (spec_rlc_res(m.rb(c.r.spec_hl())) == 0), nf: false, hf: false, cf: (m.rb(c.r.spec_hl()) >= 0x80), ..c.r }), ..c }), m.wb(c.r.spec_hl(), spec_rlc_res(m.rb(c.r.spec_hl()))), 4)
}

pub open spec fn spec_cb_rlc_a(c: CPU, m: MmuView) -> (CPU, MmuView, Cycles) {
    ((CPU { r: (Registers { a: spec_rlc_res(c.r.a), zf: (spec_rlc_res(c.r.a) == 0), nf: false, hf: false, cf: (c.r.a >= 0x80), ..c.r }), ..c }), m, 2)
}

pub open spec fn spec_cb_rrc_b(c: CPU, m: MmuView) -> (CPU, MmuView, Cycles) {
    ((CPU { r: (Registers { b: spec_rrc_res(c.r.b), zf: (spec_rrc_res(c.r.b) == 0), nf: false, hf: false, cf: (c.r.b % 2 == 1), ..c.r }), ..c }), m, 2)
}

pub open spec fn spec_cb_rrc_c(c: CPU, m: MmuView) -> (CPU, MmuView, Cycles) {
    ((CPU { r: (Registers { c: spec_rrc_res(c.r.c), zf: (spec_rrc_res(c.r.c) == 0), nf: false, hf: false, cf: (c.r.c % 2 == 1), ..c.r }), ..c }), m, 2)
}

pub open spec fn spec_cb_rrc_d(c: CPU, m: MmuView) -> (CPU, MmuView, Cycles) {
    ((CPU { r: (Registers { d: spec_rrc_res(c.r.d), zf: (spec_rrc_res(c.r.d) == 0), nf: false, hf: false, cf: (c.r.d % 2 == 1), ..c.r }), ..c }), m, 2)
}

pub open spec fn spec_cb_rrc_e(c: CPU, m: MmuView) -> (CPU, MmuView, Cycles) {
    ((CPU { r: (Registers { e: spec_rrc_res(c.r.e), zf: (spec_rrc_res(c.r.e) == 0), nf: false, hf: false, cf: (c.r.e % 2 == 1), ..c.r }), ..c }), m, 2)
}

pub open spec fn spec_cb_rrc_h(c: CPU, m: MmuView) -> (CPU, MmuView, Cycles) {
    ((CPU { r: (Registers { h: spec_rrc_res(c.r.h), zf: (spec_rrc_res(c.r.h) == 0), nf: false, hf: false, cf: (c.r.h % 2 == 1), ..c.r }), ..c }), m, 2)
}

pub open spec fn spec_cb_rrc_l(c: CPU, m: MmuView) -> (CPU, MmuView, Cycles) {
    ((CPU { r: (Registers { l: spec_rrc_res(c.r.l), zf: (spec_rrc_res(c.r.l) == 0), nf: false, hf: false, cf: (c.r.l % 2 == 1), ..c.r }), ..c }), m, 2)
}

pub open spec fn spec_cb_rrc_hl(c: CPU, m: MmuView) -> (CPU, MmuView, Cycles) {
    ((CPU { r: (Registers { zf: (spec_rrc_res(m.rb(c.r.spec_hl())) == 0), nf: false, hf: false, cf: (m.rb(c.r.spec_hl()) % 2 == 1), ..c.r }), ..c }), m.wb(c.r.spec_hl(), spec_rrc_res(m.rb(c.r.spec_hl()))), 4)
}

pub open spec fn spec_cb_rrc_a(c: CPU, m: MmuView) -> (CPU, MmuView, Cycles) {
    ((CPU { r: (Registers { a: spec_rrc_res(c.r.a), zf: (spec_rrc_res(c.r.a) == 0), nf: false, hf: false, cf: (c.r.a % 2 == 1), ..c.r }), ..c }), m, 2)
}

pub open spec fn spec_cb_rl_b(c: CPU, m: MmuView) -> (CPU, MmuView, Cycles) {
    ((CPU { r: (Registers { b: spec_rl_res(c.r.b, c.r.cf), zf: (spec_rl_res(c.r.b, c.r.cf) == 0), nf: false, hf: false, cf: (c.r.b >= 0x80), ..c.r }), ..c }), m, 2)
}

pub open spec fn spec_cb_rl_c(c: CPU, m: MmuView) -> (CPU, MmuView, Cycles) {
    ((CPU { r: (Registers { c: spec_rl_res(c.r.c, c.r.cf), zf: (spec_rl_res(c.r.c, c.r.cf) == 0), nf: false, hf: false, cf: (c.r.c >= 0x80), ..c.r }), ..c }), m, 2)
}

pub open spec fn spec_cb_rl_d(c: CPU, m: MmuView) -> (CPU, MmuView, Cycles) {
    ((CPU { r: (Registers { d: spec_rl_res(c.r.d, c.r.cf), zf: (spec_rl_res(c.r.d, c.r.cf) == 0), nf: false, hf: false, cf: (c.r.d >= 0x80), ..c.r }), ..c }), m, 2)
}

pub open spec fn spec_cb_rl_e(c: CPU, m: MmuView) -> (CPU, MmuView, Cycles) {
    ((CPU { r: (Registers { e: spec_rl_res(c.r.e, c.r.cf), zf: (spec_rl_res(c.r.e, c.r.cf) == 0), nf: false, hf: false, cf: (c.r.e >= 0x80), ..c.r }), ..c }), m, 2)
}

pub open spec fn spec_cb_rl_h(c: CPU, m: MmuView) -> (CPU, MmuView, Cycles) {
    ((CPU { r: (Registers { h: spec_rl_res(c.r.h, c.r.cf), zf: (spec_rl_res(c.r.h, c.r.cf) == 0), nf: false, hf: false, cf: (c.r.h >= 0x80), ..c.r }), ..c }), m, 2)
}

pub open spec fn spec_cb_rl_l(c: CPU, m: MmuView) -> (CPU, MmuView, Cycles) {
    ((CPU { r: (Registers { l: spec_rl_res(c.r.l, c.r.cf), zf: (spec_rl_res(c.r.l, c.r.cf) == 0), nf: false, hf: false, cf: (c.r.l >= 0x80), ..c.r }), ..c }), m, 2)
}

pub open spec fn spec_cb_rl_hl(c: CPU, m: MmuView) -> (CPU, MmuView, Cycles) {
    ((CPU { r: (Registers { zf: (spec_rl_res(m.rb(c.r.spec_hl()), c.r.cf) == 0), nf: false, hf: false, cf: (m.rb(c.r.spec_hl()) >= 0x80), ..c.r }), ..c }), m.wb(c.r.spec_hl(), spec_rl_res(m.rb(c.r.spec_hl()), c.r.cf)), 4)
}

pub open spec fn spec_cb_rl_a(c: CPU, m: MmuView) -> (CPU, MmuView, Cycles) {
    ((CPU { r: (Registers { a: spec_rl_res(c.r.a, c.r.cf), zf: (spec_rl_res(c.r.a, c.r.cf) == 0), nf: false, hf: false, cf: (c.r.a >= 0x80), ..c.r }), ..c }), m, 2)
}

pub open spec fn spec_cb_rr_b(c: CPU, m: MmuView) -> (CPU, MmuView, Cycles) {
    ((CPU { r: (Registers { b: spec_rr_res(c.r.b, c.r.cf), zf: (spec_rr_res(c.r.b, c.r.cf) == 0), nf: false, hf: false, cf: (c.r.b % 2 == 1), ..c.r }), ..c }), m, 2)
}

pub open spec fn spec_cb_rr_c(c: CPU, m: MmuView) -> (CPU, MmuView, Cycles) {
    ((CPU { r: (Registers { c: spec_rr_res(c.r.c, c.r.cf), zf: (spec_rr_res(c.r.c, c.r.cf) == 0), nf: false, hf: false, cf: (c.r.c % 2 == 1), ..c.r }), ..c }), m, 2)
}

pub open spec fn spec_cb_rr_d(c: CPU, m: MmuView) -> (CPU, MmuView, Cycles) {
    ((CPU { r: (Registers { d: spec_rr_res(c.r.d, c.r.cf), zf: (spec_rr_res(c.r.d, c.r.cf) == 0), nf: false, hf: false, cf: (c.r.d % 2 == 1), ..c.r }), ..c }), m, 2)
}

pub open spec fn spec_cb_rr_e(c: CPU, m: MmuView) -> (CPU, MmuView, Cycles) {
    ((CPU { r: (Registers { e: spec_rr_res(c.r.e, c.r.cf), zf: (spec_rr_res(c.r.e, c.r.cf) == 0), nf: false, hf: false, cf: (c.r.e % 2 == 1), ..c.r }), ..c }), m, 2)
}

pub open spec fn spec_cb_rr_h(c: CPU, m: MmuView) -> (CPU, MmuView, Cycles) {
    ((CPU { r: (Registers { h: spec_rr_res(c.r.h, c.r.cf), zf: (spec_rr_res(c.r.h, c.r.cf) == 0), nf: false, hf: false, cf: (c.r.h % 2 == 1), ..c.r }), ..c }), m, 2)
}

pub open spec fn spec_cb_rr_l(c: CPU, m: MmuView) -> (CPU, MmuView, Cycles) {
    ((CPU { r: (Registers { l: spec_rr_res(c.r.l, c.r.cf), zf: (spec_rr_res(c.r.l, c.r.cf) == 0), nf: false, hf: false, cf: (c.r.l % 2 == 1), ..c.r }), ..c }), m, 2)
}

pub open spec fn spec_cb_rr_hl(c: CPU, m: MmuView) -> (CPU, MmuView, Cycles) {
    ((CPU { r: (Registers { zf: (spec_rr_res(m.rb(c.r.spec_hl()), c.r.cf) == 0), nf: false, hf: false, cf: (m.rb(c.r.spec_hl()) % 2 == 1), ..c.r }), ..c }), m.wb(c.r.spec_hl(), spec_rr_res(m.rb(c.r.spec_hl()), c.r.cf)), 4)
}

pub open spec fn spec_cb_rr_a(c: CPU, m: MmuView) -> (CPU, MmuView, Cycles) {
    ((CPU { r: (Registers { a: spec_rr_res(c.r.a, c.r.cf), zf: (spec_rr_res(c.r.a, c.r.cf) == 0), nf: false, hf: false, cf: (c.r.a % 2 == 1), ..c.r }), ..c }), m, 2)
}

pub open spec fn spec_cb_sla_b(c: CPU, m: MmuView) -> (CPU, MmuView, Cycles) {
    ((CPU { r: (Registers { b: spec_sla_res(c.r.b), zf: (spec_sla_res(c.r.b) == 0), nf: false, hf: false, cf: (c.r.b >= 0x80), ..c.r }), ..c }), m, 2)
}

pub open spec fn spec_cb_sla_c(c: CPU, m: MmuView) -> (CPU, MmuView, Cycles) {
    ((CPU { r: (Registers { c: spec_sla_res(c.r.c), zf: (spec_sla_res(c.r.c) == 0), nf: false, hf: false, cf: (c.r.c >= 0x80), ..c.r }), ..c }), m, 2)
}

pub open spec fn spec_cb_sla_d(c: CPU, m: MmuView) -> (CPU, MmuView, Cycles) {
    ((CPU { r: (Registers { d: spec_sla_res(c.r.d), zf: (spec_sla_res(c.r.d) == 0), nf: false, hf: false, cf: (c.r.d >= 0x80), ..c.r }), ..c }), m, 2)
}

pub open spec fn spec_cb_sla_e(c: CPU, m: MmuView) -> (CPU, MmuView, Cycles) {
    ((CPU { r: (Registers { e: spec_sla_res(c.r.e), zf: (spec_sla_res(c.r.e) == 0), nf: false, hf: false, cf: (c.r.e >= 0x80), ..c.r }), ..c }), m, 2)
}

pub open spec fn spec_cb_sla_h(c: CPU, m: MmuView) -> (CPU, MmuView, Cycles) {
    ((CPU { r: (Registers { h: spec_sla_res(c.r.h), zf: (spec_sla_res(c.r.h) == 0), nf: false, hf: false, cf: (c.r.h >= 0x80), ..c.r }), ..c }), m, 2)
}

pub open spec fn spec_cb_sla_l(c: CPU, m: MmuView) -> (CPU, MmuView, Cycles) {
    ((CPU { r: (Registers { l: spec_sla_res(c.r.l), zf: (spec_sla_res(c.r.l) == 0), nf: false, hf: false, cf: (c.r.l >= 0x80), ..c.r }), ..c }), m, 2)
}

pub open spec fn spec_cb_sla_hl(c: CPU, m: MmuView) -> (CPU, MmuView, Cycles) {
    ((CPU { r: (Registers { zf: (spec_sla_res(m.rb(c.r.spec_hl())) == 0), nf: false, hf: false, cf: (m.rb(c.r.spec_hl()) >= 0x80), ..c.r }), ..c }), m.wb(c.r.spec_hl(), spec_sla_res(m.rb(c.r.spec_hl()))), 4)
}

pub open spec fn spec_cb_sla_a(c: CPU, m: MmuView) -> (CPU, MmuView, Cycles) {
    ((CPU { r: (Registers { a: spec_sla_res(c.r.a), zf: (spec_sla_res(c.r.a) == 0), nf: false, hf: false, cf: (c.r.a >= 0x80), ..c.r }), ..c }), m, 2)
}

pub open spec fn spec_cb_sra_b(c: CPU, m: MmuView) -> (CPU, MmuView, Cycles) {
    ((CPU { r: (Registers { b: spec_sra_res(c.r.b), zf: (spec_sra_res(c.r.b) == 0), nf: false, hf: false, cf: (c.r.b % 2 == 1), ..c.r }), ..c }), m, 2)
}

pub open spec fn spec_cb_sra_c(c: CPU, m: MmuView) -> (CPU, MmuView, Cycles) {
    ((CPU { r: (Registers { c: spec_sra_res(c.r.c), zf: (spec_sra_res(c.r.c) == 0), nf: false, hf: false, cf: (c.r.c % 2 == 1), ..c.r }), ..c }), m, 2)
}

pub open spec fn spec_cb_sra_d(c: CPU, m: MmuView) -> (CPU, MmuView, Cycles) {
    ((CPU { r: (Registers { d: spec_sra_res(c.r.d), zf: (spec_sra_res(c.r.d) == 0), nf: false, hf: false, cf: (c.r.d % 2 == 1), ..c.r }), ..c }), m, 2)
}

pub open spec fn spec_cb_sra_e(c: CPU, m: MmuView) -> (CPU, MmuView, Cycles) {
    ((CPU { r: (Registers { e: spec_sra_res(c.r.e), zf: (spec_sra_res(c.r.e) == 0), nf: false, hf: false, cf: (c.r.e % 2 == 1), ..c.r }), ..c }), m, 2)
}

pub open spec fn spec_cb_sra_h(c: CPU, m: MmuView) -> (CPU, MmuView, Cycles) {
    ((CPU { r: (Registers { h: spec_sra_res(c.r.h), zf: (spec_sra_res(c.r.h) == 0), nf: false, hf: false, cf: (c.r.h % 2 == 1), ..c.r }), ..c }), m, 2)
}

pub open spec fn spec_cb_sra_l(c: CPU, m: MmuView) -> (CPU, MmuView, Cycles) {
    ((CPU { r: (Registers { l: spec_sra_res(c.r.l), zf: (spec_sra_res(c.r.l) == 0), nf: false, hf: false, cf: (c.r.l % 2 == 1), ..c.r }), ..c }), m, 2)
}

pub open spec fn spec_cb_sra_hl(c: CPU, m: MmuView) -> (CPU, MmuView, Cycles) {
    ((CPU { r: (Registers { zf: (spec_sra_res(m.rb(c.r.spec_hl())) == 0), nf: false, hf: false, cf: (m.rb(c.r.spec_hl()) % 2 == 1), ..c.r }), ..c }), m.wb(c.r.spec_hl(), spec_sra_res(m.rb(c.r.spec_hl()))), 4)
}

pub open spec fn spec_cb_sra_a(c: CPU, m: MmuView) -> (CPU, MmuView, Cycles) {
    ((CPU { r: (Registers { a: spec_sra_res(c.r.a), zf: (spec_sra_res(c.r.a) == 0), nf: false, hf: false, cf: (c.r.a % 2 == 1), ..c.r }), ..c }), m, 2)
}

pub open spec fn spec_cb_swap_b(c: CPU, m: MmuView) -> (CPU, MmuView, Cycles) {
    ((CPU { r: (Registers { b: spec_swap_res(c.r.b), zf: (spec_swap_res(c.r.b) == 0), nf: false, hf: false, cf: false, ..c.r }), ..c }), m, 2)
}

pub open spec fn spec_cb_swap_c(c: CPU, m: MmuView) -> (CPU, MmuView, Cycles) {
    ((CPU { r: (Registers { c: spec_swap_res(c.r.c), zf: (spec_swap_res(c.r.c) == 0), nf: false, hf: false, cf: false, ..c.r }), ..c }), m, 2)
}

pub open spec fn spec_cb_swap_d(c: CPU, m: MmuView) -> (CPU, MmuView, Cycles) {
    ((CPU { r: (Registers { d: spec_swap_res(c.r.d), zf: (spec_swap_res(c.r.d) == 0), nf: false, hf: false, cf: false, ..c.r }), ..c }), m, 2)
}

pub open spec fn spec_cb_swap_e(c: CPU, m: MmuView) -> (CPU, MmuView, Cycles) {
    ((CPU { r: (Registers { e: spec_swap_res(c.r.e), zf: (spec_swap_res(c.r.e) == 0), nf: false, hf: false, cf: false, ..c.r }), ..c }), m, 2)
}

pub open spec fn spec_cb_swap_h(c: CPU, m: MmuView) -> (CPU, MmuView, Cycles) {
    ((CPU { r: (Registers { h: spec_swap_res(c.r.h), zf: (spec_swap_res(c.r.h) == 0), nf: false, hf: false, cf: false, ..c.r }), ..c }), m, 2)
}

pub open spec fn spec_cb_swap_l(c: CPU, m: MmuView) -> (CPU, MmuView, Cycles) {
    ((CPU { r: (Registers { l: spec_swap_res(c.r.l), zf: (spec_swap_res(c.r.l) == 0), nf: false, hf: false, cf: false, ..c.r }), ..c }), m, 2)
}

pub open spec fn spec_cb_swap_hl(c: CPU, m: MmuView) -> (CPU, MmuView, Cycles) {
    ((CPU { r: (Registers { zf: (spec_swap_res(m.rb(c.r.spec_hl())) == 0), nf: false, hf: false, cf: false, ..c.r }), ..c }), m.wb(c.r.spec_hl(), spec_swap_res(m.rb(c.r.spec_hl()))), 4)
}

pub open spec fn spec_cb_swap_a(c: CPU, m: MmuView) -> (CPU, MmuView, Cycles) {
    ((CPU { r: (Registers { a: spec_swap_res(c.r.a), zf: (spec_swap_res(c.r.a) == 0), nf: false, hf: false, cf: false, ..c.r }), ..c }), m, 2)
}

pub open spec fn spec_cb_srl_b(c: CPU, m: MmuView) -> (CPU, MmuView, Cycles) {
    ((CPU { r: (Registers { b: spec_srl_res(c.r.b), zf: (spec_srl_res(c.r.b) == 0), nf: false, hf: false, cf: (c.r.b % 2 == 1), ..c.r }), ..c }), m, 2)
}

pub open spec fn spec_cb_srl_c(c: CPU, m: MmuView) -> (CPU, MmuView, Cycles) {
    ((CPU { r: (Registers { c: spec_srl_res(c.r.c), zf: (spec_srl_res(c.r.c) == 0), nf: false, hf: false, cf: (c.r.c % 2 == 1), ..c.r }), ..c }), m, 2)
}

pub open spec fn spec_cb_srl_d(c: CPU, m: MmuView) -> (CPU, MmuView, Cycles) {
    ((CPU { r: (Registers { d: spec_srl_res(c.r.d), zf: (spec_srl_res(c.r.d) == 0), nf: false, hf: false, cf: (c.r.d % 2 == 1), ..c.r }), ..c }), m, 2)
}

pub open spec fn spec_cb_srl_e(c: CPU, m: MmuView) -> (CPU, MmuView, Cycles) {
    ((CPU { r: (Registers { e: spec_srl_res(c.r.e), zf: (spec_srl_res(c.r.e) == 0), nf: false, hf: false, cf: (c.r.e % 2 == 1), ..c.r }), ..c }), m, 2)
}

pub open spec fn spec_cb_srl_h(c: CPU, m: MmuView) -> (CPU, MmuView, Cycles) {
    ((CPU { r: (Registers { h: spec_srl_res(c.r.h), zf: (spec_srl_res(c.r.h) == 0), nf: false, hf: false, cf: (c.r.h % 2 == 1), ..c.r }), ..c }), m, 2)
}

pub open spec fn spec_cb_srl_l(c: CPU, m: MmuView) -> (CPU, MmuView, Cycles) {
    ((CPU { r: (Registers { l: spec_srl_res(c.r.l), zf: (spec_srl_res(c.r.l) == 0), nf: false, hf: false, cf: (c.r.l % 2 == 1), ..c.r }), ..c }), m, 2)
}

pub open spec fn spec_cb_srl_hl(c: CPU, m: MmuView) -> (CPU, MmuView, Cycles) {
    ((CPU { r: (Registers { zf: (spec_srl_res(m.rb(c.r.spec_hl())) == 0), nf: false, hf: false, cf: (m.rb(c.r.spec_hl()) % 2 == 1), ..c.r }), ..c }), m.wb(c.r.spec_hl(), spec_srl_res(m.rb(c.r.spec_hl()))), 4)
}

pub open spec fn spec_cb_srl_a(c: CPU, m: MmuView) -> (CPU, MmuView, Cycles) {
    ((CPU { r: (Registers { a: spec_srl_res(c.r.a), zf: (spec_srl_res(c.r.a) == 0), nf: false, hf: false, cf: (c.r.a % 2 == 1), ..c.r }), ..c }), m, 2)
}

pub open spec fn spec_cb_bit_0_b(c: CPU, m: MmuView) -> (CPU, MmuView, Cycles) {
    ((CPU { r: (Registers { zf: spec_bit_z(0, c.r.b), nf: false, hf: true, ..c.r }), ..c }), m, 2)
}

pub open spec fn spec_cb_bit_0_c(c: CPU, m: MmuView) -> (CPU, MmuView, Cycles) {
    ((CPU { r: (Registers { zf: spec_bit_z(0, c.r.c), nf: false, hf: true, ..c.r }), ..c }), m, 2)
}

pub open spec fn spec_cb_bit_0_d(c: CPU, m: MmuView) -> (CPU, MmuView, Cycles) {
    ((CPU { r: (Registers { zf: spec_bit_z(0, c.r.d), nf: false, hf: true, ..c.r }), ..c }), m, 2)
}

pub open spec fn spec_cb_bit_0_e(c: CPU, m: MmuView) -> (CPU, MmuView, Cycles) {
    ((CPU { r: (Registers { zf: spec_bit_z(0, c.r.e), nf: false, hf: true, ..c.r }), ..c }), m, 2)
}

pub open spec fn spec_cb_bit_0_h(c: CPU, m: MmuView) -> (CPU, MmuView, Cycles) {
    ((CPU { r: (Registers { zf: spec_bit_z(0, c.r.h), nf: false, hf: true, ..c.r }), ..c }), m, 2)
}

pub open spec fn spec_cb_bit_0_l(c: CPU, m: MmuView) -> (CPU, MmuView, Cycles) {
    ((CPU { r: (Registers { zf: spec_bit_z(0, c.r.l), nf: false, hf: true, ..c.r }), ..c }), m, 2)
}

pub open spec fn spec_cb_bit_0_hl(c: CPU, m: MmuView) -> (CPU, MmuView, Cycles) {
    ((CPU { r: (Registers { zf: spec_bit_z(0, m.rb(c.r.spec_hl())), nf: false, hf: true, ..c.r }), ..c }), m, 3)
}

pub open spec fn spec_cb_bit_0_a(c: CPU, m: MmuView) -> (CPU, MmuView, Cycles) {
    ((CPU { r: (Registers { zf: spec_bit_z(0, c.r.a), nf: false, hf: true, ..c.r }), ..c }), m, 2)
}

pub open spec fn spec_cb_bit_1_b(c: CPU, m: MmuView) -> (CPU, MmuView, Cycles) {
    ((CPU { r: (Registers { zf: spec_bit_z(1, c.r.b), nf: false, hf: true, ..c.r }), ..c }), m, 2)
}

pub open spec fn spec_cb_bit_1_c(c: CPU, m: MmuView) -> (CPU, MmuView, Cycles) {
    ((CPU { r: (Registers { zf: spec_bit_z(1, c.r.c), nf: false, hf: true, ..c.r }), ..c }), m, 2)
}

pub open spec fn spec_cb_bit_1_d(c: CPU, m: MmuView) -> (CPU, MmuView, Cycles) {
    ((CPU { r: (Registers { zf: spec_bit_z(1, c.r.d), nf: false, hf: true, ..c.r }), ..c }), m, 2)
}

pub open spec fn spec_cb_bit_1_e(c: CPU, m: MmuView) -> (CPU, MmuView, Cycles) {
    ((CPU { r: (Registers { zf: spec_bit_z(1, c.r.e), nf: false, hf: true, ..c.r }), ..c }), m, 2)
}

pub open spec fn spec_cb_bit_1_h(c: CPU, m: MmuView) -> (CPU, MmuView, Cycles) {
    ((CPU { r: (Registers { zf: spec_bit_z(1, c.r.h), nf: false, hf: true, ..c.r }), ..c }), m, 2)
}

pub open spec fn spec_cb_bit_1_l(c: CPU, m: MmuView) -> (CPU, MmuView, Cycles) {
    ((CPU { r: (Registers { zf: spec_bit_z(1, c.r.l), nf: false, hf: true, ..c.r }), ..c }), m, 2)
}

pub open spec fn spec_cb_bit_1_hl(c: CPU, m: MmuView) -> (CPU, MmuView, Cycles) {
    ((CPU { r: (Registers { zf: spec_bit_z(1, m.rb(c.r.spec_hl())), nf: false, hf: true, ..c.r }), ..c }), m, 3)
}

pub open spec fn spec_cb_bit_1_a(c: CPU, m: MmuView) -> (CPU, MmuView, Cycles) {
    ((CPU { r: (Registers { zf: spec_bit_z(1, c.r.a), nf: false, hf: true, ..c.r }), ..c }), m, 2)
}

pub open spec fn spec_cb_bit_2_b(c: CPU, m: MmuView) -> (CPU, MmuView, Cycles) {
    ((CPU { r: (Registers { zf: spec_bit_z(2, c.r.b), nf: false, hf: true, ..c.r }), ..c }), m, 2)
}

pub open spec fn spec_cb_bit_2_c(c: CPU, m: MmuView) -> (CPU, MmuView, Cycles) {
    ((CPU { r: (Registers { zf: spec_bit_z(2, c.r.c), nf: false, hf: true, ..c.r }), ..c }), m, 2)
}

pub open spec fn spec_cb_bit_2_d(c: CPU, m: MmuView) -> (CPU, MmuView, Cycles) {
    ((CPU { r: (Registers { zf: spec_bit_z(2, c.r.d), nf: false, hf: true, ..c.r }), ..c }), m, 2)
}

pub open spec fn spec_cb_bit_2_e(c: CPU, m: MmuView) -> (CPU, MmuView, Cycles) {
    ((CPU { r: (Registers { zf: spec_bit_z(2, c.r.e), nf: false, hf: true, ..c.r }), ..c }), m, 2)
}

pub open spec fn spec_cb_bit_2_h(c: CPU, m: MmuView) -> (CPU, MmuView, Cycles) {
    ((CPU { r: (Registers { zf: spec_bit_z(2, c.r.h), nf: false, hf: true, ..c.r }), ..c }), m, 2)
}

pub open spec fn spec_cb_bit_2_l(c: CPU, m: MmuView) -> (CPU, MmuView, Cycles) {
    ((CPU { r: (Registers { zf: spec_bit_z(2, c.r.l), nf: false, hf: true, ..c.r }), ..c }), m, 2)
}

pub open spec fn spec_cb_bit_2_hl(c: CPU, m: MmuView) -> (CPU, MmuView, Cycles) {
    ((CPU { r: (Registers { zf: spec_bit_z(2, m.rb(c.r.spec_hl())), nf: false, hf: true, ..c.r }), ..c }), m, 3)
}

pub open spec fn spec_cb_bit_2_a(c: CPU, m: MmuView) -> (CPU, MmuView, Cycles) {
    ((CPU { r: (Registers { zf: spec_bit_z(2, c.r.a), nf: false, hf: true, ..c.r }), ..c }), m, 2)
}

pub open spec fn spec_cb_bit_3_b(c: CPU, m: MmuView) -> (CPU, MmuView, Cycles) {
    ((CPU { r: (Registers { zf: spec_bit_z(3, c.r.b), nf: false, hf: true, ..c.r }), ..c }), m, 2)
}

pub open spec fn spec_cb_bit_3_c(c: CPU, m: MmuView) -> (CPU, MmuView, Cycles) {
    ((CPU { r: (Registers { zf: spec_bit_z(3, c.r.c), nf: false, hf: true, ..c.r }), ..c }), m, 2)
}

pub open spec fn spec_cb_bit_3_d(c: CPU, m: MmuView) -> (CPU, MmuView, Cycles) {
    ((CPU { r: (Registers { zf: spec_bit_z(3, c.r.d), nf: false, hf: true, ..c.r }), ..c }), m, 2)
}

pub open spec fn spec_cb_bit_3_e(c: CPU, m: MmuView) -> (CPU, MmuView, Cycles) {
    ((CPU { r: (Registers { zf: spec_bit_z(3, c.r.e), nf: false, hf: true, ..c.r }), ..c }), m, 2)
}

pub open spec fn spec_cb_bit_3_h(c: CPU, m: MmuView) -> (CPU, MmuView, Cycles) {
    ((CPU { r: (Registers { zf: spec_bit_z(3, c.r.h), nf: false, hf: true, ..c.r }), ..c }), m, 2)
}

pub open spec fn spec_cb_bit_3_l(c: CPU, m: MmuView) -> (CPU, MmuView, Cycles) {
    ((CPU { r: (Registers { zf: spec_bit_z(3, c.r.l), nf: false, hf: true, ..c.r }), ..c }), m, 2)
}

pub open spec fn spec_cb_bit_3_hl(c: CPU, m: MmuView) -> (CPU, MmuView, Cycles) {
    ((CPU { r: (Registers { zf: spec_bit_z(3, m.rb(c.r.spec_hl())), nf: false, hf: true, ..c.r }), ..c }), m, 3)
}

pub open spec fn spec_cb_bit_3_a(c: CPU, m: MmuView) -> (CPU, MmuView, Cycles) {
    ((CPU { r: (Registers { zf: spec_bit_z(3, c.r.a), nf: false, hf: true, ..c.r }), ..c }), m, 2)
}

pub open spec fn spec_cb_bit_4_b(c: CPU, m: MmuView) -> (CPU, MmuView, Cycles) {
    ((CPU { r: (Registers { zf: spec_bit_z(4, c.r.b), nf: false, hf: true, ..c.r }), ..c }), m, 2)
}

pub open spec fn spec_cb_bit_4_c(c: CPU, m: MmuView) -> (CPU, MmuView, Cycles) {
    ((CPU { r: (Registers { zf: spec_bit_z(4, c.r.c), nf: false, hf: true, ..c.r }), ..c }), m, 2)
}

pub open spec fn spec_cb_bit_4_d(c: CPU, m: MmuView) -> (CPU, MmuView, Cycles) {
    ((CPU { r: (Registers { zf: spec_bit_z(4, c.r.d), nf: false, hf: true, ..c.r }), ..c }), m, 2)
}

pub open spec fn spec_cb_bit_4_e(c: CPU, m: MmuView) -> (CPU, MmuView, Cycles) {
    ((CPU { r: (Registers { zf: spec_bit_z(4, c.r.e), nf: false, hf: true, ..c.r }), ..c }), m, 2)
}

pub open spec fn spec_cb_bit_4_h(c: CPU, m: MmuView) -> (CPU, MmuView, Cycles) {
    ((CPU { r: (Registers { zf: spec_bit_z(4, c.r.h), nf: false, hf: true, ..c.r }), ..c }), m, 2)
}

pub open spec fn spec_cb_bit_4_l(c: CPU, m: MmuView) -> (CPU, MmuView, Cycles) {
    ((CPU { r: (Registers { zf: spec_bit_z(4, c.r.l), nf: false, hf: true, ..c.r }), ..c }), m, 2)
}

pub open spec fn spec_cb_bit_4_hl(c: CPU, m: MmuView) -> (CPU, MmuView, Cycles) {
    ((CPU { r: (Registers { zf: spec_bit_z(4, m.rb(c.r.spec_hl())), nf: false, hf: true, ..c.r }), ..c }), m, 3)
}

pub open spec fn spec_cb_bit_4_a(c: CPU, m: MmuView) -> (CPU, MmuView, Cycles) {
    ((CPU { r: (Registers { zf: spec_bit_z(4, c.r.a), nf: false, hf: true, ..c.r }), ..c }), m, 2)
}

pub open spec fn spec_cb_bit_5_b(c: CPU, m: MmuView) -> (CPU, MmuView, Cycles) {
    ((CPU { r: (Registers { zf: spec_bit_z(5, c.r.b), nf: false, hf: true, ..c.r }), ..c }), m, 2)
}

pub open spec fn spec_cb_bit_5_c(c: CPU, m: MmuView) -> (CPU, MmuView, Cycles) {
    ((CPU { r: (Registers { zf: spec_bit_z(5, c.r.c), nf: false, hf: true, ..c.r }), ..c }), m, 2)
}

pub open spec fn spec_cb_bit_5_d(c: CPU, m: MmuView) -> (CPU, MmuView, Cycles) {
    ((CPU { r: (Registers { zf: spec_bit_z(5, c.r.d), nf: false, hf: true, ..c.r }), ..c }), m, 2)
}

pub open spec fn spec_cb_bit_5_e(c: CPU, m: MmuView) -> (CPU, MmuView, Cycles) {
    ((CPU { r: (Registers { zf: spec_bit_z(5, c.r.e), nf: false, hf: true, ..c.r }), ..c }), m, 2)
}

pub open spec fn spec_cb_bit_5_h(c: CPU, m: MmuView) -> (CPU, MmuView, Cycles) {
    ((CPU { r: (Registers { zf: spec_bit_z(5, c.r.h), nf: false, hf: true, ..c.r }), ..c }), m, 2)
}

pub open spec fn spec_cb_bit_5_l(c: CPU, m: MmuView) -> (CPU, MmuView, Cycles) {
    ((CPU { r: (Registers { zf: spec_bit_z(5, c.r.l), nf: false, hf: true, ..c.r }), ..c }), m, 2)
}

pub open spec fn spec_cb_bit_5_hl(c: CPU, m: MmuView) -> (CPU, MmuView, Cycles) {
    ((CPU { r: (Registers { zf: spec_bit_z(5, m.rb(c.r.spec_hl())), nf: false, hf: true, ..c.r }), ..c }), m, 3)
}

pub open spec fn spec_cb_bit_5_a(c: CPU, m: MmuView) -> (CPU, MmuView, Cycles) {
    ((CPU { r: (Registers { zf: spec_bit_z(5, c.r.a), nf: false, hf: true, ..c.r }), ..c }), m, 2)
}

pub open spec fn spec_cb_bit_6_b(c: CPU, m: MmuView) -> (CPU, MmuView, Cycles) {
    ((CPU { r: (Registers { zf: spec_bit_z(6, c.r.b), nf: false, hf: true, ..c.r }), ..c }), m, 2)
}

pub open spec fn spec_cb_bit_6_c(c: CPU, m: MmuView) -> (CPU, MmuView, Cycles) {
    ((CPU { r: (Registers { zf: spec_bit_z(6, c.r.c), nf: false, hf: true, ..c.r }), ..c }), m, 2)
}

pub open spec fn spec_cb_bit_6_d(c: CPU, m: MmuView) -> (CPU, MmuView, Cycles) {
    ((CPU { r: (Registers { zf: spec_bit_z(6, c.r.d), nf: false, hf: true, ..c.r }), ..c }), m, 2)
}

pub open spec fn spec_cb_bit_6_e(c: CPU, m: MmuView) -> (CPU, MmuView, Cycles) {
    ((CPU { r: (Registers { zf: spec_bit_z(6, c.r.e), nf: false, hf: true, ..c.r }), ..c }), m, 2)
}

pub open spec fn spec_cb_bit_6_h(c: CPU, m: MmuView) -> (CPU, MmuView, Cycles) {
    ((CPU { r: (Registers { zf: spec_bit_z(6, c.r.h), nf: false, hf: true, ..c.r }), ..c }), m, 2)
}

pub open spec fn spec_cb_bit_6_l(c: CPU, m: MmuView) -> (CPU, MmuView, Cycles) {
    ((CPU { r: (Registers { zf: spec_bit_z(6, c.r.l), nf: false, hf: true, ..c.r }), ..c }), m, 2)
}

pub open spec fn spec_cb_bit_6_hl(c: CPU, m: MmuView) -> (CPU, MmuView, Cycles) {
    ((CPU { r: (Registers { zf: spec_bit_z(6, m.rb(c.r.spec_hl())), nf: false, hf: true, ..c.r }), ..c }), m, 3)
}

pub open spec fn spec_cb_bit_6_a(c: CPU, m: MmuView) -> (CPU, MmuView, Cycles) {
    ((CPU { r: (Registers { zf: spec_bit_z(6, c.r.a), nf: false, hf: true, ..c.r }), ..c }), m, 2)
}

pub open spec fn spec_cb_bit_7_b(c: CPU, m: MmuView) -> (CPU, MmuView, Cycles) {
    ((CPU { r: (Registers { zf: spec_bit_z(7, c.r.b), nf: false, hf: true, ..c.r }), ..c }), m, 2)
}

pub open spec fn spec_cb_bit_7_c(c: CPU, m: MmuView) -> (CPU, MmuView, Cycles) {
    ((CPU { r: (Registers { zf: spec_bit_z(7, c.r.c), nf: false, hf: true, ..c.r }), ..c }), m, 2)
}

pub open spec fn spec_cb_bit_7_d(c: CPU, m: MmuView) -> (CPU, MmuView, Cycles) {
    ((CPU { r: (Registers { zf: spec_bit_z(7, c.r.d), nf: false, hf: true, ..c.r }), ..c }), m, 2)
}

pub open spec fn spec_cb_bit_7_e(c: CPU, m: MmuView) -> (CPU, MmuView, Cycles) {
    ((CPU { r: (Registers { zf: spec_bit_z(7, c.r.e), nf: false, hf: true, ..c.r }), ..c }), m, 2)
}

pub open spec fn spec_cb_bit_7_h(c: CPU, m: MmuView) -> (CPU, MmuView, Cycles) {
    ((CPU { r: (Registers { zf: spec_bit_z(7, c.r.h), nf: false, hf: true, ..c.r }), ..c }), m, 2)
}

pub open spec fn spec_cb_bit_7_l(c: CPU, m: MmuView) -> (CPU, MmuView, Cycles) {
    ((CPU { r: (Registers { zf: spec_bit_z(7, c.r.l), nf: false, hf: true, ..c.r }), ..c }), m, 2)
}

pub open spec fn spec_cb_bit_7_hl(c: CPU, m: MmuView) -> (CPU, MmuView, Cycles) {
    ((CPU { r: (Registers { zf: spec_bit_z(7, m.rb(c.r.spec_hl())), nf: false, hf: true, ..c.r }), ..c }), m, 3)
}

pub open spec fn spec_cb_bit_7_a(c: CPU, m: MmuView) -> (CPU, MmuView, Cycles) {
    ((CPU { r: (Registers { zf: spec_bit_z(7, c.r.a), nf: false, hf: true, ..c.r }), ..c }), m, 2)
}

pub open spec fn spec_cb_res_0_b(c: CPU, m: MmuView) -> (CPU, MmuView, Cycles) {
    ((CPU { r: (Registers { b: spec_res(0, c.r.b), ..c.r }), ..c }), m, 2)
}

pub open spec fn spec_cb_res_0_c(c: CPU, m: MmuView) -> (CPU, MmuView, Cycles) {
    ((CPU { r: (Registers { c: spec_res(0, c.r.c), ..c.r }), ..c }), m, 2)
}

pub open spec fn spec_cb_res_0_d(c: CPU, m: MmuView) -> (CPU, MmuView, Cycles) {
    ((CPU { r: (Registers { d: spec_res(0, c.r.d), ..c.r }), ..c }), m, 2)
}

pub open spec fn spec_cb_res_0_e(c: CPU, m: MmuView) -> (CPU, MmuView, Cycles) {
    ((CPU { r: (Registers { e: spec_res(0, c.r.e), ..c.r }), ..c }), m, 2)
}

pub open spec fn spec_cb_res_0_h(c: CPU, m: MmuView) -> (CPU, MmuView, Cycles) {
    ((CPU { r: (Registers { h: spec_res(0, c.r.h), ..c.r }), ..c }), m, 2)
}

pub open spec fn spec_cb_res_0_l(c: CPU, m: MmuView) -> (CPU, MmuView, Cycles) {
    ((CPU { r: (Registers { l: spec_res(0, c.r.l), ..c.r }), ..c }), m, 2)
}

pub open spec fn spec_cb_res_0_hl(c: CPU, m: MmuView) -> (CPU, MmuView, Cycles) {
    (c, m.wb(c.r.spec_hl(), spec_res(0, m.rb(c.r.spec_hl()))), 4)
}

pub open spec fn spec_cb_res_0_a(c: CPU, m: MmuView) -> (CPU, MmuView, Cycles) {
    ((CPU { r: (Registers { a: spec_res(0, c.r.a), ..c.r }), ..c }), m, 2)
}

pub open spec fn spec_cb_res_1_b(c: CPU, m: MmuView) -> (CPU, MmuView, Cycles) {
    ((CPU { r: (Registers { b: spec_res(1, c.r.b), ..c.r }), ..c }), m, 2)
}

pub open spec fn spec_cb_res_1_c(c: CPU, m: MmuView) -> (CPU, MmuView, Cycles) {
    ((CPU { r: (Registers { c: spec_res(1, c.r.c), ..c.r }), ..c }), m, 2)
}

pub open spec fn spec_cb_res_1_d(c: CPU, m: MmuView) -> (CPU, MmuView, Cycles) {
    ((CPU { r: (Registers { d: spec_res(1, c.r.d), ..c.r }), ..c }), m, 2)
}

pub open spec fn spec_cb_res_1_e(c: CPU, m: MmuView) -> (CPU, MmuView, Cycles) {
    ((CPU { r: (Registers { e: spec_res(1, c.r.e), ..c.r }), ..c }), m, 2)
}

pub open spec fn spec_cb_res_1_h(c: CPU, m: MmuView) -> (CPU, MmuView, Cycles) {
    ((CPU { r: (Registers { h: spec_res(1, c.r.h), ..c.r }), ..c }), m, 2)
}

pub open spec fn spec_cb_res_1_l(c: CPU, m: MmuView) -> (CPU, MmuView, Cycles) {
    ((CPU { r: (Registers { l: spec_res(1, c.r.l), ..c.r }), ..c }), m, 2)
}

pub open spec fn spec_cb_res_1_hl(c: CPU, m: MmuView) -> (CPU, MmuView, Cycles) {
    (c, m.wb(c.r.spec_hl(), spec_res(1, m.rb(c.r.spec_hl()))), 4)
}

pub open spec fn spec_cb_res_1_a(c: CPU, m: MmuView) -> (CPU, MmuView, Cycles) {
    ((CPU { r: (Registers { a: spec_res(1, c.r.a), ..c.r }), ..c }), m, 2)
}

pub open spec fn spec_cb_res_2_b(c: CPU, m: MmuView) -> (CPU, MmuView, Cycles) {
    ((CPU { r: (Registers { b: spec_res(2, c.r.b), ..c.r }), ..c }), m, 2)
}

pub open spec fn spec_cb_res_2_c(c: CPU, m: MmuView) -> (CPU, MmuView, Cycles) {
    ((CPU { r: (Registers { c: spec_res(2, c.r.c), ..c.r }), ..c }), m, 2)
}

pub open spec fn spec_cb_res_2_d(c: CPU, m: MmuView) -> (CPU, MmuView, Cycles) {
    ((CPU { r: (Registers { d: spec_res(2, c.r.d), ..c.r }), ..c }), m, 2)
}

pub open spec fn spec_cb_res_2_e(c: CPU, m: MmuView) -> (CPU, MmuView, Cycles) {
    ((CPU { r: (Registers { e: spec_res(2, c.r.e), ..c.r }), ..c }), m, 2)
}

pub open spec fn spec_cb_res_2_h(c: CPU, m: MmuView) -> (CPU, MmuView, Cycles) {
    ((CPU { r: (Registers { h: spec_res(2, c.r.h), ..c.r }), ..c }), m, 2)
}

pub open spec fn spec_cb_res_2_l(c: CPU, m: MmuView) -> (CPU, MmuView, Cycles) {
    ((CPU { r: (Registers { l: spec_res(2, c.r.l), ..c.r }), ..c }), m, 2)
}

pub open spec fn spec_cb_res_2_hl(c: CPU, m: MmuView) -> (CPU, MmuView, Cycles) {
    (c, m.wb(c.r.spec_hl(), spec_res(2, m.rb(c.r.spec_hl()))), 4)
}

pub open spec fn spec_cb_res_2_a(c: CPU, m: MmuView) -> (CPU, MmuView, Cycles) {
    ((CPU { r: (Registers { a: spec_res(2, c.r.a), ..c.r }), ..c }), m, 2)
}

pub open spec fn spec_cb_res_3_b(c: CPU, m: MmuView) -> (CPU, MmuView, Cycles) {
    ((CPU { r: (Registers { b: spec_res(3, c.r.b), ..c.r }), ..c }), m, 2)
}

pub open spec fn spec_cb_res_3_c(c: CPU, m: MmuView) -> (CPU, MmuView, Cycles) {
    ((CPU { r: (Registers { c: spec_res(3, c.r.c), ..c.r }), ..c }), m, 2)
}

pub open spec fn spec_cb_res_3_d(c: CPU, m: MmuView) -> (CPU, MmuView, Cycles) {
    ((CPU { r: (Registers { d: spec_res(3, c.r.d), ..c.r }), ..c }), m, 2)
}

pub open spec fn spec_cb_res_3_e(c: CPU, m: MmuView) -> (CPU, MmuView, Cycles) {
    ((CPU { r: (Registers { e: spec_res(3, c.r.e), ..c.r }), ..c }), m, 2)
}

pub open spec fn spec_cb_res_3_h(c: CPU, m: MmuView) -> (CPU, MmuView, Cycles) {
    ((CPU { r: (Registers { h: spec_res(3, c.r.h), ..c.r }), ..c }), m, 2)
}

pub open spec fn spec_cb_res_3_l(c: CPU, m: MmuView) -> (CPU, MmuView, Cycles) {
    ((CPU { r: (Registers { l: spec_res(3, c.r.l), ..c.r }), ..c }), m, 2)
}

pub open spec fn spec_cb_res_3_hl(c: CPU, m: MmuView) -> (CPU, MmuView, Cycles) {
    (c, m.wb(c.r.spec_hl(), spec_res(3, m.rb(c.r.spec_hl()))), 4)
}

pub open spec fn spec_cb_res_3_a(c: CPU, m: MmuView) -> (CPU, MmuView, Cycles) {
    ((CPU { r: (Registers { a: spec_res(3, c.r.a), ..c.r }), ..c }), m, 2)
}

pub open spec fn spec_cb_res_4_b(c: CPU, m: MmuView) -> (CPU, MmuView, Cycles) {
    ((CPU { r: (Registers { b: spec_res(4, c.r.b), ..c.r }), ..c }), m, 2)
}

pub open spec fn spec_cb_res_4_c(c: CPU, m: MmuView) -> (CPU, MmuView, Cycles) {
    ((CPU { r: (Registers { c: spec_res(4, c.r.c), ..c.r }), ..c }), m, 2)
}

pub open spec fn spec_cb_res_4_d(c: CPU, m: MmuView) -> (CPU, MmuView, Cycles) {
    ((CPU { r: (Registers { d: spec_res(4, c.r.d), ..c.r }), ..c }), m, 2)
}

pub open spec fn spec_cb_res_4_e(c: CPU, m: MmuView) -> (CPU, MmuView, Cycles) {
    ((CPU { r: (Registers { e: spec_res(4, c.r.e), ..c.r }), ..c }), m, 2)
}

pub open spec fn spec_cb_res_4_h(c: CPU, m: MmuView) -> (CPU, MmuView, Cycles) {
    ((CPU { r: (Registers { h: spec_res(4, c.r.h), ..c.r }), ..c }), m, 2)
}

pub open spec fn spec_cb_res_4_l(c: CPU, m: MmuView) -> (CPU, MmuView, Cycles) {
    ((CPU { r: (Registers { l: spec_res(4, c.r.l), ..c.r }), ..c }), m, 2)
}

pub open spec fn spec_cb_res_4_hl(c: CPU, m: MmuView) -> (CPU, MmuView, Cycles) {
    (c, m.wb(c.r.spec_hl(), spec_res(4, m.rb(c.r.spec_hl()))), 4)
}

pub open spec fn spec_cb_res_4_a(c: CPU, m: MmuView) -> (CPU, MmuView, Cycles) {
    ((CPU { r: (Registers { a: spec_res(4, c.r.a), ..c.r }), ..c }), m, 2)
}

pub open spec fn spec_cb_res_5_b(c: CPU, m: MmuView) -> (CPU, MmuView, Cycles) {
    ((CPU { r: (Registers { b: spec_res(5, c.r.b), ..c.r }), ..c }), m, 2)
}

pub open spec fn spec_cb_res_5_c(c: CPU, m: MmuView) -> (CPU, MmuView, Cycles) {
    ((CPU { r: (Registers { c: spec_res(5, c.r.c), ..c.r }), ..c }), m, 2)
}

pub open spec fn spec_cb_res_5_d(c: CPU, m: MmuView) -> (CPU, MmuView, Cycles) {
    ((CPU { r: (Registers { d: spec_res(5, c.r.d), ..c.r }), ..c }), m, 2)
}

pub open spec fn spec_cb_res_5_e(c: CPU, m: MmuView) -> (CPU, MmuView, Cycles) {
    ((CPU { r: (Registers { e: spec_res(5, c.r.e), ..c.r }), ..c }), m, 2)
}

pub open spec fn spec_cb_res_5_h(c: CPU, m: MmuView) -> (CPU, MmuView, Cycles) {
    ((CPU { r: (Registers { h: spec_res(5, c.r.h), ..c.r }), ..c }), m, 2)
}

pub open spec fn spec_cb_res_5_l(c: CPU, m: MmuView) -> (CPU, MmuView, Cycles) {
    ((CPU { r: (Registers { l: spec_res(5, c.r.l), ..c.r }), ..c }), m, 2)
}

pub open spec fn spec_cb_res_5_hl(c: CPU, m: MmuView) -> (CPU, MmuView, Cycles) {
    (c, m.wb(c.r.spec_hl(), spec_res(5, m.rb(c.r.spec_hl()))), 4)
}

pub open spec fn spec_cb_res_5_a(c: CPU, m: MmuView) -> (CPU, MmuView, Cycles) {
    ((CPU { r: (Registers { a: spec_res(5, c.r.a), ..c.r }), ..c }), m, 2)
}

pub open spec fn spec_cb_res_6_b(c: CPU, m: MmuView) -> (CPU, MmuView, Cycles) {
    ((CPU { r: (Registers { b: spec_res(6, c.r.b), ..c.r }), ..c }), m, 2)
}

pub open spec fn spec_cb_res_6_c(c: CPU, m: MmuView) -> (CPU, MmuView, Cycles) {
    ((CPU { r: (Registers { c: spec_res(6, c.r.c), ..c.r }), ..c }), m, 2)
}

pub open spec fn spec_cb_res_6_d(c: CPU, m: MmuView) -> (CPU, MmuView, Cycles) {
    ((CPU { r: (Registers { d: spec_res(6, c.r.d), ..c.r }), ..c }), m, 2)
}

pub open spec fn spec_cb_res_6_e(c: CPU, m: MmuView) -> (CPU, MmuView, Cycles) {
    ((CPU { r: (Registers { e: spec_res(6, c.r.e), ..c.r }), ..c }), m, 2)
}

pub open spec fn spec_cb_res_6_h(c: CPU, m: MmuView) -> (CPU, MmuView, Cycles) {
    ((CPU { r: (Registers { h: spec_res(6, c.r.h), ..c.r }), ..c }), m, 2)
}

pub open spec fn spec_cb_res_6_l(c: CPU, m: MmuView) -> (CPU, MmuView, Cycles) {
    ((CPU { r: (Registers { l: spec_res(6, c.r.l), ..c.r }), ..c }), m, 2)
}

pub open spec fn spec_cb_res_6_hl(c: CPU, m: MmuView) -> (CPU, MmuView, Cycles) {
    (c, m.wb(c.r.spec_hl(), spec_res(6, m.rb(c.r.spec_hl()))), 4)
}

pub open spec fn spec_cb_res_6_a(c: CPU, m: MmuView) -> (CPU, MmuView, Cycles) {
    ((CPU { r: (Registers { a: spec_res(6, c.r.a), ..c.r }), ..c }), m, 2)
}

pub open spec fn spec_cb_res_7_b(c: CPU, m: MmuView) -> (CPU, MmuView, Cycles) {
    ((CPU { r: (Registers { b: spec_res(7, c.r.b), ..c.r }), ..c }), m, 2)
}

pub open spec fn spec_cb_res_7_c(c: CPU, m: MmuView) -> (CPU, MmuView, Cycles) {
    ((CPU { r: (Registers { c: spec_res(7, c.r.c), ..c.r }), ..c }), m, 2)
}

pub open spec fn spec_cb_res_7_d(c: CPU, m: MmuView) -> (CPU, MmuView, Cycles) {
    ((CPU { r: (Registers { d: spec_res(7, c.r.d), ..c.r }), ..c }), m, 2)
}

pub open spec fn spec_cb_res_7_e(c: CPU, m: MmuView) -> (CPU, MmuView, Cycles) {
    ((CPU { r: (Registers { e: spec_res(7, c.r.e), ..c.r }), ..c }), m, 2)
}

pub open spec fn spec_cb_res_7_h(c: CPU, m: MmuView) -> (CPU, MmuView, Cycles) {
    ((CPU { r: (Registers { h: spec_res(7, c.r.h), ..c.r }), ..c }), m, 2)
}

pub open spec fn spec_cb_res_7_l(c: CPU, m: MmuView) -> (CPU, MmuView, Cycles) {
    ((CPU { r: (Registers { l: spec_res(7, c.r.l), ..c.r }), ..c }), m, 2)
}

pub open spec fn spec_cb_res_7_hl(c: CPU, m: MmuView) -> (CPU, MmuView, Cycles) {
    (c, m.wb(c.r.spec_hl(), spec_res(7, m.rb(c.r.spec_hl()))), 4)
}

pub open spec fn spec_cb_res_7_a(c: CPU, m: MmuView) -> (CPU, MmuView, Cycles) {
    ((CPU { r: (Registers { a: spec_res(7, c.r.a), ..c.r }), ..c }), m, 2)
}

pub open spec fn spec_cb_set_0_b(c: CPU, m: MmuView) -> (CPU, MmuView, Cycles) {
    ((CPU { r: (Registers { b: spec_set(0, c.r.b), ..c.r }), ..c }), m, 2)
}

pub open spec fn spec_cb_set_0_c(c: CPU, m: MmuView) -> (CPU, MmuView, Cycles) {
    ((CPU { r: (Registers { c: spec_set(0, c.r.c), ..c.r }), ..c }), m, 2)
}

pub open spec fn spec_cb_set_0_d(c: CPU, m: MmuView) -> (CPU, MmuView, Cycles) {
    ((CPU { r: (Registers { d: spec_set(0, c.r.d), ..c.r }), ..c }), m, 2)
}

pub open spec fn spec_cb_set_0_e(c: CPU, m: MmuView) -> (CPU, MmuView, Cycles) {
    ((CPU { r: (Registers { e: spec_set(0, c.r.e), ..c.r }), ..c }), m, 2)
}

pub open spec fn spec_cb_set_0_h(c: CPU, m: MmuView) -> (CPU, MmuView, Cycles) {
    ((CPU { r: (Registers { h: spec_set(0, c.r.h), ..c.r }), ..c }), m, 2)
}

pub open spec fn spec_cb_set_0_l(c: CPU, m: MmuView) -> (CPU, MmuView, Cycles) {
    ((CPU { r: (Registers { l: spec_set(0, c.r.l), ..c.r }), ..c }), m, 2)
}

pub open spec fn spec_cb_set_0_hl(c: CPU, m: MmuView) -> (CPU, MmuView, Cycles) {
    (c, m.wb(c.r.spec_hl(), spec_set(0, m.rb(c.r.spec_hl()))), 4)
}

pub open spec fn spec_cb_set_0_a(c: CPU, m: MmuView) -> (CPU, MmuView, Cycles) {
    ((CPU { r: (Registers { a: spec_set(0, c.r.a), ..c.r }), ..c }), m, 2)
}

pub open spec fn spec_cb_set_1_b(c: CPU, m: MmuView) -> (CPU, MmuView, Cycles) {
    ((CPU { r: (Registers { b: spec_set(1, c.r.b), ..c.r }), ..c }), m, 2)
}

pub open spec fn spec_cb_set_1_c(c: CPU, m: MmuView) -> (CPU, MmuView, Cycles) {
    ((CPU { r: (Registers { c: spec_set(1, c.r.c), ..c.r }), ..c }), m, 2)
}

pub open spec fn spec_cb_set_1_d(c: CPU, m: MmuView) -> (CPU, MmuView, Cycles) {
    ((CPU { r: (Registers { d: spec_set(1, c.r.d), ..c.r }), ..c }), m, 2)
}

pub open spec fn spec_cb_set_1_e(c: CPU, m: MmuView) -> (CPU, MmuView, Cycles) {
    ((CPU { r: (Registers { e: spec_set(1, c.r.e), ..c.r }), ..c }), m, 2)
}

pub open spec fn spec_cb_set_1_h(c: CPU, m: MmuView) -> (CPU, MmuView, Cycles) {
    ((CPU { r: (Registers { h: spec_set(1, c.r.h), ..c.r }), ..c }), m, 2)
}

pub open spec fn spec_cb_set_1_l(c: CPU, m: MmuView) -> (CPU, MmuView, Cycles) {
    ((CPU { r: (Registers { l: spec_set(1, c.r.l), ..c.r }), ..c }), m, 2)
}

pub open spec fn spec_cb_set_1_hl(c: CPU, m: MmuView) -> (CPU, MmuView, Cycles) {
    (c, m.wb(c.r.spec_hl(), spec_set(1, m.rb(c.r.spec_hl()))), 4)
}

pub open spec fn spec_cb_set_1_a(c: CPU, m: MmuView) -> (CPU, MmuView, Cycles) {
    ((CPU { r: (Registers { a: spec_set(1, c.r.a), ..c.r }), ..c }), m, 2)
}

pub open spec fn spec_cb_set_2_b(c: CPU, m: MmuView) -> (CPU, MmuView, Cycles) {
    ((CPU { r: (Registers { b: spec_set(2, c.r.b), ..c.r }), ..c }), m, 2)
}

pub open spec fn spec_cb_set_2_c(c: CPU, m: MmuView) -> (CPU, MmuView, Cycles) {
    ((CPU { r: (Registers { c: spec_set(2, c.r.c), ..c.r }), ..c }), m, 2)
}

pub open spec fn spec_cb_set_2_d(c: CPU, m: MmuView) -> (CPU, MmuView, Cycles) {
    ((CPU { r: (Registers { d: spec_set(2, c.r.d), ..c.r }), ..c }), m, 2)
}

pub open spec fn spec_cb_set_2_e(c: CPU, m: MmuView) -> (CPU, MmuView, Cycles) {
    ((CPU { r: (Registers { e: spec_set(2, c.r.e), ..c.r }), ..c }), m, 2)
}

pub open spec fn spec_cb_set_2_h(c: CPU, m: MmuView) -> (CPU, MmuView, Cycles) {
    ((CPU { r: (Registers { h: spec_set(2, c.r.h), ..c.r }), ..c }), m, 2)
}

pub open spec fn spec_cb_set_2_l(c: CPU, m: MmuView) -> (CPU, MmuView, Cycles) {
    ((CPU { r: (Registers { l: spec_set(2, c.r.l), ..c.r }), ..c }), m, 2)
}

pub open spec fn spec_cb_set_2_hl(c: CPU, m: MmuView) -> (CPU, MmuView, Cycles) {
    (c, m.wb(c.r.spec_hl(), spec_set(2, m.rb(c.r.spec_hl()))), 4)
}

pub open spec fn spec_cb_set_2_a(c: CPU, m: MmuView) -> (CPU, MmuView, Cycles) {
    ((CPU { r: (Registers { a: spec_set(2, c.r.a), ..c.r }), ..c }), m, 2)
}

pub open spec fn spec_cb_set_3_b(c: CPU, m: MmuView) -> (CPU, MmuView, Cycles) {
    ((CPU { r: (Registers { b: spec_set(3, c.r.b), ..c.r }), ..c }), m, 2)
}

pub open spec fn spec_cb_set_3_c(c: CPU, m: MmuView) -> (CPU, MmuView, Cycles) {
    ((CPU { r: (Registers { c: spec_set(3, c.r.c), ..c.r }), ..c }), m, 2)
}

pub open spec fn spec_cb_set_3_d(c: CPU, m: MmuView) -> (CPU, MmuView, Cycles) {
    ((CPU { r: (Registers { d: spec_set(3, c.r.d), ..c.r }), ..c }), m, 2)
}

pub open spec fn spec_cb_set_3_e(c: CPU, m: MmuView) -> (CPU, MmuView, Cycles) {
    ((CPU { r: (Registers { e: spec_set(3, c.r.e), ..c.r }), ..c }), m, 2)
}

pub open spec fn spec_cb_set_3_h(c: CPU, m: MmuView) -> (CPU, MmuView, Cycles) {
    ((CPU { r: (Registers { h: spec_set(3, c.r.h), ..c.r }), ..c }), m, 2)
}

pub open spec fn spec_cb_set_3_l(c: CPU, m: MmuView) -> (CPU, MmuView, Cycles) {
    ((CPU { r: (Registers { l: spec_set(3, c.r.l), ..c.r }), ..c }), m, 2)
}

pub open spec fn spec_cb_set_3_hl(c: CPU, m: MmuView) -> (CPU, MmuView, Cycles) {
    (c, m.wb(c.r.spec_hl(), spec_set(3, m.rb(c.r.spec_hl()))), 4)
}

pub open spec fn spec_cb_set_3_a(c: CPU, m: MmuView) -> (CPU, MmuView, Cycles) {
    ((CPU { r: (Registers { a: spec_set(3, c.r.a), ..c.r }), ..c }), m, 2)
}

pub open spec fn spec_cb_set_4_b(c: CPU, m: MmuView) -> (CPU, MmuView, Cycles) {
    ((CPU { r: (Registers { b: spec_set(4, c.r.b), ..c.r }), ..c }), m, 2)
}

pub open spec fn spec_cb_set_4_c(c: CPU, m: MmuView) -> (CPU, MmuView, Cycles) {
    ((CPU { r: (Registers { c: spec_set(4, c.r.c), ..c.r }), ..c }), m, 2)
}

pub open spec fn spec_cb_set_4_d(c: CPU, m: MmuView) -> (CPU, MmuView, Cycles) {
    ((CPU { r: (Registers { d: spec_set(4, c.r.d), ..c.r }), ..c }), m, 2)
}

pub open spec fn spec_cb_set_4_e(c: CPU, m: MmuView) -> (CPU, MmuView, Cycles) {
    ((CPU { r: (Registers { e: spec_set(4, c.r.e), ..c.r }), ..c }), m, 2)
}

pub open spec fn spec_cb_set_4_h(c: CPU, m: MmuView) -> (CPU, MmuView, Cycles) {
    ((CPU { r: (Registers { h: spec_set(4, c.r.h), ..c.r }), ..c }), m, 2)
}

pub open spec fn spec_cb_set_4_l(c: CPU, m: MmuView) -> (CPU, MmuView, Cycles) {
    ((CPU { r: (Registers { l: spec_set(4, c.r.l), ..c.r }), ..c }), m, 2)
}

pub open spec fn spec_cb_set_4_hl(c: CPU, m: MmuView) -> (CPU, MmuView, Cycles) {
    (c, m.wb(c.r.spec_hl(), spec_set(4, m.rb(c.r.spec_hl()))), 4)
}

pub open spec fn spec_cb_set_4_a(c: CPU, m: MmuView) -> (CPU, MmuView, Cycles) {
    ((CPU { r: (Registers { a: spec_set(4, c.r.a), ..c.r }), ..c }), m, 2)
}

pub open spec fn spec_cb_set_5_b(c: CPU, m: MmuView) -> (CPU, MmuView, Cycles) {
    ((CPU { r: (Registers { b: spec_set(5, c.r.b), ..c.r }), ..c }), m, 2)
}

pub open spec fn spec_cb_set_5_c(c: CPU, m: MmuView) -> (CPU, MmuView, Cycles) {
    ((CPU { r: (Registers { c: spec_set(5, c.r.c), ..c.r }), ..c }), m, 2)
}

pub open spec fn spec_cb_set_5_d(c: CPU, m: MmuView) -> (CPU, MmuView, Cycles) {
    ((CPU { r: (Registers { d: spec_set(5, c.r.d), ..c.r }), ..c }), m, 2)
}

pub open spec fn spec_cb_set_5_e(c: CPU, m: MmuView) -> (CPU, MmuView, Cycles) {
    ((CPU { r: (Registers { e: spec_set(5, c.r.e), ..c.r }), ..c }), m, 2)
}

pub open spec fn spec_cb_set_5_h(c: CPU, m: MmuView) -> (CPU, MmuView, Cycles) {
    ((CPU { r: (Registers { h: spec_set(5, c.r.h), ..c.r }), ..c }), m, 2)
}

pub open spec fn spec_cb_set_5_l(c: CPU, m: MmuView) -> (CPU, MmuView, Cycles) {
    ((CPU { r: (Registers { l: spec_set(5, c.r.l), ..c.r }), ..c }), m, 2)
}

pub open spec fn spec_cb_set_5_hl(c: CPU, m: MmuView) -> (CPU, MmuView, Cycles) {
    (c, m.wb(c.r.spec_hl(), spec_set(5, m.rb(c.r.spec_hl()))), 4)
}

pub open spec fn spec_cb_set_5_a(c: CPU, m: MmuView) -> (CPU, MmuView, Cycles) {
    ((CPU { r: (Registers { a: spec_set(5, c.r.a), ..c.r }), ..c }), m, 2)
}

pub open spec fn spec_cb_set_6_b(c: CPU, m: MmuView) -> (CPU, MmuView, Cycles) {
    ((CPU { r: (Registers { b: spec_set(6, c.r.b), ..c.r }), ..c }), m, 2)
}

pub open spec fn spec_cb_set_6_c(c: CPU, m: MmuView) -> (CPU, MmuView, Cycles) {
    ((CPU { r: (Registers { c: spec_set(6, c.r.c), ..c.r }), ..c }), m, 2)
}

pub open spec fn spec_cb_set_6_d(c: CPU, m: MmuView) -> (CPU, MmuView, Cycles) {
    ((CPU { r: (Registers { d: spec_set(6, c.r.d), ..c.r }), ..c }), m, 2)
}

pub open spec fn spec_cb_set_6_e(c: CPU, m: MmuView) -> (CPU, MmuView, Cycles) {
    ((CPU { r: (Registers { e: spec_set(6, c.r.e), ..c.r }), ..c }), m, 2)
}

pub open spec fn spec_cb_set_6_h(c: CPU, m: MmuView) -> (CPU, MmuView, Cycles) {
    ((CPU { r: (Registers { h: spec_set(6, c.r.h), ..c.r }), ..c }), m, 2)
}

pub open spec fn spec_cb_set_6_l(c: CPU, m: MmuView) -> (CPU, MmuView, Cycles) {
    ((CPU { r: (Registers { l: spec_set(6, c.r.l), ..c.r }), ..c }), m, 2)
}

pub open spec fn spec_cb_set_6_hl(c: CPU, m: MmuView) -> (CPU, MmuView, Cycles) {
    (c, m.wb(c.r.spec_hl(), spec_set(6, m.rb(c.r.spec_hl()))), 4)
}

pub open spec fn spec_cb_set_6_a(c: CPU, m: MmuView) -> (CPU, MmuView, Cycles) {
    ((CPU { r: (Registers { a: spec_set(6, c.r.a), ..c.r }), ..c }), m, 2)
}

pub open spec fn spec_cb_set_7_b(c: CPU, m: MmuView) -> (CPU, MmuView, Cycles) {
    ((CPU { r: (Registers { b: spec_set(7, c.r.b), ..c.r }), ..c }), m, 2)
}

pub open spec fn spec_cb_set_7_c(c: CPU, m: MmuView) -> (CPU, MmuView, Cycles) {
    ((CPU { r: (Registers { c: spec_set(7, c.r.c), ..c.r }), ..c }), m, 2)
}

pub open spec fn spec_cb_set_7_d(c: CPU, m: MmuView) -> (CPU, MmuView, Cycles) {
    ((CPU { r: (Registers { d: spec_set(7, c.r.d), ..c.r }), ..c }), m, 2)
}

pub open spec fn spec_cb_set_7_e(c: CPU, m: MmuView) -> (CPU, MmuView, Cycles) {
    ((CPU { r: (Registers { e: spec_set(7, c.r.e), ..c.r }), ..c }), m, 2)
}

pub open spec fn spec_cb_set_7_h(c: CPU, m: MmuView) -> (CPU, MmuView, Cycles) {
    ((CPU { r: (Registers { h: spec_set(7, c.r.h), ..c.r }), ..c }), m, 2)
}

pub open spec fn spec_cb_set_7_l(c: CPU, m: MmuView) -> (CPU, MmuView, Cycles) {
    ((CPU { r: (Registers { l: spec_set(7, c.r.l), ..c.r }), ..c }), m, 2)
}

pub open spec fn spec_cb_set_7_hl(c: CPU, m: MmuView) -> (CPU, MmuView, Cycles) {
    (c, m.wb(c.r.spec_hl(), spec_set(7, m.rb(c.r.spec_hl()))), 4)
}

pub open spec fn spec_cb_set_7_a(c: CPU, m: MmuView) -> (CPU, MmuView, Cycles) {
    ((CPU { r: (Registers { a: spec_set(7, c.r.a), ..c.r }), ..c }), m, 2)
}

/// Primary opcodes 0x00..=0x3F.
#[verifier::opaque]
pub open spec fn spec_dispatch_q0(c: CPU, m: MmuView, op: u8) -> (CPU, MmuView, Cycles) {
    if op == 0x00 {
        spec_op_nop(c, m)
    } else if op == 0x01 {
        spec_op_ld_bc_d16(c, m)
    } else if op == 0x02 {
        spec_op_ld_bc_a(c, m)
    } else if op == 0x03 {
        spec_op_inc_bc(c, m)
    } else if op == 0x04 {
        spec_op_inc_b(c, m)
    } else if op == 0x05 {
        spec_op_dec_b(c, m)
    } else if op == 0x06 {
        spec_op_ld_b_d8(c, m)
    } else if op == 0x07 {
        spec_op_rlca(c, m)
    } else if op == 0x08 {
        spec_op_ld_a16_sp(c, m)
    } else if op == 0x09 {
        spec_op_add_hl_bc(c, m)
    } else if op == 0x0A {
        spec_op_ld_a_bc(c, m)
    } else if op == 0x0B {
        spec_op_dec_bc(c, m)
    } else if op == 0x0C {
        spec_op_inc_c(c, m)
    } else if op == 0x0D {
        spec_op_dec_c(c, m)
    } else if op == 0x0E {
        spec_op_ld_c_d8(c, m)
    } else if op == 0x0F {
        spec_op_rrca(c, m)
    } else if op == 0x10 {
        spec_op_stop(c, m)
    } else if op == 0x11 {
        spec_op_ld_de_d16(c, m)
    } else if op == 0x12 {
        spec_op_ld_de_a(c, m)
    } else if op == 0x13 {
        spec_op_inc_de(c, m)
    } else if op == 0x14 {
        spec_op_inc_d(c, m)
    } else if op == 0x15 {
        spec_op_dec_d(c, m)
    } else if op == 0x16 {
        spec_op_ld_d_d8(c, m)
    } else if op == 0x17 {
        spec_op_rla(c, m)
    } else if op == 0x18 {
        spec_op_jr(c, m)
    } else if op == 0x19 {
        spec_op_add_hl_de(c, m)
    } else if op == 0x1A {
        spec_op_ld_a_de(c, m)
    } else if op == 0x1B {
        spec_op_dec_de(c, m)
    } else if op == 0x1C {
        spec_op_inc_e(c, m)
    } else if op == 0x1D {
        spec_op_dec_e(c, m)
    } else if op == 0x1E {
        spec_op_ld_e_d8(c, m)
    } else if op == 0x1F {
        spec_op_rra(c, m)
    } else if op == 0x20 {
        spec_op_jr_nz(c, m)
    } else if op == 0x21 {
        spec_op_ld_hl_d16(c, m)
    } else if op == 0x22 {
        spec_op_ld_hli_a(c, m)
    } else if op == 0x23 {
        spec_op_inc_hl(c, m)
    } else if op == 0x24 {
        spec_op_inc_h(c, m)
    } else if op == 0x25 {
        spec_op_dec_h(c, m)
    } else if op == 0x26 {
        spec_op_ld_h_d8(c, m)
    } else if op == 0x27 {
        spec_op_daa(c, m)
    } else if op == 0x28 {
        spec_op_jr_z(c, m)
    } else if op == 0x29 {
        spec_op_add_hl_hl(c, m)
    } else if op == 0x2A {
        spec_op_ld_a_hli(c, m)
    } else if op == 0x2B {
        spec_op_dec_hl(c, m)
    } else if op == 0x2C {
        spec_op_inc_l(c, m)
    } else if op == 0x2D {
        spec_op_dec_l(c, m)
    } else if op == 0x2E {
        spec_op_ld_l_d8(c, m)
    } else if op == 0x2F {
        spec_op_cpl(c, m)
    } else if op == 0x30 {
        spec_op_jr_nc(c, m)
    } else if op == 0x31 {
        spec_op_ld_sp_d16(c, m)
    } else if op == 0x32 {
        spec_op_ld_hld_a(c, m)
    } else if op == 0x33 {
        spec_op_inc_sp(c, m)
    } else if op == 0x34 {
        spec_op_inc_hl_ptr(c, m)
    } else if op == 0x35 {
        spec_op_dec_hl_ptr(c, m)
    } else if op == 0x36 {
        spec_op_ld_hl_d8(c, m)
    } else if op == 0x37 {
        spec_op_scf(c, m)
    } else if op == 0x38 {
        spec_op_jr_c(c, m)
    } else if op == 0x39 {
        spec_op_add_hl_sp(c, m)
    } else if op == 0x3A {
        spec_op_ld_a_hld(c, m)
    } else if op == 0x3B {
        spec_op_dec_sp(c, m)
    } else if op == 0x3C {
        spec_op_inc_a(c, m)
    } else if op == 0x3D {
        spec_op_dec_a(c, m)
    } else if op == 0x3E {
        spec_op_ld_a_d8(c, m)
    } else if op == 0x3F {
        spec_op_ccf(c, m)
    } else {
        (c, m, 1)
    }
}

/// Primary opcodes 0x40..=0x7F.
#[verifier::opaque]
pub open spec fn spec_dispatch_q1(c: CPU, m: MmuView, op: u8) -> (CPU, MmuView, Cycles) {
    if op == 0x40 {
        spec_op_ld_b_b(c, m)
    } else if op == 0x41 {
        spec_op_ld_b_c(c, m)
    } else if op == 0x42 {
        spec_op_ld_b_d(c, m)
    } else if op == 0x43 {
        spec_op_ld_b_e(c, m)
    } else if op == 0x44 {
        spec_op_ld_b_h(c, m)
    } else if op == 0x45 {
        spec_op_ld_b_l(c, m)
    } else if op == 0x46 {
        spec_op_ld_b_hl(c, m)
    } else if op == 0x47 {
        spec_op_ld_b_a(c, m)
    } else if op == 0x48 {
        spec_op_ld_c_b(c, m)
    } else if op == 0x49 {
        spec_op_ld_c_c(c, m)
    } else if op == 0x4A {
        spec_op_ld_c_d(c, m)
    } else if op == 0x4B {
        spec_op_ld_c_e(c, m)
    } else if op == 0x4C {
        spec_op_ld_c_h(c, m)
    } else if op == 0x4D {
        spec_op_ld_c_l(c, m)
    } else if op == 0x4E {
        spec_op_ld_c_hl(c, m)
    } else if op == 0x4F {
        spec_op_ld_c_a(c, m)
    } else if op == 0x50 {
        spec_op_ld_d_b(c, m)
    } else if op == 0x51 {
        spec_op_ld_d_c(c, m)
    } else if op == 0x52 {
        spec_op_ld_d_d(c, m)
    } else if op == 0x53 {
        spec_op_ld_d_e(c, m)
    } else if op == 0x54 {
        spec_op_ld_d_h(c, m)
    } else if op == 0x55 {
        spec_op_ld_d_l(c, m)
    } else if op == 0x56 {
        spec_op_ld_d_hl(c, m)
    } else if op == 0x57 {
        spec_op_ld_d_a(c, m)
    } else if op == 0x58 {
        spec_op_ld_e_b(c, m)
    } else if op == 0x59 {
        spec_op_ld_e_c(c, m)
    } else if op == 0x5A {
        spec_op_ld_e_d(c, m)
    } else if op == 0x5B {
        spec_op_ld_e_e(c, m)
    } else if op == 0x5C {
        spec_op_ld_e_h(c, m)
    } else if op == 0x5D {
        spec_op_ld_e_l(c, m)
    } else if op == 0x5E {
        spec_op_ld_e_hl(c, m)
    } else if op == 0x5F {
        spec_op_ld_e_a(c, m)
    } else if op == 0x60 {
        spec_op_ld_h_b(c, m)
    } else if op == 0x61 {
        spec_op_ld_h_c(c, m)
    } else if op == 0x62 {
        spec_op_ld_h_d(c, m)
    } else if op == 0x63 {
        spec_op_ld_h_e(c, m)
    } else if op == 0x64 {
        spec_op_ld_h_h(c, m)
    } else if op == 0x65 {
        spec_op_ld_h_l(c, m)
    } else if op == 0x66 {
        spec_op_ld_h_hl(c, m)
    } else if op == 0x67 {
        spec_op_ld_h_a(c, m)
    } else if op == 0x68 {
        spec_op_ld_l_b(c, m)
    } else if op == 0x69 {
        spec_op_ld_l_c(c, m)
    } else if op == 0x6A {
        spec_op_ld_l_d(c, m)
    } else if op == 0x6B {
        spec_op_ld_l_e(c, m)
    } else if op == 0x6C {
        spec_op_ld_l_h(c, m)
    } else if op == 0x6D {
        spec_op_ld_l_l(c, m)
    } else if op == 0x6E {
        spec_op_ld_l_hl(c, m)
    } else if op == 0x6F {
        spec_op_ld_l_a(c, m)
    } else if op == 0x70 {
        spec_op_ld_hl_b(c, m)
    } else if op == 0x71 {
        spec_op_ld_hl_c(c, m)
    } else if op == 0x72 {
        spec_op_ld_hl_d(c, m)
    } else if op == 0x73 {
        spec_op_ld_hl_e(c, m)
    } else if op == 0x74 {
        spec_op_ld_hl_h(c, m)
    } else if op == 0x75 {
        spec_op_ld_hl_l(c, m)
    } else if op == 0x76 {
        spec_op_halt(c, m)
    } else if op == 0x77 {
        spec_op_ld_hl_a(c, m)
    } else if op == 0x78 {
        spec_op_ld_a_b(c, m)
    } else if op == 0x79 {
        spec_op_ld_a_c(c, m)
    } else if op == 0x7A {
        spec_op_ld_a_d(c, m)
    } else if op == 0x7B {
        spec_op_ld_a_e(c, m)
    } else if op == 0x7C {
        spec_op_ld_a_h(c, m)
    } else if op == 0x7D {
        spec_op_ld_a_l(c, m)
    } else if op == 0x7E {
        spec_op_ld_a_hl(c, m)
    } else if op == 0x7F {
        spec_op_ld_a_a(c, m)
    } else {
        (c, m, 1)
    }
}

/// Primary opcodes 0x80..=0xBF.
#[verifier::opaque]
pub open spec fn spec_dispatch_q2(c: CPU, m: MmuView, op: u8) -> (CPU, MmuView, Cycles) {
    if op == 0x80 {
        spec_op_add_a_b(c, m)
    } else if op == 0x81 {
        spec_op_add_a_c(c, m)
    } else if op == 0x82 {
        spec_op_add_a_d(c, m)
    } else if op == 0x83 {
        spec_op_add_a_e(c, m)
    } else if op == 0x84 {
        spec_op_add_a_h(c, m)
    } else if op == 0x85 {
        spec_op_add_a_l(c, m)
    } else if op == 0x86 {
        spec_op_add_a_hl(c, m)
    } else if op == 0x87 {
        spec_op_add_a_a(c, m)
    } else if op == 0x88 {
        spec_op_adc_a_b(c, m)
    } else if op == 0x89 {
        spec_op_adc_a_c(c, m)
    } else if op == 0x8A {
        spec_op_adc_a_d(c, m)
    } else if op == 0x8B {
        spec_op_adc_a_e(c, m)
    } else if op == 0x8C {
        spec_op_adc_a_h(c, m)
    } else if op == 0x8D {
        spec_op_adc_a_l(c, m)
    } else if op == 0x8E {
        spec_op_adc_a_hl(c, m)
    } else if op == 0x8F {
        spec_op_adc_a_a(c, m)
    } else if op == 0x90 {
        spec_op_sub_b(c, m)
    } else if op == 0x91 {
        spec_op_sub_c(c, m)
    } else if op == 0x92 {
        spec_op_sub_d(c, m)
    } else if op == 0x93 {
        spec_op_sub_e(c, m)
    } else if op == 0x94 {
        spec_op_sub_h(c, m)
    } else if op == 0x95 {
        spec_op_sub_l(c, m)
    } else if op == 0x96 {
        spec_op_sub_hl(c, m)
    } else if op == 0x97 {
        spec_op_sub_a(c, m)
    } else if op == 0x98 {
        spec_op_sbc_a_b(c, m)
    } else if op == 0x99 {
        spec_op_sbc_a_c(c, m)
    } else if op == 0x9A {
        spec_op_sbc_a_d(c, m)
    } else if op == 0x9B {
        spec_op_sbc_a_e(c, m)
    } else if op == 0x9C {
        spec_op_sbc_a_h(c, m)
    } else if op == 0x9D {
        spec_op_sbc_a_l(c, m)
    } else if op == 0x9E {
        spec_op_sbc_a_hl(c, m)
    } else if op == 0x9F {
        spec_op_sbc_a_a(c, m)
    } else if op == 0xA0 {
        spec_op_and_b(c, m)
    } else if op == 0xA1 {
        spec_op_and_c(c, m)
    } else if op == 0xA2 {
        spec_op_and_d(c, m)
    } else if op == 0xA3 {
        spec_op_and_e(c, m)
    } else if op == 0xA4 {
        spec_op_and_h(c, m)
    } else if op == 0xA5 {
        spec_op_and_l(c, m)
    } else if op == 0xA6 {
        spec_op_and_hl(c, m)
    } else if op == 0xA7 {
        spec_op_and_a(c, m)
    } else if op == 0xA8 {
        spec_op_xor_b(c, m)
    } else if op == 0xA9 {
        spec_op_xor_c(c, m)
    } else if op == 0xAA {
        spec_op_xor_d(c, m)
    } else if op == 0xAB {
        spec_op_xor_e(c, m)
    } else if op == 0xAC {
        spec_op_xor_h(c, m)
    } else if op == 0xAD {
        spec_op_xor_l(c, m)
    } else if op == 0xAE {
        spec_op_xor_hl(c, m)
    } else if op == 0xAF {
        spec_op_xor_a(c, m)
    } else if op == 0xB0 {
        spec_op_or_b(c, m)
    } else if op == 0xB1 {
        spec_op_or_c(c, m)
    } else if op == 0xB2 {
        spec_op_or_d(c, m)
    } else if op == 0xB3 {
        spec_op_or_e(c, m)
    } else if op == 0xB4 {
        spec_op_or_h(c, m)
    } else if op == 0xB5 {
        spec_op_or_l(c, m)
    } else if op == 0xB6 {
        spec_op_or_hl(c, m)
    } else if op == 0xB7 {
        spec_op_or_a(c, m)
    } else if op == 0xB8 {
        spec_op_cp_b(c, m)
    } else if op == 0xB9 {
        spec_op_cp_c(c, m)
    } else if op == 0xBA {
        spec_op_cp_d(c, m)
    } else if op == 0xBB {
        spec_op_cp_e(c, m)
    } else if op == 0xBC {
        spec_op_cp_h(c, m)
    } else if op == 0xBD {
        spec_op_cp_l(c, m)
    } else if op == 0xBE {
        spec_op_cp_hl(c, m)
    } else if op == 0xBF {
        spec_op_cp_a(c, m)
    } else {
        (c, m, 1)
    }
}

/// Primary opcodes 0xC0..=0xFF (the unused slots and the prefix byte are never reached and stand for the identity).
#[verifier::opaque]
pub open spec fn spec_dispatch_q3(c: CPU, m: MmuView, op: u8) -> (CPU, MmuView, Cycles) {
    if op == 0xC0 {
        spec_op_ret_nz(c, m)
    } else if op == 0xC1 {
        spec_op_pop_bc(c, m)
    } else if op == 0xC2 {
        spec_op_jp_nz(c, m)
    } else if op == 0xC3 {
        spec_op_jp_a16(c, m)
    } else if op == 0xC4 {
        spec_op_call_nz(c, m)
    } else if op == 0xC5 {
        spec_op_push_bc(c, m)
    } else if op == 0xC6 {
        spec_op_add_a_d8(c, m)
    } else if op == 0xC7 {
        spec_op_rst_00(c, m)
    } else if op == 0xC8 {
        spec_op_ret_z(c, m)
    } else if op == 0xC9 {
        spec_op_ret(c, m)
    } else if op == 0xCA {
        spec_op_jp_z(c, m)
    } else if op == 0xCC {
        spec_op_call_z(c, m)
    } else if op == 0xCD {
        spec_op_call_a16(c, m)
    } else if op == 0xCE {
        spec_op_adc_a_d8(c, m)
    } else if op == 0xCF {
        spec_op_rst_08(c, m)
    } else if op == 0xD0 {
        spec_op_ret_nc(c, m)
    } else if op == 0xD1 {
        spec_op_pop_de(c, m)
    } else if op == 0xD2 {
        spec_op_jp_nc(c, m)
    } else if op == 0xD4 {
        spec_op_call_nc(c, m)
    } else if op == 0xD5 {
        spec_op_push_de(c, m)
    } else if op == 0xD6 {
        spec_op_sub_d8(c, m)
    } else if op == 0xD7 {
        spec_op_rst_10(c, m)
    } else if op == 0xD8 {
        spec_op_ret_c(c, m)
    } else if op == 0xD9 {
        spec_op_reti(c, m)
    } else if op == 0xDA {
        spec_op_jp_c(c, m)
    } else if op == 0xDC {
        spec_op_call_c(c, m)
    } else if op == 0xDE {
        spec_op_sbc_a_d8(c, m)
    } else if op == 0xDF {
        spec_op_rst_18(c, m)
    } else if op == 0xE0 {
        spec_op_ldh_a8_a(c, m)
    } else if op == 0xE1 {
        spec_op_pop_hl(c, m)
    } else if op == 0xE2 {
        spec_op_ld_ff00_c_a(c, m)
    } else if op == 0xE5 {
        spec_op_push_hl(c, m)
    } else if op == 0xE6 {
        spec_op_and_d8(c, m)
    } else if op == 0xE7 {
        spec_op_rst_20(c, m)
    } else if op == 0xE8 {
        spec_op_add_sp_r8(c, m)
    } else if op == 0xE9 {
        spec_op_jp_hl(c, m)
    } else if op == 0xEA {
        spec_op_ld_a16_a(c, m)
    } else if op == 0xEE {
        spec_op_xor_d8(c, m)
    } else if op == 0xEF {
        spec_op_rst_28(c, m)
    } else if op == 0xF0 {
        spec_op_ldh_a_a8(c, m)
    } else if op == 0xF1 {
        spec_op_pop_af(c, m)
    } else if op == 0xF2 {
        spec_op_ld_a_ff00_c(c, m)
    } else if op == 0xF3 {
        spec_op_di(c, m)
    } else if op == 0xF5 {
        spec_op_push_af(c, m)
    } else if op == 0xF6 {
        spec_op_or_d8(c, m)
    } else if op == 0xF7 {
        spec_op_rst_30(c, m)
    } else if op == 0xF8 {
        spec_op_ld_hl_sp_r8(c, m)
    } else if op == 0xF9 {
        spec_op_ld_sp_hl(c, m)
    } else if op == 0xFA {
        spec_op_ld_a_a16(c, m)
    } else if op == 0xFB {
        spec_op_ei(c, m)
    } else if op == 0xFE {
        spec_op_cp_d8(c, m)
    } else if op == 0xFF {
        spec_op_rst_38(c, m)
    } else {
        (c, m, 1)
    }
}

/// Prefixed opcodes 0x00..=0x3F.
#[verifier::opaque]
pub open spec fn spec_dispatch_cb_q0(c: CPU, m: MmuView, op: u8) -> (CPU, MmuView, Cycles) {
    if op == 0x00 {
        spec_cb_rlc_b(c, m)
    } else if op == 0x01 {
        spec_cb_rlc_c(c, m)
    } else if op == 0x02 {
        spec_cb_rlc_d(c, m)
    } else if op == 0x03 {
        spec_cb_rlc_e(c, m)
    } else if op == 0x04 {
        spec_cb_rlc_h(c, m)
    } else if op == 0x05 {
        spec_cb_rlc_l(c, m)
    } else if op == 0x06 {
        spec_cb_rlc_hl(c, m)
    } else if op == 0x07 {
        spec_cb_rlc_a(c, m)
    } else if op == 0x08 {
        spec_cb_rrc_b(c, m)
    } else if op == 0x09 {
        spec_cb_rrc_c(c, m)
    } else if op == 0x0A {
        spec_cb_rrc_d(c, m)
    } else if op == 0x0B {
        spec_cb_rrc_e(c, m)
    } else if op == 0x0C {
        spec_cb_rrc_h(c, m)
    } else if op == 0x0D {
        spec_cb_rrc_l(c, m)
    } else if op == 0x0E {
        spec_cb_rrc_hl(c, m)
    } else if op == 0x0F {
        spec_cb_rrc_a(c, m)
    } else if op == 0x10 {
        spec_cb_rl_b(c, m)
    } else if op == 0x11 {
        spec_cb_rl_c(c, m)
    } else if op == 0x12 {
        spec_cb_rl_d(c, m)
    } else if op == 0x13 {
        spec_cb_rl_e(c, m)
    } else if op == 0x14 {
        spec_cb_rl_h(c, m)
    } else if op == 0x15 {
        spec_cb_rl_l(c, m)
    } else if op == 0x16 {
        spec_cb_rl_hl(c, m)
    } else if op == 0x17 {
        spec_cb_rl_a(c, m)
    } else if op == 0x18 {
        spec_cb_rr_b(c, m)
    } else if op == 0x19 {
        spec_cb_rr_c(c, m)
    } else if op == 0x1A {
        spec_cb_rr_d(c, m)
    } else if op == 0x1B {
        spec_cb_rr_e(c, m)
    } else if op == 0x1C {
        spec_cb_rr_h(c, m)
    } else if op == 0x1D {
        spec_cb_rr_l(c, m)
    } else if op == 0x1E {
        spec_cb_rr_hl(c, m)
    } else if op == 0x1F {
        spec_cb_rr_a(c, m)
    } else if op == 0x20 {
        spec_cb_sla_b(c, m)
    } else if op == 0x21 {
        spec_cb_sla_c(c, m)
    } else if op == 0x22 {
        spec_cb_sla_d(c, m)
    } else if op == 0x23 {
        spec_cb_sla_e(c, m)
    } else if op == 0x24 {
        spec_cb_sla_h(c, m)
    } else if op == 0x25 {
        spec_cb_sla_l(c, m)
    } else if op == 0x26 {
        spec_cb_sla_hl(c, m)
    } else if op == 0x27 {
        spec_cb_sla_a(c, m)
    } else if op == 0x28 {
        spec_cb_sra_b(c, m)
    } else if op == 0x29 {
        spec_cb_sra_c(c, m)
    } else if op == 0x2A {
        spec_cb_sra_d(c, m)
    } else if op == 0x2B {
        spec_cb_sra_e(c, m)
    } else if op == 0x2C {
        spec_cb_sra_h(c, m)
    } else if op == 0x2D {
        spec_cb_sra_l(c, m)
    } else if op == 0x2E {
        spec_cb_sra_hl(c, m)
    } else if op == 0x2F {
        spec_cb_sra_a(c, m)
    } else if op == 0x30 {
        spec_cb_swap_b(c, m)
    } else if op == 0x31 {
        spec_cb_swap_c(c, m)
    } else if op == 0x32 {
        spec_cb_swap_d(c, m)
    } else if op == 0x33 {
        spec_cb_swap_e(c, m)
    } else if op == 0x34 {
        spec_cb_swap_h(c, m)
    } else if op == 0x35 {
        spec_cb_swap_l(c, m)
    } else if op == 0x36 {
        spec_cb_swap_hl(c, m)
    } else if op == 0x37 {
        spec_cb_swap_a(c, m)
    } else if op == 0x38 {
        spec_cb_srl_b(c, m)
    } else if op == 0x39 {
        spec_cb_srl_c(c, m)
    } else if op == 0x3A {
        spec_cb_srl_d(c, m)
    } else if op == 0x3B {
        spec_cb_srl_e(c, m)
    } else if op == 0x3C {
        spec_cb_srl_h(c, m)
    } else if op == 0x3D {
        spec_cb_srl_l(c, m)
    } else if op == 0x3E {
        spec_cb_srl_hl(c, m)
    } else if op == 0x3F {
        spec_cb_srl_a(c, m)
    } else {
        (c, m, 1)
    }
}

/// Prefixed opcodes 0x40..=0x7F.
#[verifier::opaque]
pub open spec fn spec_dispatch_cb_q1(c: CPU, m: MmuView, op: u8) -> (CPU, MmuView, Cycles) {
    if op == 0x40 {
        spec_cb_bit_0_b(c, m)
    } else if op == 0x41 {
        spec_cb_bit_0_c(c, m)
    } else if op == 0x42 {
        spec_cb_bit_0_d(c, m)
    } else if op == 0x43 {
        spec_cb_bit_0_e(c, m)
    } else if op == 0x44 {
        spec_cb_bit_0_h(c, m)
    } else if op == 0x45 {
        spec_cb_bit_0_l(c, m)
    } else if op == 0x46 {
        spec_cb_bit_0_hl(c, m)
    } else if op == 0x47 {
        spec_cb_bit_0_a(c, m)
    } else if op == 0x48 {
        spec_cb_bit_1_b(c, m)
    } else if op == 0x49 {
        spec_cb_bit_1_c(c, m)
    } else if op == 0x4A {
        spec_cb_bit_1_d(c, m)
    } else if op == 0x4B {
        spec_cb_bit_1_e(c, m)
    } else if op == 0x4C {
        spec_cb_bit_1_h(c, m)
    } else if op == 0x4D {
        spec_cb_bit_1_l(c, m)
    } else if op == 0x4E {
        spec_cb_bit_1_hl(c, m)
    } else if op == 0x4F {
        spec_cb_bit_1_a(c, m)
    } else if op == 0x50 {
        spec_cb_bit_2_b(c, m)
    } else if op == 0x51 {
        spec_cb_bit_2_c(c, m)
    } else if op == 0x52 {
        spec_cb_bit_2_d(c, m)
    } else if op == 0x53 {
        spec_cb_bit_2_e(c, m)
    } else if op == 0x54 {
        spec_cb_bit_2_h(c, m)
    } else if op == 0x55 {
        spec_cb_bit_2_l(c, m)
    } else if op == 0x56 {
        spec_cb_bit_2_hl(c, m)
    } else if op == 0x57 {
        spec_cb_bit_2_a(c, m)
    } else if op == 0x58 {
        spec_cb_bit_3_b(c, m)
    } else if op == 0x59 {
        spec_cb_bit_3_c(c, m)
    } else if op == 0x5A {
        spec_cb_bit_3_d(c, m)
    } else if op == 0x5B {
        spec_cb_bit_3_e(c, m)
    } else if op == 0x5C {
        spec_cb_bit_3_h(c, m)
    } else if op == 0x5D {
        spec_cb_bit_3_l(c, m)
    } else if op == 0x5E {
        spec_cb_bit_3_hl(c, m)
    } else if op == 0x5F {
        spec_cb_bit_3_a(c, m)
    } else if op == 0x60 {
        spec_cb_bit_4_b(c, m)
    } else if op == 0x61 {
        spec_cb_bit_4_c(c, m)
    } else if op == 0x62 {
        spec_cb_bit_4_d(c, m)
    } else if op == 0x63 {
        spec_cb_bit_4_e(c, m)
    } else if op == 0x64 {
        spec_cb_bit_4_h(c, m)
    } else if op == 0x65 {
        spec_cb_bit_4_l(c, m)
    } else if op == 0x66 {
        spec_cb_bit_4_hl(c, m)
    } else if op == 0x67 {
        spec_cb_bit_4_a(c, m)
    } else if op == 0x68 {
        spec_cb_bit_5_b(c, m)
    } else if op == 0x69 {
        spec_cb_bit_5_c(c, m)
    } else if op == 0x6A {
        spec_cb_bit_5_d(c, m)
    } else if op == 0x6B {
        spec_cb_bit_5_e(c, m)
    } else if op == 0x6C {
        spec_cb_bit_5_h(c, m)
    } else if op == 0x6D {
        spec_cb_bit_5_l(c, m)
    } else if op == 0x6E {
        spec_cb_bit_5_hl(c, m)
    } else if op == 0x6F {
        spec_cb_bit_5_a(c, m)
    } else if op == 0x70 {
        spec_cb_bit_6_b(c, m)
    } else if op == 0x71 {
        spec_cb_bit_6_c(c, m)
    } else if op == 0x72 {
        spec_cb_bit_6_d(c, m)
    } else if op == 0x73 {
        spec_cb_bit_6_e(c, m)
    } else if op == 0x74 {
        spec_cb_bit_6_h(c, m)
    } else if op == 0x75 {
        spec_cb_bit_6_l(c, m)
    } else if op == 0x76 {
        spec_cb_bit_6_hl(c, m)
    } else if op == 0x77 {
        spec_cb_bit_6_a(c, m)
    } else if op == 0x78 {
        spec_cb_bit_7_b(c, m)
    } else if op == 0x79 {
        spec_cb_bit_7_c(c, m)
    } else if op == 0x7A {
        spec_cb_bit_7_d(c, m)
    } else if op == 0x7B {
        spec_cb_bit_7_e(c, m)
    } else if op == 0x7C {
        spec_cb_bit_7_h(c, m)
    } else if op == 0x7D {
        spec_cb_bit_7_l(c, m)
    } else if op == 0x7E {
        spec_cb_bit_7_hl(c, m)
    } else if op == 0x7F {
        spec_cb_bit_7_a(c, m)
    } else {
        (c, m, 1)
    }
}

/// Prefixed opcodes 0x80..=0xBF.
#[verifier::opaque]
pub open spec fn spec_dispatch_cb_q2(c: CPU, m: MmuView, op: u8) -> (CPU, MmuView, Cycles) {
    if op == 0x80 {
        spec_cb_res_0_b(c, m)
    } else if op == 0x81 {
        spec_cb_res_0_c(c, m)
    } else if op == 0x82 {
        spec_cb_res_0_d(c, m)
    } else if op == 0x83 {
        spec_cb_res_0_e(c, m)
    } else if op == 0x84 {
        spec_cb_res_0_h(c, m)
    } else if op == 0x85 {
        spec_cb_res_0_l(c, m)
    } else if op == 0x86 {
        spec_cb_res_0_hl(c, m)
    } else if op == 0x87 {
        spec_cb_res_0_a(c, m)
    } else if op == 0x88 {
        spec_cb_res_1_b(c, m)
    } else if op == 0x89 {
        spec_cb_res_1_c(c, m)
    } else if op == 0x8A {
        spec_cb_res_1_d(c, m)
    } else if op == 0x8B {
        spec_cb_res_1_e(c, m)
    } else if op == 0x8C {
        spec_cb_res_1_h(c, m)
    } else if op == 0x8D {
        spec_cb_res_1_l(c, m)
    } else if op == 0x8E {
        spec_cb_res_1_hl(c, m)
    } else if op == 0x8F {
        spec_cb_res_1_a(c, m)
    } else if op == 0x90 {
        spec_cb_res_2_b(c, m)
    } else if op == 0x91 {
        spec_cb_res_2_c(c, m)
    } else if op == 0x92 {
        spec_cb_res_2_d(c, m)
    } else if op == 0x93 {
        spec_cb_res_2_e(c, m)
    } else if op == 0x94 {
        spec_cb_res_2_h(c, m)
    } else if op == 0x95 {
        spec_cb_res_2_l(c, m)
    } else if op == 0x96 {
        spec_cb_res_2_hl(c, m)
    } else if op == 0x97 {
        spec_cb_res_2_a(c, m)
    } else if op == 0x98 {
        spec_cb_res_3_b(c, m)
    } else if op == 0x99 {
        spec_cb_res_3_c(c, m)
    } else if op == 0x9A {
        spec_cb_res_3_d(c, m)
    } else if op == 0x9B {
        spec_cb_res_3_e(c, m)
    } else if op == 0x9C {
        spec_cb_res_3_h(c, m)
    } else if op == 0x9D {
        spec_cb_res_3_l(c, m)
    } else if op == 0x9E {
        spec_cb_res_3_hl(c, m)
    } else if op == 0x9F {
        spec_cb_res_3_a(c, m)
    } else if op == 0xA0 {
        spec_cb_res_4_b(c, m)
    } else if op == 0xA1 {
        spec_cb_res_4_c(c, m)
    } else if op == 0xA2 {
        spec_cb_res_4_d(c, m)
    } else if op == 0xA3 {
        spec_cb_res_4_e(c, m)
    } else if op == 0xA4 {
        spec_cb_res_4_h(c, m)
    } else if op == 0xA5 {
        spec_cb_res_4_l(c, m)
    } else if op == 0xA6 {
        spec_cb_res_4_hl(c, m)
    } else if op == 0xA7 {
        spec_cb_res_4_a(c, m)
    } else if op == 0xA8 {
        spec_cb_res_5_b(c, m)
    } else if op == 0xA9 {
        spec_cb_res_5_c(c, m)
    } else if op == 0xAA {
        spec_cb_res_5_d(c, m)
    } else if op == 0xAB {
        spec_cb_res_5_e(c, m)
    } else if op == 0xAC {
        spec_cb_res_5_h(c, m)
    } else if op == 0xAD {
        spec_cb_res_5_l(c, m)
    } else if op == 0xAE {
        spec_cb_res_5_hl(c, m)
    } else if op == 0xAF {
        spec_cb_res_5_a(c, m)
    } else if op == 0xB0 {
        spec_cb_res_6_b(c, m)
    } else if op == 0xB1 {
        spec_cb_res_6_c(c, m)
    } else if op == 0xB2 {
        spec_cb_res_6_d(c, m)
    } else if op == 0xB3 {
        spec_cb_res_6_e(c, m)
    } else if op == 0xB4 {
        spec_cb_res_6_h(c, m)
    } else if op == 0xB5 {
        spec_cb_res_6_l(c, m)
    } else if op == 0xB6 {
        spec_cb_res_6_hl(c, m)
    } else if op == 0xB7 {
        spec_cb_res_6_a(c, m)
    } else if op == 0xB8 {
        spec_cb_res_7_b(c, m)
    } else if op == 0xB9 {
        spec_cb_res_7_c(c, m)
    } else if op == 0xBA {
        spec_cb_res_7_d(c, m)
    } else if op == 0xBB {
        spec_cb_res_7_e(c, m)
    } else if op == 0xBC {
        spec_cb_res_7_h(c, m)
    } else if op == 0xBD {
        spec_cb_res_7_l(c, m)
    } else if op == 0xBE {
        spec_cb_res_7_hl(c, m)
    } else if op == 0xBF {
        spec_cb_res_7_a(c, m)
    } else {
        (c, m, 1)
    }
}

/// Prefixed opcodes 0xC0..=0xFF.
#[verifier::opaque]
pub open spec fn spec_dispatch_cb_q3(c: CPU, m: MmuView, op: u8) -> (CPU, MmuView, Cycles) {
    if op == 0xC0 {
        spec_cb_set_0_b(c, m)
    } else if op == 0xC1 {
        spec_cb_set_0_c(c, m)
    } else if op == 0xC2 {
        spec_cb_set_0_d(c, m)
    } else if op == 0xC3 {
        spec_cb_set_0_e(c, m)
    } else if op == 0xC4 {
        spec_cb_set_0_h(c, m)
    } else if op == 0xC5 {
        spec_cb_set_0_l(c, m)
    } else if op == 0xC6 {
        spec_cb_set_0_hl(c, m)
    } else if op == 0xC7 {
        spec_cb_set_0_a(c, m)
    } else if op == 0xC8 {
        spec_cb_set_1_b(c, m)
    } else if op == 0xC9 {
        spec_cb_set_1_c(c, m)
    } else if op == 0xCA {
        spec_cb_set_1_d(c, m)
    } else if op == 0xCB {
        spec_cb_set_1_e(c, m)
    } else if op == 0xCC {
        spec_cb_set_1_h(c, m)
    } else if op == 0xCD {
        spec_cb_set_1_l(c, m)
    } else if op == 0xCE {
        spec_cb_set_1_hl(c, m)
    } else if op == 0xCF {
        spec_cb_set_1_a(c, m)
    } else if op == 0xD0 {
        spec_cb_set_2_b(c, m)
    } else if op == 0xD1 {
        spec_cb_set_2_c(c, m)
    } else if op == 0xD2 {
        spec_cb_set_2_d(c, m)
    } else if op == 0xD3 {
        spec_cb_set_2_e(c, m)
    } else if op == 0xD4 {
        spec_cb_set_2_h(c, m)
    } else if op == 0xD5 {
        spec_cb_set_2_l(c, m)
    } else if op == 0xD6 {
        spec_cb_set_2_hl(c, m)
    } else if op == 0xD7 {
        spec_cb_set_2_a(c, m)
    } else if op == 0xD8 {
        spec_cb_set_3_b(c, m)
    } else if op == 0xD9 {
        spec_cb_set_3_c(c, m)
    } else if op == 0xDA {
        spec_cb_set_3_d(c, m)
    } else if op == 0xDB {
        spec_cb_set_3_e(c, m)
    } else if op == 0xDC {
        spec_cb_set_3_h(c, m)
    } else if op == 0xDD {
        spec_cb_set_3_l(c, m)
    } else if op == 0xDE {
        spec_cb_set_3_hl(c, m)
    } else if op == 0xDF {
        spec_cb_set_3_a(c, m)
    } else if op == 0xE0 {
        spec_cb_set_4_b(c, m)
    } else if op == 0xE1 {
        spec_cb_set_4_c(c, m)
    } else if op == 0xE2 {
        spec_cb_set_4_d(c, m)
    } else if op == 0xE3 {
        spec_cb_set_4_e(c, m)
    } else if op == 0xE4 {
        spec_cb_set_4_h(c, m)
    } else if op == 0xE5 {
        spec_cb_set_4_l(c, m)
    } else if op == 0xE6 {
        spec_cb_set_4_hl(c, m)
    } else if op == 0xE7 {
        spec_cb_set_4_a(c, m)
    } else if op == 0xE8 {
        spec_cb_set_5_b(c, m)
    } else if op == 0xE9 {
        spec_cb_set_5_c(c, m)
    } else if op == 0xEA {
        spec_cb_set_5_d(c, m)
    } else if op == 0xEB {
        spec_cb_set_5_e(c, m)
    } else if op == 0xEC {
        spec_cb_set_5_h(c, m)
    } else if op == 0xED {
        spec_cb_set_5_l(c, m)
    } else if op == 0xEE {
        spec_cb_set_5_hl(c, m)
    } else if op == 0xEF {
        spec_cb_set_5_a(c, m)
    } else if op == 0xF0 {
        spec_cb_set_6_b(c, m)
    } else if op == 0xF1 {
        spec_cb_set_6_c(c, m)
    } else if op == 0xF2 {
        spec_cb_set_6_d(c, m)
    } else if op == 0xF3 {
        spec_cb_set_6_e(c, m)
    } else if op == 0xF4 {
        spec_cb_set_6_h(c, m)
    } else if op == 0xF5 {
        spec_cb_set_6_l(c, m)
    } else if op == 0xF6 {
        spec_cb_set_6_hl(c, m)
    } else if op == 0xF7 {
        spec_cb_set_6_a(c, m)
    } else if op == 0xF8 {
        spec_cb_set_7_b(c, m)
    } else if op == 0xF9 {
        spec_cb_set_7_c(c, m)
    } else if op == 0xFA {
        spec_cb_set_7_d(c, m)
    } else if op == 0xFB {
        spec_cb_set_7_e(c, m)
    } else if op == 0xFC {
        spec_cb_set_7_h(c, m)
    } else if op == 0xFD {
        spec_cb_set_7_l(c, m)
    } else if op == 0xFE {
        spec_cb_set_7_hl(c, m)
    } else if op == 0xFF {
        spec_cb_set_7_a(c, m)
    } else {
        (c, m, 1)
    }
}

/// The effect of one unprefixed opcode on the fetched state: what
/// `instructions::dispatch` does, as a function.
pub open spec fn spec_dispatch(c: CPU, m: MmuView, op: u8) -> (CPU, MmuView, Cycles) {
    if op < 0x40 {
        spec_dispatch_q0(c, m, op)
    } else if op < 0x80 {
        spec_dispatch_q1(c, m, op)
    } else if op < 0xC0 {
        spec_dispatch_q2(c, m, op)
    } else {
        spec_dispatch_q3(c, m, op)
    }
}

/// The effect of one prefixed opcode on the fetched state: what
/// `instructions_cb::dispatch_cb` does, as a function.
pub open spec fn spec_dispatch_cb(c: CPU, m: MmuView, op: u8) -> (CPU, MmuView, Cycles) {
    if op < 0x40 {
        spec_dispatch_cb_q0(c, m, op)
    } else if op < 0x80 {
        spec_dispatch_cb_q1(c, m, op)
    } else if op < 0xC0 {
        spec_dispatch_cb_q2(c, m, op)
    } else {
        spec_dispatch_cb_q3(c, m, op)
    }
}

/// The delayed-EI bookkeeping run after each executed instruction: the
/// arming counter counts down one, and IME turns on when it reaches zero.
pub open spec fn spec_ei_tick(c: CPU) -> CPU {
    if c.ime_delay > 0 {
        CPU {
            ime: (if c.ime_delay == 1 {
                true
            } else {
                c.ime
            }),
            ime_delay: (c.ime_delay - 1) as u8,
            ..c
        }
    } else {
        c
    }
}

impl CPU {
    /// Fetch, decode and execute one instruction at PC, delayed-EI
    /// bookkeeping included: the whole effect of the fetch case of `step`.
    pub open spec fn spec_exec(self, m: MmuView) -> (CPU, MmuView, Cycles) {
        let op = m.rb(self.r.pc);
        let fetched = CPU { r: (Registers { pc: w16(self.r.pc + 1), ..self.r }), ..self };
        let t = if op == 0xCB {
            let cb = m.rb(fetched.r.pc);
            spec_dispatch_cb(
                CPU { r: (Registers { pc: w16(fetched.r.pc + 1), ..fetched.r }), ..fetched },
                m,
                cb,
            )
        } else {
            spec_dispatch(fetched, m, op)
        };
        (spec_ei_tick(t.0), t.1, t.2)
    }

    /// One whole processor step as a function of the machine state: idle
    /// while halted with nothing pending or while stopped, service the
    /// highest-priority pending interrupt when IME allows, and otherwise
    /// fetch and execute one instruction.
    #[verifier::opaque]
    pub open spec fn spec_step(self, m: MmuView) -> (CPU, MmuView, Cycles) {
        if self.halted && m.spec_pending() == 0 {
            (self, m, 1)
        } else {
            let c = CPU { halted: false, ..self };
            if self.stopped {
                (c, m, 1)
            } else if self.ime && m.spec_pending() != 0 {
                let source = spec_highest_priority(m.spec_pending())->0;
                (c.spec_service_cpu(source), c.spec_service_mmu(m, source), INTERRUPT_CYCLES)
            } else {
                c.spec_exec(m)
            }
        }
    }
}

} // verus!
