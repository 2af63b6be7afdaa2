use boy_core::cart::Cart;
use boy_core::cpu::CPU;
use boy_core::cpu::instructions;
use boy_core::cpu::instructions_alu;
use boy_core::gameboy::{FrameResult, GameBoy, KeyStates};
use boy_core::mmu::MMU;

fn make_rom(fill: u8) -> Vec<u8> {
    let mut rom = vec![fill; 0x8000];
    // header: plain cartridge, 32 KiB ROM, no RAM
    for i in 0x100..0x150 {
        rom[i] = 0;
    }
    rom[0x134] = b'T';
    rom[0x135] = b'E';
    rom[0x136] = b'S';
    rom[0x137] = b'T';
    rom
}

fn machine(rom: Vec<u8>) -> (CPU, MMU) {
    let cart = Cart::from_bytes(rom, None).unwrap();
    (CPU::init(), MMU::new(cart))
}

#[test]
fn cold_start_register_state() {
    let cpu = CPU::init();
    assert_eq!(cpu.r.a, 0x01);
    let af = cpu.r.af();
    assert_eq!(af, 0x01B0);
    assert_eq!(af & 0x00FF, 0xB0);
    assert_eq!(cpu.r.bc(), 0x0013);
    assert_eq!(cpu.r.de(), 0x00D8);
    assert_eq!(cpu.r.hl(), 0x014D);
    assert_eq!(cpu.r.sp, 0xFFFE);
    assert_eq!(cpu.r.pc, 0x0100);
    assert!(!cpu.ime);
    assert!(!cpu.halted);
    assert!(!cpu.stopped);
}

#[test]
fn nop_loop_advances_pc_one_per_cycle() {
    let (mut cpu, mut mmu) = machine(make_rom(0x00));
    let mut cycles: u32 = 0;
    for _ in 0..1000 {
        cycles += cpu.step(&mut mmu) as u32;
    }
    assert_eq!(cpu.r.pc, 0x0100 + 1000);
    assert_eq!(cycles, 1000);
}

#[test]
fn ld_a_imm_then_inc_a() {
    let mut rom = make_rom(0x00);
    rom[0x100] = 0x3E; // LD A, 0x42
    rom[0x101] = 0x42;
    rom[0x102] = 0x3C; // INC A
    let (mut cpu, mut mmu) = machine(rom);
    cpu.step(&mut mmu);
    assert_eq!(cpu.r.a, 0x42);
    cpu.step(&mut mmu);
    assert_eq!(cpu.r.a, 0x43);
    assert!(!cpu.r.zf);
    assert!(!cpu.r.nf);
    assert!(!cpu.r.hf);
    assert!(cpu.r.cf); // carry untouched since boot
}

#[test]
fn daa_after_bcd_add() {
    let (mut cpu, mut mmu) = machine(make_rom(0x00));
    cpu.r.a = 0x45;
    instructions::add_a(&mut cpu, 0x38);
    assert_eq!(cpu.r.a, 0x7D);
    assert!(!cpu.r.hf);
    assert!(!cpu.r.cf);
    instructions::op_daa(&mut cpu, &mut mmu);
    assert_eq!(cpu.r.a, 0x83);
    assert!(!cpu.r.zf);
    assert!(!cpu.r.nf);
    assert!(!cpu.r.hf);
    assert!(!cpu.r.cf);

    cpu.r.a = 0x99;
    instructions::add_a(&mut cpu, 0x01);
    assert_eq!(cpu.r.a, 0x9A);
    instructions::op_daa(&mut cpu, &mut mmu);
    assert_eq!(cpu.r.a, 0x00);
    assert!(cpu.r.zf);
    assert!(cpu.r.cf);
}

#[test]
fn push_pop_roundtrip_every_pair() {
    let (mut cpu, mut mmu) = machine(make_rom(0x00));
    cpu.r.sp = 0xDFFE; // stack in work RAM
    for &v in &[0x0000u16, 0x1234, 0xABCD, 0xFFFF] {
        cpu.r.set_bc(v);
        instructions::op_push_bc(&mut cpu, &mut mmu);
        cpu.r.set_bc(0);
        instructions::op_pop_bc(&mut cpu, &mut mmu);
        assert_eq!(cpu.r.bc(), v);
        assert_eq!(cpu.r.sp, 0xDFFE);

        cpu.r.set_de(v);
        instructions::op_push_de(&mut cpu, &mut mmu);
        cpu.r.set_de(0);
        instructions::op_pop_de(&mut cpu, &mut mmu);
        assert_eq!(cpu.r.de(), v);

        cpu.r.set_hl(v);
        instructions::op_push_hl(&mut cpu, &mut mmu);
        cpu.r.set_hl(0);
        instructions::op_pop_hl(&mut cpu, &mut mmu);
        assert_eq!(cpu.r.hl(), v);

        // AF keeps only the flag nibble of its low byte
        cpu.r.set_af(v);
        instructions::op_push_af(&mut cpu, &mut mmu);
        cpu.r.set_af(0);
        instructions::op_pop_af(&mut cpu, &mut mmu);
        assert_eq!(cpu.r.af(), v & 0xFFF0);
    }
}

#[test]
fn ei_services_only_after_second_boundary() {
    // EI; NOP; NOP with a pending, enabled interrupt
    let mut rom = make_rom(0x00);
    rom[0x100] = 0xFB; // EI
    let (mut cpu, mut mmu) = machine(rom);
    mmu.wb(0xFFFF, 0x01); // enable V-Blank
    mmu.request_interrupt(0x01);
    let c = cpu.step(&mut mmu); // EI
    assert_eq!(c, 1);
    assert!(!cpu.ime);
    let c = cpu.step(&mut mmu); // NOP: interrupt NOT yet serviced
    assert_eq!(c, 1);
    assert!(cpu.ime);
    assert_eq!(cpu.r.pc, 0x0102);
    let c = cpu.step(&mut mmu); // now the dispatch happens
    assert_eq!(c, 5);
    assert_eq!(cpu.r.pc, 0x0040);
    assert!(!cpu.ime);
}

#[test]
fn ei_di_keeps_interrupts_disabled() {
    let mut rom = make_rom(0x00);
    rom[0x100] = 0xFB; // EI
    rom[0x101] = 0xF3; // DI
    let (mut cpu, mut mmu) = machine(rom);
    mmu.wb(0xFFFF, 0x01);
    mmu.request_interrupt(0x01);
    cpu.step(&mut mmu); // EI
    cpu.step(&mut mmu); // DI
    assert!(!cpu.ime);
    for _ in 0..10 {
        let c = cpu.step(&mut mmu);
        assert_eq!(c, 1); // NOPs only, never a 5-cycle dispatch
    }
    assert!(!cpu.ime);
}

#[test]
fn res_of_set_and_set_of_res() {
    for b in [0x00u8, 0x5A, 0xFF, 0x81] {
        for n in 0..8u8 {
            assert_eq!(instructions::res(n, instructions::set(n, b)), b & !(1 << n));
            assert_eq!(instructions::set(n, instructions::res(n, b)), b | (1 << n));
        }
    }
}

#[test]
fn swap_is_an_involution_and_rlc_rrc_cancel() {
    let (mut cpu, _mmu) = machine(make_rom(0x00));
    for b in [0x00u8, 0x12, 0xF0, 0xA5, 0xFF] {
        let once = instructions::swap(&mut cpu, b);
        let twice = instructions::swap(&mut cpu, once);
        assert_eq!(twice, b);
        let right = instructions::rrc(&mut cpu, b);
        let back = instructions::rlc(&mut cpu, right);
        assert_eq!(back, b);
    }
    assert_eq!(instructions::swap(&mut cpu, 0xA5), 0x5A);
}

#[test]
fn sub_undoes_add_with_consistent_flags() {
    let (mut cpu, _mmu) = machine(make_rom(0x00));
    for &(a, b, carry) in &[(0x12u8, 0x34u8, false), (0xFF, 0x01, false), (0x80, 0x80, true), (0x0F, 0x01, false)] {
        let s = instructions::add8(&mut cpu, a, b, carry);
        let add_h = cpu.r.hf;
        let add_c = cpu.r.cf;
        let back = instructions::sub8(&mut cpu, s, b, carry);
        assert_eq!(back, a);
        assert!(cpu.r.nf);
        assert_eq!(cpu.r.hf, add_h);
        assert_eq!(cpu.r.cf, add_c);
    }
}

#[test]
fn opcode_cycle_counts_match_the_table() {
    // a sample across the table, driven through step (fetch included)
    let cases: &[(Vec<u8>, u8)] = &[
        (vec![0x00], 1),        // NOP
        (vec![0x06, 0x11], 2),  // LD B, d8
        (vec![0x46], 2),        // LD B, (HL)
        (vec![0x80], 1),        // ADD A, B
        (vec![0x86], 2),        // ADD A, (HL)
        (vec![0xC6, 0x01], 2),  // ADD A, d8
        (vec![0x01, 0, 0], 3),  // LD BC, d16
        (vec![0x03], 2),        // INC BC
        (vec![0x34], 3),        // INC (HL)
        (vec![0xC3, 0, 0x01], 4), // JP a16
        (vec![0xCD, 0, 0x01], 6), // CALL a16
        (vec![0xC9], 4),        // RET
        (vec![0xC5], 4),        // PUSH BC
        (vec![0xC1], 3),        // POP BC
        (vec![0xE8, 0x05], 4),  // ADD SP, r8
        (vec![0xF8, 0x05], 3),  // LD HL, SP+r8
        (vec![0xEA, 0, 0xC0], 4), // LD (a16), A
        (vec![0xE0, 0x80], 3),  // LDH (a8), A
        (vec![0x76], 1),        // HALT
        (vec![0xCB, 0x11], 2),  // RL C
        (vec![0xCB, 0x46], 3),  // BIT 0, (HL)
        (vec![0xCB, 0x86], 4),  // RES 0, (HL)
    ];
    for (bytes, want) in cases {
        let mut rom = make_rom(0x00);
        for (i, &byte) in bytes.iter().enumerate() {
            rom[0x100 + i] = byte;
        }
        let (mut cpu, mut mmu) = machine(rom);
        cpu.r.sp = 0xDFFE;
        cpu.r.set_hl(0xC000);
        let got = cpu.step(&mut mmu);
        assert_eq!(got, *want, "opcode bytes {:02X?}", bytes);
    }
}

#[test]
fn conditional_branches_report_taken_and_not_taken_counts() {
    // JR NZ taken (Z clear) vs not taken (Z set)
    let mut rom = make_rom(0x00);
    rom[0x100] = 0x20; // JR NZ, +2
    rom[0x101] = 0x02;
    let (mut cpu, mut mmu) = machine(rom);
    cpu.r.set_z(false);
    assert_eq!(cpu.step(&mut mmu), 3);
    assert_eq!(cpu.r.pc, 0x0104);

    let mut rom = make_rom(0x00);
    rom[0x100] = 0x20;
    rom[0x101] = 0x02;
    let (mut cpu, mut mmu) = machine(rom);
    cpu.r.set_z(true);
    assert_eq!(cpu.step(&mut mmu), 2);
    assert_eq!(cpu.r.pc, 0x0102);
}

#[test]
fn halt_wakes_on_pending_interrupt() {
    let mut rom = make_rom(0x00);
    rom[0x100] = 0x76; // HALT
    let (mut cpu, mut mmu) = machine(rom);
    cpu.step(&mut mmu);
    assert!(cpu.halted);
    // nothing pending: the processor idles
    assert_eq!(cpu.step(&mut mmu), 1);
    assert!(cpu.halted);
    // enabled + flagged: it wakes (IME off, so no dispatch)
    mmu.wb(0xFFFF, 0x04);
    mmu.request_interrupt(0x04);
    let c = cpu.step(&mut mmu);
    assert!(!cpu.halted);
    assert_eq!(c, 1); // the NOP after HALT
}

#[test]
fn interrupt_priority_picks_lowest_bit() {
    let (mut cpu, mut mmu) = machine(make_rom(0x00));
    cpu.ime = true;
    cpu.r.sp = 0xDFFE;
    mmu.wb(0xFFFF, 0x1F);
    mmu.request_interrupt(0x14); // Joypad (4) and Timer (2) both pending
    let c = cpu.step(&mut mmu);
    assert_eq!(c, 5);
    assert_eq!(cpu.r.pc, 0x0050); // Timer vector wins
    assert_eq!(mmu.pending_interrupts(), 0x10); // Timer bit acknowledged
    // return address was pushed
    assert_eq!(mmu.rw(0xDFFC), 0x0100);
}

#[test]
fn illegal_opcode_reported_by_run_frame() {
    let mut rom = make_rom(0x00);
    rom[0x100] = 0xD3;
    let cart = Cart::from_bytes(rom, None).unwrap();
    let mut gb = GameBoy::new(cart);
    assert!(gb.cart_supported());
    match gb.run_frame(KeyStates::released()) {
        FrameResult::IllegalOpcode => {},
        _ => panic!("expected the illegal opcode to be reported"),
    }
    assert_eq!(gb.cpu.r.pc, 0x0100);
    assert_eq!(gb.mmu.rb(gb.cpu.r.pc), 0xD3);
}

#[test]
fn run_frame_completes_with_lcd_on() {
    let mut rom = make_rom(0x00);
    rom[0x100] = 0x3E; // LD A, 0x80
    rom[0x101] = 0x80;
    rom[0x102] = 0xE0; // LDH (0x40), A  -- switch the LCD on
    rom[0x103] = 0x40;
    let cart = Cart::from_bytes(rom, None).unwrap();
    let mut gb = GameBoy::new(cart);
    match gb.run_frame(KeyStates::released()) {
        FrameResult::Ready => {},
        _ => panic!("expected a completed frame"),
    }
    let fb = gb.get_last_frame_buffer();
    assert_eq!(fb.len(), 160 * 144);
    assert!(fb.iter().all(|&px| px <= 3));
}

#[test]
fn run_frame_stalls_with_lcd_off() {
    let rom = make_rom(0x00);
    let cart = Cart::from_bytes(rom, None).unwrap();
    let mut gb = GameBoy::new(cart);
    match gb.run_frame(KeyStates::released()) {
        FrameResult::Stalled => {},
        _ => panic!("expected a stall with the pixel generator off"),
    }
}

#[test]
fn f_low_nibble_reads_zero_after_every_instruction() {
    // drive a mix of flag-heavy opcodes and watch AF's low nibble
    let mut rom = make_rom(0x00);
    let program: [u8; 12] = [0x3E, 0x0F, 0xC6, 0x01, 0x27, 0x37, 0x3F, 0x2F, 0x07, 0x17, 0x0F, 0x1F];
    for (i, &b) in program.iter().enumerate() {
        rom[0x100 + i] = b;
    }
    let (mut cpu, mut mmu) = machine(rom);
    for _ in 0..10 {
        cpu.step(&mut mmu);
        assert_eq!(cpu.r.af() & 0x000F, 0);
    }
}

#[test]
fn pc_and_sp_wrap_modulo_2_16() {
    let (mut cpu, mut mmu) = machine(make_rom(0x00));
    cpu.r.pc = 0xFFFF; // reads IE (0x00): a NOP
    cpu.step(&mut mmu);
    assert_eq!(cpu.r.pc, 0x0000);

    cpu.r.sp = 0xFFFF;
    instructions_alu::op_inc_sp(&mut cpu, &mut mmu);
    assert_eq!(cpu.r.sp, 0x0000);
    instructions_alu::op_dec_sp(&mut cpu, &mut mmu);
    assert_eq!(cpu.r.sp, 0xFFFF);

    cpu.r.set_hl(0xFFFF);
    instructions_alu::op_inc_hl(&mut cpu, &mut mmu);
    assert_eq!(cpu.r.hl(), 0x0000);
}

#[test]
fn add_sp_signed_offset_and_flags() {
    let mut rom = make_rom(0x00);
    rom[0x100] = 0xE8; // ADD SP, -2
    rom[0x101] = 0xFE;
    let (mut cpu, mut mmu) = machine(rom);
    cpu.r.sp = 0xFFFE;
    cpu.step(&mut mmu);
    assert_eq!(cpu.r.sp, 0xFFFC);
    assert!(!cpu.r.zf);
    assert!(!cpu.r.nf);
    // H and C come from the low-byte addition 0xFE + 0xFE
    assert!(cpu.r.hf);
    assert!(cpu.r.cf);

    // the raw-byte sum helper reports H and C from the low bytes
    cpu.r.sp = 0x00FF;
    let sum = instructions::add_sp(&mut cpu, 0x01);
    assert_eq!(sum, 0x0100);
    assert!(cpu.r.hf);
    assert!(cpu.r.cf);
}

#[test]
fn cpl_scf_ccf_flag_rules() {
    let (mut cpu, mut mmu) = machine(make_rom(0x00));
    cpu.r.a = 0x35;
    instructions::op_cpl(&mut cpu, &mut mmu);
    assert_eq!(cpu.r.a, 0xCA);
    assert!(cpu.r.nf && cpu.r.hf);
    instructions::op_scf(&mut cpu, &mut mmu);
    assert!(cpu.r.cf && !cpu.r.nf && !cpu.r.hf);
    instructions::op_ccf(&mut cpu, &mut mmu);
    assert!(!cpu.r.cf);
    instructions::op_ccf(&mut cpu, &mut mmu);
    assert!(cpu.r.cf);
}

#[test]
fn bit_test_reports_z_and_preserves_carry() {
    let (mut cpu, _mmu) = machine(make_rom(0x00));
    cpu.r.set_c(true);
    instructions::bit(&mut cpu, 3, 0b0000_1000);
    assert!(!cpu.r.zf && !cpu.r.nf && cpu.r.hf && cpu.r.cf);
    instructions::bit(&mut cpu, 3, 0b1111_0111);
    assert!(cpu.r.zf && cpu.r.cf);
}
