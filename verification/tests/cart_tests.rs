use boy_core::cart::{Cart, CartError, CartHeader, CartridgeType};
use boy_core::cart::{compute_header_checksum, rom_size_from_id, ram_size_from_id};
use boy_core::mbc::rtc::RTC;

fn base_rom(size: usize, type_code: u8, rom_code: u8, ram_code: u8) -> Vec<u8> {
    let mut rom = vec![0u8; size];
    let title = b"POCKET TEST";
    for (i, &b) in title.iter().enumerate() {
        rom[0x134 + i] = b;
    }
    rom[0x147] = type_code;
    rom[0x148] = rom_code;
    rom[0x149] = ram_code;
    // (-sum - 15) mod 256 over the header bytes
    let mut c: u8 = 0xF1;
    for i in 0x134..0x14D {
        c = c.wrapping_sub(rom[i]);
    }
    rom[0x14D] = c;
    rom[0x14E] = 0xBE;
    rom[0x14F] = 0xEF;
    rom
}

#[test]
fn header_parses_title_sizes_and_checksum() {
    let rom = base_rom(0x8000, 0x00, 0x00, 0x00);
    let header = CartHeader::parse(&rom).unwrap();
    assert_eq!(header.title, b"POCKET TEST".to_vec());
    assert_eq!(header.cartridge_type, CartridgeType::RomOnly);
    assert_eq!(header.rom_size, 32 * 1024);
    assert_eq!(header.ram_size, 0);
    assert_eq!(header.header_checksum, header.computed_header_checksum);
    assert_eq!(header.global_checksum, 0xBEEF);
}

#[test]
fn header_checksum_mismatch_is_recorded_not_fatal() {
    let mut rom = base_rom(0x8000, 0x00, 0x00, 0x00);
    rom[0x14D] = rom[0x14D].wrapping_add(1);
    let header = CartHeader::parse(&rom).unwrap();
    assert_ne!(header.header_checksum, header.computed_header_checksum);
    assert!(Cart::from_bytes(rom, None).is_ok());
}

#[test]
fn rom_too_small_is_rejected() {
    let rom = vec![0u8; 0x14F];
    match CartHeader::parse(&rom) {
        Err(CartError::RomTooSmall { len }) => assert_eq!(len, 0x14F),
        Ok(_) => panic!("a header-less image must be rejected"),
    }
    // one byte more is enough
    assert!(CartHeader::parse(&vec![0u8; 0x150]).is_ok());
}

#[test]
fn checksum_helper_matches_the_formula() {
    let rom = base_rom(0x8000, 0x00, 0x00, 0x00);
    assert_eq!(compute_header_checksum(&rom), rom[0x14D]);
    // an all-zero header sums to zero, so the checksum is (-15) mod 256
    let blank = vec![0u8; 0x150];
    assert_eq!(compute_header_checksum(&blank), 0xF1);
}

#[test]
fn size_tables() {
    assert_eq!(rom_size_from_id(0x00), 32 * 1024);
    assert_eq!(rom_size_from_id(0x05), 1024 * 1024);
    assert_eq!(rom_size_from_id(0x08), 8 * 1024 * 1024);
    assert_eq!(rom_size_from_id(0x09), 0);
    assert_eq!(ram_size_from_id(0x00), 0);
    assert_eq!(ram_size_from_id(0x02), 8 * 1024);
    assert_eq!(ram_size_from_id(0x03), 32 * 1024);
    assert_eq!(ram_size_from_id(0x05), 64 * 1024);
}

#[test]
fn cartridge_type_codes_decode() {
    assert_eq!(CartridgeType::from_code(0x00), CartridgeType::RomOnly);
    assert_eq!(
        CartridgeType::from_code(0x03),
        CartridgeType::Mbc1 { has_ram: true, has_battery: true },
    );
    assert_eq!(CartridgeType::from_code(0x06), CartridgeType::Mbc2 { has_battery: true });
    assert_eq!(
        CartridgeType::from_code(0x10),
        CartridgeType::Mbc3 { has_timer: true, has_ram: true, has_battery: true },
    );
    assert_eq!(CartridgeType::from_code(0x42), CartridgeType::Unsupported { code: 0x42 });
}

#[test]
fn unsupported_cartridge_is_detected_before_running() {
    let rom = base_rom(0x8000, 0x42, 0x00, 0x00);
    let cart = Cart::from_bytes(rom, None).unwrap();
    assert!(!cart.controller.supported());
}

#[test]
fn rom_only_ignores_rom_writes() {
    let mut rom = base_rom(0x8000, 0x00, 0x00, 0x00);
    rom[0x2000] = 0x55;
    let mut cart = Cart::from_bytes(rom, None).unwrap();
    cart.wb(0x2000, 0xAA);
    assert_eq!(cart.rb(0x2000), 0x55);
    assert!(cart.save().is_none());
}

#[test]
fn mbc1_banks_rom_and_latches_ram() {
    // 128 KiB image: banks 0..=7; each bank's first byte marks its number
    let mut rom = base_rom(0x20000, 0x03, 0x02, 0x02);
    for bank in 0..8usize {
        rom[bank * 0x4000] = bank as u8;
    }
    let mut cart = Cart::from_bytes(rom, None).unwrap();
    assert_eq!(cart.rb(0x0000), 0); // fixed bank
    assert_eq!(cart.rb(0x4000), 1); // bank 0 aliases to 1
    cart.wb(0x2000, 0x05); // select bank 5
    assert_eq!(cart.rb(0x4000), 5);
    cart.wb(0x2000, 0x00); // 0 aliases to 1
    assert_eq!(cart.rb(0x4000), 1);

    // RAM is closed until the magic nibble is latched
    cart.wb(0xA000, 0x77);
    assert_eq!(cart.rb(0xA000), 0xFF);
    cart.wb(0x0000, 0x0A);
    cart.wb(0xA000, 0x77);
    assert_eq!(cart.rb(0xA000), 0x77);
    cart.wb(0x0000, 0x00); // latch closed again
    assert_eq!(cart.rb(0xA000), 0xFF);

    // battery-backed RAM persists
    cart.wb(0x0000, 0x1A); // any value with low nibble 0xA opens it
    assert_eq!(cart.rb(0xA000), 0x77);
    let saved = cart.save().unwrap();
    assert_eq!(saved.len(), 8 * 1024);
    assert_eq!(saved[0], 0x77);
}

#[test]
fn mbc1_restores_persisted_ram() {
    let rom = base_rom(0x20000, 0x03, 0x02, 0x02);
    let mut save = vec![0u8; 8 * 1024];
    save[5] = 0x99;
    let mut cart = Cart::from_bytes(rom, Some(save)).unwrap();
    cart.wb(0x0000, 0x0A);
    assert_eq!(cart.rb(0xA005), 0x99);
}

#[test]
fn mbc2_ram_is_half_byte_and_echoed() {
    let rom = base_rom(0x8000, 0x06, 0x01, 0x00);
    let mut cart = Cart::from_bytes(rom, None).unwrap();
    // bit 8 of the address clear: RAM enable
    cart.wb(0x0000, 0x0A);
    cart.wb(0xA010, 0x25);
    assert_eq!(cart.rb(0xA010), 0xF5); // upper nibble reads as 1
    assert_eq!(cart.rb(0xA210), 0xF5); // echo of the 512 cells
    // bit 8 set: bank select (0 aliases to 1)
    cart.wb(0x0100, 0x00);
    assert_eq!(cart.rb(0xA010), 0xF5);
}

#[test]
fn mbc3_selects_ram_banks_and_rtc_registers() {
    let mut rom = base_rom(0x80000, 0x10, 0x04, 0x03);
    rom[3 * 0x4000] = 3;
    let mut cart = Cart::from_bytes(rom, None).unwrap();
    cart.wb(0x2000, 3);
    assert_eq!(cart.rb(0x4000), 3);

    cart.wb(0x0000, 0x0A); // open RAM/RTC
    cart.wb(0x4000, 0x01); // RAM bank 1
    cart.wb(0xA000, 0x11);
    cart.wb(0x4000, 0x00); // RAM bank 0
    assert_eq!(cart.rb(0xA000), 0xFF - 0xFF); // bank 0 is untouched (zero)
    cart.wb(0x4000, 0x01);
    assert_eq!(cart.rb(0xA000), 0x11);

    // write an RTC register directly
    cart.wb(0x4000, 0x08);
    cart.wb(0xA000, 0x2A);
    assert_eq!(cart.rb(0xA000), 0x2A);
}

#[test]
fn mbc3_save_carries_the_clock_and_restores_it() {
    let rom = base_rom(0x80000, 0x10, 0x04, 0x03);
    let mut cart = Cart::from_bytes(rom.clone(), None).unwrap();
    cart.wb(0x0000, 0x0A);
    cart.wb(0xA000, 0x5A);
    let saved = cart.save().unwrap();
    assert_eq!(saved.len(), 32 * 1024 + 13);
    let mut cart2 = Cart::from_bytes(rom, Some(saved)).unwrap();
    cart2.wb(0x0000, 0x0A);
    assert_eq!(cart2.rb(0xA000), 0x5A);
}

#[test]
fn rtc_latch_sequence_freezes_counters() {
    let mut rtc = RTC::init(1000);
    // two days, three hours, four minutes, five seconds later
    rtc.set_now(1000 + 2 * 86400 + 3 * 3600 + 4 * 60 + 5);
    let c = rtc.get_counters();
    assert_eq!(c.days, 2);
    assert_eq!(c.hours, 3);
    assert_eq!(c.minutes, 4);
    assert_eq!(c.seconds, 5);
    // not latched yet
    assert_eq!(rtc.read_register(0x08), 0);
    rtc.latch(0x00);
    rtc.latch(0x01);
    assert_eq!(rtc.read_register(0x08), 5);
    assert_eq!(rtc.read_register(0x09), 4);
    assert_eq!(rtc.read_register(0x0A), 3);
    assert_eq!(rtc.read_register(0x0B), 2);
    assert_eq!(rtc.read_register(0x0C), 0);
    // a lone 0x01 without the arming 0x00 does not latch
    rtc.set_now(1000 + 10 * 86400);
    rtc.latch(0x01);
    assert_eq!(rtc.read_register(0x0B), 2);
}

#[test]
fn set_now_reaches_the_cartridge_clock_and_never_runs_backwards() {
    let rom = base_rom(0x80000, 0x10, 0x04, 0x03);
    let mut cart = Cart::from_bytes(rom, None).unwrap();
    // the clock starts at base 0; one hour later, latch and read hours
    cart.set_now(3600);
    cart.wb(0x0000, 0x0A); // enable RAM/RTC
    cart.wb(0x6000, 0x00);
    cart.wb(0x6000, 0x01); // latch
    cart.wb(0x4000, 0x0A); // select the hours register
    assert_eq!(cart.rb(0xA000), 1);
    // an earlier timestamp is ignored
    cart.set_now(60);
    cart.wb(0x6000, 0x00);
    cart.wb(0x6000, 0x01);
    assert_eq!(cart.rb(0xA000), 1);
}

#[test]
fn get_title_returns_the_header_bytes() {
    let rom = base_rom(0x8000, 0x00, 0x00, 0x00);
    let cart = Cart::from_bytes(rom, None).unwrap();
    assert_eq!(cart.get_title(), b"POCKET TEST".to_vec());
}

#[test]
fn read_rom_reads_the_flat_image() {
    let mut rom = base_rom(0x8000, 0x03, 0x00, 0x03);
    rom[0x150] = 0x42;
    rom[0x4000] = 0x77;
    let mut cart = Cart::from_bytes(rom, None).unwrap();
    assert_eq!(cart.read_rom(0x150), 0x42);
    // bank-controller state does not touch the flat read
    cart.wb(0x6000, 0x01); // banking mode 1
    cart.wb(0x4000, 0x03); // upper-bank register
    assert_eq!(cart.read_rom(0x0000), 0x00);
    assert_eq!(cart.read_rom(0x4000), 0x77);
}

#[test]
fn mbc1_mode_one_banks_ram_and_low_rom() {
    // 2 MiB image so the upper bits reach real banks
    let mut rom = base_rom(0x200000, 0x03, 0x06, 0x03);
    for bank in 0..128usize {
        rom[bank * 0x4000] = bank as u8;
    }
    let mut cart = Cart::from_bytes(rom, None).unwrap();
    cart.wb(0x2000, 0x01); // low bank 1
    cart.wb(0x4000, 0x02); // upper bits 2
    assert_eq!(cart.rb(0x4000), 0x41); // (2<<5)|1
    // mode 0: the fixed region shows bank 0, RAM bank 0
    assert_eq!(cart.rb(0x0000), 0);
    cart.wb(0x0000, 0x0A);
    cart.wb(0xA000, 0x31);
    // mode 1: the fixed region shows bank 2<<5 and RAM bank 2
    cart.wb(0x6000, 0x01);
    assert_eq!(cart.rb(0x0000), 0x40);
    cart.wb(0xA000, 0x32);
    assert_eq!(cart.rb(0xA000), 0x32);
    // back to mode 0: the first RAM bank still holds its byte
    cart.wb(0x6000, 0x00);
    assert_eq!(cart.rb(0xA000), 0x31);
}

#[test]
fn out_of_image_rom_reads_ff() {
    // a minimal image much smaller than the address window
    let rom = base_rom(0x150, 0x00, 0x00, 0x00);
    let cart = Cart::from_bytes(rom, None).unwrap();
    assert_eq!(cart.rb(0x4000), 0xFF);
    assert_eq!(cart.rb(0x7FFF), 0xFF);
}
