//! The cartridge: the parsed header and the bank controller built from it.

use vstd::prelude::*;

use crate::mbc::{ControllerView, MemoryController, Missing};
use crate::mbc::mbc1::Mbc1;
use crate::mbc::mbc2::Mbc2;
use crate::mbc::mbc3::Mbc3;
use crate::mbc::rom_only::RomOnly;

verus! {

/// A ROM image must at least cover the header, which ends at 0x14F.
pub const HEADER_END: usize = 0x14F;

#[derive(Clone, Copy, Debug, PartialEq, Eq, Structural)]
pub enum CartridgeType {
    RomOnly,
    Mbc1 { has_ram: bool, has_battery: bool },
    Mbc2 { has_battery: bool },
    Mbc3 { has_timer: bool, has_ram: bool, has_battery: bool },
    Mbc5 { has_ram: bool, has_battery: bool, has_rumble: bool },
    Mbc6,
    Mbc7 { has_sensor: bool, has_rumble: bool, has_ram: bool, has_battery: bool },
    RomRam { has_battery: bool },
    Mmm01 { has_ram: bool, has_battery: bool },
    PocketCamera,
    BandaiTama5,
    HuC3,
    HuC1 { has_ram: bool, has_battery: bool },
    /// A type code outside the table; any bus access to such a cartridge is
    /// a fatal error, reported with this code.
    Unsupported { code: u8 },
}

/// The cartridge type named by the header's type code.
pub open spec fn spec_cartridge_type(code: u8) -> CartridgeType {
    if code == 0x00 {
        CartridgeType::RomOnly
    } else if code == 0x01 {
        CartridgeType::Mbc1 { has_ram: false, has_battery: false }
    } else if code == 0x02 {
        CartridgeType::Mbc1 { has_ram: true, has_battery: false }
    } else if code == 0x03 {
        CartridgeType::Mbc1 { has_ram: true, has_battery: true }
    } else if code == 0x05 {
        CartridgeType::Mbc2 { has_battery: false }
    } else if code == 0x06 {
        CartridgeType::Mbc2 { has_battery: true }
    } else if code == 0x08 {
        CartridgeType::RomRam { has_battery: false }
    } else if code == 0x09 {
        CartridgeType::RomRam { has_battery: true }
    } else if code == 0x0B {
        CartridgeType::Mmm01 { has_ram: false, has_battery: false }
    } else if code == 0x0C {
        CartridgeType::Mmm01 { has_ram: true, has_battery: false }
    } else if code == 0x0D {
        CartridgeType::Mmm01 { has_ram: true, has_battery: true }
    } else if code == 0x0F {
        CartridgeType::Mbc3 { has_timer: true, has_ram: false, has_battery: true }
    } else if code == 0x10 {
        CartridgeType::Mbc3 { has_timer: true, has_ram: true, has_battery: true }
    } else if code == 0x11 {
        CartridgeType::Mbc3 { has_timer: false, has_ram: false, has_battery: false }
    } else if code == 0x12 {
        CartridgeType::Mbc3 { has_timer: false, has_ram: true, has_battery: false }
    } else if code == 0x13 {
        CartridgeType::Mbc3 { has_timer: false, has_ram: true, has_battery: true }
    } else if code == 0x19 {
        CartridgeType::Mbc5 { has_ram: false, has_battery: false, has_rumble: false }
    } else if code == 0x1A {
        CartridgeType::Mbc5 { has_ram: true, has_battery: false, has_rumble: false }
    } else if code == 0x1B {
        CartridgeType::Mbc5 { has_ram: true, has_battery: true, has_rumble: false }
    } else if code == 0x1C {
        CartridgeType::Mbc5 { has_ram: false, has_battery: false, has_rumble: true }
    } else if code == 0x1D {
        CartridgeType::Mbc5 { has_ram: true, has_battery: false, has_rumble: true }
    } else if code == 0x1E {
        CartridgeType::Mbc5 { has_ram: true, has_battery: true, has_rumble: true }
    } else if code == 0x20 {
        CartridgeType::Mbc6
    } else if code == 0x22 {
        CartridgeType::Mbc7 { has_sensor: true, has_rumble: true, has_ram: true, has_battery: true }
    } else if code == 0xFC {
        CartridgeType::PocketCamera
    } else if code == 0xFD {
        CartridgeType::BandaiTama5
    } else if code == 0xFE {
        CartridgeType::HuC3
    } else if code == 0xFF {
        CartridgeType::HuC1 { has_ram: true, has_battery: true }
    } else {
        CartridgeType::Unsupported { code }
    }
}

impl CartridgeType {
    pub fn from_code(code: u8) -> (r: CartridgeType)
        ensures
            r == spec_cartridge_type(code),
    {
        match code {
            0x00 => CartridgeType::RomOnly,
            0x01 => CartridgeType::Mbc1 { has_ram: false, has_battery: false },
            0x02 => CartridgeType::Mbc1 { has_ram: true, has_battery: false },
            0x03 => CartridgeType::Mbc1 { has_ram: true, has_battery: true },
            0x05 => CartridgeType::Mbc2 { has_battery: false },
            0x06 => CartridgeType::Mbc2 { has_battery: true },
            0x08 => CartridgeType::RomRam { has_battery: false },
            0x09 => CartridgeType::RomRam { has_battery: true },
            0x0B => CartridgeType::Mmm01 { has_ram: false, has_battery: false },
            0x0C => CartridgeType::Mmm01 { has_ram: true, has_battery: false },
            0x0D => CartridgeType::Mmm01 { has_ram: true, has_battery: true },
            0x0F => CartridgeType::Mbc3 { has_timer: true, has_ram: false, has_battery: true },
            0x10 => CartridgeType::Mbc3 { has_timer: true, has_ram: true, has_battery: true },
            0x11 => CartridgeType::Mbc3 { has_timer: false, has_ram: false, has_battery: false },
            0x12 => CartridgeType::Mbc3 { has_timer: false, has_ram: true, has_battery: false },
            0x13 => CartridgeType::Mbc3 { has_timer: false, has_ram: true, has_battery: true },
            0x19 => CartridgeType::Mbc5 { has_ram: false, has_battery: false, has_rumble: false },
            0x1A => CartridgeType::Mbc5 { has_ram: true, has_battery: false, has_rumble: false },
            0x1B => CartridgeType::Mbc5 { has_ram: true, has_battery: true, has_rumble: false },
            0x1C => CartridgeType::Mbc5 { has_ram: false, has_battery: false, has_rumble: true },
            0x1D => CartridgeType::Mbc5 { has_ram: true, has_battery: false, has_rumble: true },
            0x1E => CartridgeType::Mbc5 { has_ram: true, has_battery: true, has_rumble: true },
            0x20 => CartridgeType::Mbc6,
            0x22 => CartridgeType::Mbc7 {
                has_sensor: true,
                has_rumble: true,
                has_ram: true,
                has_battery: true,
            },
            0xFC => CartridgeType::PocketCamera,
            0xFD => CartridgeType::BandaiTama5,
            0xFE => CartridgeType::HuC3,
            0xFF => CartridgeType::HuC1 { has_ram: true, has_battery: true },
            _ => CartridgeType::Unsupported { code },
        }
    }
}

/// The ROM size named by the header's size code; 0 for a code outside the
/// table (the original table stops at 8 MiB).
pub open spec fn spec_rom_size(id: u8) -> u32 {
    if id <= 0x08 {
        (0x8000int * vstd::arithmetic::power2::pow2(id as nat)) as u32
    } else {
        0
    }
}

/// The RAM size named by the header's size code; codes 0x00 and 0x01 name
/// no RAM, codes outside the table count as none.
pub open spec fn spec_ram_size(id: u8) -> u32 {
    if id == 0x02 {
        0x2000
    } else if id == 0x03 {
        0x8000
    } else if id == 0x04 {
        0x20000
    } else if id == 0x05 {
        0x10000
    } else {
        0
    }
}

pub fn rom_size_from_id(id: u8) -> (r: u32)
    ensures
        r == spec_rom_size(id),
{
    proof {
        vstd::arithmetic::power2::lemma2_to64();
    }
    if id == 0x00 {
        32 * 1024
    } else if id == 0x01 {
        64 * 1024
    } else if id == 0x02 {
        128 * 1024
    } else if id == 0x03 {
        256 * 1024
    } else if id == 0x04 {
        512 * 1024
    } else if id == 0x05 {
        1024 * 1024
    } else if id == 0x06 {
        2 * 1024 * 1024
    } else if id == 0x07 {
        4 * 1024 * 1024
    } else if id == 0x08 {
        8 * 1024 * 1024
    } else {
        0
    }
}

pub fn ram_size_from_id(id: u8) -> (r: u32)
    ensures
        r == spec_ram_size(id),
{
    if id == 0x02 {
        8 * 1024
    } else if id == 0x03 {
        32 * 1024
    } else if id == 0x04 {
        128 * 1024
    } else if id == 0x05 {
        64 * 1024
    } else {
        0
    }
}

/// The prefix of `b` before its first NUL byte, or all of `b` when it has
/// none.
pub open spec fn spec_before_nul(b: Seq<u8>) -> Seq<u8>
    decreases b.len(),
{
    if b.len() == 0 {
        b
    } else if b[0] == 0 {
        Seq::empty()
    } else {
        seq![b[0]] + spec_before_nul(b.subrange(1, b.len() as int))
    }
}

/// The title bytes of the header: offsets 0x134..=0x143, up to the first
/// NUL.
pub open spec fn spec_title(rom: Seq<u8>) -> Seq<u8> {
    spec_before_nul(rom.subrange(0x134, 0x144))
}

/// The new-licensee bytes of the header: offsets 0x144..=0x145, up to the
/// first NUL.
pub open spec fn spec_new_licensee(rom: Seq<u8>) -> Seq<u8> {
    spec_before_nul(rom.subrange(0x144, 0x146))
}

/// The sum of the header bytes 0x134..<`end`.
pub open spec fn spec_header_sum(rom: Seq<u8>, end: int) -> int
    decreases end,
{
    if end <= 0x134 {
        0
    } else {
        spec_header_sum(rom, end - 1) + rom[end - 1]
    }
}

/// The header checksum: the byte at 0x14D must equal
/// `(-sum - 15) mod 256`, the sum taken over the bytes 0x134..=0x14C.
pub open spec fn spec_header_checksum(rom: Seq<u8>) -> u8 {
    ((0 - spec_header_sum(rom, 0x14D) - 15) % 256) as u8
}

/// Compute the header checksum of a ROM image: starting from
/// `(-15) mod 256`, subtract each header byte with wraparound.
pub fn compute_header_checksum(rom: &Vec<u8>) -> (r: u8)
    requires
        rom@.len() > HEADER_END,
    ensures
        r == spec_header_checksum(rom@),
{
    let mut c: u8 = 0xF1;
    let mut i: usize = 0x134;
    while i < 0x14D
        invariant
            0x134 <= i <= 0x14D,
            rom@.len() > 0x14F,
            c == (0xF1 - spec_header_sum(rom@, i as int)) % 256,
        decreases 0x14D - i,
    {
        let ghost s = spec_header_sum(rom@, i as int);
        let b = rom[i];
        c = crate::bits::wsub8(c, b);
        proof {
            vstd::arithmetic::div_mod::lemma_sub_mod_noop(0xF1 - s, b as int, 256);
            assert((b as int) % 256 == b);
            assert(c == (0xF1 - s - b) % 256);
        }
        i = i + 1;
    }
    proof {
        vstd::arithmetic::div_mod::lemma_mod_multiples_vanish(
            1,
            0 - spec_header_sum(rom@, 0x14D) - 15,
            256,
        );
    }
    c
}

/// The prefix of the bytes `rom[start..end]` before the first NUL.
pub fn ascii_from_bytes(rom: &Vec<u8>, start: usize, end: usize) -> (r: Vec<u8>)
    requires
        start <= end <= rom@.len(),
    ensures
        r@ == spec_before_nul(rom@.subrange(start as int, end as int)),
{
    let mut out: Vec<u8> = Vec::new();
    let mut i: usize = start;
    let ghost whole = rom@.subrange(start as int, end as int);
    while i < end
        invariant
            start <= i <= end <= rom@.len(),
            whole == rom@.subrange(start as int, end as int),
            out@ == rom@.subrange(start as int, i as int),
            forall|j: int| start <= j < i ==> rom@[j] != 0,
            spec_before_nul(whole) == out@ + spec_before_nul(
                rom@.subrange(i as int, end as int),
            ),
        decreases end - i,
    {
        let b = rom[i];
        proof {
            let rest = rom@.subrange(i as int, end as int);
            assert(rest.len() > 0);
            assert(rest[0] == rom@[i as int]);
            if b != 0 {
                assert(rest.subrange(1, rest.len() as int) =~= rom@.subrange(
                    i + 1,
                    end as int,
                ));
                assert(spec_before_nul(rest) == seq![b] + spec_before_nul(
                    rom@.subrange(i + 1, end as int),
                ));
            }
        }
        if b == 0 {
            proof {
                assert(out@ + Seq::<u8>::empty() =~= out@);
            }
            return out;
        }
        out.push(b);
        proof {
            assert(out@ =~= rom@.subrange(start as int, i + 1));
            assert((rom@.subrange(start as int, i as int) + seq![b]) + spec_before_nul(
                rom@.subrange(i + 1, end as int),
            ) =~= rom@.subrange(start as int, i as int) + (seq![b] + spec_before_nul(
                rom@.subrange(i + 1, end as int),
            )));
        }
        i = i + 1;
    }
    proof {
        assert(rom@.subrange(end as int, end as int) =~= Seq::<u8>::empty());
        assert(out@ + Seq::<u8>::empty() =~= out@);
    }
    out
}

/// The parsed header fields.
pub struct CartHeader {
    /// Title bytes (ASCII, up to the first NUL).
    pub title: Vec<u8>,
    pub cgb_flag: u8,
    pub new_licensee_code: Vec<u8>,
    pub sgb_flag: u8,
    pub cartridge_type: CartridgeType,
    pub rom_size: u32,
    pub ram_size: u32,
    pub destination_code: u8,
    pub old_licensee_code: u8,
    pub mask_rom_version: u8,
    pub header_checksum: u8,
    pub computed_header_checksum: u8,
    pub global_checksum: u16,
}

/// Mathematical model of a parsed header.
pub struct CartHeaderView {
    pub title: Seq<u8>,
    pub cgb_flag: u8,
    pub new_licensee_code: Seq<u8>,
    pub sgb_flag: u8,
    pub cartridge_type: CartridgeType,
    pub rom_size: u32,
    pub ram_size: u32,
    pub destination_code: u8,
    pub old_licensee_code: u8,
    pub mask_rom_version: u8,
    pub header_checksum: u8,
    pub computed_header_checksum: u8,
    pub global_checksum: u16,
}

impl View for CartHeader {
    type V = CartHeaderView;

    open spec fn view(&self) -> CartHeaderView {
        CartHeaderView {
            title: self.title@,
            cgb_flag: self.cgb_flag,
            new_licensee_code: self.new_licensee_code@,
            sgb_flag: self.sgb_flag,
            cartridge_type: self.cartridge_type,
            rom_size: self.rom_size,
            ram_size: self.ram_size,
            destination_code: self.destination_code,
            old_licensee_code: self.old_licensee_code,
            mask_rom_version: self.mask_rom_version,
            header_checksum: self.header_checksum,
            computed_header_checksum: self.computed_header_checksum,
            global_checksum: self.global_checksum,
        }
    }
}

/// The header parsed from a ROM image that covers it.
pub open spec fn spec_parse_header(rom: Seq<u8>) -> CartHeaderView {
    CartHeaderView {
        title: spec_title(rom),
        cgb_flag: rom[0x143],
        new_licensee_code: spec_new_licensee(rom),
        sgb_flag: rom[0x146],
        cartridge_type: spec_cartridge_type(rom[0x147]),
        rom_size: spec_rom_size(rom[0x148]),
        ram_size: spec_ram_size(rom[0x149]),
        destination_code: rom[0x14A],
        old_licensee_code: rom[0x14B],
        mask_rom_version: rom[0x14C],
        header_checksum: rom[0x14D],
        computed_header_checksum: spec_header_checksum(rom),
        global_checksum: (rom[0x14E] * 0x100 + rom[0x14F]) as u16,
    }
}

#[derive(Debug)]
pub enum CartError {
    RomTooSmall { len: usize },
}

impl CartHeader {
    /// Parse the header. An image shorter than 0x150 bytes is rejected;
    /// a checksum mismatch is recorded in the header, not an error.
    pub fn parse(rom: &Vec<u8>) -> (r: Result<CartHeader, CartError>)
        ensures
            (match r {
                Ok(h) => rom@.len() > HEADER_END && h@ == spec_parse_header(rom@),
                Err(e) => rom@.len() <= HEADER_END && e == (CartError::RomTooSmall {
                    len: rom@.len() as usize,
                }),
            }),
    {
        if rom.len() <= HEADER_END {
            return Err(CartError::RomTooSmall { len: rom.len() });
        }

        let title = ascii_from_bytes(rom, 0x134, 0x144);
        let new_licensee_code = ascii_from_bytes(rom, 0x144, 0x146);

        Ok(CartHeader {
            title,
            cgb_flag: rom[0x143],
            new_licensee_code,
            sgb_flag: rom[0x146],
            cartridge_type: CartridgeType::from_code(rom[0x147]),
            rom_size: rom_size_from_id(rom[0x148]),
            ram_size: ram_size_from_id(rom[0x149]),
            destination_code: rom[0x14A],
            old_licensee_code: rom[0x14B],
            mask_rom_version: rom[0x14C],
            header_checksum: rom[0x14D],
            computed_header_checksum: compute_header_checksum(rom),
            global_checksum: crate::bits::word(rom[0x14E], rom[0x14F]),
        })
    }
}

pub struct Cart {
    pub header: CartHeader,
    pub controller: MemoryController,
}

/// Mathematical model of a cartridge.
pub struct CartView {
    pub header: CartHeaderView,
    pub controller: ControllerView,
}

impl View for Cart {
    type V = CartView;

    open spec fn view(&self) -> CartView {
        CartView { header: self.header@, controller: self.controller@ }
    }
}

/// The bank controller built for a parsed header: the implemented types get
/// their controller, everything else the placeholder whose accesses are
/// fatal.
pub open spec fn spec_controller_for(
    rom: Seq<u8>,
    ram_size: u32,
    ty: CartridgeType,
    save_data: Option<Seq<u8>>,
) -> ControllerView {
    match ty {
        CartridgeType::RomOnly => ControllerView::RomOnly(
            crate::mbc::rom_only::RomOnlyView {
                rom,
                eram: Seq::new(ram_size as nat, |i: int| 0u8),
            },
        ),
        CartridgeType::Mbc1 { has_ram, has_battery } => ControllerView::Mbc1(
            crate::mbc::mbc1::Mbc1View {
                rom,
                ram: crate::mbc::spec_restore_ram(save_data, ram_size as nat),
                has_ram,
                has_battery,
                ram_enable: false,
                rom_bank: 0,
                ram_bank_or_upper_rom: 0,
                banking_mode: 0,
            },
        ),
        CartridgeType::Mbc2 { has_battery } => ControllerView::Mbc2(
            crate::mbc::mbc2::Mbc2View {
                rom,
                ram: crate::mbc::spec_restore_ram(save_data, 0x200),
                has_battery,
                ram_enable: false,
                rom_bank: 0,
            },
        ),
        CartridgeType::Mbc3 { has_timer, has_ram, has_battery } => ControllerView::Mbc3(
            spec_mbc3_for(rom, ram_size, has_timer, has_ram, has_battery, save_data),
        ),
        _ => ControllerView::Missing,
    }
}

/// The restored type-3 controller (see `Mbc3::new`).
pub open spec fn spec_mbc3_for(
    rom: Seq<u8>,
    ram_size: u32,
    has_timer: bool,
    has_ram: bool,
    has_battery: bool,
    save_data: Option<Seq<u8>>,
) -> crate::mbc::mbc3::Mbc3View {
    let restored_rtc = (match save_data {
        Some(d) => if has_timer && d.len() == ram_size + crate::mbc::mbc3::RTC_SAVE_LEN {
            Some(crate::mbc::mbc3::spec_rtc_from_bytes(d.subrange(ram_size as int, d.len() as int)))
        } else if has_timer {
            Some(crate::mbc::rtc::RTC::spec_init(0))
        } else {
            None
        },
        None => if has_timer {
            Some(crate::mbc::rtc::RTC::spec_init(0))
        } else {
            None
        },
    });
    let restored_ram = (match save_data {
        Some(d) => if has_timer && d.len() == ram_size + crate::mbc::mbc3::RTC_SAVE_LEN {
            d.subrange(0, ram_size as int)
        } else {
            crate::mbc::spec_restore_ram(Some(d), ram_size as nat)
        },
        None => Seq::new(ram_size as nat, |i: int| 0u8),
    });
    crate::mbc::mbc3::Mbc3View {
        rom,
        ram: restored_ram,
        has_ram,
        has_battery,
        has_timer,
        ram_timer_enable: false,
        rom_bank: 1,
        ram_bank_rtc_register: 0,
        rtc: restored_rtc,
    }
}

impl Cart {
    /// Parse a ROM image and build the matching bank controller, restoring
    /// persisted battery-backed contents.
    pub fn from_bytes(rom: Vec<u8>, save_data: Option<Vec<u8>>) -> (r: Result<Cart, CartError>)
        ensures
            (match r {
                Ok(c) => {
                    &&& rom@.len() > HEADER_END
                    &&& c@.header == spec_parse_header(rom@)
                    &&& c@.controller == spec_controller_for(
                        rom@,
                        spec_ram_size(rom@[0x149]),
                        spec_cartridge_type(rom@[0x147]),
                        match save_data {
                            Some(d) => Some(d@),
                            None => None,
                        },
                    )
                    &&& c@.inv()
                },
                Err(e) => rom@.len() <= HEADER_END && e == (CartError::RomTooSmall {
                    len: rom@.len() as usize,
                }),
            }),
    {
        let header = match CartHeader::parse(&rom) {
            Ok(h) => h,
            Err(e) => {
                return Err(e);
            },
        };

        let controller: MemoryController = match header.cartridge_type {
            CartridgeType::RomOnly => MemoryController::RomOnly(
                RomOnly::new(rom, header.ram_size),
            ),
            CartridgeType::Mbc1 { has_ram, has_battery } => MemoryController::Mbc1(
                Mbc1::new(rom, header.ram_size, has_ram, has_battery, save_data),
            ),
            CartridgeType::Mbc2 { has_battery } => MemoryController::Mbc2(
                Mbc2::new(rom, has_battery, save_data),
            ),
            CartridgeType::Mbc3 { has_timer, has_ram, has_battery } => MemoryController::Mbc3(
                Mbc3::new(rom, header.ram_size, has_ram, has_battery, has_timer, save_data),
            ),
            _ => MemoryController::Missing(Missing),
        };

        Ok(Cart { header, controller })
    }

    pub fn rb(&self, addr: u16) -> (r: u8)
        requires
            self@.inv(),
            self@.supported(),
            addr < 0x8000 || (0xA000 <= addr < 0xC000),
        ensures
            r == self@.controller.rb(addr),
    {
        self.controller.rb(addr)
    }

    pub fn wb(&mut self, addr: u16, value: u8)
        requires
            old(self)@.inv(),
            old(self)@.supported(),
            addr < 0x8000 || (0xA000 <= addr < 0xC000),
        ensures
            final(self)@.header == old(self)@.header,
            final(self)@.controller == old(self)@.controller.wb(addr, value),
            final(self)@.inv(),
            final(self)@.supported(),
    {
        self.controller.wb(addr, value)
    }

    /// A byte of the flat ROM image, which no operation modifies after
    /// construction; the bank mapping plays no part here.
    pub fn read_rom(&self, addr: u16) -> (r: u8)
        requires
            self@.supported(),
            (addr as int) < self@.controller.rom_image().len(),
        ensures
            r == self@.controller.rom_image()[addr as int],
    {
        self.controller.read_image(addr)
    }

    pub fn save(&self) -> (r: Option<Vec<u8>>)
        requires
            self@.inv(),
        ensures
            (match r {
                Some(d) => self@.controller.save() == Some(d@),
                None => self@.controller.save() is None,
            }),
    {
        self.controller.save()
    }

    /// The title bytes from the header.
    pub fn get_title(&self) -> (r: Vec<u8>)
        ensures
            r@ == self@.header.title,
    {
        self.header.title.clone()
    }

    /// Hand the host's current timestamp to the cartridge clock, if any.
    pub fn set_now(&mut self, now: u64)
        requires
            old(self)@.inv(),
        ensures
            final(self)@ == (CartView {
                controller: old(self)@.controller.spec_set_now(now),
                ..old(self)@
            }),
            final(self)@.inv(),
            final(self)@.supported() == old(self)@.supported(),
    {
        self.controller.set_now(now);
    }
}

impl CartView {
    pub open spec fn inv(self) -> bool {
        self.controller.inv()
    }

    pub open spec fn supported(self) -> bool {
        self.controller.supported()
    }
}

} // verus!
