//! The type-2 bank controller: a 4-bit ROM-bank register and a built-in
//! 512-entry half-byte RAM mirrored through the external-RAM window. Bit 8
//! of a control write's address selects between RAM enable and bank select.

use vstd::prelude::*;

use crate::mbc::restore_ram;

verus! {

pub struct Mbc2 {
    pub rom: Vec<u8>,
    /// 512 half-byte cells; the upper nibble of every stored byte reads 1.
    pub ram: Vec<u8>,
    pub has_battery: bool,
    pub ram_enable: bool,
    pub rom_bank: u8,
}

/// Mathematical model of a type-2 controller.
pub struct Mbc2View {
    pub rom: Seq<u8>,
    pub ram: Seq<u8>,
    pub has_battery: bool,
    pub ram_enable: bool,
    pub rom_bank: u8,
}

impl View for Mbc2 {
    type V = Mbc2View;

    open spec fn view(&self) -> Mbc2View {
        Mbc2View {
            rom: self.rom@,
            ram: self.ram@,
            has_battery: self.has_battery,
            ram_enable: self.ram_enable,
            rom_bank: self.rom_bank,
        }
    }
}

impl Mbc2View {
    pub open spec fn inv(self) -> bool {
        &&& self.ram.len() == 0x200
        &&& self.rom_bank < 0x10
    }

    pub open spec fn rom_byte(self, idx: int) -> u8 {
        if 0 <= idx < self.rom.len() {
            self.rom[idx]
        } else {
            0xFF
        }
    }

    /// The index into the built-in RAM: the window 0xA000..=0xBFFF echoes
    /// the 512 cells.
    pub open spec fn ram_index(addr: u16) -> int {
        (addr - 0xA000) % 0x200
    }

    pub open spec fn rb(self, addr: u16) -> u8 {
        if addr < 0x4000 {
            self.rom_byte(addr as int)
        } else if addr < 0x8000 {
            self.rom_byte(self.rom_bank * 0x4000 + (addr - 0x4000))
        } else {
            if self.ram_enable {
                self.ram[Mbc2View::ram_index(addr)] | 0xF0
            } else {
                0xFF
            }
        }
    }

    pub open spec fn wb(self, addr: u16, value: u8) -> Mbc2View {
        if addr < 0x4000 {
            if addr & 0x100 != 0 {
                Mbc2View {
                    rom_bank: (if value % 0x10 == 0 {
                        1u8
                    } else {
                        (value % 0x10) as u8
                    }),
                    ..self
                }
            } else {
                Mbc2View { ram_enable: value % 0x10 == 0x0A, ..self }
            }
        } else if addr < 0x8000 {
            self
        } else {
            if self.ram_enable && self.ram.len() == 0x200 {
                Mbc2View { ram: self.ram.update(Mbc2View::ram_index(addr), value | 0xF0), ..self }
            } else {
                self
            }
        }
    }

    pub open spec fn save(self) -> Option<Seq<u8>> {
        if self.has_battery {
            Some(self.ram)
        } else {
            None
        }
    }
}

impl Mbc2 {
    pub fn new(rom: Vec<u8>, has_battery: bool, save_data: Option<Vec<u8>>) -> (r: Mbc2)
        ensures
            r@ == (Mbc2View {
                rom: rom@,
                ram: crate::mbc::spec_restore_ram(
                    match save_data {
                        Some(d) => Some(d@),
                        None => None,
                    },
                    0x200,
                ),
                has_battery,
                ram_enable: false,
                rom_bank: 0,
            }),
            r@.inv(),
    {
        Mbc2 { rom, ram: restore_ram(save_data, 0x200), has_battery, ram_enable: false, rom_bank: 0 }
    }

    fn rom_byte(&self, idx: usize) -> (r: u8)
        ensures
            r == self@.rom_byte(idx as int),
    {
        if idx < self.rom.len() {
            self.rom[idx]
        } else {
            0xFF
        }
    }

    pub fn rb(&self, addr: u16) -> (r: u8)
        requires
            self@.inv(),
            addr < 0x8000 || (0xA000 <= addr < 0xC000),
        ensures
            r == self@.rb(addr),
    {
        if addr < 0x4000 {
            self.rom_byte(addr as usize)
        } else if addr < 0x8000 {
            self.rom_byte(self.rom_bank as usize * 0x4000 + (addr - 0x4000) as usize)
        } else {
            if self.ram_enable {
                self.ram[((addr - 0xA000) % 0x200) as usize] | 0xF0
            } else {
                0xFF
            }
        }
    }

    pub fn wb(&mut self, addr: u16, value: u8)
        requires
            old(self)@.inv(),
            addr < 0x8000 || (0xA000 <= addr < 0xC000),
        ensures
            final(self)@ == old(self)@.wb(addr, value),
            final(self)@.inv(),
    {
        if addr < 0x4000 {
            if addr & 0x100 != 0 {
                self.rom_bank = if value % 0x10 == 0 {
                    1
                } else {
                    value % 0x10
                };
            } else {
                self.ram_enable = value % 0x10 == 0x0A;
            }
        } else if addr < 0x8000 {
        } else {
            if self.ram_enable {
                self.ram.set(((addr - 0xA000) % 0x200) as usize, value | 0xF0);
            }
        }
    }

    pub fn save(&self) -> (r: Option<Vec<u8>>)
        ensures
            (match r {
                Some(d) => self@.save() == Some(d@),
                None => self@.save() is None,
            }),
    {
        if self.has_battery {
            Some(self.ram.clone())
        } else {
            None
        }
    }
}

} // verus!
