//! The type-1 bank controller: a 5-bit low ROM-bank register, a 2-bit
//! register that either extends the ROM bank or selects a RAM bank, and a
//! mode bit choosing between the two uses.

use vstd::prelude::*;

use crate::mbc::restore_ram;

verus! {

pub struct Mbc1 {
    pub rom: Vec<u8>,
    pub ram: Vec<u8>,
    pub has_ram: bool,
    pub has_battery: bool,
    /// RAM access is latched open by writing the magic nibble 0xA.
    pub ram_enable: bool,
    /// Low five bits of the selected ROM bank.
    pub rom_bank: u8,
    /// Two-bit register: upper ROM-bank bits or RAM bank, by mode.
    pub ram_bank_or_upper_rom: u8,
    /// 0: the two upper bits extend the ROM bank; 1: they select a RAM bank
    /// and extend the bank visible at 0x0000..=0x3FFF.
    pub banking_mode: u8,
}

/// Mathematical model of a type-1 controller.
pub struct Mbc1View {
    pub rom: Seq<u8>,
    pub ram: Seq<u8>,
    pub has_ram: bool,
    pub has_battery: bool,
    pub ram_enable: bool,
    pub rom_bank: u8,
    pub ram_bank_or_upper_rom: u8,
    pub banking_mode: u8,
}

impl View for Mbc1 {
    type V = Mbc1View;

    open spec fn view(&self) -> Mbc1View {
        Mbc1View {
            rom: self.rom@,
            ram: self.ram@,
            has_ram: self.has_ram,
            has_battery: self.has_battery,
            ram_enable: self.ram_enable,
            rom_bank: self.rom_bank,
            ram_bank_or_upper_rom: self.ram_bank_or_upper_rom,
            banking_mode: self.banking_mode,
        }
    }
}

impl Mbc1View {
    pub open spec fn inv(self) -> bool {
        &&& self.rom_bank < 0x20
        &&& self.ram_bank_or_upper_rom < 4
        &&& self.banking_mode < 2
    }

    /// The ROM bank mapped at 0x4000..=0x7FFF: the two upper bits always
    /// extend the low register, and bank 0 aliases to bank 1.
    pub open spec fn selected_rom_bank(self) -> int {
        self.ram_bank_or_upper_rom * 32 + (if self.rom_bank == 0 {
            1int
        } else {
            self.rom_bank as int
        })
    }

    /// The ROM bank mapped at 0x0000..=0x3FFF: bank 0, extended by the two
    /// upper bits in mode 1.
    pub open spec fn selected_low_rom_bank(self) -> int {
        if self.banking_mode == 1 {
            self.ram_bank_or_upper_rom * 32
        } else {
            0
        }
    }

    /// The RAM bank mapped at 0xA000..=0xBFFF: bank 0 in mode 0.
    pub open spec fn selected_ram_bank(self) -> int {
        if self.banking_mode == 1 {
            self.ram_bank_or_upper_rom as int
        } else {
            0
        }
    }

    /// A ROM byte; offsets the image does not cover read as 0xFF.
    pub open spec fn rom_byte(self, idx: int) -> u8 {
        if 0 <= idx < self.rom.len() {
            self.rom[idx]
        } else {
            0xFF
        }
    }

    pub open spec fn rb(self, addr: u16) -> u8 {
        if addr < 0x4000 {
            self.rom_byte(self.selected_low_rom_bank() * 0x4000 + addr)
        } else if addr < 0x8000 {
            self.rom_byte(self.selected_rom_bank() * 0x4000 + (addr - 0x4000))
        } else {
            if !self.has_ram || !self.ram_enable {
                0xFF
            } else {
                let idx = self.selected_ram_bank() * 0x2000 + (addr - 0xA000);
                if idx < self.ram.len() {
                    self.ram[idx]
                } else {
                    0xFF
                }
            }
        }
    }

    pub open spec fn wb(self, addr: u16, value: u8) -> Mbc1View {
        if addr < 0x2000 {
            Mbc1View { ram_enable: value % 16 == 0x0A, ..self }
        } else if addr < 0x4000 {
            Mbc1View { rom_bank: (value % 0x20) as u8, ..self }
        } else if addr < 0x6000 {
            Mbc1View { ram_bank_or_upper_rom: (value % 4) as u8, ..self }
        } else if addr < 0x8000 {
            Mbc1View { banking_mode: (value % 2) as u8, ..self }
        } else {
            if self.has_ram && self.ram_enable {
                let idx = self.selected_ram_bank() * 0x2000 + (addr - 0xA000);
                if 0 <= idx < self.ram.len() {
                    Mbc1View { ram: self.ram.update(idx, value), ..self }
                } else {
                    self
                }
            } else {
                self
            }
        }
    }

    pub open spec fn save(self) -> Option<Seq<u8>> {
        if self.has_battery {
            Some(self.ram)
        } else {
            None
        }
    }
}

impl Mbc1 {
    pub fn new(
        rom: Vec<u8>,
        ram_size: u32,
        has_ram: bool,
        has_battery: bool,
        save_data: Option<Vec<u8>>,
    ) -> (r: Mbc1)
        ensures
            r@ == (Mbc1View {
                rom: rom@,
                ram: crate::mbc::spec_restore_ram(
                    match save_data {
                        Some(d) => Some(d@),
                        None => None,
                    },
                    ram_size as nat,
                ),
                has_ram,
                has_battery,
                ram_enable: false,
                rom_bank: 0,
                ram_bank_or_upper_rom: 0,
                banking_mode: 0,
            }),
            r@.inv(),
    {
        Mbc1 {
            rom,
            ram: restore_ram(save_data, ram_size as usize),
            has_ram,
            has_battery,
            ram_enable: false,
            rom_bank: 0,
            ram_bank_or_upper_rom: 0,
            banking_mode: 0,
        }
    }

    fn rom_byte(&self, idx: usize) -> (r: u8)
        ensures
            r == self@.rom_byte(idx as int),
    {
        if idx < self.rom.len() {
            self.rom[idx]
        } else {
            0xFF
        }
    }

    pub fn rb(&self, addr: u16) -> (r: u8)
        requires
            self@.inv(),
            addr < 0x8000 || (0xA000 <= addr < 0xC000),
        ensures
            r == self@.rb(addr),
    {
        if addr < 0x4000 {
            let bank: usize = if self.banking_mode == 1 {
                self.ram_bank_or_upper_rom as usize * 32
            } else {
                0
            };
            self.rom_byte(bank * 0x4000 + addr as usize)
        } else if addr < 0x8000 {
            let low: usize = if self.rom_bank == 0 {
                1
            } else {
                self.rom_bank as usize
            };
            let bank: usize = self.ram_bank_or_upper_rom as usize * 32 + low;
            self.rom_byte(bank * 0x4000 + (addr - 0x4000) as usize)
        } else {
            if !self.has_ram || !self.ram_enable {
                0xFF
            } else {
                let bank: usize = if self.banking_mode == 1 {
                    self.ram_bank_or_upper_rom as usize
                } else {
                    0
                };
                let idx: usize = bank * 0x2000 + (addr - 0xA000) as usize;
                if idx < self.ram.len() {
                    self.ram[idx]
                } else {
                    0xFF
                }
            }
        }
    }

    pub fn wb(&mut self, addr: u16, value: u8)
        requires
            old(self)@.inv(),
            addr < 0x8000 || (0xA000 <= addr < 0xC000),
        ensures
            final(self)@ == old(self)@.wb(addr, value),
            final(self)@.inv(),
    {
        if addr < 0x2000 {
            self.ram_enable = value % 16 == 0x0A;
        } else if addr < 0x4000 {
            self.rom_bank = value % 0x20;
        } else if addr < 0x6000 {
            self.ram_bank_or_upper_rom = value % 4;
        } else if addr < 0x8000 {
            self.banking_mode = value % 2;
        } else {
            if self.has_ram && self.ram_enable {
                let bank: usize = if self.banking_mode == 1 {
                    self.ram_bank_or_upper_rom as usize
                } else {
                    0
                };
                let idx: usize = bank * 0x2000 + (addr - 0xA000) as usize;
                if idx < self.ram.len() {
                    self.ram.set(idx, value);
                }
            }
        }
    }

    pub fn save(&self) -> (r: Option<Vec<u8>>)
        ensures
            (match r {
                Some(d) => self@.save() == Some(d@),
                None => self@.save() is None,
            }),
    {
        if self.has_battery {
            Some(self.ram.clone())
        } else {
            None
        }
    }
}

} // verus!
