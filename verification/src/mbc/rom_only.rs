//! The plain cartridge: unbanked ROM, optional fixed RAM, no battery.

use vstd::prelude::*;

verus! {

pub struct RomOnly {
    pub rom: Vec<u8>,
    pub eram: Vec<u8>,
}

/// Mathematical model of a plain cartridge.
pub struct RomOnlyView {
    pub rom: Seq<u8>,
    pub eram: Seq<u8>,
}

impl View for RomOnly {
    type V = RomOnlyView;

    open spec fn view(&self) -> RomOnlyView {
        RomOnlyView { rom: self.rom@, eram: self.eram@ }
    }
}

impl RomOnlyView {
    pub open spec fn inv(self) -> bool {
        true
    }

    /// ROM below 0x8000, RAM mirrored at 0xA000; bytes the image does not
    /// cover read as 0xFF.
    pub open spec fn rb(self, addr: u16) -> u8 {
        if addr < 0x8000 {
            if addr < self.rom.len() {
                self.rom[addr as int]
            } else {
                0xFF
            }
        } else {
            let i = addr - 0xA000;
            if i < self.eram.len() {
                self.eram[i as int]
            } else {
                0xFF
            }
        }
    }

    /// ROM writes are ignored; RAM writes out of range are ignored.
    pub open spec fn wb(self, addr: u16, value: u8) -> RomOnlyView {
        if addr < 0x8000 {
            self
        } else {
            let i = addr - 0xA000;
            if i < self.eram.len() {
                RomOnlyView { eram: self.eram.update(i as int, value), ..self }
            } else {
                self
            }
        }
    }

    /// No battery: nothing persists.
    pub open spec fn save(self) -> Option<Seq<u8>> {
        None
    }
}

impl RomOnly {
    pub fn new(rom: Vec<u8>, ram_size: u32) -> (r: RomOnly)
        ensures
            r@.rom == rom@,
            r@.eram == Seq::new(ram_size as nat, |i: int| 0u8),
            r@.inv(),
    {
        RomOnly { rom, eram: crate::bits::zero_bytes(ram_size as usize) }
    }

    pub fn rb(&self, addr: u16) -> (r: u8)
        requires
            addr < 0x8000 || (0xA000 <= addr < 0xC000),
        ensures
            r == self@.rb(addr),
    {
        if addr < 0x8000 {
            if (addr as usize) < self.rom.len() {
                self.rom[addr as usize]
            } else {
                0xFF
            }
        } else {
            let i = (addr - 0xA000) as usize;
            if i < self.eram.len() {
                self.eram[i]
            } else {
                0xFF
            }
        }
    }

    pub fn wb(&mut self, addr: u16, value: u8)
        requires
            addr < 0x8000 || (0xA000 <= addr < 0xC000),
        ensures
            final(self)@ == old(self)@.wb(addr, value),
    {
        if addr >= 0xA000 {
            let i = (addr - 0xA000) as usize;
            if i < self.eram.len() {
                self.eram.set(i, value);
            }
        }
    }

    pub fn save(&self) -> (r: Option<Vec<u8>>)
        ensures
            r is None,
    {
        None
    }
}

} // verus!
