//! The cartridge bank controllers: the in-cartridge logic that maps the
//! 16-bit external bus onto a larger ROM/RAM image.
//!
//! Five variants exist: plain ROM, type 1, type 2, type 3 (with an optional
//! real-time clock) and the placeholder for unsupported cartridge types,
//! whose accesses are ruled out by precondition.

pub mod mbc1;
pub mod mbc2;
pub mod mbc3;
pub mod rom_only;
pub mod rtc;

use vstd::prelude::*;

use crate::bits::zero_bytes;
use crate::mbc::mbc1::{Mbc1, Mbc1View};
use crate::mbc::mbc2::{Mbc2, Mbc2View};
use crate::mbc::mbc3::{Mbc3, Mbc3View};
use crate::mbc::rom_only::{RomOnly, RomOnlyView};

verus! {

/// Placeholder for an unsupported cartridge type; any access to it is a
/// fatal error, so the bus contracts exclude it.
pub struct Missing;

pub enum MemoryController {
    RomOnly(RomOnly),
    Mbc1(Mbc1),
    Mbc2(Mbc2),
    Mbc3(Mbc3),
    Missing(Missing),
}

/// Mathematical model of a bank controller.
pub enum ControllerView {
    RomOnly(RomOnlyView),
    Mbc1(Mbc1View),
    Mbc2(Mbc2View),
    Mbc3(Mbc3View),
    Missing,
}

impl View for MemoryController {
    type V = ControllerView;

    open spec fn view(&self) -> ControllerView {
        match self {
            MemoryController::RomOnly(c) => ControllerView::RomOnly(c@),
            MemoryController::Mbc1(c) => ControllerView::Mbc1(c@),
            MemoryController::Mbc2(c) => ControllerView::Mbc2(c@),
            MemoryController::Mbc3(c) => ControllerView::Mbc3(c@),
            MemoryController::Missing(_) => ControllerView::Missing,
        }
    }
}

/// The restored RAM image: persisted bytes are taken over only when they
/// match the expected size, otherwise the RAM starts zeroed.
pub open spec fn spec_restore_ram(save_data: Option<Seq<u8>>, size: nat) -> Seq<u8> {
    match save_data {
        Some(d) => if d.len() == size {
            d
        } else {
            Seq::new(size, |i: int| 0u8)
        },
        None => Seq::new(size, |i: int| 0u8),
    }
}

/// Build a RAM image of `size` bytes from optionally persisted contents.
pub fn restore_ram(save_data: Option<Vec<u8>>, size: usize) -> (r: Vec<u8>)
    ensures
        r@ == spec_restore_ram(
            match save_data {
                Some(d) => Some(d@),
                None => None,
            },
            size as nat,
        ),
        r@.len() == size,
{
    match save_data {
        Some(d) => {
            if d.len() == size {
                d
            } else {
                zero_bytes(size)
            }
        },
        None => zero_bytes(size),
    }
}

impl ControllerView {
    /// Whether the cartridge type is one the emulator implements.
    pub open spec fn supported(self) -> bool {
        !(self is Missing)
    }

    /// Structural validity of the controller state.
    pub open spec fn inv(self) -> bool {
        match self {
            ControllerView::RomOnly(c) => c.inv(),
            ControllerView::Mbc1(c) => c.inv(),
            ControllerView::Mbc2(c) => c.inv(),
            ControllerView::Mbc3(c) => c.inv(),
            ControllerView::Missing => true,
        }
    }

    /// The byte the selected controller yields for `addr`.
    pub open spec fn rb(self, addr: u16) -> u8 {
        match self {
            ControllerView::RomOnly(c) => c.rb(addr),
            ControllerView::Mbc1(c) => c.rb(addr),
            ControllerView::Mbc2(c) => c.rb(addr),
            ControllerView::Mbc3(c) => c.rb(addr),
            ControllerView::Missing => 0xFF,
        }
    }

    /// The controller after a write to `addr`.
    pub open spec fn wb(self, addr: u16, value: u8) -> ControllerView {
        match self {
            ControllerView::RomOnly(c) => ControllerView::RomOnly(c.wb(addr, value)),
            ControllerView::Mbc1(c) => ControllerView::Mbc1(c.wb(addr, value)),
            ControllerView::Mbc2(c) => ControllerView::Mbc2(c.wb(addr, value)),
            ControllerView::Mbc3(c) => ControllerView::Mbc3(c.wb(addr, value)),
            ControllerView::Missing => ControllerView::Missing,
        }
    }

    /// The flat ROM image the controller was built around (empty for the
    /// unsupported-type placeholder, which stores nothing).
    pub open spec fn rom_image(self) -> Seq<u8> {
        match self {
            ControllerView::RomOnly(c) => c.rom,
            ControllerView::Mbc1(c) => c.rom,
            ControllerView::Mbc2(c) => c.rom,
            ControllerView::Mbc3(c) => c.rom,
            ControllerView::Missing => Seq::empty(),
        }
    }

    /// The controller after the host hands in the current timestamp: only
    /// a type-3 clock takes it, and only forward.
    pub open spec fn spec_set_now(self, now: u64) -> ControllerView {
        match self {
            ControllerView::Mbc3(c) => ControllerView::Mbc3(
                match c.rtc {
                    Some(rtc) => if now >= rtc.now {
                        Mbc3View { rtc: Some(crate::mbc::rtc::RTC { now, ..rtc }), ..c }
                    } else {
                        c
                    },
                    None => c,
                },
            ),
            _ => self,
        }
    }

    /// The persisted battery-backed contents, if the cartridge has any.
    pub open spec fn save(self) -> Option<Seq<u8>> {
        match self {
            ControllerView::RomOnly(c) => c.save(),
            ControllerView::Mbc1(c) => c.save(),
            ControllerView::Mbc2(c) => c.save(),
            ControllerView::Mbc3(c) => c.save(),
            ControllerView::Missing => None,
        }
    }
}

impl MemoryController {
    pub fn supported(&self) -> (r: bool)
        ensures
            r == self@.supported(),
    {
        match self {
            MemoryController::Missing(_) => false,
            _ => true,
        }
    }

    pub fn rb(&self, addr: u16) -> (r: u8)
        requires
            self@.inv(),
            self@.supported(),
            addr < 0x8000 || (0xA000 <= addr < 0xC000),
        ensures
            r == self@.rb(addr),
    {
        match self {
            MemoryController::RomOnly(c) => c.rb(addr),
            MemoryController::Mbc1(c) => c.rb(addr),
            MemoryController::Mbc2(c) => c.rb(addr),
            MemoryController::Mbc3(c) => c.rb(addr),
            MemoryController::Missing(_) => 0xFF,
        }
    }

    pub fn wb(&mut self, addr: u16, value: u8)
        requires
            old(self)@.inv(),
            old(self)@.supported(),
            addr < 0x8000 || (0xA000 <= addr < 0xC000),
        ensures
            final(self)@ == old(self)@.wb(addr, value),
            final(self)@.inv(),
            final(self)@.supported(),
    {
        match self {
            MemoryController::RomOnly(c) => c.wb(addr, value),
            MemoryController::Mbc1(c) => c.wb(addr, value),
            MemoryController::Mbc2(c) => c.wb(addr, value),
            MemoryController::Mbc3(c) => c.wb(addr, value),
            MemoryController::Missing(_) => {},
        }
    }

    pub fn save(&self) -> (r: Option<Vec<u8>>)
        requires
            self@.inv(),
        ensures
            (match r {
                Some(d) => self@.save() == Some(d@),
                None => self@.save() is None,
            }),
    {
        match self {
            MemoryController::RomOnly(c) => c.save(),
            MemoryController::Mbc1(c) => c.save(),
            MemoryController::Mbc2(c) => c.save(),
            MemoryController::Mbc3(c) => c.save(),
            MemoryController::Missing(_) => None,
        }
    }

    /// Hand the host's current timestamp to the cartridge clock, if any.
    pub fn set_now(&mut self, now: u64)
        requires
            old(self)@.inv(),
        ensures
            final(self)@ == old(self)@.spec_set_now(now),
            final(self)@.inv(),
            final(self)@.supported() == old(self)@.supported(),
    {
        match self {
            MemoryController::Mbc3(c) => c.set_now(now),
            _ => {},
        }
    }

    /// A byte of the flat ROM image.
    pub fn read_image(&self, addr: u16) -> (r: u8)
        requires
            self@.supported(),
            (addr as int) < self@.rom_image().len(),
        ensures
            r == self@.rom_image()[addr as int],
    {
        match self {
            MemoryController::RomOnly(c) => c.rom[addr as usize],
            MemoryController::Mbc1(c) => c.rom[addr as usize],
            MemoryController::Mbc2(c) => c.rom[addr as usize],
            MemoryController::Mbc3(c) => c.rom[addr as usize],
            MemoryController::Missing(_) => vstd::pervasive::unreached(),
        }
    }
}

} // verus!
