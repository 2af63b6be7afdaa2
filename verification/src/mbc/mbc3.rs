//! The type-3 bank controller: a 7-bit ROM-bank register and a secondary
//! register that selects either one of eight RAM banks (0x00..=0x07) or one
//! of five real-time-clock pseudo-registers (0x08..=0x0C).

use vstd::prelude::*;

use crate::mbc::restore_ram;
use crate::mbc::rtc::RTC;

verus! {

/// Number of trailing bytes the persisted image carries for the clock:
/// the base timestamp (8 bytes, little-endian) and the five latched
/// registers.
pub const RTC_SAVE_LEN: usize = 13;

pub struct Mbc3 {
    pub rom: Vec<u8>,
    pub ram: Vec<u8>,
    pub has_ram: bool,
    pub has_battery: bool,
    pub has_timer: bool,
    /// RAM and clock access latched open by the magic nibble 0xA.
    pub ram_timer_enable: bool,
    pub rom_bank: u8,
    /// 0x00..=0x07 select a RAM bank; 0x08..=0x0C a clock register.
    pub ram_bank_rtc_register: u8,
    pub rtc: Option<RTC>,
}

/// Mathematical model of a type-3 controller.
pub struct Mbc3View {
    pub rom: Seq<u8>,
    pub ram: Seq<u8>,
    pub has_ram: bool,
    pub has_battery: bool,
    pub has_timer: bool,
    pub ram_timer_enable: bool,
    pub rom_bank: u8,
    pub ram_bank_rtc_register: u8,
    pub rtc: Option<RTC>,
}

impl View for Mbc3 {
    type V = Mbc3View;

    open spec fn view(&self) -> Mbc3View {
        Mbc3View {
            rom: self.rom@,
            ram: self.ram@,
            has_ram: self.has_ram,
            has_battery: self.has_battery,
            has_timer: self.has_timer,
            ram_timer_enable: self.ram_timer_enable,
            rom_bank: self.rom_bank,
            ram_bank_rtc_register: self.ram_bank_rtc_register,
            rtc: self.rtc,
        }
    }
}

/// The little-endian bytes of a 64-bit timestamp.
pub open spec fn spec_u64_le(v: u64) -> Seq<u8> {
    seq![
        (v % 0x100) as u8,
        ((v / 0x100) % 0x100) as u8,
        ((v / 0x10000) % 0x100) as u8,
        ((v / 0x1000000) % 0x100) as u8,
        ((v / 0x100000000) % 0x100) as u8,
        ((v / 0x10000000000) % 0x100) as u8,
        ((v / 0x1000000000000) % 0x100) as u8,
        ((v / 0x100000000000000) % 0x100) as u8,
    ]
}

/// The timestamp read back from eight little-endian bytes.
pub open spec fn spec_u64_from_le(b: Seq<u8>) -> u64 {
    (b[0] + b[1] * 0x100 + b[2] * 0x10000 + b[3] * 0x1000000 + b[4] * 0x100000000
        + b[5] * 0x10000000000 + b[6] * 0x1000000000000 + b[7] * 0x100000000000000) as u64
}

/// The persisted trailer for a clock: its base timestamp and the five
/// latched registers.
pub open spec fn spec_rtc_bytes(r: RTC) -> Seq<u8> {
    spec_u64_le(r.startup) + seq![r.rtc_s, r.rtc_m, r.rtc_h, r.rtc_dl, r.rtc_dh]
}

/// The clock restored from a persisted trailer; it starts running from the
/// persisted base timestamp.
pub open spec fn spec_rtc_from_bytes(b: Seq<u8>) -> RTC {
    let startup = spec_u64_from_le(b);
    RTC {
        startup,
        now: startup,
        rtc_s: b[8],
        rtc_m: b[9],
        rtc_h: b[10],
        rtc_dl: b[11],
        rtc_dh: b[12],
        latch: false,
    }
}

impl Mbc3View {
    pub open spec fn inv(self) -> bool {
        &&& 1 <= self.rom_bank < 0x80
        &&& self.ram_bank_rtc_register < 0x10
        &&& (self.rtc is Some ==> self.has_timer)
    }

    pub open spec fn rom_byte(self, idx: int) -> u8 {
        if 0 <= idx < self.rom.len() {
            self.rom[idx]
        } else {
            0xFF
        }
    }

    pub open spec fn ram_index(self, addr: u16) -> int {
        self.ram_bank_rtc_register * 0x2000 + (addr - 0xA000)
    }

    pub open spec fn rb(self, addr: u16) -> u8 {
        if addr < 0x4000 {
            self.rom_byte(addr as int)
        } else if addr < 0x8000 {
            self.rom_byte(self.rom_bank * 0x4000 + (addr - 0x4000))
        } else {
            if !self.has_ram || !self.ram_timer_enable {
                0xFF
            } else if self.ram_bank_rtc_register <= 0x07 {
                if self.ram_index(addr) < self.ram.len() {
                    self.ram[self.ram_index(addr)]
                } else {
                    0xFF
                }
            } else if self.ram_bank_rtc_register <= 0x0C && self.rtc is Some {
                self.rtc->0.spec_read_register(self.ram_bank_rtc_register)
            } else {
                0xFF
            }
        }
    }

    pub open spec fn wb(self, addr: u16, value: u8) -> Mbc3View {
        if addr < 0x2000 {
            if value % 0x10 == 0x0A {
                Mbc3View { ram_timer_enable: true, ..self }
            } else if value % 0x10 == 0x00 {
                Mbc3View { ram_timer_enable: false, ..self }
            } else {
                self
            }
        } else if addr < 0x4000 {
            Mbc3View {
                rom_bank: (if value % 0x80 == 0 {
                    1u8
                } else {
                    (value % 0x80) as u8
                }),
                ..self
            }
        } else if addr < 0x6000 {
            Mbc3View { ram_bank_rtc_register: (value % 0x10) as u8, ..self }
        } else if addr < 0x8000 {
            if self.ram_timer_enable && self.rtc is Some {
                Mbc3View { rtc: Some(self.rtc->0.spec_latch(value)), ..self }
            } else {
                self
            }
        } else {
            if !self.has_ram || !self.ram_timer_enable {
                self
            } else if self.ram_bank_rtc_register <= 0x07 {
                if 0 <= self.ram_index(addr) < self.ram.len() {
                    Mbc3View { ram: self.ram.update(self.ram_index(addr), value), ..self }
                } else {
                    self
                }
            } else if self.ram_bank_rtc_register <= 0x0C && self.rtc is Some {
                Mbc3View {
                    rtc: Some(self.rtc->0.spec_write_register(self.ram_bank_rtc_register, value)),
                    ..self
                }
            } else {
                self
            }
        }
    }

    pub open spec fn save(self) -> Option<Seq<u8>> {
        if !self.has_battery {
            None
        } else if self.rtc is Some {
            Some(self.ram + spec_rtc_bytes(self.rtc->0))
        } else {
            Some(self.ram)
        }
    }
}

impl Mbc3 {
    /// The restored controller: a persisted image of RAM plus a clock
    /// trailer restores both; a bare RAM image restores the RAM; anything
    /// else starts fresh, with the clock running from timestamp zero until
    /// the host hands in its clock.
    pub fn new(
        rom: Vec<u8>,
        ram_size: u32,
        has_ram: bool,
        has_battery: bool,
        has_timer: bool,
        save_data: Option<Vec<u8>>,
    ) -> (r: Mbc3)
        ensures
            r@.rom == rom@,
            r@.has_ram == has_ram,
            r@.has_battery == has_battery,
            r@.has_timer == has_timer,
            r@.ram_timer_enable == false,
            r@.rom_bank == 1,
            r@.ram_bank_rtc_register == 0,
            r@.ram.len() == ram_size,
            (match save_data {
                Some(d) => {
                    if has_timer && d@.len() == ram_size + RTC_SAVE_LEN {
                        r@.ram == d@.subrange(0, ram_size as int) && r@.rtc == Some(
                            spec_rtc_from_bytes(d@.subrange(ram_size as int, d@.len() as int)),
                        )
                    } else {
                        r@.ram == crate::mbc::spec_restore_ram(Some(d@), ram_size as nat)
                            && r@.rtc == (if has_timer {
                            Some(RTC::spec_init(0))
                        } else {
                            Option::<RTC>::None
                        })
                    }
                },
                None => r@.ram == Seq::new(ram_size as nat, |i: int| 0u8) && r@.rtc == (
                if has_timer {
                    Some(RTC::spec_init(0))
                } else {
                    Option::<RTC>::None
                }),
            }),
            r@.inv(),
    {
        let size = ram_size as usize;
        let (ram, rtc): (Vec<u8>, Option<RTC>) = match save_data {
            Some(d) => {
                if has_timer && d.len() >= RTC_SAVE_LEN && d.len() - RTC_SAVE_LEN == size {
                    let mut ram: Vec<u8> = Vec::new();
                    let mut i: usize = 0;
                    while i < size
                        invariant
                            i <= size,
                            size + RTC_SAVE_LEN == d@.len(),
                            ram@ == d@.subrange(0, i as int),
                        decreases size - i,
                    {
                        ram.push(d[i]);
                        proof {
                            assert(ram@ =~= d@.subrange(0, i + 1));
                        }
                        i = i + 1;
                    }
                    let rtc = Self::rtc_from_bytes(&d, size);
                    proof {
                        assert(d@.subrange(size as int, d@.len() as int).len() == RTC_SAVE_LEN);
                    }
                    (ram, Some(rtc))
                } else {
                    (
                        restore_ram(Some(d), size),
                        if has_timer {
                            Some(RTC::init(0))
                        } else {
                            None
                        },
                    )
                }
            },
            None => (
                restore_ram(None, size),
                if has_timer {
                    Some(RTC::init(0))
                } else {
                    None
                },
            ),
        };

        Mbc3 {
            rom,
            ram,
            has_ram,
            has_battery,
            has_timer,
            ram_timer_enable: false,
            rom_bank: 1,
            ram_bank_rtc_register: 0,
            rtc,
        }
    }

    /// Decode the clock trailer that starts at `off` in `d`.
    fn rtc_from_bytes(d: &Vec<u8>, off: usize) -> (r: RTC)
        requires
            off + RTC_SAVE_LEN == d@.len(),
            d@.len() <= usize::MAX,
        ensures
            r == spec_rtc_from_bytes(d@.subrange(off as int, d@.len() as int)),
    {
        let startup: u64 = d[off] as u64 + d[off + 1] as u64 * 0x100 + d[off + 2] as u64 * 0x10000
            + d[off + 3] as u64 * 0x1000000 + d[off + 4] as u64 * 0x100000000
            + d[off + 5] as u64 * 0x10000000000 + d[off + 6] as u64 * 0x1000000000000
            + d[off + 7] as u64 * 0x100000000000000;
        RTC {
            startup,
            now: startup,
            rtc_s: d[off + 8],
            rtc_m: d[off + 9],
            rtc_h: d[off + 10],
            rtc_dl: d[off + 11],
            rtc_dh: d[off + 12],
            latch: false,
        }
    }

    fn rom_byte(&self, idx: usize) -> (r: u8)
        ensures
            r == self@.rom_byte(idx as int),
    {
        if idx < self.rom.len() {
            self.rom[idx]
        } else {
            0xFF
        }
    }

    pub fn rb(&self, addr: u16) -> (r: u8)
        requires
            self@.inv(),
            addr < 0x8000 || (0xA000 <= addr < 0xC000),
        ensures
            r == self@.rb(addr),
    {
        if addr < 0x4000 {
            self.rom_byte(addr as usize)
        } else if addr < 0x8000 {
            self.rom_byte(self.rom_bank as usize * 0x4000 + (addr - 0x4000) as usize)
        } else {
            if !self.has_ram || !self.ram_timer_enable {
                0xFF
            } else if self.ram_bank_rtc_register <= 0x07 {
                let idx: usize = self.ram_bank_rtc_register as usize * 0x2000 + (addr
                    - 0xA000) as usize;
                if idx < self.ram.len() {
                    self.ram[idx]
                } else {
                    0xFF
                }
            } else if self.ram_bank_rtc_register <= 0x0C {
                match &self.rtc {
                    Some(rtc) => rtc.read_register(self.ram_bank_rtc_register),
                    None => 0xFF,
                }
            } else {
                0xFF
            }
        }
    }

    pub fn wb(&mut self, addr: u16, value: u8)
        requires
            old(self)@.inv(),
            addr < 0x8000 || (0xA000 <= addr < 0xC000),
        ensures
            final(self)@ == old(self)@.wb(addr, value),
            final(self)@.inv(),
    {
        if addr < 0x2000 {
            if value % 0x10 == 0x0A {
                self.ram_timer_enable = true;
            } else if value % 0x10 == 0x00 {
                self.ram_timer_enable = false;
            }
        } else if addr < 0x4000 {
            self.rom_bank = if value % 0x80 == 0 {
                1
            } else {
                value % 0x80
            };
        } else if addr < 0x6000 {
            self.ram_bank_rtc_register = value % 0x10;
        } else if addr < 0x8000 {
            if self.ram_timer_enable {
                match &mut self.rtc {
                    Some(rtc) => rtc.latch(value),
                    None => {},
                }
            }
        } else {
            if self.has_ram && self.ram_timer_enable {
                if self.ram_bank_rtc_register <= 0x07 {
                    let idx: usize = self.ram_bank_rtc_register as usize * 0x2000 + (addr
                        - 0xA000) as usize;
                    if idx < self.ram.len() {
                        self.ram.set(idx, value);
                    }
                } else if self.ram_bank_rtc_register <= 0x0C {
                    let reg = self.ram_bank_rtc_register;
                    match &mut self.rtc {
                        Some(rtc) => rtc.write_regisetr(reg, value),
                        None => {},
                    }
                }
            }
        }
    }

    pub fn save(&self) -> (r: Option<Vec<u8>>)
        ensures
            (match r {
                Some(d) => self@.save() == Some(d@),
                None => self@.save() is None,
            }),
    {
        if !self.has_battery {
            return None;
        }
        let mut out = self.ram.clone();
        match &self.rtc {
            Some(rtc) => {
                let s = rtc.startup;
                out.push((s % 0x100) as u8);
                out.push(((s / 0x100) % 0x100) as u8);
                out.push(((s / 0x10000) % 0x100) as u8);
                out.push(((s / 0x1000000) % 0x100) as u8);
                out.push(((s / 0x100000000) % 0x100) as u8);
                out.push(((s / 0x10000000000) % 0x100) as u8);
                out.push(((s / 0x1000000000000) % 0x100) as u8);
                out.push(((s / 0x100000000000000) % 0x100) as u8);
                out.push(rtc.rtc_s);
                out.push(rtc.rtc_m);
                out.push(rtc.rtc_h);
                out.push(rtc.rtc_dl);
                out.push(rtc.rtc_dh);
                proof {
                    assert(out@ =~= self@.ram + spec_rtc_bytes(self@.rtc->0));
                }
                Some(out)
            },
            None => Some(out),
        }
    }

    /// Hand the host's current timestamp to the clock, if there is one.
    pub fn set_now(&mut self, now: u64)
        ensures
            (match old(self)@.rtc {
                Some(rtc) => {
                    if now >= rtc.now {
                        final(self)@ == (Mbc3View { rtc: Some(RTC { now, ..rtc }), ..old(self)@ })
                    } else {
                        final(self)@ == old(self)@
                    }
                },
                None => final(self)@ == old(self)@,
            }),
            old(self)@.inv() ==> final(self)@.inv(),
    {
        match &mut self.rtc {
            Some(rtc) => {
                if now >= rtc.now {
                    rtc.set_now(now);
                }
            },
            None => {},
        }
    }
}

} // verus!
