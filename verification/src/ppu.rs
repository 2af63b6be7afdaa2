//! The pixel generator: video RAM, object attribute memory, the mode state
//! machine that walks each 456-dot scanline, and the STAT interrupt edge
//! logic.
//!
//! The mode and the LYC coincidence bit are functions of the stored state
//! (LY, the dot within the line, and LCDC), so only the four STAT select
//! bits are stored for that register. The STAT interrupt line is the OR of
//! the four selected conditions; an interrupt is raised exactly on this
//! line's rising edge, so coincident triggers collapse into one.

use vstd::prelude::*;

use crate::interrupt::Interrupt;
use crate::render::{spec_render_line, render_line, SCREEN_W, SCREEN_H};

verus! {

pub const LCDC_ADDR: u16 = 0xFF40;

pub const STAT_ADDR: u16 = 0xFF41;

pub const SCY_ADDR: u16 = 0xFF42;

pub const SCX_ADDR: u16 = 0xFF43;

pub const LY_ADDR: u16 = 0xFF44;

pub const LYC_ADDR: u16 = 0xFF45;

pub const DMA_ADDR: u16 = 0xFF46;

pub const BGP_ADDR: u16 = 0xFF47;

pub const OBP0_ADDR: u16 = 0xFF48;

pub const OBP1_ADDR: u16 = 0xFF49;

pub const WY_ADDR: u16 = 0xFF4A;

pub const WX_ADDR: u16 = 0xFF4B;

/// Dots in one scanline.
pub const SCANLINE_DOTS: u16 = 456;

/// Scanlines in one frame, the ten V-blank lines included.
pub const FRAME_LINES: u8 = 154;

pub struct PPU {
    /// Video RAM, 0x8000..=0x9FFF.
    pub vram: Vec<u8>,
    /// Object attribute memory, 0xFE00..=0xFE9F.
    pub oam: Vec<u8>,
    /// LCD control.
    pub lcdc: u8,
    /// The four STAT interrupt select bits (bits 3..=6); mode and the LYC
    /// coincidence bit are derived on read.
    pub stat: u8,
    pub scy: u8,
    pub scx: u8,
    /// Current scanline, 0..=153 (read-only to the program).
    pub ly: u8,
    pub lyc: u8,
    pub bgp: u8,
    pub obp0: u8,
    pub obp1: u8,
    pub wy: u8,
    pub wx: u8,
    /// Dot position within the current scanline, 0..=455.
    pub dot: u16,
    /// 160x144 2-bit shades.
    pub frame_buffer: Vec<u8>,
    /// The previous level of the STAT condition OR, for edge detection.
    pub stat_line: bool,
    /// A STAT interrupt latched by a register write, delivered by the next
    /// tick.
    pub stat_latch: bool,
}

/// Mathematical model of the pixel generator.
pub struct PpuView {
    pub vram: Seq<u8>,
    pub oam: Seq<u8>,
    pub lcdc: u8,
    pub stat: u8,
    pub scy: u8,
    pub scx: u8,
    pub ly: u8,
    pub lyc: u8,
    pub bgp: u8,
    pub obp0: u8,
    pub obp1: u8,
    pub wy: u8,
    pub wx: u8,
    pub dot: u16,
    pub frame_buffer: Seq<u8>,
    pub stat_line: bool,
    pub stat_latch: bool,
}

impl View for PPU {
    type V = PpuView;

    open spec fn view(&self) -> PpuView {
        PpuView {
            vram: self.vram@,
            oam: self.oam@,
            lcdc: self.lcdc,
            stat: self.stat,
            scy: self.scy,
            scx: self.scx,
            ly: self.ly,
            lyc: self.lyc,
            bgp: self.bgp,
            obp0: self.obp0,
            obp1: self.obp1,
            wy: self.wy,
            wx: self.wx,
            dot: self.dot,
            frame_buffer: self.frame_buffer@,
            stat_line: self.stat_line,
            stat_latch: self.stat_latch,
        }
    }
}

impl PpuView {
    pub open spec fn inv(self) -> bool {
        &&& self.vram.len() == 0x2000
        &&& self.oam.len() == 0xA0
        &&& self.frame_buffer.len() == SCREEN_W * SCREEN_H
        &&& self.dot < 456
        &&& self.ly < 154
        &&& self.stat & 0x78 == self.stat
        &&& self.stat_line == self.level()
        &&& (!self.lcd_on() ==> self.ly == 0 && self.dot == 0 && !self.stat_latch)
    }

    /// Bit 7 of LCDC gates the whole generator.
    pub open spec fn lcd_on(self) -> bool {
        self.lcdc & 0x80 != 0
    }

    /// The mode code: 0 while disabled or in H-blank, 1 in V-blank, 2 in
    /// OAM scan (dots 0..=79), 3 while drawing (dots 80..=251).
    pub open spec fn mode(self) -> u8 {
        if !self.lcd_on() {
            0
        } else if self.ly >= 144 {
            1
        } else if self.dot < 80 {
            2
        } else if self.dot < 252 {
            3
        } else {
            0
        }
    }

    /// The byte STAT reads back: the select bits, the coincidence bit, and
    /// the mode code.
    pub open spec fn stat_read(self) -> u8 {
        (self.stat + (if self.ly == self.lyc {
            4int
        } else {
            0int
        }) + self.mode()) as u8
    }

    /// The STAT interrupt line: the OR of the four selected conditions,
    /// low while the generator is disabled.
    pub open spec fn level(self) -> bool {
        &&& self.lcd_on()
        &&& {
            ||| (self.stat & 0x40 != 0 && self.ly == self.lyc)
            ||| (self.stat & 0x20 != 0 && self.mode() == 2)
            ||| (self.stat & 0x10 != 0 && self.mode() == 1)
            ||| (self.stat & 0x08 != 0 && self.mode() == 0)
        }
    }

    /// Re-evaluate the STAT line after a register write: a rising edge
    /// latches one interrupt for the next tick.
    pub open spec fn with_edge(self) -> PpuView {
        let lvl = self.level();
        PpuView {
            stat_line: lvl,
            stat_latch: self.stat_latch || (lvl && !self.stat_line),
            ..self
        }
    }

    /// A register or memory read of the pixel generator.
    pub open spec fn rb(self, addr: u16) -> u8 {
        if 0x8000 <= addr < 0xA000 {
            self.vram[addr - 0x8000]
        } else if 0xFE00 <= addr < 0xFEA0 {
            self.oam[addr - 0xFE00]
        } else if addr == LCDC_ADDR {
            self.lcdc
        } else if addr == STAT_ADDR {
            self.stat_read()
        } else if addr == SCY_ADDR {
            self.scy
        } else if addr == SCX_ADDR {
            self.scx
        } else if addr == LY_ADDR {
            self.ly
        } else if addr == LYC_ADDR {
            self.lyc
        } else if addr == BGP_ADDR {
            self.bgp
        } else if addr == OBP0_ADDR {
            self.obp0
        } else if addr == OBP1_ADDR {
            self.obp1
        } else if addr == WY_ADDR {
            self.wy
        } else {
            self.wx
        }
    }

    /// A register or memory write. Clearing bit 7 of LCDC resets the
    /// generator; LY is read-only; STAT keeps only its select bits; STAT
    /// and LYC writes go through the edge logic.
    pub open spec fn wb(self, addr: u16, value: u8) -> PpuView {
        if 0x8000 <= addr < 0xA000 {
            PpuView { vram: self.vram.update(addr - 0x8000, value), ..self }
        } else if 0xFE00 <= addr < 0xFEA0 {
            PpuView { oam: self.oam.update(addr - 0xFE00, value), ..self }
        } else if addr == LCDC_ADDR {
            if value & 0x80 == 0 {
                PpuView {
                    lcdc: value,
                    ly: 0,
                    dot: 0,
                    stat_line: false,
                    stat_latch: false,
                    ..self
                }
            } else {
                (PpuView { lcdc: value, ..self }).with_edge()
            }
        } else if addr == STAT_ADDR {
            (PpuView { stat: value & 0x78, ..self }).with_edge()
        } else if addr == SCY_ADDR {
            PpuView { scy: value, ..self }
        } else if addr == SCX_ADDR {
            PpuView { scx: value, ..self }
        } else if addr == LY_ADDR {
            self
        } else if addr == LYC_ADDR {
            (PpuView { lyc: value, ..self }).with_edge()
        } else if addr == BGP_ADDR {
            PpuView { bgp: value, ..self }
        } else if addr == OBP0_ADDR {
            PpuView { obp0: value, ..self }
        } else if addr == OBP1_ADDR {
            PpuView { obp1: value, ..self }
        } else if addr == WY_ADDR {
            PpuView { wy: value, ..self }
        } else {
            PpuView { wx: value, ..self }
        }
    }

    /// The generator advanced by `dots` dots: the position within the
    /// frame, the interrupts raised, and whether a frame just completed.
    pub open spec fn spec_tick(self, dots: u32) -> (PpuView, u8, bool) {
        if !self.lcd_on() {
            (self, 0, false)
        } else {
            let latch_int = self.stat_latch;
            let total = self.dot + dots;
            let advanced = total >= 456;
            let ly_raw: int = if advanced {
                self.ly + 1
            } else {
                self.ly as int
            };
            let frame = ly_raw == 154;
            let ly2: u8 = if frame {
                0
            } else {
                ly_raw as u8
            };
            let dot2: u16 = if advanced {
                (total - 456) as u16
            } else {
                total as u16
            };
            let vblank = advanced && ly_raw == 144;
            let p1 = PpuView { ly: ly2, dot: dot2, stat_latch: false, ..self };
            let p2 = if self.mode() != 0 && p1.mode() == 0 && ly2 < 144 {
                PpuView {
                    frame_buffer: spec_render_line(
                        p1.frame_buffer,
                        p1.vram,
                        p1.oam,
                        p1.lcdc,
                        p1.scx,
                        p1.scy,
                        p1.bgp,
                        p1.obp0,
                        p1.obp1,
                        p1.wy,
                        p1.wx,
                        ly2,
                    ),
                    ..p1
                }
            } else {
                p1
            };
            let lvl = p2.level();
            let rising = lvl && !self.stat_line;
            let p3 = PpuView { stat_line: lvl, ..p2 };
            let ints: u8 = ((if vblank {
                1int
            } else {
                0int
            }) + (if latch_int || rising {
                2int
            } else {
                0int
            })) as u8;
            (p3, ints, frame)
        }
    }
}

impl PpuView {
    /// The power-on state: everything zeroed, the screen blank.
    pub open spec fn spec_init() -> PpuView {
        PpuView {
            vram: Seq::new(0x2000, |i: int| 0u8),
            oam: Seq::new(0xA0, |i: int| 0u8),
            lcdc: 0,
            stat: 0,
            scy: 0,
            scx: 0,
            ly: 0,
            lyc: 0,
            bgp: 0,
            obp0: 0,
            obp1: 0,
            wy: 0,
            wx: 0,
            dot: 0,
            frame_buffer: Seq::new((SCREEN_W * SCREEN_H) as nat, |i: int| 0u8),
            stat_line: false,
            stat_latch: false,
        }
    }
}

impl PPU {
    /// The generator in its power-on state: everything zeroed, the screen
    /// blank.
    pub fn init() -> (r: PPU)
        ensures
            r@ == PpuView::spec_init(),
            r@.inv(),
    {
        proof {
            assert(0u8 & 0x78 == 0 && 0u8 & 0x80 == 0) by (bit_vector);
        }
        PPU {
            vram: crate::bits::zero_bytes(0x2000),
            oam: crate::bits::zero_bytes(0xA0),
            lcdc: 0,
            stat: 0,
            scy: 0,
            scx: 0,
            ly: 0,
            lyc: 0,
            bgp: 0,
            obp0: 0,
            obp1: 0,
            wy: 0,
            wx: 0,
            dot: 0,
            frame_buffer: crate::bits::zero_bytes(SCREEN_W * SCREEN_H),
            stat_line: false,
            stat_latch: false,
        }
    }

    /// Whether a register or memory address belongs to the pixel generator
    /// (the DMA trigger is the bus's, not the generator's).
    pub open spec fn owns_addr(addr: u16) -> bool {
        ||| 0x8000 <= addr < 0xA000
        ||| 0xFE00 <= addr < 0xFEA0
        ||| (LCDC_ADDR <= addr <= WX_ADDR && addr != DMA_ADDR)
    }

    fn stat_read(&self) -> (r: u8)
        requires
            self@.inv(),
        ensures
            r == self@.stat_read(),
    {
        proof {
            let s = self.stat;
            assert(s & 0x78 == s ==> s <= 0x78) by (bit_vector);
        }
        let coin: u8 = if self.ly == self.lyc {
            4
        } else {
            0
        };
        let mode = self.mode();
        self.stat + coin + mode
    }

    /// The current mode code.
    pub fn mode(&self) -> (r: u8)
        ensures
            r == self@.mode(),
    {
        if self.lcdc & 0x80 == 0 {
            0
        } else if self.ly >= 144 {
            1
        } else if self.dot < 80 {
            2
        } else if self.dot < 252 {
            3
        } else {
            0
        }
    }

    fn level(&self) -> (r: bool)
        ensures
            r == self@.level(),
    {
        let mode = self.mode();
        self.lcdc & 0x80 != 0 && ((self.stat & 0x40 != 0 && self.ly == self.lyc) || (self.stat
            & 0x20 != 0 && mode == 2) || (self.stat & 0x10 != 0 && mode == 1) || (self.stat & 0x08
            != 0 && mode == 0))
    }

    /// Re-evaluate the STAT line after a register write.
    fn apply_edge(&mut self)
        ensures
            final(self)@ == old(self)@.with_edge(),
    {
        let lvl = self.level();
        if lvl && !self.stat_line {
            self.stat_latch = true;
        }
        self.stat_line = lvl;
    }

    pub fn rb(&self, addr: u16) -> (r: u8)
        requires
            self@.inv(),
            PPU::owns_addr(addr),
        ensures
            r == self@.rb(addr),
    {
        if addr >= 0x8000 && addr < 0xA000 {
            self.vram[(addr - 0x8000) as usize]
        } else if addr >= 0xFE00 && addr < 0xFEA0 {
            self.oam[(addr - 0xFE00) as usize]
        } else if addr == LCDC_ADDR {
            self.lcdc
        } else if addr == STAT_ADDR {
            self.stat_read()
        } else if addr == SCY_ADDR {
            self.scy
        } else if addr == SCX_ADDR {
            self.scx
        } else if addr == LY_ADDR {
            self.ly
        } else if addr == LYC_ADDR {
            self.lyc
        } else if addr == BGP_ADDR {
            self.bgp
        } else if addr == OBP0_ADDR {
            self.obp0
        } else if addr == OBP1_ADDR {
            self.obp1
        } else if addr == WY_ADDR {
            self.wy
        } else {
            self.wx
        }
    }

    pub fn wb(&mut self, addr: u16, value: u8)
        requires
            old(self)@.inv(),
            PPU::owns_addr(addr),
        ensures
            final(self)@ == old(self)@.wb(addr, value),
            final(self)@.inv(),
    {
        if addr >= 0x8000 && addr < 0xA000 {
            self.vram.set((addr - 0x8000) as usize, value);
        } else if addr >= 0xFE00 && addr < 0xFEA0 {
            self.oam.set((addr - 0xFE00) as usize, value);
        } else if addr == LCDC_ADDR {
            if value & 0x80 == 0 {
                self.lcdc = value;
                self.ly = 0;
                self.dot = 0;
                self.stat_line = false;
                self.stat_latch = false;
            } else {
                self.lcdc = value;
                self.apply_edge();
            }
        } else if addr == STAT_ADDR {
            proof {
                assert((value & 0x78) & 0x78 == value & 0x78) by (bit_vector);
            }
            self.stat = value & 0x78;
            self.apply_edge();
        } else if addr == SCY_ADDR {
            self.scy = value;
        } else if addr == SCX_ADDR {
            self.scx = value;
        } else if addr == LY_ADDR {
        } else if addr == LYC_ADDR {
            self.lyc = value;
            self.apply_edge();
        } else if addr == BGP_ADDR {
            self.bgp = value;
        } else if addr == OBP0_ADDR {
            self.obp0 = value;
        } else if addr == OBP1_ADDR {
            self.obp1 = value;
        } else if addr == WY_ADDR {
            self.wy = value;
        } else {
            self.wx = value;
        }
    }

    /// Advance by `dots` dots. Returns the interrupt bits raised (V-Blank
    /// and/or STAT) and whether the frame just completed (LY wrapped from
    /// 153 to 0).
    pub fn tick(&mut self, dots: u32) -> (r: (u8, bool))
        requires
            old(self)@.inv(),
            dots <= 24,
        ensures
            final(self)@.inv(),
            (final(self)@, r.0, r.1) == old(self)@.spec_tick(dots),
    {
        if self.lcdc & 0x80 == 0 {
            return (0, false);
        }

        let latch_int = self.stat_latch;
        self.stat_latch = false;
        let ghost pre = old(self)@;
        let old_mode = self.mode();

        let total: u32 = self.dot as u32 + dots;
        let mut frame = false;
        let mut vblank = false;
        if total >= 456 {
            self.dot = (total - 456) as u16;
            if self.ly == 153 {
                self.ly = 0;
                frame = true;
            } else {
                self.ly = self.ly + 1;
                if self.ly == 144 {
                    vblank = true;
                }
            }
        } else {
            self.dot = total as u16;
        }

        let new_mode = self.mode();
        if old_mode != 0 && new_mode == 0 && self.ly < 144 {
            render_line(
                &mut self.frame_buffer,
                &self.vram,
                &self.oam,
                self.lcdc,
                self.scx,
                self.scy,
                self.bgp,
                self.obp0,
                self.obp1,
                self.wy,
                self.wx,
                self.ly,
            );
        }

        let lvl = self.level();
        let rising = lvl && !self.stat_line;
        self.stat_line = lvl;

        let vblank_bit: u8 = if vblank {
            Interrupt::VBlank.bit()
        } else {
            0
        };
        let stat_bit: u8 = if latch_int || rising {
            Interrupt::Stat.bit()
        } else {
            0
        };
        (vblank_bit + stat_bit, frame)
    }

    /// The finished 160x144 frame of 2-bit shades, row by row.
    pub fn get_fb(&self) -> (r: Vec<u8>)
        ensures
            r@ == self@.frame_buffer,
    {
        self.frame_buffer.clone()
    }
}

} // verus!
