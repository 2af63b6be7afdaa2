//! The memory bus: the fixed address-space map, I/O-register routing, the
//! OAM DMA engine and the interrupt bookkeeping bytes IF and IE.

use vstd::prelude::*;

use crate::bits::{w16, spec_word, spec_hi, spec_lo, word, hi_byte, lo_byte, wadd16};
use crate::cart::{Cart, CartView};
use crate::gameboy::KeyStates;
use crate::joypad::{Joypad, JOYP_ADDR};
use crate::ppu::{PPU, PpuView, DMA_ADDR, LCDC_ADDR, WX_ADDR};
use crate::timer::{Timer, DIV_ADDR, TAC_ADDR};

verus! {

pub const IF_ADDR: u16 = 0xFF0F;

pub const IE_ADDR: u16 = 0xFFFF;

pub struct MMU {
    pub cart: Cart,
    /// Work RAM, 0xC000..=0xDFFF, echoed at 0xE000..=0xFDFF.
    pub wram: Vec<u8>,
    /// High RAM, 0xFF80..=0xFFFE.
    pub hram: Vec<u8>,
    /// Interrupt flag byte (0xFF0F); bits 5..=7 read as 1.
    pub if_: u8,
    /// Interrupt enable byte (0xFFFF).
    pub ie: u8,
    pub ppu: PPU,
    pub joypad: Joypad,
    pub timer: Timer,
}

/// Mathematical model of the bus.
pub struct MmuView {
    pub cart: CartView,
    pub wram: Seq<u8>,
    pub hram: Seq<u8>,
    pub if_: u8,
    pub ie: u8,
    pub ppu: PpuView,
    pub joypad: Joypad,
    pub timer: Timer,
}

impl View for MMU {
    type V = MmuView;

    open spec fn view(&self) -> MmuView {
        MmuView {
            cart: self.cart@,
            wram: self.wram@,
            hram: self.hram@,
            if_: self.if_,
            ie: self.ie,
            ppu: self.ppu@,
            joypad: self.joypad,
            timer: self.timer,
        }
    }
}

impl MmuView {
    pub open spec fn inv(self) -> bool {
        &&& self.cart.inv()
        &&& self.wram.len() == 0x2000
        &&& self.hram.len() == 0x7F
        &&& self.if_ < 0x20
        &&& self.ppu.inv()
        &&& self.timer.inv()
    }

    /// Whether the cartridge is of an implemented type; bus accesses to an
    /// unsupported cartridge are fatal.
    pub open spec fn supported(self) -> bool {
        self.cart.supported()
    }

    /// The set of interrupts the processor may service on its next step.
    pub open spec fn spec_pending(self) -> u8 {
        self.ie & self.if_ & 0x1F
    }

    /// The byte read at `addr`, per the address-space map.
    pub open spec fn rb(self, addr: u16) -> u8 {
        if addr < 0x8000 {
            self.cart.controller.rb(addr)
        } else if addr < 0xA000 {
            self.ppu.rb(addr)
        } else if addr < 0xC000 {
            self.cart.controller.rb(addr)
        } else if addr < 0xE000 {
            self.wram[addr - 0xC000]
        } else if addr < 0xFE00 {
            self.wram[addr - 0xE000]
        } else if addr < 0xFEA0 {
            self.ppu.rb(addr)
        } else if addr < 0xFF00 {
            0xFF
        } else if addr == JOYP_ADDR {
            self.joypad.spec_joyp()
        } else if DIV_ADDR <= addr <= TAC_ADDR {
            self.timer.spec_rb(addr)
        } else if addr == IF_ADDR {
            (self.if_ + 0xE0) as u8
        } else if addr == DMA_ADDR {
            0xFF
        } else if LCDC_ADDR <= addr <= WX_ADDR {
            self.ppu.rb(addr)
        } else if addr < 0xFF80 {
            0xFF
        } else if addr < 0xFFFF {
            self.hram[addr - 0xFF80]
        } else {
            self.ie
        }
    }

    /// The word read at `addr`: low byte first, the high byte from the
    /// following address (wrapping).
    pub open spec fn rw(self, addr: u16) -> u16 {
        spec_word(self.rb(w16(addr + 1)), self.rb(addr))
    }

    /// The bus after the OAM DMA triggered by writing `value` to 0xFF46:
    /// the 160 bytes from page `value << 8` are copied into OAM.
    pub open spec fn spec_dma(self, value: u8) -> MmuView {
        MmuView {
            ppu: PpuView {
                oam: Seq::new(0xA0, |i: int| self.rb((value * 0x100 + i) as u16)),
                ..self.ppu
            },
            ..self
        }
    }

    /// The bus after a byte write at `addr`, per the address-space map.
    pub open spec fn wb(self, addr: u16, value: u8) -> MmuView {
        if addr < 0x8000 {
            MmuView { cart: CartView { controller: self.cart.controller.wb(addr, value), ..self.cart }, ..self }
        } else if addr < 0xA000 {
            MmuView { ppu: self.ppu.wb(addr, value), ..self }
        } else if addr < 0xC000 {
            MmuView { cart: CartView { controller: self.cart.controller.wb(addr, value), ..self.cart }, ..self }
        } else if addr < 0xE000 {
            MmuView { wram: self.wram.update(addr - 0xC000, value), ..self }
        } else if addr < 0xFE00 {
            MmuView { wram: self.wram.update(addr - 0xE000, value), ..self }
        } else if addr < 0xFEA0 {
            MmuView { ppu: self.ppu.wb(addr, value), ..self }
        } else if addr < 0xFF00 {
            self
        } else if addr == JOYP_ADDR {
            MmuView { joypad: self.joypad.spec_wb(value), ..self }
        } else if DIV_ADDR <= addr <= TAC_ADDR {
            MmuView { timer: self.timer.spec_wb(addr, value), ..self }
        } else if addr == IF_ADDR {
            MmuView { if_: (value % 0x20) as u8, ..self }
        } else if addr == DMA_ADDR {
            self.spec_dma(value)
        } else if LCDC_ADDR <= addr <= WX_ADDR {
            MmuView { ppu: self.ppu.wb(addr, value), ..self }
        } else if addr < 0xFF80 {
            self
        } else if addr < 0xFFFF {
            MmuView { hram: self.hram.update(addr - 0xFF80, value), ..self }
        } else {
            MmuView { ie: value, ..self }
        }
    }

    /// The bus after a word write at `addr`: the low byte first, then the
    /// high byte at the following address (wrapping).
    pub open spec fn ww(self, addr: u16, value: u16) -> MmuView {
        self.wb(addr, spec_lo(value)).wb(w16(addr + 1), spec_hi(value))
    }

    /// The bus advanced by `cycles` machine cycles (four dots each): the
    /// timer and the pixel generator run, and the interrupt bits they raise
    /// are merged into IF. The second component reports frame completion.
    #[verifier::opaque]
    pub open spec fn spec_tick(self, cycles: u8) -> (MmuView, bool) {
        let dots = (4 * cycles) as u32;
        let tr = self.timer.spec_tick(dots);
        let pr = self.ppu.spec_tick(dots);
        (
            MmuView {
                timer: tr.0,
                ppu: pr.0,
                if_: (self.if_ | tr.1 | pr.1),
                ..self
            },
            pr.2,
        )
    }
}

impl Timer {
    /// The byte a timer register read yields.
    pub open spec fn spec_rb(self, addr: u16) -> u8 {
        if addr == DIV_ADDR {
            (self.div / 0x100) as u8
        } else if addr == crate::timer::TIMA_ADDR {
            self.tima
        } else if addr == crate::timer::TMA_ADDR {
            self.tma
        } else {
            self.tac
        }
    }
}

impl MmuView {
    /// The power-on bus around a cartridge: RAM zeroed, no interrupts
    /// pending, the pixel generator and timer at power-on state.
    pub open spec fn spec_new(cart: CartView) -> MmuView {
        MmuView {
            cart,
            wram: Seq::new(0x2000, |i: int| 0u8),
            hram: Seq::new(0x7F, |i: int| 0u8),
            if_: 0,
            ie: 0,
            ppu: PpuView::spec_init(),
            joypad: Joypad { joyp: 0xFF, states: KeyStates::spec_released() },
            timer: Timer { div: 0, tima: 0, tma: 0, tac: 0, tima_acc: 0 },
        }
    }
}

impl MMU {
    /// A fresh bus around the given cartridge.
    pub fn new(cart: Cart) -> (r: MMU)
        requires
            cart@.inv(),
        ensures
            r@ == MmuView::spec_new(cart@),
            r@.inv(),
            r@.supported() == cart@.supported(),
    {
        MMU {
            cart,
            wram: crate::bits::zero_bytes(0x2000),
            hram: crate::bits::zero_bytes(0x7F),
            if_: 0,
            ie: 0,
            ppu: PPU::init(),
            joypad: Joypad::new(),
            timer: Timer::default(),
        }
    }

    pub fn rb(&self, addr: u16) -> (r: u8)
        requires
            self@.inv(),
            self@.supported(),
        ensures
            r == self@.rb(addr),
    {
        if addr < 0x8000 {
            self.cart.rb(addr)
        } else if addr < 0xA000 {
            self.ppu.rb(addr)
        } else if addr < 0xC000 {
            self.cart.rb(addr)
        } else if addr < 0xE000 {
            self.wram[(addr - 0xC000) as usize]
        } else if addr < 0xFE00 {
            self.wram[(addr - 0xE000) as usize]
        } else if addr < 0xFEA0 {
            self.ppu.rb(addr)
        } else if addr < 0xFF00 {
            0xFF
        } else if addr == JOYP_ADDR {
            self.joypad.rb(addr)
        } else if addr >= DIV_ADDR && addr <= TAC_ADDR {
            self.timer.rb(addr)
        } else if addr == IF_ADDR {
            self.if_ + 0xE0
        } else if addr == DMA_ADDR {
            0xFF
        } else if addr >= LCDC_ADDR && addr <= WX_ADDR {
            self.ppu.rb(addr)
        } else if addr < 0xFF80 {
            0xFF
        } else if addr < 0xFFFF {
            self.hram[(addr - 0xFF80) as usize]
        } else {
            self.ie
        }
    }

    pub fn rw(&self, addr: u16) -> (r: u16)
        requires
            self@.inv(),
            self@.supported(),
        ensures
            r == self@.rw(addr),
    {
        let lo = self.rb(addr);
        let hi = self.rb(wadd16(addr, 1));
        word(hi, lo)
    }

    pub fn wb(&mut self, addr: u16, value: u8)
        requires
            old(self)@.inv(),
            old(self)@.supported(),
        ensures
            final(self)@ == old(self)@.wb(addr, value),
            final(self)@.inv(),
            final(self)@.supported(),
    {
        if addr < 0x8000 {
            self.cart.wb(addr, value);
        } else if addr < 0xA000 {
            self.ppu.wb(addr, value);
        } else if addr < 0xC000 {
            self.cart.wb(addr, value);
        } else if addr < 0xE000 {
            self.wram.set((addr - 0xC000) as usize, value);
        } else if addr < 0xFE00 {
            self.wram.set((addr - 0xE000) as usize, value);
        } else if addr < 0xFEA0 {
            self.ppu.wb(addr, value);
        } else if addr < 0xFF00 {
        } else if addr == JOYP_ADDR {
            self.joypad.wb(addr, value);
        } else if addr >= DIV_ADDR && addr <= TAC_ADDR {
            self.timer.wb(addr, value);
        } else if addr == IF_ADDR {
            self.if_ = value % 0x20;
        } else if addr == DMA_ADDR {
            self.dma_transfer(value);
        } else if addr >= LCDC_ADDR && addr <= WX_ADDR {
            self.ppu.wb(addr, value);
        } else if addr < 0xFF80 {
        } else if addr < 0xFFFF {
            self.hram.set((addr - 0xFF80) as usize, value);
        } else {
            self.ie = value;
        }
    }

    pub fn ww(&mut self, addr: u16, value: u16)
        requires
            old(self)@.inv(),
            old(self)@.supported(),
        ensures
            final(self)@ == old(self)@.ww(addr, value),
            final(self)@.inv(),
            final(self)@.supported(),
    {
        let lo = lo_byte(value);
        let hi = hi_byte(value);
        self.wb(addr, lo);
        let next = wadd16(addr, 1);
        self.wb(next, hi);
    }

    /// The OAM DMA engine: copy the 160 bytes from page `value << 8` into
    /// OAM, atomically within this call.
    fn dma_transfer(&mut self, value: u8)
        requires
            old(self)@.inv(),
            old(self)@.supported(),
        ensures
            final(self)@ == old(self)@.spec_dma(value),
            final(self)@.inv(),
            final(self)@.supported(),
    {
        let src: u16 = value as u16 * 0x100;
        let ghost m0 = old(self)@;
        let mut i: u16 = 0;
        while i < 160
            invariant
                i <= 160,
                src == value * 0x100,
                self@.cart == m0.cart,
                self@.wram == m0.wram,
                self@.hram == m0.hram,
                self@.if_ == m0.if_,
                self@.ie == m0.ie,
                self@.joypad == m0.joypad,
                self@.timer == m0.timer,
                self@.ppu == (PpuView { oam: self@.ppu.oam, ..m0.ppu }),
                self@.ppu.oam.len() == 0xA0,
                forall|j: int| 0 <= j < i ==> self@.ppu.oam[j] == m0.rb((value * 0x100 + j) as u16),
                forall|j: int| i <= j < 0xA0 ==> self@.ppu.oam[j] == m0.ppu.oam[j],
                m0.inv(),
                m0.supported(),
                self@.inv(),
                self@.supported(),
            decreases 160 - i,
        {
            let b = self.rb(src + i);
            proof {
                let a = (src + i) as u16;
                if 0xFE00 <= a < 0xFEA0 {
                    // The source page overlaps OAM only when it is the OAM
                    // page itself; the entries already rewritten carry their
                    // original values, so the read is unchanged.
                    assert(value == 0xFE);
                    assert(a - 0xFE00 == i);
                    assert(self@.rb(a) == m0.rb(a));
                } else {
                    assert(self@.rb(a) == m0.rb(a));
                }
            }
            self.ppu.oam.set(i as usize, b);
            i = i + 1;
        }
        proof {
            assert(self@.ppu.oam =~= Seq::new(0xA0, |j: int| m0.rb((value * 0x100 + j) as u16)));
            assert(self@.ppu =~= m0.spec_dma(value).ppu);
            assert(self@ =~= m0.spec_dma(value));
        }
    }

    /// The finished frame of 2-bit shades.
    pub fn get_fb(&self) -> (r: Vec<u8>)
        ensures
            r@ == self@.ppu.frame_buffer,
    {
        self.ppu.get_fb()
    }

    /// Sample this frame's key states into the joypad; a released-to-pressed
    /// transition raises the Joypad interrupt.
    pub fn handle_joypad(&mut self, key_states: KeyStates)
        requires
            old(self)@.inv(),
        ensures
            final(self)@ == (MmuView {
                joypad: old(self)@.joypad.spec_tick(key_states).0,
                if_: (old(self)@.if_ | old(self)@.joypad.spec_tick(key_states).1),
                ..old(self)@
            }),
            final(self)@.inv(),
            final(self)@.supported() == old(self)@.supported(),
    {
        let interrupts = self.joypad.tick(key_states);

        proof {
            crate::bits::lemma_or_bound(self.if_, interrupts);
        }
        let cur = self.if_;
        if interrupts != 0 {
            self.if_ = cur | interrupts;
        } else {
            proof {
                assert(cur | interrupts == cur) by (bit_vector)
                    requires interrupts == 0u8;
            }
        }
    }

    /// Advance the timer and the pixel generator by `4 * cycles` dots and
    /// merge the interrupts they raise into IF. Returns whether the frame
    /// completed during this tick.
    pub fn tick(&mut self, cycles: u8) -> (r: bool)
        requires
            old(self)@.inv(),
            cycles <= 6,
        ensures
            (final(self)@, r) == old(self)@.spec_tick(cycles),
            final(self)@.inv(),
            final(self)@.supported() == old(self)@.supported(),
    {
        proof {
            reveal(MmuView::spec_tick);
        }
        let dots: u32 = 4 * cycles as u32;

        let timer_ints = self.timer.tick(dots);
        let (ppu_ints, frame_ready) = self.ppu.tick(dots);

        proof {
            crate::bits::lemma_or_bound(self.if_, timer_ints);
            crate::bits::lemma_or_bound(self.if_ | timer_ints, ppu_ints);
        }
        self.if_ = self.if_ | timer_ints | ppu_ints;

        frame_ready
    }

    /// The set of interrupts the processor may service on its next step:
    /// the sources both enabled and flagged.
    pub fn pending_interrupts(&self) -> (r: u8)
        ensures
            r == self@.spec_pending(),
    {
        self.ie & self.if_ & 0x1F
    }

    /// Raise interrupt request bits.
    pub fn request_interrupt(&mut self, bits: u8)
        requires
            old(self)@.inv(),
            bits < 0x20,
        ensures
            final(self)@ == (MmuView { if_: (old(self)@.if_ | bits), ..old(self)@ }),
            final(self)@.inv(),
            final(self)@.supported() == old(self)@.supported(),
    {
        proof {
            crate::bits::lemma_or_bound(self.if_, bits);
        }
        self.if_ = self.if_ | bits;
    }

    /// Acknowledge one interrupt: clear its bit in IF.
    pub fn clear_interrupt(&mut self, bit: u8)
        requires
            old(self)@.inv(),
        ensures
            final(self)@ == (MmuView { if_: (old(self)@.if_ & !bit), ..old(self)@ }),
            final(self)@.inv(),
            final(self)@.supported() == old(self)@.supported(),
    {
        proof {
            crate::bits::lemma_and_not_bound(self.if_, bit);
        }
        self.if_ = self.if_ & !bit;
    }

    /// The persisted battery-backed contents of the cartridge, if any.
    pub fn save(&self) -> (r: Option<Vec<u8>>)
        requires
            self@.inv(),
        ensures
            (match r {
                Some(d) => self@.cart.controller.save() == Some(d@),
                None => self@.cart.controller.save() is None,
            }),
    {
        self.cart.save()
    }

    /// Hand the host's current timestamp to the cartridge clock, if any.
    pub fn set_now(&mut self, now: u64)
        requires
            old(self)@.inv(),
        ensures
            final(self)@ == (MmuView {
                cart: (CartView {
                    controller: old(self)@.cart.controller.spec_set_now(now),
                    ..old(self)@.cart
                }),
                ..old(self)@
            }),
            final(self)@.inv(),
            final(self)@.supported() == old(self)@.supported(),
    {
        self.cart.set_now(now);
    }
}

} // verus!
