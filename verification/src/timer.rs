//! The divider and the programmable counter TIMA with its
//! overflow-to-interrupt behaviour.

use vstd::prelude::*;

use crate::bits::w16;
use crate::interrupt::Interrupt;

verus! {

pub const DIV_ADDR: u16 = 0xFF04;
pub const TIMA_ADDR: u16 = 0xFF05;
pub const TMA_ADDR: u16 = 0xFF06;
pub const TAC_ADDR: u16 = 0xFF07;

pub struct Timer {
    /// Internal 16-bit divider; its upper byte is exposed at 0xFF04.
    pub div: u16,
    /// Timer counter (0xFF05).
    pub tima: u8,
    /// Reload value on overflow (0xFF06).
    pub tma: u8,
    /// Control (0xFF07): bit 2 enables TIMA, bits 1..=0 select the period.
    pub tac: u8,
    /// Dots accumulated towards the next TIMA increment.
    pub tima_acc: u32,
}

/// The TIMA period in dots selected by the low two bits of TAC.
pub open spec fn spec_period(tac: u8) -> u32 {
    let sel = tac & 0x03;
    if sel == 0 {
        1024
    } else if sel == 1 {
        16
    } else if sel == 2 {
        64
    } else {
        256
    }
}

/// TIMA after `steps` increments: on overflow it reloads from `tma`.
pub open spec fn spec_tima_steps(tima: u8, tma: u8, steps: nat) -> u8
    decreases steps,
{
    if steps == 0 {
        tima
    } else {
        spec_tima_steps(if tima == 255 { tma } else { (tima + 1) as u8 }, tma, (steps - 1) as nat)
    }
}

/// Whether TIMA overflows at least once within `steps` increments.
pub open spec fn spec_tima_overflows(tima: u8, tma: u8, steps: nat) -> bool
    decreases steps,
{
    if steps == 0 {
        false
    } else {
        tima == 255 || spec_tima_overflows(
            if tima == 255 { tma } else { (tima + 1) as u8 },
            tma,
            (steps - 1) as nat,
        )
    }
}

/// Unfolding one increment at the back of a run of `steps` increments.
pub proof fn lemma_tima_snoc(tima: u8, tma: u8, steps: nat)
    ensures
        spec_tima_steps(tima, tma, steps + 1) == (if spec_tima_steps(tima, tma, steps) == 255 {
            tma
        } else {
            (spec_tima_steps(tima, tma, steps) + 1) as u8
        }),
        spec_tima_overflows(tima, tma, steps + 1) == (spec_tima_overflows(tima, tma, steps)
            || spec_tima_steps(tima, tma, steps) == 255),
    decreases steps,
{
    let next = if tima == 255 { tma } else { (tima + 1) as u8 };
    if steps == 0 {
        assert(spec_tima_steps(tima, tma, 1) == spec_tima_steps(next, tma, 0));
        assert(spec_tima_steps(next, tma, 0) == next);
        assert(spec_tima_overflows(tima, tma, 1) == (tima == 255 || spec_tima_overflows(
            next,
            tma,
            0,
        )));
    } else {
        lemma_tima_snoc(next, tma, (steps - 1) as nat);
    }
}

impl Timer {
    pub open spec fn inv(self) -> bool {
        self.tima_acc < 1024
    }

    /// TIMA advancement is enabled by bit 2 of TAC.
    pub open spec fn spec_enabled(self) -> bool {
        self.tac & 0x04 != 0
    }

    /// The timer advanced by `dots` dots: the new state and the interrupt
    /// bit raised on a TIMA overflow.
    pub open spec fn spec_tick(self, dots: u32) -> (Timer, u8) {
        let div2 = w16(self.div + dots);
        if !self.spec_enabled() {
            (Timer { div: div2, ..self }, 0)
        } else {
            let total = self.tima_acc + dots;
            let period = spec_period(self.tac);
            let steps = (total / period as int) as nat;
            (
                Timer {
                    div: div2,
                    tima: spec_tima_steps(self.tima, self.tma, steps),
                    tima_acc: (total % (period as int)) as u32,
                    ..self
                },
                if spec_tima_overflows(self.tima, self.tma, steps) {
                    Interrupt::Timer.spec_bit()
                } else {
                    0u8
                },
            )
        }
    }

    pub fn default() -> (r: Timer)
        ensures
            r == (Timer { div: 0, tima: 0, tma: 0, tac: 0, tima_acc: 0 }),
            r.inv(),
    {
        Timer { div: 0, tima: 0, tma: 0, tac: 0, tima_acc: 0 }
    }

    /// Register read. DIV exposes the upper byte of the divider.
    pub fn rb(&self, addr: u16) -> (r: u8)
        requires
            DIV_ADDR <= addr <= TAC_ADDR,
        ensures
            addr == DIV_ADDR ==> r == (self.div / 0x100) as u8,
            addr == TIMA_ADDR ==> r == self.tima,
            addr == TMA_ADDR ==> r == self.tma,
            addr == TAC_ADDR ==> r == self.tac,
    {
        if addr == DIV_ADDR {
            (self.div / 0x100) as u8
        } else if addr == TIMA_ADDR {
            self.tima
        } else if addr == TMA_ADDR {
            self.tma
        } else {
            self.tac
        }
    }

    /// The timer after a register write: any write to DIV zeroes the whole
    /// divider; TAC keeps only its low three bits.
    pub open spec fn spec_wb(self, addr: u16, value: u8) -> Timer {
        if addr == DIV_ADDR {
            Timer { div: 0, ..self }
        } else if addr == TIMA_ADDR {
            Timer { tima: value, ..self }
        } else if addr == TMA_ADDR {
            Timer { tma: value, ..self }
        } else {
            Timer { tac: value & 0x07, ..self }
        }
    }

    pub fn wb(&mut self, addr: u16, value: u8)
        requires
            DIV_ADDR <= addr <= TAC_ADDR,
            old(self).inv(),
        ensures
            *final(self) == old(self).spec_wb(addr, value),
            final(self).inv(),
            addr == DIV_ADDR ==> final(self).div == 0,
    {
        if addr == DIV_ADDR {
            self.div = 0;
        } else if addr == TIMA_ADDR {
            self.tima = value;
        } else if addr == TMA_ADDR {
            self.tma = value;
        } else {
            self.tac = value & 0x07;
        }
    }

    /// Advance by `dots` dots. The divider always counts; TIMA advances once
    /// per period while enabled, reloading from TMA on overflow. Returns the
    /// Timer interrupt bit when an overflow occurred.
    pub fn tick(&mut self, dots: u32) -> (r: u8)
        requires
            old(self).inv(),
            dots <= 1020,
        ensures
            final(self).inv(),
            (*final(self), r) == old(self).spec_tick(dots),
            r <= 4,
    {
        self.div = crate::bits::wadd16(self.div, dots as u16);

        if self.tac & 0x04 == 0 {
            return 0;
        }

        let sel = self.tac & 0x03;
        let period: u32 = if sel == 0 {
            1024
        } else if sel == 1 {
            16
        } else if sel == 2 {
            64
        } else {
            256
        };
        assert(period == spec_period(self.tac));

        let total: u32 = self.tima_acc + dots;
        let steps: u32 = total / period;
        self.tima_acc = total % period;

        let ghost t0 = self.tima;
        let ghost tma0 = self.tma;
        let ghost pre_loop = *self;
        let mut overflowed = false;
        let mut i: u32 = 0;
        while i < steps
            invariant
                i <= steps,
                self.div == pre_loop.div,
                self.tma == tma0,
                self.tac == pre_loop.tac,
                self.tima_acc == pre_loop.tima_acc,
                self.tima == spec_tima_steps(t0, tma0, i as nat),
                overflowed == spec_tima_overflows(t0, tma0, i as nat),
            decreases steps - i,
        {
            proof {
                lemma_tima_snoc(t0, tma0, i as nat);
            }
            if self.tima == 255 {
                self.tima = self.tma;
                overflowed = true;
            } else {
                self.tima = self.tima + 1;
            }
            i = i + 1;
        }

        if overflowed {
            Interrupt::Timer.bit()
        } else {
            0
        }
    }
}

} // verus!
