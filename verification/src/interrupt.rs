//! The five interrupt sources, their flag bits and their service vectors.

use vstd::prelude::*;

verus! {

/// Only bits 0..=4 of IE and IF name interrupt sources.
pub const INTERRUPT_MASK: u8 = 0x1F;

/// An interrupt dispatch takes five machine cycles.
pub const INTERRUPT_CYCLES: u8 = 5;

#[derive(Clone, Copy, Debug, PartialEq, Eq, Structural)]
pub enum Interrupt {
    VBlank,
    Stat,
    Timer,
    Serial,
    Joypad,
}

impl Interrupt {
    /// The source's mask bit in IE and IF.
    pub open spec fn spec_bit(self) -> u8 {
        match self {
            Interrupt::VBlank => 0x01,
            Interrupt::Stat => 0x02,
            Interrupt::Timer => 0x04,
            Interrupt::Serial => 0x08,
            Interrupt::Joypad => 0x10,
        }
    }

    /// The fixed service vector of the source.
    pub open spec fn spec_vector(self) -> u16 {
        match self {
            Interrupt::VBlank => 0x0040,
            Interrupt::Stat => 0x0048,
            Interrupt::Timer => 0x0050,
            Interrupt::Serial => 0x0058,
            Interrupt::Joypad => 0x0060,
        }
    }

    pub fn bit(self) -> (r: u8)
        ensures
            r == self.spec_bit(),
    {
        match self {
            Interrupt::VBlank => 0x01,
            Interrupt::Stat => 0x02,
            Interrupt::Timer => 0x04,
            Interrupt::Serial => 0x08,
            Interrupt::Joypad => 0x10,
        }
    }

    pub fn vector(self) -> (r: u16)
        ensures
            r == self.spec_vector(),
    {
        match self {
            Interrupt::VBlank => 0x0040,
            Interrupt::Stat => 0x0048,
            Interrupt::Timer => 0x0050,
            Interrupt::Serial => 0x0058,
            Interrupt::Joypad => 0x0060,
        }
    }
}

/// The pending source of highest priority: the lowest set bit index among
/// bits 0..=4 of `pending_interrupt`, or `None` when no such bit is set.
pub open spec fn spec_highest_priority(pending_interrupt: u8) -> Option<Interrupt> {
    if pending_interrupt & 0x01 != 0 {
        Some(Interrupt::VBlank)
    } else if pending_interrupt & 0x02 != 0 {
        Some(Interrupt::Stat)
    } else if pending_interrupt & 0x04 != 0 {
        Some(Interrupt::Timer)
    } else if pending_interrupt & 0x08 != 0 {
        Some(Interrupt::Serial)
    } else if pending_interrupt & 0x10 != 0 {
        Some(Interrupt::Joypad)
    } else {
        None
    }
}

/// A non-empty pending set always yields a source to service.
pub proof fn lemma_pending_has_priority(p: u8)
    requires
        p & 0x1F != 0,
    ensures
        spec_highest_priority(p) is Some,
{
    assert(p & 0x01 != 0 || p & 0x02 != 0 || p & 0x04 != 0 || p & 0x08 != 0 || p & 0x10 != 0)
        by (bit_vector)
        requires p & 0x1F != 0;
}

pub fn highest_priority(pending_interrupt: u8) -> (r: Option<Interrupt>)
    ensures
        r == spec_highest_priority(pending_interrupt),
{
    if pending_interrupt & 0x01 != 0 {
        Some(Interrupt::VBlank)
    } else if pending_interrupt & 0x02 != 0 {
        Some(Interrupt::Stat)
    } else if pending_interrupt & 0x04 != 0 {
        Some(Interrupt::Timer)
    } else if pending_interrupt & 0x08 != 0 {
        Some(Interrupt::Serial)
    } else if pending_interrupt & 0x10 != 0 {
        Some(Interrupt::Joypad)
    } else {
        None
    }
}

} // verus!
