//! The assembled machine: one processor and one bus, stepped a frame at a
//! time by the host.

use vstd::prelude::*;

use crate::cart::Cart;
use crate::cpu::{CPU, spec_illegal_opcode};
use crate::mmu::{MMU, MmuView};

verus! {

/// One machine transition: the processor takes one step, then the bus
/// advances by the machine cycles consumed. The last component reports
/// whether the frame completed during the transition.
pub open spec fn spec_machine_step(c: CPU, m: MmuView) -> (CPU, MmuView, bool) {
    let t = c.spec_step(m);
    let b = t.1.spec_tick(t.2);
    (t.0, b.0, b.1)
}

/// The machine after `n` step-and-tick transitions from the given state.
pub open spec fn spec_run(c: CPU, m: MmuView, n: nat) -> (CPU, MmuView)
    decreases n,
{
    if n == 0 {
        (c, m)
    } else {
        let prev = spec_run(c, m, (n - 1) as nat);
        let s = spec_machine_step(prev.0, prev.1);
        (s.0, s.1)
    }
}

/// The eight semantic inputs, true while held down.
#[derive(Clone, Copy, Debug, PartialEq, Eq, Structural)]
pub struct KeyStates {
    pub a: bool,
    pub b: bool,
    pub start: bool,
    pub select: bool,
    pub up: bool,
    pub down: bool,
    pub left: bool,
    pub right: bool,
}

impl KeyStates {
    /// All keys released.
    pub open spec fn spec_released() -> KeyStates {
        KeyStates {
            a: false,
            b: false,
            start: false,
            select: false,
            up: false,
            down: false,
            left: false,
            right: false,
        }
    }

    pub fn released() -> (r: KeyStates)
        ensures
            r == KeyStates::spec_released(),
    {
        KeyStates {
            a: false,
            b: false,
            start: false,
            select: false,
            up: false,
            down: false,
            left: false,
            right: false,
        }
    }
}

impl Default for KeyStates {
    fn default() -> (r: KeyStates)
        ensures
            r == KeyStates::spec_released(),
    {
        KeyStates::released()
    }
}

/// The outcome of driving the machine for one frame.
pub enum FrameResult {
    /// The pixel generator completed the frame; a new buffer is ready.
    Ready,
    /// The processor ran into an illegal opcode; the machine stands still
    /// at it for the host to report and exit.
    IllegalOpcode,
    /// The frame did not complete within the step budget (the program has
    /// the pixel generator switched off); the host may simply drive on.
    Stalled,
}

pub struct GameBoy {
    pub cpu: CPU,
    pub mmu: MMU,
}

impl GameBoy {
    pub open spec fn inv(self) -> bool {
        &&& self.cpu.inv()
        &&& self.mmu@.inv()
    }

    /// A machine around the given cartridge, in its post-boot state.
    pub fn new(cart: Cart) -> (r: GameBoy)
        requires
            cart@.inv(),
        ensures
            r.inv(),
            r.cpu == CPU::spec_init(),
            r.mmu@ == crate::mmu::MmuView::spec_new(cart@),
            r.mmu@.supported() == cart@.supported(),
    {
        GameBoy { cpu: CPU::init(), mmu: MMU::new(cart) }
    }

    /// Whether the cartridge is of an implemented type; stepping an
    /// unsupported cartridge is a fatal error the host must surface.
    pub fn cart_supported(&self) -> (r: bool)
        ensures
            r == self.mmu@.supported(),
    {
        self.mmu.cart.controller.supported()
    }

    /// The bus after this frame's key states are sampled into the joypad:
    /// the starting point of the frame's step-and-tick transitions.
    pub open spec fn spec_sampled(self, key_states: KeyStates) -> MmuView {
        MmuView {
            joypad: self.mmu@.joypad.spec_tick(key_states).0,
            if_: (self.mmu@.if_ | self.mmu@.joypad.spec_tick(key_states).1),
            ..self.mmu@
        }
    }

    /// Run until the pixel generator reports the frame complete (a frame
    /// is 70224 dots; the budget of two frames of one-cycle steps always
    /// covers it while the generator is enabled). The joypad is sampled
    /// once, and the machine then advances by whole step-and-tick
    /// transitions: on `Ready` the last transition completed the frame, on
    /// `IllegalOpcode` the machine stands at the offending fetch, and on
    /// `Stalled` the whole step budget was spent.
    #[verifier::rlimit(100)]
    pub fn run_frame(&mut self, key_states: KeyStates) -> (r: FrameResult)
        requires
            old(self).inv(),
            old(self).mmu@.supported(),
        ensures
            final(self).inv(),
            final(self).mmu@.supported(),
            ({
                let c0 = old(self).cpu;
                let m0 = old(self).spec_sampled(key_states);
                &&& (r is Stalled ==> (final(self).cpu, final(self).mmu@) == spec_run(
                    c0,
                    m0,
                    35112,
                ))
                &&& (r is Ready ==> exists|n: nat|
                    1 <= n <= 35112 && (final(self).cpu, final(self).mmu@) == #[trigger] spec_run(
                        c0,
                        m0,
                        n,
                    ) && spec_machine_step(
                        spec_run(c0, m0, (n - 1) as nat).0,
                        spec_run(c0, m0, (n - 1) as nat).1,
                    ).2)
                &&& (r is IllegalOpcode ==> exists|n: nat|
                    n <= 35112 && (final(self).cpu, final(self).mmu@) == #[trigger] spec_run(
                        c0,
                        m0,
                        n,
                    ))
            }),
            r is IllegalOpcode ==> final(self).cpu.spec_will_fetch(final(self).mmu@)
                && spec_illegal_opcode(final(self).mmu@.rb(final(self).cpu.r.pc)),
    {
        let ghost c0 = old(self).cpu;
        self.mmu.handle_joypad(key_states);
        let ghost m0 = self.mmu@;
        let mut fuel: u32 = 35112;
        while fuel > 0
            invariant
                self.cpu.inv(),
                self.mmu@.inv(),
                self.mmu@.supported(),
                fuel <= 35112,
                c0 == old(self).cpu,
                m0 == old(self).spec_sampled(key_states),
                (self.cpu, self.mmu@) == spec_run(c0, m0, (35112 - fuel) as nat),
            decreases fuel,
        {
            if self.cpu.will_fetch(&self.mmu) {
                let op = self.mmu.rb(self.cpu.r.pc);
                if CPU::illegal_opcode(op) {
                    proof {
                        let n: nat = (35112 - fuel) as nat;
                        assert((self.cpu, self.mmu@) == spec_run(c0, m0, n));
                    }
                    return FrameResult::IllegalOpcode;
                }
            }
            let cycles = self.cpu.step(&mut self.mmu);
            let frame_ready = self.mmu.tick(cycles);
            proof {
                let n: nat = (35112 - fuel + 1) as nat;
                assert((self.cpu, self.mmu@) == spec_run(c0, m0, n));
            }

            if frame_ready {
                proof {
                    let n: nat = (35112 - fuel + 1) as nat;
                    assert(1 <= n <= 35112 && (self.cpu, self.mmu@) == spec_run(c0, m0, n)
                        && spec_machine_step(
                        spec_run(c0, m0, (n - 1) as nat).0,
                        spec_run(c0, m0, (n - 1) as nat).1,
                    ).2);
                }
                return FrameResult::Ready;
            }
            fuel = fuel - 1;
        }
        FrameResult::Stalled
    }

    /// The finished 160x144 frame of 2-bit shades, row by row; the host
    /// maps shades to display colours.
    pub fn get_last_frame_buffer(&self) -> (r: Vec<u8>)
        ensures
            r@ == self.mmu@.ppu.frame_buffer,
    {
        self.mmu.get_fb()
    }

    /// The persisted battery-backed contents of the cartridge, if any.
    pub fn save(&self) -> (r: Option<Vec<u8>>)
        requires
            self.inv(),
        ensures
            (match r {
                Some(d) => self.mmu@.cart.controller.save() == Some(d@),
                None => self.mmu@.cart.controller.save() is None,
            }),
    {
        self.mmu.save()
    }

    /// Hand the host's current timestamp to the cartridge clock, if any:
    /// only the clock moves, and only forward.
    pub fn set_clock(&mut self, now: u64)
        requires
            old(self).inv(),
        ensures
            final(self).cpu == old(self).cpu,
            final(self).mmu@ == (crate::mmu::MmuView {
                cart: (crate::cart::CartView {
                    controller: old(self).mmu@.cart.controller.spec_set_now(now),
                    ..old(self).mmu@.cart
                }),
                ..old(self).mmu@
            }),
            final(self).inv(),
            final(self).mmu@.supported() == old(self).mmu@.supported(),
    {
        self.mmu.set_now(now);
    }
}

} // verus!
