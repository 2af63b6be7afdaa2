//! The processor: fetch, decode and execute through the primary and prefix
//! opcode dispatchers, interrupt servicing, and the HALT/STOP state machine.

pub mod exec;
pub mod instructions;
pub mod instructions_ld;
pub mod instructions_alu;
pub mod instructions_cb;

use vstd::prelude::*;

use crate::bits::{w16, wadd16, wsub16};
use crate::interrupt::{spec_highest_priority, highest_priority, INTERRUPT_CYCLES, Interrupt};
use crate::mmu::{MMU, MmuView};
use crate::registers::Registers;

verus! {

/// Machine cycles (four dots each).
pub type Cycles = u8;

pub struct CPU {
    pub r: Registers,
    /// Interrupt master enable.
    pub ime: bool,
    /// Arming counter for the delayed effect of EI: counts down one per
    /// instruction; IME turns on when it reaches zero.
    pub ime_delay: u8,
    pub halted: bool,
    pub stopped: bool,
}

/// The opcode slots the primary table leaves unused; fetching one is a
/// fatal error, so `step` excludes them by precondition and the host tests
/// before stepping.
pub open spec fn spec_illegal_opcode(op: u8) -> bool {
    ||| op == 0xD3
    ||| op == 0xDB
    ||| op == 0xDD
    ||| op == 0xE3
    ||| op == 0xE4
    ||| op == 0xEB
    ||| op == 0xEC
    ||| op == 0xED
    ||| op == 0xF4
    ||| op == 0xFC
    ||| op == 0xFD
}

impl CPU {
    pub open spec fn inv(self) -> bool {
        self.ime_delay <= 2
    }

    /// The post-boot state the machine hands the program at 0x0100.
    pub open spec fn spec_init() -> CPU {
        CPU {
            r: Registers {
                a: 0x01,
                b: 0x00,
                c: 0x13,
                d: 0x00,
                e: 0xD8,
                h: 0x01,
                l: 0x4D,
                zf: true,
                nf: false,
                hf: true,
                cf: true,
                sp: 0xFFFE,
                pc: 0x0100,
            },
            ime: false,
            ime_delay: 0,
            halted: false,
            stopped: false,
        }
    }

    /// Whether the next step services an interrupt: IME is set and an
    /// enabled interrupt is flagged (a halted processor wakes first).
    pub open spec fn spec_services(self, m: MmuView) -> bool {
        &&& !(self.halted && m.spec_pending() == 0)
        &&& !self.stopped
        &&& self.ime
        &&& m.spec_pending() != 0
    }

    /// Whether the next step falls through to an instruction fetch.
    pub open spec fn spec_will_fetch(self, m: MmuView) -> bool {
        &&& !(self.halted && m.spec_pending() == 0)
        &&& !self.stopped
        &&& !(self.ime && m.spec_pending() != 0)
    }

    pub fn init() -> (r: CPU)
        ensures
            r == CPU::spec_init(),
            r.inv(),
    {
        CPU {
            r: Registers {
                a: 0x01,
                b: 0x00,
                c: 0x13,
                d: 0x00,
                e: 0xD8,
                h: 0x01,
                l: 0x4D,
                zf: true,
                nf: false,
                hf: true,
                cf: true,
                sp: 0xFFFE,
                pc: 0x0100,
            },
            ime: false,
            ime_delay: 0,
            halted: false,
            stopped: false,
        }
    }

    pub fn pc_inc(&mut self, val: u16)
        ensures
            *final(self) == (CPU {
                r: (Registers { pc: w16(old(self).r.pc + val), ..old(self).r }),
                ..*old(self)
            }),
    {
        self.r.pc = wadd16(self.r.pc, val);
    }

    pub fn sp_inc(&mut self, val: u16)
        ensures
            *final(self) == (CPU {
                r: (Registers { sp: w16(old(self).r.sp + val), ..old(self).r }),
                ..*old(self)
            }),
    {
        self.r.sp = wadd16(self.r.sp, val);
    }

    pub fn sp_sub(&mut self, val: u16)
        ensures
            *final(self) == (CPU {
                r: (Registers { sp: w16(old(self).r.sp - val), ..old(self).r }),
                ..*old(self)
            }),
    {
        self.r.sp = wsub16(self.r.sp, val);
    }

    /// Fetch one byte at PC and advance PC past it.
    pub fn rb(&mut self, mmu: &MMU) -> (r: u8)
        requires
            mmu@.inv(),
            mmu@.supported(),
        ensures
            r == mmu@.rb(old(self).r.pc),
            *final(self) == (CPU {
                r: (Registers { pc: w16(old(self).r.pc + 1), ..old(self).r }),
                ..*old(self)
            }),
    {
        let v = mmu.rb(self.r.pc);
        self.pc_inc(1);
        v
    }

    /// Fetch one word at PC and advance PC past it.
    pub fn rw(&mut self, mmu: &MMU) -> (r: u16)
        requires
            mmu@.inv(),
            mmu@.supported(),
        ensures
            r == mmu@.rw(old(self).r.pc),
            *final(self) == (CPU {
                r: (Registers { pc: w16(old(self).r.pc + 2), ..old(self).r }),
                ..*old(self)
            }),
    {
        let v = mmu.rw(self.r.pc);
        self.pc_inc(2);
        v
    }

    /// Push a word: SP moves down by two, the word lands at the new SP.
    pub fn push(&mut self, mmu: &mut MMU, val: u16)
        requires
            old(mmu)@.inv(),
            old(mmu)@.supported(),
        ensures
            *final(self) == (CPU {
                r: (Registers { sp: w16(old(self).r.sp - 2), ..old(self).r }),
                ..*old(self)
            }),
            final(mmu)@ == old(mmu)@.ww(w16(old(self).r.sp - 2), val),
            final(mmu)@.inv(),
            final(mmu)@.supported(),
    {
        self.sp_sub(2);
        mmu.ww(self.r.sp, val);
    }

    /// Pop a word from SP; SP moves up by two.
    pub fn pop(&mut self, mmu: &mut MMU) -> (r: u16)
        requires
            old(mmu)@.inv(),
            old(mmu)@.supported(),
        ensures
            r == old(mmu)@.rw(old(self).r.sp),
            *final(self) == (CPU {
                r: (Registers { sp: w16(old(self).r.sp + 2), ..old(self).r }),
                ..*old(self)
            }),
            final(mmu)@ == old(mmu)@,
    {
        let val = mmu.rw(self.r.sp);
        self.sp_inc(2);
        val
    }

    pub fn set_flags(&mut self, z: bool, n: bool, h: bool, c: bool)
        ensures
            *final(self) == (CPU {
                r: (Registers { zf: z, nf: n, hf: h, cf: c, ..old(self).r }),
                ..*old(self)
            }),
    {
        self.r.set_z(z);
        self.r.set_n(n);
        self.r.set_h(h);
        self.r.set_c(c);
    }

    /// Arm (or cancel) the delayed IME enable of EI: the flag turns on only
    /// after the following instruction completes.
    pub fn set_ime_pending(&mut self, val: bool)
        ensures
            *final(self) == (CPU {
                ime_delay: (if val { 2u8 } else { 0u8 }),
                ..*old(self)
            }),
            final(self).inv(),
    {
        self.ime_delay = if val {
            2
        } else {
            0
        };
    }

    /// Whether the given opcode byte is one of the unused slots.
    pub fn illegal_opcode(op: u8) -> (r: bool)
        ensures
            r == spec_illegal_opcode(op),
    {
        op == 0xD3 || op == 0xDB || op == 0xDD || op == 0xE3 || op == 0xE4 || op == 0xEB
            || op == 0xEC || op == 0xED || op == 0xF4 || op == 0xFC || op == 0xFD
    }

    /// Whether the next step will fetch and execute an instruction rather
    /// than idle or service an interrupt.
    pub fn will_fetch(&self, mmu: &MMU) -> (r: bool)
        ensures
            r == self.spec_will_fetch(mmu@),
    {
        let pending = mmu.pending_interrupts();
        !(self.halted && pending == 0) && !self.stopped && !(self.ime && pending != 0)
    }

    pub fn stop(&mut self)
        ensures
            *final(self) == (CPU { stopped: true, ..*old(self) }),
    {
        self.stopped = true;
    }

    pub fn halt(&mut self)
        ensures
            *final(self) == (CPU { halted: true, ..*old(self) }),
    {
        self.halted = true;
    }

    /// The bus after an interrupt dispatch: the serviced bit leaves IF and
    /// the return address is pushed.
    pub open spec fn spec_service_mmu(self, m: MmuView, source: Interrupt) -> MmuView {
        (MmuView {
            if_: (m.if_ & !source.spec_bit()),
            ..m
        }).ww(w16(self.r.sp - 2), self.r.pc)
    }

    /// The processor after an interrupt dispatch: IME off, PC at the
    /// source's vector, SP down by two.
    pub open spec fn spec_service_cpu(self, source: Interrupt) -> CPU {
        CPU {
            r: (Registers { pc: source.spec_vector(), sp: w16(self.r.sp - 2), ..self.r }),
            ime: false,
            ..self
        }
    }

    /// Service the pending interrupt of highest priority, if any: clear
    /// IME and its IF bit, push PC, jump to its vector; five machine
    /// cycles.
    #[verifier::rlimit(100)]
    fn service_interrupts(&mut self, mmu: &mut MMU) -> (r: Option<Cycles>)
        requires
            old(self).inv(),
            old(mmu)@.inv(),
            old(mmu)@.supported(),
        ensures
            final(self).inv(),
            final(mmu)@.inv(),
            final(mmu)@.supported(),
            old(mmu)@.spec_pending() == 0 ==> (r is None && *final(self) == *old(self)
                && final(mmu)@ == old(mmu)@),
            old(mmu)@.spec_pending() != 0 ==> {
                let source = spec_highest_priority(old(mmu)@.spec_pending())->0;
                &&& r == Some(INTERRUPT_CYCLES)
                &&& *final(self) == old(self).spec_service_cpu(source)
                &&& final(mmu)@ == old(self).spec_service_mmu(old(mmu)@, source)
            },
    {
        let pending = mmu.pending_interrupts();
        if pending == 0 {
            return None;
        }
        proof {
            let ie = mmu@.ie;
            let iff = mmu@.if_;
            assert((ie & iff & 0x1F) & 0x1F == ie & iff & 0x1F) by (bit_vector);
            crate::interrupt::lemma_pending_has_priority(pending);
        }
        let interrupt = match highest_priority(pending) {
            Some(i) => i,
            None => vstd::pervasive::unreached(),
        };

        self.ime = false;
        mmu.clear_interrupt(interrupt.bit());
        instructions::call(self, mmu, interrupt.vector());

        Some(INTERRUPT_CYCLES)
    }

    /// One step of the processor: wake from HALT when an interrupt is both
    /// enabled and flagged; idle while stopped; service the
    /// highest-priority pending interrupt when IME allows; otherwise fetch,
    /// decode and execute one instruction and then run the delayed-EI
    /// bookkeeping. Returns the machine cycles consumed.
    pub fn step(&mut self, mmu: &mut MMU) -> (r: Cycles)
        requires
            old(self).inv(),
            old(mmu)@.inv(),
            old(mmu)@.supported(),
            old(self).spec_will_fetch(old(mmu)@) ==> !spec_illegal_opcode(
                old(mmu)@.rb(old(self).r.pc),
            ),
        ensures
            final(self).inv(),
            final(mmu)@.inv(),
            final(mmu)@.supported(),
            1 <= r <= 6,
            final(self).r.spec_f() % 0x10 == 0,
            // the whole step, every opcode included, as a function of the
            // starting state
            (*final(self), final(mmu)@, r) == old(self).spec_step(old(mmu)@),
            // a halted processor with nothing pending idles one cycle
            (old(self).halted && old(mmu)@.spec_pending() == 0) ==> (*final(self) == *old(self)
                && final(mmu)@ == old(mmu)@ && r == 1),
            // a stopped processor idles one cycle (it may wake from HALT first)
            (!(old(self).halted && old(mmu)@.spec_pending() == 0) && old(self).stopped) ==> (
            *final(self) == (CPU { halted: false, ..*old(self) }) && final(mmu)@ == old(mmu)@
                && r == 1),
            // interrupt dispatch
            old(self).spec_services(old(mmu)@) ==> {
                let source = spec_highest_priority(old(mmu)@.spec_pending())->0;
                &&& *final(self) == (CPU {
                    halted: false,
                    ..old(self).spec_service_cpu(source)
                })
                &&& final(mmu)@ == old(self).spec_service_mmu(old(mmu)@, source)
                &&& r == 5
            },
            // instruction execution: the delayed-EI bookkeeping, and the
            // exact effect of the interrupt-control opcodes
            old(self).spec_will_fetch(old(mmu)@) ==> {
                let op = old(mmu)@.rb(old(self).r.pc);
                &&& (op != 0xF3 && op != 0xFB && op != 0xD9 ==> final(self).ime == (old(self).ime
                    || old(self).ime_delay == 1) && final(self).ime_delay == (
                if old(self).ime_delay > 0 {
                    (old(self).ime_delay - 1) as u8
                } else {
                    0u8
                }))
                &&& (op == 0xFB ==> *final(self) == (CPU {
                    r: (Registers { pc: w16(old(self).r.pc + 1), ..old(self).r }),
                    ime_delay: 1,
                    halted: false,
                    ..*old(self)
                }) && final(mmu)@ == old(mmu)@ && r == 1)
                &&& (op == 0xF3 ==> *final(self) == (CPU {
                    r: (Registers { pc: w16(old(self).r.pc + 1), ..old(self).r }),
                    ime: false,
                    ime_delay: 0,
                    halted: false,
                    ..*old(self)
                }) && final(mmu)@ == old(mmu)@ && r == 1)
                &&& (op == 0xD9 ==> final(self).ime == true)
                &&& (op == 0x00 ==> *final(self) == (CPU {
                    r: (Registers { pc: w16(old(self).r.pc + 1), ..old(self).r }),
                    ime: (old(self).ime || old(self).ime_delay == 1),
                    ime_delay: (if old(self).ime_delay > 0 {
                        (old(self).ime_delay - 1) as u8
                    } else {
                        0u8
                    }),
                    halted: false,
                    ..*old(self)
                }) && final(mmu)@ == old(mmu)@ && r == 1)
            },
    {
        proof {
            reveal(CPU::spec_step);
        }
        if self.halted {
            if mmu.pending_interrupts() != 0 {
                self.halted = false;
            } else {
                return 1;
            }
        }

        if self.stopped {
            return 1;
        }

        if self.ime {
            match self.service_interrupts(mmu) {
                Some(cycles) => {
                    return cycles;
                },
                None => {},
            }
        }

        let op = self.rb(mmu);

        let cycles = if op == 0xCB {
            let cb = self.rb(mmu);
            instructions_cb::dispatch_cb(self, mmu, cb)
        } else {
            instructions::dispatch(self, mmu, op)
        };

        // The effect of EI is delayed by one instruction, so an EI
        // followed immediately by DI never lets an interrupt through.
        if self.ime_delay > 0 {
            self.ime_delay = self.ime_delay - 1;
            if self.ime_delay == 0 {
                self.ime = true;
            }
        }

        proof {
            crate::registers::lemma_f_low_nibble_zero(self.r);
        }

        cycles
    }
}

} // verus!
