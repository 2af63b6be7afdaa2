//! The real-time clock of the type-3 bank controller.
//!
//! The clock itself is injected: the host hands in a current timestamp
//! (seconds since an arbitrary epoch) and the controller derives the
//! counters from the distance to its base timestamp. A latch sequence
//! (write 0x00 then 0x01) freezes a counters snapshot into the five
//! pseudo-registers 0x08..=0x0C.

use vstd::prelude::*;

verus! {

#[derive(Clone, Copy, Debug, PartialEq, Eq, Structural)]
pub struct RTC {
    /// Base timestamp the counters run from.
    pub startup: u64,
    /// The most recent timestamp the host handed in.
    pub now: u64,
    /// Latched seconds (register 0x08).
    pub rtc_s: u8,
    /// Latched minutes (register 0x09).
    pub rtc_m: u8,
    /// Latched hours (register 0x0A).
    pub rtc_h: u8,
    /// Latched day counter, low byte (register 0x0B).
    pub rtc_dl: u8,
    /// Latched day counter, high byte (register 0x0C).
    pub rtc_dh: u8,
    /// Whether a 0x00 write has armed the latch.
    pub latch: bool,
}

#[derive(Clone, Copy, Debug, PartialEq, Eq, Structural)]
pub struct Counters {
    pub seconds: u8,
    pub minutes: u8,
    pub hours: u8,
    pub days: u64,
}

impl RTC {
    /// Seconds elapsed since the base timestamp; a host clock that went
    /// backwards past the base reads as no time elapsed.
    pub open spec fn spec_elapsed(self) -> u64 {
        if self.now >= self.startup {
            (self.now - self.startup) as u64
        } else {
            0
        }
    }

    /// The wall-clock counters derived from the elapsed seconds.
    pub open spec fn spec_counters(self) -> Counters {
        let e = self.spec_elapsed();
        Counters {
            seconds: (e % 60) as u8,
            minutes: ((e % 3600) / 60) as u8,
            hours: ((e % 86400) / 3600) as u8,
            days: (e / 86400) as u64,
        }
    }

    /// The clock state after the counters are frozen into the registers.
    pub open spec fn spec_latched(self) -> RTC {
        let c = self.spec_counters();
        RTC {
            rtc_s: c.seconds,
            rtc_m: c.minutes,
            rtc_h: c.hours,
            rtc_dl: (c.days % 0x100) as u8,
            rtc_dh: ((c.days / 0x100) % 0x100) as u8,
            ..self
        }
    }

    /// The clock state after a write to the latch region: 0x00 arms the
    /// latch; 0x01 on an armed latch freezes the counters; anything else
    /// disarms it.
    pub open spec fn spec_latch(self, value: u8) -> RTC {
        if value == 0x00 {
            RTC { latch: true, ..self }
        } else if value == 0x01 && self.latch {
            RTC { latch: false, ..self.spec_latched() }
        } else {
            RTC { latch: false, ..self }
        }
    }

    /// The register read back for 0x08..=0x0C.
    pub open spec fn spec_read_register(self, register: u8) -> u8 {
        if register == 0x08 {
            self.rtc_s
        } else if register == 0x09 {
            self.rtc_m
        } else if register == 0x0A {
            self.rtc_h
        } else if register == 0x0B {
            self.rtc_dl
        } else {
            self.rtc_dh
        }
    }

    /// The clock after a direct write to one of the five registers.
    pub open spec fn spec_write_register(self, register: u8, value: u8) -> RTC {
        if register == 0x08 {
            RTC { rtc_s: value, ..self }
        } else if register == 0x09 {
            RTC { rtc_m: value, ..self }
        } else if register == 0x0A {
            RTC { rtc_h: value, ..self }
        } else if register == 0x0B {
            RTC { rtc_dl: value, ..self }
        } else {
            RTC { rtc_dh: value, ..self }
        }
    }

    /// A fresh clock running from the given base timestamp.
    pub open spec fn spec_init(startup: u64) -> RTC {
        RTC { startup, now: startup, rtc_s: 0, rtc_m: 0, rtc_h: 0, rtc_dl: 0, rtc_dh: 0, latch: false }
    }

    /// A fresh clock running from the given base timestamp.
    pub fn init(startup: u64) -> (r: RTC)
        ensures
            r == RTC::spec_init(startup),
    {
        RTC { startup, now: startup, rtc_s: 0, rtc_m: 0, rtc_h: 0, rtc_dl: 0, rtc_dh: 0, latch: false }
    }

    /// Take over the host's current timestamp. The source must not run
    /// backwards.
    pub fn set_now(&mut self, now: u64)
        requires
            now >= old(self).now,
        ensures
            *final(self) == (RTC { now, ..*old(self) }),
    {
        self.now = now;
    }

    pub fn latch(&mut self, value: u8)
        ensures
            *final(self) == old(self).spec_latch(value),
    {
        if value == 0x00 {
            self.latch = true;
        } else if value == 0x01 && self.latch {
            self.latch = false;
            self.latch_values();
        } else {
            self.latch = false;
        }
    }

    fn latch_values(&mut self)
        ensures
            *final(self) == old(self).spec_latched(),
    {
        let counters = self.get_counters();

        self.rtc_s = counters.seconds;
        self.rtc_m = counters.minutes;
        self.rtc_h = counters.hours;
        self.rtc_dl = (counters.days % 0x100) as u8;
        self.rtc_dh = ((counters.days / 0x100) % 0x100) as u8;
    }

    pub fn write_regisetr(&mut self, register: u8, value: u8)
        requires
            0x08 <= register <= 0x0C,
        ensures
            *final(self) == old(self).spec_write_register(register, value),
    {
        if register == 0x08 {
            self.rtc_s = value;
        } else if register == 0x09 {
            self.rtc_m = value;
        } else if register == 0x0A {
            self.rtc_h = value;
        } else if register == 0x0B {
            self.rtc_dl = value;
        } else {
            self.rtc_dh = value;
        }
    }

    pub fn read_register(&self, register: u8) -> (r: u8)
        requires
            0x08 <= register <= 0x0C,
        ensures
            r == self.spec_read_register(register),
    {
        if register == 0x08 {
            self.rtc_s
        } else if register == 0x09 {
            self.rtc_m
        } else if register == 0x0A {
            self.rtc_h
        } else if register == 0x0B {
            self.rtc_dl
        } else {
            self.rtc_dh
        }
    }

    pub fn get_counters(&self) -> (r: Counters)
        ensures
            r == self.spec_counters(),
    {
        let elapsed: u64 = if self.now >= self.startup {
            self.now - self.startup
        } else {
            0
        };

        let days: u64 = elapsed / 86400;
        let in_day: u64 = elapsed % 86400;
        let hours: u64 = in_day / 3600;
        let in_hour: u64 = elapsed % 3600;
        let minutes: u64 = in_hour / 60;
        let seconds: u64 = elapsed % 60;

        proof {
            assert(in_day / 3600 < 24) by (nonlinear_arith)
                requires in_day < 86400;
            assert(in_hour / 60 < 60) by (nonlinear_arith)
                requires in_hour < 3600;
        }

        Counters {
            seconds: seconds as u8,
            minutes: minutes as u8,
            hours: hours as u8,
            days,
        }
    }
}

} // verus!
