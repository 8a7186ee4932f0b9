//! The clock controller: the main clock source and prescaler, behind
//! configuration change protection.

use crate::memory::MemoryMapped;
use crate::peripherals::{Ccp, ClockSource};
use vstd::array::spec_array_update;
use vstd::prelude::*;

verus! {

pub const CLKCTRL_MCLKCTRLA: usize = 0x00;

pub const CLKCTRL_MCLKCTRLB: usize = 0x01;

pub const CLKCTRL_MCLKLOCK: usize = 0x02;

pub const CLKCTRL_MCLKSTATUS: usize = 0x03;

pub const CLKCTRL_XOSC32KCTRLA: usize = 0x1C;

/// The period in nanoseconds of a clock source selected in MCLKCTRLA, where
/// the emulator models it: 20 MHz for the internal oscillator, 32.768 kHz for
/// the low-power one.
#[verifier::allow_in_spec]
pub fn source_period(select: u8) -> Option<u64>
    returns
        (if select == 0 {
            Some(50u64)
        } else if select == 1 {
            Some(30518u64)
        } else {
            None
        }),
{
    if select == 0 {
        Some(50u64)
    } else if select == 1 {
        Some(30518u64)
    } else {
        None
    }
}

/// The division factor that a value of the prescaler field of MCLKCTRLB
/// selects, where the value is valid.
#[verifier::allow_in_spec]
pub fn prescaler_division(field: u8) -> Option<u64>
    returns
        (if field == 0 {
            Some(2u64)
        } else if field == 1 {
            Some(4u64)
        } else if field == 2 {
            Some(8u64)
        } else if field == 3 {
            Some(16u64)
        } else if field == 4 {
            Some(32u64)
        } else if field == 5 {
            Some(64u64)
        } else if field == 8 {
            Some(6u64)
        } else if field == 9 {
            Some(10u64)
        } else if field == 10 {
            Some(12u64)
        } else if field == 11 {
            Some(24u64)
        } else if field == 12 {
            Some(48u64)
        } else {
            None
        }),
{
    if field == 0 {
        Some(2u64)
    } else if field == 1 {
        Some(4u64)
    } else if field == 2 {
        Some(8u64)
    } else if field == 3 {
        Some(16u64)
    } else if field == 4 {
        Some(32u64)
    } else if field == 5 {
        Some(64u64)
    } else if field == 8 {
        Some(6u64)
    } else if field == 9 {
        Some(10u64)
    } else if field == 10 {
        Some(12u64)
    } else if field == 11 {
        Some(24u64)
    } else if field == 12 {
        Some(48u64)
    } else {
        None
    }
}

/// The clock controller.
pub struct Clkctrl {
    pub regs: [u8; 0x1D],
    /// The period of the main clock in nanoseconds.
    pub clock_period: u64,
    /// The protected registers accept writes.
    pub ccp: bool,
}

impl Clkctrl {
    /// The clock runs: its period is above zero.
    pub open spec fn wf(self) -> bool {
        self.clock_period > 0
    }

    /// The controller is in its reset state.
    pub open spec fn is_reset(self) -> bool {
        &&& self.clock_period == 300
        &&& !self.ccp
        &&& forall|i: int| 0 <= i < 0x1D ==> self.regs[i] == 0
    }

    /// A controller that delivers the reset clock of 3.33 MHz.
    pub fn new() -> (clkctrl: Clkctrl)
        ensures
            clkctrl.is_reset(),
    {
        Clkctrl { regs: [0u8; 0x1D], clock_period: 300, ccp: false }
    }

    /// The controller with one register replaced.
    pub open spec fn with_reg(self, address: int, value: u8) -> Clkctrl {
        Clkctrl { regs: spec_array_update(self.regs, address, value), ..self }
    }

    /// The main clock registers are locked against further change.
    pub open spec fn locked(self) -> bool {
        self.regs[CLKCTRL_MCLKLOCK as int] & 0x1 == 1
    }

    /// Whether the main clock registers are locked.
    pub fn is_locked(&self) -> (locked: bool)
        ensures
            locked == self.locked(),
    {
        self.regs[CLKCTRL_MCLKLOCK] & 0x1 == 1
    }

    /// The controller with the clock period recomputed from its registers.
    /// The period is that of the selected source, multiplied by the
    /// prescaler's division factor if the prescaler is enabled. An unmodelled
    /// source or an invalid prescaler value leaves the period as it is.
    pub open spec fn clock_updated(self) -> Clkctrl {
        match source_period(self.regs[CLKCTRL_MCLKCTRLA as int] & 0x3) {
            None => self,
            Some(period) => if self.regs[CLKCTRL_MCLKCTRLB as int] & 0x1 == 0 {
                Clkctrl { clock_period: period, ..self }
            } else {
                match prescaler_division((self.regs[CLKCTRL_MCLKCTRLB as int] >> 1) & 0xF) {
                    None => self,
                    Some(division) => Clkctrl { clock_period: (period * division) as u64, ..self },
                }
            },
        }
    }

    fn update_clock(&mut self)
        ensures
            *final(self) == old(self).clock_updated(),
    {
        let period = match source_period(self.regs[CLKCTRL_MCLKCTRLA] & 0x3) {
            Some(period) => period,
            None => {
                return ;
            },
        };
        if self.regs[CLKCTRL_MCLKCTRLB] & 0x1 == 0 {
            self.clock_period = period;
            return ;
        }
        let pdiv = match prescaler_division((self.regs[CLKCTRL_MCLKCTRLB] >> 1) & 0xF) {
            Some(division) => division,
            None => {
                return ;
            },
        };
        self.clock_period = period * pdiv;
    }

    /// The controller after a write. The three main clock registers accept a
    /// write only inside the protection window and while unlocked; the other
    /// registers are not modelled and ignore writes.
    pub open spec fn write_spec(self, address: usize, value: u8) -> Clkctrl {
        if !self.ccp || self.locked() {
            self
        } else if address == CLKCTRL_MCLKCTRLA {
            let stored = self.with_reg(CLKCTRL_MCLKCTRLA as int, value & 0x3);
            if value & 0x3 == 2 {
                stored
            } else {
                stored.clock_updated()
            }
        } else if address == CLKCTRL_MCLKCTRLB {
            self.with_reg(CLKCTRL_MCLKCTRLB as int, value & 0x1F).clock_updated()
        } else if address == CLKCTRL_MCLKLOCK {
            self.with_reg(CLKCTRL_MCLKLOCK as int, value & 0x1)
        } else {
            self
        }
    }

    /// The byte read at a register address.
    pub open spec fn read_spec(self, address: usize) -> u8 {
        if address < 0x1D {
            self.regs[address as int]
        } else {
            0
        }
    }
}

impl Clkctrl {
    /// Reads a register.
    pub fn read_register(&mut self, address: usize) -> (r: (u8, usize))
        ensures
            r == (old(self).read_spec(address), 0usize),
            *final(self) == *old(self),
    {
        if address < 0x1D {
            (self.regs[address], 0)
        } else {
            (0, 0)
        }
    }

    /// Writes a register.
    pub fn write_register(&mut self, address: usize, value: u8)
        ensures
            *final(self) == old(self).write_spec(address, value),
    {
        if self.ccp && !self.is_locked() {
            if address == CLKCTRL_MCLKCTRLA {
                self.regs[CLKCTRL_MCLKCTRLA] = value & 0x3;
                if value & 0x3 != 2 {
                    self.update_clock();
                }
            } else if address == CLKCTRL_MCLKCTRLB {
                self.regs[CLKCTRL_MCLKCTRLB] = value & 0x1F;
                self.update_clock();
            } else if address == CLKCTRL_MCLKLOCK {
                self.regs[CLKCTRL_MCLKLOCK] = value & 0x1;
            }
        }
    }
}

impl MemoryMapped for Clkctrl {
    type Model = Clkctrl;

    open spec fn model(&self) -> Clkctrl {
        *self
    }

    open spec fn inv(&self) -> bool {
        true
    }

    open spec fn size_of(m: Clkctrl) -> nat {
        0x1D
    }

    open spec fn read_of(m: Clkctrl, address: usize) -> (u8, usize, Clkctrl) {
        (m.read_spec(address), 0, m)
    }

    open spec fn write_of(m: Clkctrl, address: usize, value: u8) -> (usize, Clkctrl) {
        (0, m.write_spec(address, value))
    }

    fn get_size(&self) -> (n: usize) {
        0x1D
    }

    fn read(&mut self, address: usize) -> (r: (u8, usize)) {
        let r = self.read_register(address);
        proof {
            assert(self.inv());
            assert(Self::read_of(old(self).model(), address) == (
                old(self).read_spec(address),
                0usize,
                *old(self),
            ));
        }
        r
    }

    fn write(&mut self, address: usize, value: u8) -> (latency: usize) {
        self.write_register(address, value);
        proof {
            assert(self.inv());
            assert(Self::write_of(old(self).model(), address, value) == (
                0usize,
                old(self).write_spec(address, value),
            ));
        }
        0
    }
}

impl Ccp for Clkctrl {
    open spec fn unlocked(&self, enabled: bool) -> Clkctrl {
        Clkctrl { ccp: enabled, ..*self }
    }

    fn ccp(&mut self, enabled: bool) {
        self.ccp = enabled;
    }
}

impl ClockSource for Clkctrl {
    open spec fn period(&self) -> u64 {
        self.clock_period
    }

    fn clock_period(&self) -> (ns: u64) {
        self.clock_period
    }
}

/// The clock keeps running whatever is written: the period stays above zero.
pub proof fn law_clock_keeps_running(clkctrl: Clkctrl, address: usize, value: u8)
    requires
        clkctrl.wf(),
    ensures
        clkctrl.write_spec(address, value).wf(),
        clkctrl.clock_updated().wf(),
{
    assert forall|c: Clkctrl| c.clock_period > 0 implies (#[trigger] c.clock_updated()).clock_period
        > 0 by {
        match source_period(c.regs[CLKCTRL_MCLKCTRLA as int] & 0x3) {
            None => {},
            Some(period) => {
                match prescaler_division((c.regs[CLKCTRL_MCLKCTRLB as int] >> 1) & 0xF) {
                    None => {},
                    Some(division) => {
                        assert(period * division >= period) by (nonlinear_arith)
                            requires
                                period > 0,
                                division >= 1,
                        ;
                        assert(period * division <= 30518 * 64) by (nonlinear_arith)
                            requires
                                0 < period <= 30518,
                                1 <= division <= 64,
                        ;
                    },
                }
            },
        }
    }
}

/// A write to a main clock register outside the protection window changes
/// nothing, whatever is written.
pub proof fn law_protected_outside_window(clkctrl: Clkctrl, address: usize, value: u8)
    requires
        !clkctrl.ccp,
    ensures
        clkctrl.write_spec(address, value) == clkctrl,
{
}

/// Whether a write asks for something that the controller does not model: a
/// clock source other than the two internal oscillators, the clock output, a
/// prescaler value without a division, or anything in the registers behind
/// MCLKLOCK.
#[verifier::allow_in_spec]
pub fn unsupported(address: usize, value: u8) -> bool
    returns
        (if address == CLKCTRL_MCLKCTRLA {
            value & 0x3 >= 2 || value & 0x80 != 0
        } else if address == CLKCTRL_MCLKCTRLB {
            value & 0x1 != 0 && prescaler_division((value >> 1) & 0xF).is_none()
        } else {
            CLKCTRL_MCLKSTATUS <= address && address <= CLKCTRL_XOSC32KCTRLA
        }),
{
    if address == CLKCTRL_MCLKCTRLA {
        value & 0x3 >= 2 || value & 0x80 != 0
    } else if address == CLKCTRL_MCLKCTRLB {
        value & 0x1 != 0 && prescaler_division((value >> 1) & 0xF).is_none()
    } else {
        CLKCTRL_MCLKSTATUS <= address && address <= CLKCTRL_XOSC32KCTRLA
    }
}

} // verus!
