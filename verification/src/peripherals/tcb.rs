//! Timer/counter B, in periodic interrupt mode: the counter runs up to the
//! compare value, raises the capture flag and starts again from zero.

use crate::memory::MemoryMapped;
use crate::peripherals::{Clocked, InterruptSource};
use vstd::array::spec_array_update;
use vstd::prelude::*;

verus! {

pub const TCB_CTRLA: usize = 0x00;

pub const TCB_CTRLB: usize = 0x01;

pub const TCB_EVCTRL: usize = 0x04;

pub const TCB_INTCTRL: usize = 0x05;

pub const TCB_INTFLAGS: usize = 0x06;

pub const TCB_STATUS: usize = 0x07;

pub const TCB_DBGCTRL: usize = 0x08;

pub const TCB_TEMP: usize = 0x09;

pub const TCB_CNTL: usize = 0x0A;

pub const TCB_CNTH: usize = 0x0B;

pub const TCB_CCMPL: usize = 0x0C;

pub const TCB_CCMPH: usize = 0x0D;

/// The counting mode selected in CTRLB.
#[allow(non_camel_case_types)]
#[derive(Clone, Copy, Debug, PartialEq, Eq, Structural)]
pub enum TCB_MODE {
    INT,
    TIMEOUT,
    CAPT,
    FRQ,
    PW,
    FRQPW,
    SINGLE,
    PWM8,
}

/// The clock selected in CTRLA.
#[allow(non_camel_case_types)]
#[derive(Clone, Copy, Debug, PartialEq, Eq, Structural)]
pub enum TCB_CLKSEL {
    DIV1,
    DIV2,
    TCA0,
    RESERVED,
    EVENT,
}

/// The clock that a three-bit field of CTRLA selects.
#[verifier::allow_in_spec]
pub fn clock_selected(field: u8) -> TCB_CLKSEL
    returns
        (if field == 0 {
            TCB_CLKSEL::DIV1
        } else if field == 1 {
            TCB_CLKSEL::DIV2
        } else if field == 2 {
            TCB_CLKSEL::TCA0
        } else if field == 7 {
            TCB_CLKSEL::EVENT
        } else {
            TCB_CLKSEL::RESERVED
        }),
{
    if field == 0 {
        TCB_CLKSEL::DIV1
    } else if field == 1 {
        TCB_CLKSEL::DIV2
    } else if field == 2 {
        TCB_CLKSEL::TCA0
    } else if field == 7 {
        TCB_CLKSEL::EVENT
    } else {
        TCB_CLKSEL::RESERVED
    }
}

/// The counting mode that a three-bit field of CTRLB selects.
#[verifier::allow_in_spec]
pub fn mode_selected(field: u8) -> TCB_MODE
    returns
        (if field == 0 {
            TCB_MODE::INT
        } else if field == 1 {
            TCB_MODE::TIMEOUT
        } else if field == 2 {
            TCB_MODE::CAPT
        } else if field == 3 {
            TCB_MODE::FRQ
        } else if field == 4 {
            TCB_MODE::PW
        } else if field == 5 {
            TCB_MODE::FRQPW
        } else if field == 6 {
            TCB_MODE::SINGLE
        } else {
            TCB_MODE::PWM8
        }),
{
    if field == 0 {
        TCB_MODE::INT
    } else if field == 1 {
        TCB_MODE::TIMEOUT
    } else if field == 2 {
        TCB_MODE::CAPT
    } else if field == 3 {
        TCB_MODE::FRQ
    } else if field == 4 {
        TCB_MODE::PW
    } else if field == 5 {
        TCB_MODE::FRQPW
    } else if field == 6 {
        TCB_MODE::SINGLE
    } else {
        TCB_MODE::PWM8
    }
}

/// Timer/counter B.
pub struct Tcb {
    pub name: String,
    pub regs: [u8; 0x0E],
    pub enabled: bool,
    pub clksel: TCB_CLKSEL,
    pub cntmode: TCB_MODE,
    /// With the clock divided by two: the next tick is skipped.
    pub tictoc: bool,
}

impl Tcb {
    /// The timer is in its reset state.
    pub open spec fn is_reset(self) -> bool {
        &&& forall|i: int| 0 <= i < 0x0E ==> self.regs[i] == 0
        &&& !self.enabled
        &&& self.clksel == TCB_CLKSEL::DIV1
        &&& self.cntmode == TCB_MODE::INT
        &&& !self.tictoc
    }

    /// A disabled timer with all registers cleared.
    pub fn new(name: String) -> (tcb: Tcb)
        ensures
            tcb.name@ == name@,
            tcb.is_reset(),
    {
        Tcb {
            name,
            regs: [0u8; 0x0E],
            enabled: false,
            clksel: TCB_CLKSEL::DIV1,
            cntmode: TCB_MODE::INT,
            tictoc: false,
        }
    }

    /// The timer with one register replaced.
    pub open spec fn with_reg(self, address: usize, value: u8) -> Tcb {
        Tcb { regs: spec_array_update(self.regs, address as int, value), ..self }
    }

    /// The byte read at a register address, and the timer after the read.
    /// Reading the low byte of the counter or of the compare value latches
    /// the high byte in TEMP, and the high byte is read from there.
    pub open spec fn read_spec(self, address: usize) -> (u8, Tcb) {
        if address <= TCB_TEMP {
            (self.regs[address as int], self)
        } else if address == TCB_CCMPL {
            (self.regs[TCB_CCMPL as int], self.with_reg(TCB_TEMP, self.regs[TCB_CCMPH as int]))
        } else if address == TCB_CNTL {
            (self.regs[TCB_CNTL as int], self.with_reg(TCB_TEMP, self.regs[TCB_CNTH as int]))
        } else if address == TCB_CCMPH || address == TCB_CNTH {
            (self.regs[TCB_TEMP as int], self)
        } else {
            (0, self)
        }
    }

    /// The timer after a write. The low byte of the counter or of the compare
    /// value is kept in TEMP until the high byte is written; flags are
    /// cleared by writing one.
    pub open spec fn write_spec(self, address: usize, value: u8) -> Tcb {
        if address == TCB_CTRLA {
            Tcb {
                enabled: value & 0x01 != 0,
                clksel: clock_selected((value >> 1) & 0x07),
                ..self.with_reg(TCB_CTRLA, value).with_reg(
                    TCB_STATUS,
                    if value & 0x01 != 0 {
                        1
                    } else {
                        0
                    },
                )
            }
        } else if address == TCB_CTRLB {
            Tcb { cntmode: mode_selected(value & 0x07), ..self.with_reg(TCB_CTRLB, value) }
        } else if address == TCB_EVCTRL || address == TCB_DBGCTRL || address == TCB_INTCTRL {
            self.with_reg(address, value)
        } else if address == TCB_INTFLAGS {
            self.with_reg(TCB_INTFLAGS, self.regs[TCB_INTFLAGS as int] & !value)
        } else if address == TCB_CCMPL || address == TCB_CNTL {
            self.with_reg(TCB_TEMP, value)
        } else if address == TCB_CCMPH {
            self.with_reg(TCB_CCMPH, value).with_reg(TCB_CCMPL, self.regs[TCB_TEMP as int])
        } else if address == TCB_CNTH {
            self.with_reg(TCB_CNTH, value).with_reg(TCB_CNTL, self.regs[TCB_TEMP as int])
        } else {
            self
        }
    }

    /// The sixteen-bit counter.
    pub open spec fn count(self) -> int {
        self.regs[TCB_CNTH as int] * 256 + self.regs[TCB_CNTL as int]
    }

    /// The sixteen-bit compare value.
    pub open spec fn compare(self) -> int {
        self.regs[TCB_CCMPH as int] * 256 + self.regs[TCB_CCMPL as int]
    }

    /// The timer after one count in periodic interrupt mode: the counter goes
    /// up by one; on reaching the compare value it raises CAPT and returns to
    /// zero; on wrapping round it raises OVF.
    pub open spec fn counted(self) -> Tcb {
        let next = if self.count() == 0xFFFF {
            0
        } else {
            self.count() + 1
        };
        let matched = next == self.compare();
        let wrapped = self.count() == 0xFFFF;
        let flags = self.regs[TCB_INTFLAGS as int];
        let captured = if matched {
            flags | 0x01
        } else {
            flags
        };
        let raised = if wrapped {
            captured | 0x02
        } else {
            captured
        };
        self.with_reg(
            TCB_CNTL,
            if matched {
                0
            } else {
                (next % 256) as u8
            },
        ).with_reg(
            TCB_CNTH,
            if matched {
                0
            } else {
                (next / 256) as u8
            },
        ).with_reg(TCB_INTFLAGS, raised)
    }

    /// The timer after one clock period. A disabled timer stands still; with
    /// the clock divided by two every second period counts; clocks and modes
    /// that are not modelled do not count.
    pub open spec fn tick_spec(self) -> Tcb {
        if !self.enabled {
            self
        } else if self.clksel == TCB_CLKSEL::DIV1 {
            if self.cntmode == TCB_MODE::INT {
                self.counted()
            } else {
                self
            }
        } else if self.clksel == TCB_CLKSEL::DIV2 {
            let toggled = Tcb { tictoc: !self.tictoc, ..self };
            if toggled.tictoc || self.cntmode != TCB_MODE::INT {
                toggled
            } else {
                toggled.counted()
            }
        } else {
            self
        }
    }

    fn count_up(&mut self)
        ensures
            *final(self) == old(self).counted(),
    {
        let low = self.regs[TCB_CNTL];
        let high = self.regs[TCB_CNTH];
        let mut next_low = low.wrapping_add(1);
        let mut next_high = high;
        let mut ovf = false;
        if low == 0xFF {
            next_high = high.wrapping_add(1);
            ovf = high == 0xFF;
        }
        let mut flags = self.regs[TCB_INTFLAGS];
        if next_low == self.regs[TCB_CCMPL] && next_high == self.regs[TCB_CCMPH] {
            flags = flags | 0x01;
            next_low = 0;
            next_high = 0;
        }
        if ovf {
            flags = flags | 0x02;
        }
        self.regs[TCB_CNTL] = next_low;
        self.regs[TCB_CNTH] = next_high;
        self.regs[TCB_INTFLAGS] = flags;
    }
}

impl Tcb {
    /// Reads a register.
    pub fn read_register(&mut self, address: usize) -> (r: (u8, usize))
        ensures
            (r.0, *final(self)) == old(self).read_spec(address),
            r.1 == 0,
    {
        if address <= TCB_TEMP {
            (self.regs[address], 0)
        } else if address == TCB_CCMPL {
            self.regs[TCB_TEMP] = self.regs[TCB_CCMPH];
            (self.regs[TCB_CCMPL], 0)
        } else if address == TCB_CNTL {
            self.regs[TCB_TEMP] = self.regs[TCB_CNTH];
            (self.regs[TCB_CNTL], 0)
        } else if address == TCB_CCMPH || address == TCB_CNTH {
            (self.regs[TCB_TEMP], 0)
        } else {
            (0, 0)
        }
    }

    /// Writes a register.
    pub fn write_register(&mut self, address: usize, value: u8)
        ensures
            *final(self) == old(self).write_spec(address, value),
    {
        if address == TCB_CTRLA {
            self.regs[TCB_CTRLA] = value;
            self.enabled = (value & 0x01) != 0;
            self.regs[TCB_STATUS] = if self.enabled {
                1
            } else {
                0
            };
            self.clksel = clock_selected((value >> 1) & 0x07);
        } else if address == TCB_CTRLB {
            self.regs[TCB_CTRLB] = value;
            self.cntmode = mode_selected(value & 0x07);
        } else if address == TCB_EVCTRL || address == TCB_DBGCTRL || address == TCB_INTCTRL {
            self.regs[address] = value;
        } else if address == TCB_INTFLAGS {
            self.regs[TCB_INTFLAGS] &= !value;
        } else if address == TCB_CCMPL || address == TCB_CNTL {
            self.regs[TCB_TEMP] = value;
        } else if address == TCB_CCMPH {
            self.regs[TCB_CCMPH] = value;
            self.regs[TCB_CCMPL] = self.regs[TCB_TEMP];
        } else if address == TCB_CNTH {
            self.regs[TCB_CNTH] = value;
            self.regs[TCB_CNTL] = self.regs[TCB_TEMP];
        }
    }
}

impl MemoryMapped for Tcb {
    type Model = Tcb;

    open spec fn model(&self) -> Tcb {
        *self
    }

    open spec fn inv(&self) -> bool {
        true
    }

    open spec fn size_of(m: Tcb) -> nat {
        0x0E
    }

    open spec fn read_of(m: Tcb, address: usize) -> (u8, usize, Tcb) {
        (m.read_spec(address).0, 0, m.read_spec(address).1)
    }

    open spec fn write_of(m: Tcb, address: usize, value: u8) -> (usize, Tcb) {
        (0, m.write_spec(address, value))
    }

    fn get_size(&self) -> (n: usize) {
        0x0E
    }

    fn read(&mut self, address: usize) -> (r: (u8, usize)) {
        let r = self.read_register(address);
        proof {
            assert(self.inv());
            assert(Self::read_of(old(self).model(), address) == (
                old(self).read_spec(address).0,
                0usize,
                old(self).read_spec(address).1,
            ));
        }
        r
    }

    fn write(&mut self, address: usize, value: u8) -> (latency: usize) {
        self.write_register(address, value);
        proof {
            assert(self.inv());
            assert(Self::write_of(old(self).model(), address, value) == (
                0usize,
                old(self).write_spec(address, value),
            ));
        }
        0
    }
}

impl InterruptSource for Tcb {
    open spec fn raised(&self, mask: u8) -> bool {
        self.regs[TCB_INTCTRL as int] & self.regs[TCB_INTFLAGS as int] & mask != 0x00
    }

    fn interrupt(&self, mask: u8) -> (pending: bool) {
        (self.regs[TCB_INTCTRL] & self.regs[TCB_INTFLAGS] & mask) != 0x00
    }
}

impl Clocked for Tcb {
    open spec fn ticked(&self, time: u64) -> Tcb {
        self.tick_spec()
    }

    fn tick(&mut self, _time: u64) {
        if self.enabled {
            match self.clksel {
                TCB_CLKSEL::DIV1 => {},
                TCB_CLKSEL::DIV2 => {
                    self.tictoc = !self.tictoc;
                    if self.tictoc {
                        return ;
                    }
                },
                _ => {
                    return ;
                },
            }
            match self.cntmode {
                TCB_MODE::INT => {
                    self.count_up();
                },
                _ => {},
            }
        }
    }
}

/// Whether a write asks for something that the timer does not model: a clock
/// other than the peripheral clock or half of it, a mode other than the
/// periodic interrupt mode, one of the option bits of CTRLA and CTRLB, or
/// anything in EVCTRL and DBGCTRL.
#[verifier::allow_in_spec]
pub fn unsupported(address: usize, value: u8) -> bool
    returns
        (if address == TCB_CTRLA {
            (value >> 1) & 0x07 == 2 || (value >> 1) & 0x07 == 7 || value & 0x70 != 0
        } else if address == TCB_CTRLB {
            value & 0x07 != 0 || value & 0x70 != 0
        } else {
            address == TCB_EVCTRL || address == TCB_DBGCTRL
        }),
{
    if address == TCB_CTRLA {
        (value >> 1) & 0x07 == 2 || (value >> 1) & 0x07 == 7 || value & 0x70 != 0
    } else if address == TCB_CTRLB {
        value & 0x07 != 0 || value & 0x70 != 0
    } else {
        address == TCB_EVCTRL || address == TCB_DBGCTRL
    }
}

} // verus!
