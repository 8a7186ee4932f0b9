//! The analog-to-digital converter, for single-ended conversions of eight or
//! twelve bits. Voltages are in microvolts.

use crate::nets::NetState;
use crate::peripherals::port::Port;
use crate::peripherals::InterruptSource;
use vstd::array::spec_array_update;
use vstd::prelude::*;

verus! {

pub const ADC_CTRLA: usize = 0x00;

pub const ADC_CTRLB: usize = 0x01;

pub const ADC_CTRLC: usize = 0x02;

pub const ADC_CTRLD: usize = 0x03;

pub const ADC_INTCTRL: usize = 0x04;

pub const ADC_INTFLAGS: usize = 0x05;

pub const ADC_STATUS: usize = 0x06;

pub const ADC_DBGCTRL: usize = 0x07;

pub const ADC_CTRLE: usize = 0x08;

pub const ADC_CTRLF: usize = 0x09;

pub const ADC_COMMAND: usize = 0x0A;

pub const ADC_PGACTRL: usize = 0x0B;

pub const ADC_MUXPOS: usize = 0x0C;

pub const ADC_MUXNEG: usize = 0x0D;

pub const ADC_RESULT0: usize = 0x10;

pub const ADC_RESULT1: usize = 0x11;

pub const ADC_RESULT2: usize = 0x12;

pub const ADC_RESULT3: usize = 0x13;

pub const ADC_SAMPLEL: usize = 0x14;

pub const ADC_SAMPLEH: usize = 0x15;

pub const ADC_TEMP0: usize = 0x18;

pub const ADC_TEMP1: usize = 0x19;

pub const ADC_TEMP2: usize = 0x1A;

pub const ADC_WINLTL: usize = 0x1C;

pub const ADC_WINLTH: usize = 0x1D;

pub const ADC_WINHTL: usize = 0x1E;

pub const ADC_WINHTH: usize = 0x1F;

/// The conversion mode selected in COMMAND.
#[allow(non_camel_case_types)]
#[derive(Clone, Copy, Debug, PartialEq, Eq, Structural)]
pub enum ADC_MODE {
    SINGLE_8BIT,
    SINGLE_12BIT,
    SERIES,
    SERIES_SCALING,
    BURST,
    BURST_SCALING,
    RESERVED,
}

/// The reference voltage selected in CTRLC.
#[allow(non_camel_case_types)]
#[derive(Clone, Copy, Debug, PartialEq, Eq, Structural)]
pub enum ADC_REFSEL {
    VDD,
    VREFA,
    V1024,
    V2048,
    V2500,
    V4096,
    RESERVED,
}

/// The reference that a three-bit field of CTRLC selects.
#[verifier::allow_in_spec]
pub fn reference_selected(field: u8) -> ADC_REFSEL
    returns
        (if field == 0 {
            ADC_REFSEL::VDD
        } else if field == 2 {
            ADC_REFSEL::VREFA
        } else if field == 4 {
            ADC_REFSEL::V1024
        } else if field == 5 {
            ADC_REFSEL::V2048
        } else if field == 6 {
            ADC_REFSEL::V2500
        } else if field == 7 {
            ADC_REFSEL::V4096
        } else {
            ADC_REFSEL::RESERVED
        }),
{
    if field == 0 {
        ADC_REFSEL::VDD
    } else if field == 2 {
        ADC_REFSEL::VREFA
    } else if field == 4 {
        ADC_REFSEL::V1024
    } else if field == 5 {
        ADC_REFSEL::V2048
    } else if field == 6 {
        ADC_REFSEL::V2500
    } else if field == 7 {
        ADC_REFSEL::V4096
    } else {
        ADC_REFSEL::RESERVED
    }
}

/// The reference voltage in microvolts. The supply is at 3.3 V, which also
/// limits the 4.096 V reference to 2.8 V; references that are not modelled
/// count as one millivolt.
#[verifier::allow_in_spec]
pub fn reference_microvolts(vref: ADC_REFSEL) -> u32
    returns
        (match vref {
            ADC_REFSEL::VDD => 3_300_000u32,
            ADC_REFSEL::V1024 => 1_024_000u32,
            ADC_REFSEL::V2048 => 2_048_000u32,
            ADC_REFSEL::V2500 => 2_500_000u32,
            ADC_REFSEL::V4096 => 2_800_000u32,
            _ => 1_000u32,
        }),
{
    match vref {
        ADC_REFSEL::VDD => 3_300_000u32,
        ADC_REFSEL::V1024 => 1_024_000u32,
        ADC_REFSEL::V2048 => 2_048_000u32,
        ADC_REFSEL::V2500 => 2_500_000u32,
        ADC_REFSEL::V4096 => 2_800_000u32,
        _ => 1_000u32,
    }
}

/// The conversion mode that a three-bit field of COMMAND selects.
#[verifier::allow_in_spec]
pub fn mode_selected(field: u8) -> ADC_MODE
    returns
        (if field == 0 {
            ADC_MODE::SINGLE_8BIT
        } else if field == 1 {
            ADC_MODE::SINGLE_12BIT
        } else {
            ADC_MODE::RESERVED
        }),
{
    if field == 0 {
        ADC_MODE::SINGLE_8BIT
    } else if field == 1 {
        ADC_MODE::SINGLE_12BIT
    } else {
        ADC_MODE::RESERVED
    }
}

/// The clock periods that go by without a converter clock after each one,
/// for a value of the prescaler field (the low four bits): one less than the
/// division, which is
/// 2 to 16 in steps of 2, then 20 to 32 in steps of 4, then 40 to 64 in steps
/// of 8.
#[verifier::allow_in_spec]
pub fn periods_skipped(field: u8) -> u8
    returns
        (if field % 16 <= 7 {
            (2 * (field % 16) + 1) as u8
        } else if field % 16 <= 11 {
            (4 * (field % 16 - 8) + 19) as u8
        } else {
            (8 * (field % 16 - 12) + 39) as u8
        }),
{
    let n = field % 16;
    if n <= 7 {
        2 * n + 1
    } else if n <= 11 {
        4 * (n - 8) + 19
    } else {
        8 * (n - 12) + 39
    }
}

/// The twelve-bit conversion of a level against a reference: a low or
/// undefined level converts to 0, a high level to 0xFFF, and an analog level
/// of `v` microvolts to `4096 * v / reference`, rounded to the nearest
/// integer and limited to 4095.
#[verifier::allow_in_spec]
pub fn conversion(level: NetState, reference: u32) -> u16
    returns
        (match level {
            NetState::High => 0x0FFFu16,
            NetState::Low => 0u16,
            NetState::Undefined => 0u16,
            NetState::Analog(v) => if reference == 0 || (4096 * v + reference / 2) / (
            reference as int) > 4095 {
                4095u16
            } else {
                ((4096 * v + reference / 2) / (reference as int)) as u16
            },
        }),
{
    match level {
        NetState::High => 0x0FFFu16,
        NetState::Low => 0u16,
        NetState::Undefined => 0u16,
        NetState::Analog(v) => {
            if reference == 0 {
                4095u16
            } else {
                let scaled: u64 = (4096 * (v as u64) + (reference / 2) as u64) / (reference as u64);
                if scaled > 4095 {
                    4095u16
                } else {
                    scaled as u16
                }
            }
        },
    }
}

/// The analog-to-digital converter.
pub struct Adc {
    pub name: String,
    pub regs: [u8; 0x20],
    pub enabled: bool,
    pub presc: u8,
    pub mode: ADC_MODE,
    pub vref: ADC_REFSEL,
    /// The clock periods still to go by before the next converter clock.
    pub clk_divider: u8,
    /// For each analog input, the index of its port and the number of its
    /// pin.
    pub ain: [(usize, u8); 15],
    /// The selected positive input, or zero for ground.
    pub muxpos: usize,
    pub busy: bool,
    /// The converter clocks that the conversion in progress still takes.
    pub delay: usize,
    /// The twelve-bit result of the conversion in progress.
    pub sample: u16,
}

impl Adc {
    /// Every analog input names a pin of one of the three ports.
    pub open spec fn wf(self) -> bool {
        forall|i: int| 0 <= i < 15 ==> (#[trigger] self.ain[i]).0 < 3 && self.ain[i].1 < 8
    }

    /// The converter is in its reset state, with its inputs as given.
    pub open spec fn is_reset(self, ain: [(usize, u8); 15]) -> bool {
        &&& forall|i: int| 0 <= i < 0x20 ==> self.regs[i] == 0
        &&& !self.enabled
        &&& self.presc == 2
        &&& self.mode == ADC_MODE::SINGLE_8BIT
        &&& self.vref == ADC_REFSEL::VDD
        &&& self.clk_divider == 0
        &&& self.ain == ain
        &&& self.muxpos == 0
        &&& !self.busy
        &&& self.delay == 0
        &&& self.sample == 0
    }

    /// An idle converter with all registers cleared.
    pub fn new(name: String, ain: [(usize, u8); 15]) -> (adc: Adc)
        requires
            forall|i: int| 0 <= i < 15 ==> (#[trigger] ain[i]).0 < 3 && ain[i].1 < 8,
        ensures
            adc.wf(),
            adc.name@ == name@,
            adc.is_reset(ain),
    {
        Adc {
            name,
            regs: [0u8; 0x20],
            enabled: false,
            presc: 2,
            mode: ADC_MODE::SINGLE_8BIT,
            vref: ADC_REFSEL::VDD,
            clk_divider: 0,
            ain,
            muxpos: 0,
            busy: false,
            delay: 0,
            sample: 0,
        }
    }

    /// The size of the register block in bytes.
    pub fn get_size(&self) -> (n: usize)
        ensures
            n == 0x20,
    {
        0x20
    }

    /// The converter with one register replaced.
    pub open spec fn with_reg(self, address: usize, value: u8) -> Adc {
        Adc { regs: spec_array_update(self.regs, address as int, value), ..self }
    }

    /// The level at the selected input, as the input's port last sensed it:
    /// low for ground and for selections without an input.
    pub open spec fn input_level(self, ports: [Port; 3]) -> NetState {
        if 1 <= self.muxpos <= 15 {
            ports[self.ain[self.muxpos - 1].0 as int].pio[self.ain[self.muxpos - 1].1 as int].sensed
        } else {
            NetState::Low
        }
    }

    /// The converter after a conversion has been asked for. A converter that
    /// is busy carries on; an idle one samples the selected input at once and
    /// takes the sample duration in CTRLE plus 9 converter clocks for eight
    /// bits, or plus 13 for twelve, to deliver.
    pub open spec fn sampled(self, ports: [Port; 3]) -> Adc {
        if self.busy {
            self
        } else {
            Adc {
                busy: true,
                delay: (self.regs[ADC_CTRLE as int] + if self.mode == ADC_MODE::SINGLE_8BIT {
                    9int
                } else {
                    13int
                }) as usize,
                sample: conversion(self.input_level(ports), reference_microvolts(self.vref)),
                ..self
            }
        }
    }

    fn sample(&mut self, ports: &[Port; 3])
        requires
            old(self).wf(),
        ensures
            final(self).wf(),
            *final(self) == old(self).sampled(*ports),
    {
        if !self.busy {
            self.busy = true;
            self.delay = self.regs[ADC_CTRLE] as usize + if self.mode == ADC_MODE::SINGLE_8BIT {
                9
            } else {
                13
            };
            let level = if 1 <= self.muxpos && self.muxpos <= 15 {
                let (portidx, pinidx) = self.ain[self.muxpos - 1];
                ports[portidx].get_netstate(pinidx)
            } else {
                NetState::Low
            };
            self.sample = conversion(level, reference_microvolts(self.vref));
        }
    }

    /// The byte read at a register address, and the converter after the
    /// read. Reading the lowest byte of a multi-byte register latches the
    /// higher bytes in the TEMP registers, and the higher bytes are read from
    /// there. STATUS tells whether a conversion is in progress.
    pub open spec fn read_spec(self, address: usize) -> (u8, Adc) {
        if address <= ADC_INTFLAGS || (ADC_DBGCTRL <= address <= ADC_MUXNEG) || (ADC_TEMP0
            <= address <= ADC_TEMP2) {
            (self.regs[address as int], self)
        } else if address == ADC_STATUS {
            (
                if self.busy {
                    1
                } else {
                    0
                },
                self,
            )
        } else if address == ADC_RESULT0 {
            (
                self.regs[ADC_RESULT0 as int],
                self.with_reg(ADC_TEMP0, self.regs[ADC_RESULT1 as int]).with_reg(
                    ADC_TEMP1,
                    self.regs[ADC_RESULT2 as int],
                ).with_reg(ADC_TEMP2, self.regs[ADC_RESULT3 as int]),
            )
        } else if address == ADC_RESULT1 || address == ADC_SAMPLEH || address == ADC_WINLTH
            || address == ADC_WINHTH {
            (self.regs[ADC_TEMP0 as int], self)
        } else if address == ADC_RESULT2 {
            (self.regs[ADC_TEMP1 as int], self)
        } else if address == ADC_RESULT3 {
            (self.regs[ADC_TEMP2 as int], self)
        } else if address == ADC_SAMPLEL || address == ADC_WINLTL || address == ADC_WINHTL {
            (self.regs[address as int], self.with_reg(ADC_TEMP0, self.regs[address + 1]))
        } else {
            (0, self)
        }
    }

    /// Reads a register.
    pub fn read(&mut self, address: usize) -> (r: (u8, usize))
        ensures
            (r.0, *final(self)) == old(self).read_spec(address),
            r.1 == 0,
    {
        if address <= ADC_INTFLAGS || (ADC_DBGCTRL <= address && address <= ADC_MUXNEG) || (
        ADC_TEMP0 <= address && address <= ADC_TEMP2) {
            (self.regs[address], 0)
        } else if address == ADC_STATUS {
            if self.busy {
                (1, 0)
            } else {
                (0, 0)
            }
        } else if address == ADC_RESULT0 {
            let r1 = self.regs[ADC_RESULT1];
            let r2 = self.regs[ADC_RESULT2];
            let r3 = self.regs[ADC_RESULT3];
            self.regs[ADC_TEMP0] = r1;
            self.regs[ADC_TEMP1] = r2;
            self.regs[ADC_TEMP2] = r3;
            (self.regs[ADC_RESULT0], 0)
        } else if address == ADC_RESULT1 || address == ADC_SAMPLEH || address == ADC_WINLTH
            || address == ADC_WINHTH {
            (self.regs[ADC_TEMP0], 0)
        } else if address == ADC_RESULT2 {
            (self.regs[ADC_TEMP1], 0)
        } else if address == ADC_RESULT3 {
            (self.regs[ADC_TEMP2], 0)
        } else if address == ADC_SAMPLEL || address == ADC_WINLTL || address == ADC_WINHTL {
            let high = self.regs[address + 1];
            self.regs[ADC_TEMP0] = high;
            (self.regs[address], 0)
        } else {
            (0, 0)
        }
    }

    /// The converter after a write to COMMAND: the start field stops the
    /// converter, or starts a conversion at once if the converter is enabled;
    /// other triggers are not modelled and read back as stopped. The mode
    /// field takes effect after the start field.
    pub open spec fn commanded(self, ports: [Port; 3], value: u8) -> Adc {
        let stored = self.with_reg(ADC_COMMAND, value & 0x7F);
        let started = if value & 0x07 == 0 {
            Adc { busy: false, ..stored }
        } else if value & 0x07 == 1 && self.regs[ADC_CTRLA as int] & 0x01 != 0 {
            stored.sampled(ports)
        } else {
            stored.with_reg(ADC_COMMAND, value & 0x7F & 0xF8)
        };
        Adc { mode: mode_selected((value >> 4) & 0x07), ..started }
    }

    /// The converter after a write.
    ///
    /// INTFLAGS clears the flags written as one. MUXPOS selects the input,
    /// and shares its upper two bits with MUXNEG. The lower bytes of a
    /// multi-byte register are kept in the TEMP registers until the highest
    /// byte is written.
    pub open spec fn write_spec(self, ports: [Port; 3], address: usize, value: u8) -> Adc {
        if address == ADC_CTRLA {
            Adc { enabled: value & 0x01 != 0, ..self.with_reg(ADC_CTRLA, value) }
        } else if address == ADC_CTRLB {
            Adc { presc: periods_skipped(value), ..self.with_reg(ADC_CTRLB, value) }
        } else if address == ADC_CTRLC {
            Adc { vref: reference_selected(value & 0x07), ..self.with_reg(ADC_CTRLC, value) }
        } else if address == ADC_CTRLD || address == ADC_INTCTRL || address == ADC_DBGCTRL
            || address == ADC_CTRLE || address == ADC_CTRLF || address == ADC_PGACTRL || (ADC_TEMP0
            <= address <= ADC_TEMP2) {
            self.with_reg(address, value)
        } else if address == ADC_INTFLAGS {
            self.with_reg(ADC_INTFLAGS, self.regs[ADC_INTFLAGS as int] & !value)
        } else if address == ADC_COMMAND {
            self.commanded(ports, value)
        } else if address == ADC_MUXPOS {
            Adc {
                muxpos: if value & 0x3F <= 16 {
                    (value & 0x3F) as usize
                } else {
                    0
                },
                ..self.with_reg(ADC_MUXPOS, value).with_reg(
                    ADC_MUXNEG,
                    (self.regs[ADC_MUXNEG as int] & 0x3F) | (value & 0xC0),
                )
            }
        } else if address == ADC_MUXNEG {
            self.with_reg(ADC_MUXNEG, value).with_reg(
                ADC_MUXPOS,
                (self.regs[ADC_MUXPOS as int] & 0x3F) | (value & 0xC0),
            )
        } else if address == ADC_RESULT0 || address == ADC_SAMPLEL || address == ADC_WINLTL
            || address == ADC_WINHTL {
            self.with_reg(ADC_TEMP0, value)
        } else if address == ADC_RESULT1 {
            self.with_reg(ADC_TEMP1, value)
        } else if address == ADC_RESULT2 {
            self.with_reg(ADC_TEMP2, value)
        } else if address == ADC_RESULT3 {
            self.with_reg(ADC_RESULT3, value).with_reg(
                ADC_RESULT2,
                self.regs[ADC_TEMP2 as int],
            ).with_reg(ADC_RESULT1, self.regs[ADC_TEMP1 as int]).with_reg(
                ADC_RESULT0,
                self.regs[ADC_TEMP0 as int],
            )
        } else if address == ADC_SAMPLEH || address == ADC_WINLTH || address == ADC_WINHTH {
            self.with_reg(address, value).with_reg(
                (address - 1) as usize,
                self.regs[ADC_TEMP0 as int],
            )
        } else {
            self
        }
    }

    /// Writes a register. `ports` are the ports that carry the analog inputs.
    pub fn write(&mut self, ports: &[Port; 3], address: usize, value: u8) -> (latency: usize)
        requires
            old(self).wf(),
        ensures
            final(self).wf(),
            latency == 0,
            *final(self) == old(self).write_spec(*ports, address, value),
    {
        if address == ADC_CTRLA {
            self.regs[ADC_CTRLA] = value;
            self.enabled = (value & 0x01) != 0;
        } else if address == ADC_CTRLB {
            self.regs[ADC_CTRLB] = value;
            self.presc = periods_skipped(value);
        } else if address == ADC_CTRLC {
            self.regs[ADC_CTRLC] = value;
            self.vref = reference_selected(value & 0x07);
        } else if address == ADC_CTRLD || address == ADC_INTCTRL || address == ADC_DBGCTRL
            || address == ADC_CTRLE || address == ADC_CTRLF || address == ADC_PGACTRL || (ADC_TEMP0
            <= address && address <= ADC_TEMP2) {
            self.regs[address] = value;
        } else if address == ADC_INTFLAGS {
            self.regs[ADC_INTFLAGS] &= !value;
        } else if address == ADC_COMMAND {
            let enabled = self.regs[ADC_CTRLA] & 0x01 != 0;
            self.regs[ADC_COMMAND] = value & 0x7F;
            if value & 0x07 == 0 {
                self.busy = false;
            } else if value & 0x07 == 1 && enabled {
                self.sample(ports);
            } else {
                self.regs[ADC_COMMAND] = value & 0x7F & 0xF8;
            }
            self.mode = mode_selected((value >> 4) & 0x07);
        } else if address == ADC_MUXPOS {
            let shared = (self.regs[ADC_MUXNEG] & 0x3F) | (value & 0xC0);
            self.regs[ADC_MUXPOS] = value;
            self.regs[ADC_MUXNEG] = shared;
            self.muxpos = if value & 0x3F <= 16 {
                (value & 0x3F) as usize
            } else {
                0
            };
        } else if address == ADC_MUXNEG {
            let shared = (self.regs[ADC_MUXPOS] & 0x3F) | (value & 0xC0);
            self.regs[ADC_MUXNEG] = value;
            self.regs[ADC_MUXPOS] = shared;
        } else if address == ADC_RESULT0 || address == ADC_SAMPLEL || address == ADC_WINLTL
            || address == ADC_WINHTL {
            self.regs[ADC_TEMP0] = value;
        } else if address == ADC_RESULT1 {
            self.regs[ADC_TEMP1] = value;
        } else if address == ADC_RESULT2 {
            self.regs[ADC_TEMP2] = value;
        } else if address == ADC_RESULT3 {
            let t0 = self.regs[ADC_TEMP0];
            let t1 = self.regs[ADC_TEMP1];
            let t2 = self.regs[ADC_TEMP2];
            self.regs[ADC_RESULT3] = value;
            self.regs[ADC_RESULT2] = t2;
            self.regs[ADC_RESULT1] = t1;
            self.regs[ADC_RESULT0] = t0;
        } else if address == ADC_SAMPLEH || address == ADC_WINLTH || address == ADC_WINHTH {
            let low = self.regs[ADC_TEMP0];
            self.regs[address] = value;
            self.regs[address - 1] = low;
        }
        0
    }

    /// The converter with the result of the finished conversion in the
    /// result registers: the upper eight bits of the sample in eight-bit
    /// mode, all twelve in twelve-bit mode, moved up by four if the result is
    /// left-adjusted.
    pub open spec fn delivered(self) -> Adc {
        let (low, high) = if self.mode == ADC_MODE::SINGLE_8BIT {
            ((self.sample >> 4) as u8, 0u8)
        } else if self.regs[ADC_CTRLF as int] & 0x10 != 0 {
            (((self.sample << 4) & 0xFF) as u8, (self.sample >> 4) as u8)
        } else {
            ((self.sample & 0xFF) as u8, (self.sample >> 8) as u8)
        };
        if self.mode == ADC_MODE::SINGLE_8BIT || self.mode == ADC_MODE::SINGLE_12BIT {
            self.with_reg(ADC_RESULT0, low).with_reg(ADC_RESULT1, high).with_reg(
                ADC_RESULT2,
                0,
            ).with_reg(ADC_RESULT3, 0)
        } else {
            self
        }
    }

    /// The converter after one converter clock: a conversion in progress
    /// comes one clock nearer to its end; when it ends the result is
    /// delivered and the result ready flag raised, and the converter starts
    /// the next conversion if it runs freely and stops otherwise.
    pub open spec fn converted(self, ports: [Port; 3]) -> Adc {
        if !self.busy {
            self
        } else if self.delay > 0 {
            Adc { delay: (self.delay - 1) as usize, ..self }
        } else {
            let done = (Adc { busy: false, ..self }).delivered();
            let ready = done.with_reg(ADC_INTFLAGS, done.regs[ADC_INTFLAGS as int] | 0x01);
            if ready.regs[ADC_CTRLF as int] & 0x20 != 0 {
                ready.sampled(ports)
            } else {
                ready.with_reg(ADC_COMMAND, ready.regs[ADC_COMMAND as int] & 0xF8)
            }
        }
    }

    /// The converter after one clock period. A disabled converter stands
    /// still; an enabled one lets the periods of the prescaler go by between
    /// converter clocks.
    pub open spec fn tick_spec(self, ports: [Port; 3]) -> Adc {
        if !self.enabled {
            self
        } else if self.clk_divider > 0 {
            Adc { clk_divider: (self.clk_divider - 1) as u8, ..self }
        } else {
            (Adc { clk_divider: self.presc, ..self }).converted(ports)
        }
    }

    fn deliver(&mut self)
        ensures
            *final(self) == old(self).delivered(),
    {
        match self.mode {
            ADC_MODE::SINGLE_8BIT => {
                self.regs[ADC_RESULT0] = (self.sample >> 4) as u8;
                self.regs[ADC_RESULT1] = 0;
                self.regs[ADC_RESULT2] = 0;
                self.regs[ADC_RESULT3] = 0;
            },
            ADC_MODE::SINGLE_12BIT => {
                if (self.regs[ADC_CTRLF] & 0x10) != 0 {
                    self.regs[ADC_RESULT0] = ((self.sample << 4) & 0xFF) as u8;
                    self.regs[ADC_RESULT1] = (self.sample >> 4) as u8;
                } else {
                    self.regs[ADC_RESULT0] = (self.sample & 0xFF) as u8;
                    self.regs[ADC_RESULT1] = (self.sample >> 8) as u8;
                }
                self.regs[ADC_RESULT2] = 0;
                self.regs[ADC_RESULT3] = 0;
            },
            _ => {},
        }
    }

    /// Advances the converter by one clock period. `ports` are the ports
    /// that carry the analog inputs.
    pub fn tick(&mut self, ports: &[Port; 3], _time: u64)
        requires
            old(self).wf(),
        ensures
            final(self).wf(),
            *final(self) == old(self).tick_spec(*ports),
    {
        if self.enabled {
            if self.clk_divider > 0 {
                self.clk_divider -= 1;
                return ;
            }
            self.clk_divider = self.presc;
            if self.busy {
                if self.delay == 0 {
                    self.busy = false;
                    self.deliver();
                    self.regs[ADC_INTFLAGS] |= 0x01;
                    if (self.regs[ADC_CTRLF] & 0x20) != 0 {
                        self.sample(ports);
                    } else {
                        self.regs[ADC_COMMAND] &= 0xF8;
                    }
                } else {
                    self.delay -= 1;
                }
            }
        }
    }
}

impl InterruptSource for Adc {
    open spec fn raised(&self, mask: u8) -> bool {
        self.regs[ADC_INTCTRL as int] & self.regs[ADC_INTFLAGS as int] & mask != 0x00
    }

    fn interrupt(&self, mask: u8) -> (pending: bool) {
        (self.regs[ADC_INTCTRL] & self.regs[ADC_INTFLAGS] & mask) != 0x00
    }
}

/// Whether a write asks for something that the converter does not model: one
/// of the option bits of CTRLA, a time base too short for the clock, an
/// interrupt other than result ready, sample accumulation, a differential or
/// triggered conversion, an input that does not exist, or anything in CTRLD,
/// DBGCTRL, PGACTRL and MUXNEG.
#[verifier::allow_in_spec]
pub fn unsupported(address: usize, value: u8) -> bool
    returns
        (if address == ADC_CTRLA {
            value & 0xFE != 0
        } else if address == ADC_CTRLC {
            (value >> 3) < 4
        } else if address == ADC_INTCTRL {
            value > 1
        } else if address == ADC_CTRLF {
            value & 0x0F != 0
        } else if address == ADC_COMMAND {
            value & 0x80 != 0 || value & 0x07 > 1 || (value >> 4) & 0x07 > 1
        } else if address == ADC_MUXPOS {
            value & 0x3F > 16 && value & 0x3F != 0x30
        } else {
            address == ADC_CTRLD || address == ADC_DBGCTRL || address == ADC_PGACTRL || address
                == ADC_MUXNEG
        }),
{
    if address == ADC_CTRLA {
        value & 0xFE != 0
    } else if address == ADC_CTRLC {
        (value >> 3) < 4
    } else if address == ADC_INTCTRL {
        value > 1
    } else if address == ADC_CTRLF {
        value & 0x0F != 0
    } else if address == ADC_COMMAND {
        value & 0x80 != 0 || value & 0x07 > 1 || (value >> 4) & 0x07 > 1
    } else if address == ADC_MUXPOS {
        value & 0x3F > 16 && value & 0x3F != 0x30
    } else {
        address == ADC_CTRLD || address == ADC_DBGCTRL || address == ADC_PGACTRL || address
            == ADC_MUXNEG
    }
}

} // verus!
