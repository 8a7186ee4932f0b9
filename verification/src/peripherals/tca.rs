//! Timer/counter A, in single-slope PWM mode: the counter runs from zero to
//! the period; each waveform output goes high at the bottom and low when the
//! counter matches the channel's compare value; the outputs are mirrored to
//! port pins through the port's override.

use crate::peripherals::port::Port;
use crate::peripherals::InterruptSource;
use vstd::array::spec_array_update;
use vstd::prelude::*;

verus! {

pub const TCA_CTRLA: usize = 0x00;

pub const TCA_CTRLB: usize = 0x01;

pub const TCA_CTRLC: usize = 0x02;

pub const TCA_CTRLD: usize = 0x03;

pub const TCA_CTRLECLR: usize = 0x04;

pub const TCA_CTRLESET: usize = 0x05;

pub const TCA_CTRLFCLR: usize = 0x06;

pub const TCA_CTRLFSET: usize = 0x07;

pub const TCA_EVCTRL: usize = 0x09;

pub const TCA_INTCTRL: usize = 0x0A;

pub const TCA_INTFLAGS: usize = 0x0B;

pub const TCA_DBGCTRL: usize = 0x0E;

pub const TCA_TEMP: usize = 0x0F;

pub const TCA_CNTL: usize = 0x20;

pub const TCA_CNTH: usize = 0x21;

pub const TCA_PERL: usize = 0x26;

pub const TCA_PERH: usize = 0x27;

pub const TCA_CMP0L: usize = 0x28;

pub const TCA_CMP0H: usize = 0x29;

pub const TCA_PERBUFL: usize = 0x36;

pub const TCA_PERBUFH: usize = 0x37;

pub const TCA_CMP0BUFL: usize = 0x38;

pub const TCA_CMP0BUFH: usize = 0x39;

pub const TCA_CMP2BUFH: usize = 0x3D;

/// The waveform generation mode selected in CTRLB.
#[allow(non_camel_case_types)]
#[derive(Clone, Copy, Debug, PartialEq, Eq, Structural)]
pub enum TCA_MODE {
    NORMAL,
    FRQ,
    SINGLESLOPE,
    DSTOP,
    DSBOTH,
    DSBOTTOM,
}

/// The clock division selected in CTRLA.
#[allow(non_camel_case_types)]
#[derive(Clone, Copy, Debug, PartialEq, Eq, Structural)]
pub enum TCA_CLKSEL {
    DIV1,
    DIV2,
    DIV4,
    DIV8,
    DIV16,
    DIV64,
    DIV256,
    DIV1024,
}

/// The clock division that a three-bit field of CTRLA selects.
#[verifier::allow_in_spec]
pub fn division_selected(field: u8) -> TCA_CLKSEL
    returns
        (if field == 0 {
            TCA_CLKSEL::DIV1
        } else if field == 1 {
            TCA_CLKSEL::DIV2
        } else if field == 2 {
            TCA_CLKSEL::DIV4
        } else if field == 3 {
            TCA_CLKSEL::DIV8
        } else if field == 4 {
            TCA_CLKSEL::DIV16
        } else if field == 5 {
            TCA_CLKSEL::DIV64
        } else if field == 6 {
            TCA_CLKSEL::DIV256
        } else if field == 7 {
            TCA_CLKSEL::DIV1024
        } else {
            TCA_CLKSEL::DIV1
        }),
{
    if field == 0 {
        TCA_CLKSEL::DIV1
    } else if field == 1 {
        TCA_CLKSEL::DIV2
    } else if field == 2 {
        TCA_CLKSEL::DIV4
    } else if field == 3 {
        TCA_CLKSEL::DIV8
    } else if field == 4 {
        TCA_CLKSEL::DIV16
    } else if field == 5 {
        TCA_CLKSEL::DIV64
    } else if field == 6 {
        TCA_CLKSEL::DIV256
    } else if field == 7 {
        TCA_CLKSEL::DIV1024
    } else {
        TCA_CLKSEL::DIV1
    }
}

/// The clock periods that go by without a count after each count.
#[verifier::allow_in_spec]
pub fn periods_skipped(clksel: TCA_CLKSEL) -> u16
    returns
        (match clksel {
            TCA_CLKSEL::DIV1 => 0u16,
            TCA_CLKSEL::DIV2 => 1u16,
            TCA_CLKSEL::DIV4 => 3u16,
            TCA_CLKSEL::DIV8 => 7u16,
            TCA_CLKSEL::DIV16 => 15u16,
            TCA_CLKSEL::DIV64 => 63u16,
            TCA_CLKSEL::DIV256 => 255u16,
            TCA_CLKSEL::DIV1024 => 1023u16,
        }),
{
    match clksel {
        TCA_CLKSEL::DIV1 => 0u16,
        TCA_CLKSEL::DIV2 => 1u16,
        TCA_CLKSEL::DIV4 => 3u16,
        TCA_CLKSEL::DIV8 => 7u16,
        TCA_CLKSEL::DIV16 => 15u16,
        TCA_CLKSEL::DIV64 => 63u16,
        TCA_CLKSEL::DIV256 => 255u16,
        TCA_CLKSEL::DIV1024 => 1023u16,
    }
}

/// The waveform generation mode that a three-bit field of CTRLB selects.
#[verifier::allow_in_spec]
pub fn waveform_selected(field: u8) -> TCA_MODE
    returns
        (if field == 1 {
            TCA_MODE::FRQ
        } else if field == 3 {
            TCA_MODE::SINGLESLOPE
        } else if field == 5 {
            TCA_MODE::DSTOP
        } else if field == 6 {
            TCA_MODE::DSBOTH
        } else if field == 7 {
            TCA_MODE::DSBOTTOM
        } else {
            TCA_MODE::NORMAL
        }),
{
    if field == 1 {
        TCA_MODE::FRQ
    } else if field == 3 {
        TCA_MODE::SINGLESLOPE
    } else if field == 5 {
        TCA_MODE::DSTOP
    } else if field == 6 {
        TCA_MODE::DSBOTH
    } else if field == 7 {
        TCA_MODE::DSBOTTOM
    } else {
        TCA_MODE::NORMAL
    }
}

/// True for the addresses of the low bytes of the sixteen-bit registers:
/// the counter, the period, the three compare values and their buffers.
#[verifier::allow_in_spec]
pub fn is_word_low(address: usize) -> bool
    returns
        address == TCA_CNTL || address == TCA_PERL || address == 0x28 || address == 0x2A || address
            == 0x2C || address == TCA_PERBUFL || address == 0x38 || address == 0x3A || address
            == 0x3C,
{
    address == TCA_CNTL || address == TCA_PERL || address == 0x28 || address == 0x2A || address
        == 0x2C || address == TCA_PERBUFL || address == 0x38 || address == 0x3A || address == 0x3C
}

/// True for the addresses of the high bytes of the sixteen-bit registers.
#[verifier::allow_in_spec]
pub fn is_word_high(address: usize) -> bool
    returns
        address == TCA_CNTH || address == TCA_PERH || address == 0x29 || address == 0x2B || address
            == 0x2D || address == TCA_PERBUFH || address == 0x39 || address == 0x3B || address
            == 0x3D,
{
    address == TCA_CNTH || address == TCA_PERH || address == 0x29 || address == 0x2B || address
        == 0x2D || address == TCA_PERBUFH || address == 0x39 || address == 0x3B || address == 0x3D
}

/// The buffer-valid bit of CTRLF that a write to the high byte of a buffer
/// register sets; zero for the other registers.
#[verifier::allow_in_spec]
pub fn buffer_valid_bit(address: usize) -> u8
    returns
        (if address == TCA_PERBUFH {
            0x01u8
        } else if address == 0x39 {
            0x02u8
        } else if address == 0x3B {
            0x04u8
        } else if address == 0x3D {
            0x08u8
        } else {
            0x00u8
        }),
{
    if address == TCA_PERBUFH {
        0x01u8
    } else if address == 0x39 {
        0x02u8
    } else if address == 0x3B {
        0x04u8
    } else if address == 0x3D {
        0x08u8
    } else {
        0x00u8
    }
}

/// Timer/counter A.
pub struct Tca {
    pub name: String,
    pub regs: [u8; 0x3E],
    pub enabled: bool,
    pub clksel: TCA_CLKSEL,
    pub cntmode: TCA_MODE,
    /// The clock periods still to go by before the next count.
    pub clk_divider: u16,
    /// The index of the port that carries the waveform outputs.
    pub port: usize,
    pub pins: [u8; 3],
    pub pins_alt: [u8; 3],
    pub mux_alt: [bool; 3],
}

impl Tca {
    /// The port index names one of the three ports, and the pin numbers name
    /// pins of a port.
    pub open spec fn wf(self) -> bool {
        &&& self.port < 3
        &&& forall|i: int| 0 <= i < 3 ==> self.pins[i] < 8 && self.pins_alt[i] < 8
    }

    /// The timer is in its reset state, with its waveform outputs routed as
    /// given.
    pub open spec fn is_reset(self, port: usize, pins: [u8; 3], pins_alt: [u8; 3]) -> bool {
        &&& forall|i: int| 0 <= i < 0x3E ==> self.regs[i] == 0
        &&& !self.enabled
        &&& self.clksel == TCA_CLKSEL::DIV1
        &&& self.cntmode == TCA_MODE::NORMAL
        &&& self.clk_divider == 0
        &&& self.port == port
        &&& self.pins == pins
        &&& self.pins_alt == pins_alt
        &&& forall|i: int| 0 <= i < 3 ==> !self.mux_alt[i]
    }

    /// A disabled timer with all registers cleared, whose waveform outputs
    /// go to `pins` of the port, or to `pins_alt` where the alternative
    /// routing is chosen.
    pub fn new(name: String, port: usize, pins: [u8; 3], pins_alt: [u8; 3]) -> (tca: Tca)
        requires
            port < 3,
            forall|i: int| 0 <= i < 3 ==> pins[i] < 8 && pins_alt[i] < 8,
        ensures
            tca.wf(),
            tca.name@ == name@,
            tca.is_reset(port, pins, pins_alt),
    {
        Tca {
            name,
            regs: [0u8; 0x3E],
            enabled: false,
            clksel: TCA_CLKSEL::DIV1,
            cntmode: TCA_MODE::NORMAL,
            clk_divider: 0,
            port,
            pins,
            pins_alt,
            mux_alt: [false; 3],
        }
    }

    /// The size of the register block in bytes.
    pub fn get_size(&self) -> (n: usize)
        ensures
            n == 0x3E,
    {
        0x3E
    }

    /// The index of the port that carries the waveform outputs.
    pub fn port_index(&self) -> (index: usize)
        ensures
            index == self.port,
            self.wf() ==> index < 3,
    {
        self.port
    }

    /// The timer with one register replaced.
    pub open spec fn with_reg(self, address: usize, value: u8) -> Tca {
        Tca { regs: spec_array_update(self.regs, address as int, value), ..self }
    }

    /// The port pin that carries waveform output `i`.
    pub open spec fn pin_of(self, i: int) -> u8 {
        if self.mux_alt[i] {
            self.pins_alt[i]
        } else {
            self.pins[i]
        }
    }

    /// The level of waveform output `i`.
    pub open spec fn waveform(self, i: int) -> bool {
        self.regs[TCA_CTRLC as int] & (1u8 << (i as u8)) != 0
    }

    /// The byte read at a register address, and the timer after the read.
    /// Reading the low byte of a sixteen-bit register latches its high byte
    /// in TEMP, and every high byte is read from there.
    pub open spec fn read_spec(self, address: usize) -> (u8, Tca) {
        if address <= TCA_CTRLD {
            (self.regs[address as int], self)
        } else if address <= TCA_CTRLESET {
            (self.regs[TCA_CTRLECLR as int] & 0x03, self)
        } else if address <= TCA_CTRLFSET {
            (self.regs[TCA_CTRLFCLR as int], self)
        } else if TCA_EVCTRL <= address <= TCA_TEMP {
            (self.regs[address as int], self)
        } else if is_word_low(address) {
            (self.regs[address as int], self.with_reg(TCA_TEMP, self.regs[address + 1]))
        } else if is_word_high(address) {
            (self.regs[TCA_TEMP as int], self)
        } else {
            (0, self)
        }
    }

    /// Reads a register.
    pub fn read(&mut self, address: usize) -> (r: (u8, usize))
        ensures
            (r.0, *final(self)) == old(self).read_spec(address),
            r.1 == 0,
    {
        if address <= TCA_CTRLD {
            (self.regs[address], 0)
        } else if address <= TCA_CTRLESET {
            (self.regs[TCA_CTRLECLR] & 0x03, 0)
        } else if address <= TCA_CTRLFSET {
            (self.regs[TCA_CTRLFCLR], 0)
        } else if TCA_EVCTRL <= address && address <= TCA_TEMP {
            (self.regs[address], 0)
        } else if is_word_low(address) {
            self.regs[TCA_TEMP] = self.regs[address + 1];
            (self.regs[address], 0)
        } else if is_word_high(address) {
            (self.regs[TCA_TEMP], 0)
        } else {
            (0, 0)
        }
    }

    /// The port after waveform output `i` has been routed as the output
    /// enable bits in `ctrlb` say: an enabled output takes its pin over with
    /// the output's level, a disabled one releases the pin.
    pub open spec fn routed(self, port: Port, ctrlb: u8, i: int) -> Port {
        if (ctrlb >> 4u8) & (1u8 << (i as u8)) == 0 {
            port.po_out_clear_spec(self.pin_of(i))
        } else {
            port.po_out_spec(self.pin_of(i), self.waveform(i))
        }
    }

    /// The timer and the port after a write.
    ///
    /// CTRLA enables the timer and selects the clock division; CTRLB selects
    /// the mode and routes the waveform outputs; the SET and CLR aliases of
    /// CTRLE and CTRLF set and clear bits; INTFLAGS clears the flags written
    /// as one. The low byte of a sixteen-bit register is kept in TEMP until
    /// the high byte is written, and writing a buffer register marks the
    /// buffer as valid.
    pub open spec fn write_spec(self, port: Port, address: usize, value: u8) -> (Tca, Port) {
        if address == TCA_CTRLA {
            (
                Tca {
                    enabled: value & 0x01 != 0,
                    clksel: division_selected((value >> 1) & 0x07),
                    ..self.with_reg(TCA_CTRLA, value)
                },
                port,
            )
        } else if address == TCA_CTRLB {
            let stored = self.with_reg(TCA_CTRLB, value);
            (
                Tca { cntmode: waveform_selected(value & 0x07), ..stored },
                stored.routed(stored.routed(stored.routed(port, value, 0), value, 1), value, 2),
            )
        } else if address == TCA_CTRLC || address == TCA_CTRLD || address == TCA_EVCTRL || address
            == TCA_INTCTRL || address == TCA_DBGCTRL {
            (self.with_reg(address, value), port)
        } else if address == TCA_CTRLESET {
            (self.with_reg(TCA_CTRLECLR, self.regs[TCA_CTRLECLR as int] | value), port)
        } else if address == TCA_CTRLECLR {
            (self.with_reg(TCA_CTRLECLR, self.regs[TCA_CTRLECLR as int] & !value), port)
        } else if address == TCA_CTRLFSET {
            (self.with_reg(TCA_CTRLFCLR, self.regs[TCA_CTRLFCLR as int] | value), port)
        } else if address == TCA_CTRLFCLR {
            (self.with_reg(TCA_CTRLFCLR, self.regs[TCA_CTRLFCLR as int] & !value), port)
        } else if address == TCA_INTFLAGS {
            (self.with_reg(TCA_INTFLAGS, self.regs[TCA_INTFLAGS as int] & !value), port)
        } else if is_word_low(address) {
            (self.with_reg(TCA_TEMP, value), port)
        } else if is_word_high(address) {
            let stored = self.with_reg(address, value).with_reg(
                (address - 1) as usize,
                self.regs[TCA_TEMP as int],
            );
            if address >= TCA_PERBUFH {
                (
                    stored.with_reg(
                        TCA_CTRLFCLR,
                        stored.regs[TCA_CTRLFCLR as int] | buffer_valid_bit(address),
                    ),
                    port,
                )
            } else {
                (stored, port)
            }
        } else {
            (self, port)
        }
    }

    fn pin_for(&self, i: usize) -> (pin: u8)
        requires
            self.wf(),
            i < 3,
        ensures
            pin == self.pin_of(i as int),
            pin < 8,
    {
        if self.mux_alt[i] {
            self.pins_alt[i]
        } else {
            self.pins[i]
        }
    }

    fn route(&self, port: &mut Port, ctrlb: u8, i: usize)
        requires
            self.wf(),
            i < 3,
        ensures
            *final(port) == self.routed(*old(port), ctrlb, i as int),
    {
        if ((ctrlb >> 4u8) & (1u8 << (i as u8))) == 0 {
            port.po_out_clear(self.pin_for(i));
        } else {
            let wo = (self.regs[TCA_CTRLC] & (1u8 << (i as u8))) != 0;
            port.po_out(self.pin_for(i), wo);
        }
    }

    /// Writes a register. `port` is the port that carries the waveform
    /// outputs.
    pub fn write(&mut self, port: &mut Port, address: usize, value: u8) -> (latency: usize)
        requires
            old(self).wf(),
        ensures
            final(self).wf(),
            latency == 0,
            (*final(self), *final(port)) == old(self).write_spec(*old(port), address, value),
    {
        if address == TCA_CTRLA {
            self.regs[TCA_CTRLA] = value;
            self.enabled = (value & 0x01) != 0;
            self.clksel = division_selected((value >> 1) & 0x07);
        } else if address == TCA_CTRLB {
            self.regs[TCA_CTRLB] = value;
            self.route(port, value, 0);
            self.route(port, value, 1);
            self.route(port, value, 2);
            self.cntmode = waveform_selected(value & 0x07);
        } else if address == TCA_CTRLC || address == TCA_CTRLD || address == TCA_EVCTRL || address
            == TCA_INTCTRL || address == TCA_DBGCTRL {
            self.regs[address] = value;
        } else if address == TCA_CTRLESET {
            self.regs[TCA_CTRLECLR] |= value;
        } else if address == TCA_CTRLECLR {
            self.regs[TCA_CTRLECLR] &= !value;
        } else if address == TCA_CTRLFSET {
            self.regs[TCA_CTRLFCLR] |= value;
        } else if address == TCA_CTRLFCLR {
            self.regs[TCA_CTRLFCLR] &= !value;
        } else if address == TCA_INTFLAGS {
            self.regs[TCA_INTFLAGS] &= !value;
        } else if is_word_low(address) {
            self.regs[TCA_TEMP] = value;
        } else if is_word_high(address) {
            let low = self.regs[TCA_TEMP];
            self.regs[address] = value;
            self.regs[address - 1] = low;
            if address >= TCA_PERBUFH {
                self.regs[TCA_CTRLFCLR] |= buffer_valid_bit(address);
            }
        }
        0
    }

    /// The two bytes of the sixteen-bit register whose low byte is at `low`
    /// equal those of the register whose low byte is at `other`.
    pub open spec fn words_equal(self, low: usize, other: usize) -> bool {
        self.regs[low as int] == self.regs[other as int] && self.regs[low + 1] == self.regs[other
            + 1]
    }

    /// The timer after the counter has moved: back to zero from the period,
    /// and up by one otherwise.
    pub open spec fn advanced(self) -> Tca {
        if self.words_equal(TCA_CNTL, TCA_PERL) {
            self.with_reg(TCA_CNTL, 0).with_reg(TCA_CNTH, 0)
        } else if self.regs[TCA_CNTL as int] == 0xFF {
            self.with_reg(TCA_CNTL, 0).with_reg(
                TCA_CNTH,
                self.regs[TCA_CNTH as int].wrapping_add(1),
            )
        } else {
            self.with_reg(TCA_CNTL, (self.regs[TCA_CNTL as int] + 1) as u8)
        }
    }

    /// The timer after channel `i` has passed the bottom: a valid compare
    /// buffer becomes the compare value, and the waveform output goes high.
    pub open spec fn channel_at_bottom(self, i: int) -> Tca {
        let promoted = if self.regs[TCA_CTRLFCLR as int] & (0x02u8 << (i as u8)) != 0 {
            self.with_reg((TCA_CMP0L + 2 * i) as usize, self.regs[TCA_CMP0BUFL + 2 * i]).with_reg(
                (TCA_CMP0H + 2 * i) as usize,
                self.regs[TCA_CMP0BUFH + 2 * i],
            )
        } else {
            self
        };
        promoted.with_reg(TCA_CTRLC, promoted.regs[TCA_CTRLC as int] | (1u8 << (i as u8)))
    }

    /// The timer after the counter has been found at the bottom: a valid
    /// period buffer becomes the period, each channel passes the bottom, and
    /// the buffers are no longer valid.
    pub open spec fn at_bottom(self) -> Tca {
        if self.regs[TCA_CNTL as int] == 0 && self.regs[TCA_CNTH as int] == 0 {
            let period = if self.regs[TCA_CTRLFCLR as int] & 0x01 != 0 {
                self.with_reg(TCA_PERL, self.regs[TCA_PERBUFL as int]).with_reg(
                    TCA_PERH,
                    self.regs[TCA_PERBUFH as int],
                )
            } else {
                self
            };
            let channels = period.channel_at_bottom(0).channel_at_bottom(1).channel_at_bottom(2);
            channels.with_reg(TCA_CTRLFCLR, channels.regs[TCA_CTRLFCLR as int] & 0xF0)
        } else {
            self
        }
    }

    /// The timer after the counter has been compared with the period: at the
    /// top the overflow flag is raised.
    pub open spec fn at_top(self) -> Tca {
        if self.words_equal(TCA_CNTL, TCA_PERL) {
            self.with_reg(TCA_INTFLAGS, self.regs[TCA_INTFLAGS as int] | 0x01)
        } else {
            self
        }
    }

    /// The timer after the counter has been compared with the compare value
    /// of channel `i`: on a match the waveform output goes low and the
    /// channel's flag is raised.
    pub open spec fn channel_matched(self, i: int) -> Tca {
        if self.words_equal(TCA_CNTL, (TCA_CMP0L + 2 * i) as usize) {
            let low = self.with_reg(TCA_CTRLC, self.regs[TCA_CTRLC as int] & !(1u8 << (i as u8)));
            low.with_reg(TCA_INTFLAGS, low.regs[TCA_INTFLAGS as int] | (0x10u8 << (i as u8)))
        } else {
            self
        }
    }

    /// The timer after one count in single-slope mode.
    pub open spec fn counted(self) -> Tca {
        self.advanced().at_bottom().at_top().channel_matched(0).channel_matched(1).channel_matched(
            2,
        )
    }

    /// The port after waveform output `i` has been mirrored to its pin, if
    /// the output is enabled.
    pub open spec fn mirrored(self, port: Port, i: int) -> Port {
        if self.regs[TCA_CTRLB as int] & (0x10u8 << (i as u8)) != 0 {
            port.po_out_spec(self.pin_of(i), self.waveform(i))
        } else {
            port
        }
    }

    /// The port after all three waveform outputs have been mirrored.
    pub open spec fn all_mirrored(self, port: Port) -> Port {
        self.mirrored(self.mirrored(self.mirrored(port, 0), 1), 2)
    }

    /// The timer and the port after one clock period. A disabled timer only
    /// mirrors its outputs. An enabled timer lets the periods of the clock
    /// division go by; when a count is due it counts, in single-slope mode,
    /// and mirrors its outputs.
    pub open spec fn tick_spec(self, port: Port) -> (Tca, Port) {
        if !self.enabled {
            (self, self.all_mirrored(port))
        } else if self.clk_divider > 0 {
            (Tca { clk_divider: (self.clk_divider - 1) as u16, ..self }, port)
        } else {
            let reloaded = Tca { clk_divider: periods_skipped(self.clksel), ..self };
            if self.cntmode == TCA_MODE::SINGLESLOPE {
                (reloaded.counted(), reloaded.counted().all_mirrored(port))
            } else {
                (reloaded, port)
            }
        }
    }

    fn advance(&mut self)
        ensures
            *final(self) == old(self).advanced(),
    {
        if self.regs[TCA_CNTL] == self.regs[TCA_PERL] && self.regs[TCA_CNTH] == self.regs[TCA_PERH] {
            self.regs[TCA_CNTL] = 0;
            self.regs[TCA_CNTH] = 0;
        } else if self.regs[TCA_CNTL] == 0xFF {
            let high = self.regs[TCA_CNTH].wrapping_add(1);
            self.regs[TCA_CNTL] = 0;
            self.regs[TCA_CNTH] = high;
        } else {
            self.regs[TCA_CNTL] = self.regs[TCA_CNTL] + 1;
        }
    }

    fn pass_bottom(&mut self, i: usize)
        requires
            i < 3,
        ensures
            *final(self) == old(self).channel_at_bottom(i as int),
    {
        if (self.regs[TCA_CTRLFCLR] & (0x02u8 << (i as u8))) != 0 {
            let low = self.regs[TCA_CMP0BUFL + 2 * i];
            let high = self.regs[TCA_CMP0BUFH + 2 * i];
            self.regs[TCA_CMP0L + 2 * i] = low;
            self.regs[TCA_CMP0H + 2 * i] = high;
        }
        self.regs[TCA_CTRLC] |= 1u8 << (i as u8);
    }

    fn bottom(&mut self)
        ensures
            *final(self) == old(self).at_bottom(),
    {
        if self.regs[TCA_CNTL] == 0 && self.regs[TCA_CNTH] == 0 {
            if (self.regs[TCA_CTRLFCLR] & 0x01) != 0 {
                let low = self.regs[TCA_PERBUFL];
                let high = self.regs[TCA_PERBUFH];
                self.regs[TCA_PERL] = low;
                self.regs[TCA_PERH] = high;
            }
            self.pass_bottom(0);
            self.pass_bottom(1);
            self.pass_bottom(2);
            self.regs[TCA_CTRLFCLR] &= 0xF0;
        }
    }

    fn top(&mut self)
        ensures
            *final(self) == old(self).at_top(),
    {
        if self.regs[TCA_CNTL] == self.regs[TCA_PERL] && self.regs[TCA_CNTH] == self.regs[TCA_PERH] {
            self.regs[TCA_INTFLAGS] |= 0x01;
        }
    }

    fn match_channel(&mut self, i: usize)
        requires
            i < 3,
        ensures
            *final(self) == old(self).channel_matched(i as int),
    {
        if self.regs[TCA_CNTL] == self.regs[TCA_CMP0L + 2 * i] && self.regs[TCA_CNTH]
            == self.regs[TCA_CMP0H + 2 * i] {
            self.regs[TCA_CTRLC] &= !(1u8 << (i as u8));
            self.regs[TCA_INTFLAGS] |= 0x10u8 << (i as u8);
        }
    }

    fn mirror(&self, port: &mut Port, i: usize)
        requires
            self.wf(),
            i < 3,
        ensures
            *final(port) == self.mirrored(*old(port), i as int),
    {
        if (self.regs[TCA_CTRLB] & (0x10u8 << (i as u8))) != 0 {
            let wo = (self.regs[TCA_CTRLC] & (1u8 << (i as u8))) != 0;
            port.po_out(self.pin_for(i), wo);
        }
    }

    /// Advances the timer by one clock period. `port` is the port that
    /// carries the waveform outputs.
    pub fn tick(&mut self, port: &mut Port, _time: u64)
        requires
            old(self).wf(),
        ensures
            final(self).wf(),
            (*final(self), *final(port)) == old(self).tick_spec(*old(port)),
    {
        if self.enabled {
            if self.clk_divider > 0 {
                self.clk_divider -= 1;
                return ;
            }
            self.clk_divider = periods_skipped(self.clksel);
            match self.cntmode {
                TCA_MODE::SINGLESLOPE => {
                    self.advance();
                    self.bottom();
                    self.top();
                    self.match_channel(0);
                    self.match_channel(1);
                    self.match_channel(2);
                },
                _ => {
                    return ;
                },
            }
        }
        self.mirror(port, 0);
        self.mirror(port, 1);
        self.mirror(port, 2);
    }
}

impl InterruptSource for Tca {
    open spec fn raised(&self, mask: u8) -> bool {
        self.regs[TCA_INTCTRL as int] & self.regs[TCA_INTFLAGS as int] & mask != 0x00
    }

    fn interrupt(&self, mask: u8) -> (pending: bool) {
        (self.regs[TCA_INTCTRL] & self.regs[TCA_INTFLAGS] & mask) != 0x00
    }
}

/// Whether a write asks for something that the timer does not model: running
/// in standby, a mode other than single-slope, the automatic lock update, or
/// anything in CTRLD, CTRLE, EVCTRL and DBGCTRL.
#[verifier::allow_in_spec]
pub fn unsupported(address: usize, value: u8) -> bool
    returns
        (if address == TCA_CTRLA {
            value & 0x80 != 0
        } else if address == TCA_CTRLB {
            value & 0x07 != 3 || value & 0x08 != 0
        } else {
            address == TCA_CTRLD || address == TCA_CTRLECLR || address == TCA_CTRLESET || address
                == TCA_EVCTRL || address == TCA_DBGCTRL
        }),
{
    if address == TCA_CTRLA {
        value & 0x80 != 0
    } else if address == TCA_CTRLB {
        value & 0x07 != 3 || value & 0x08 != 0
    } else {
        address == TCA_CTRLD || address == TCA_CTRLECLR || address == TCA_CTRLESET || address
            == TCA_EVCTRL || address == TCA_DBGCTRL
    }
}

} // verus!
