//! The USART, asynchronous with eight data bits, no parity and one stop bit.
//!
//! Both directions are paced by a 32-bit accumulator that grows by a
//! baud-dependent increment each clock period; a bit is sampled or sent
//! whenever the accumulator rolls over.

use crate::bits::{reverse8, reversed8};
use crate::peripherals::fifo::Fifo;
use crate::peripherals::port::Port;
use crate::peripherals::InterruptSource;
use vstd::arithmetic::div_mod::lemma_fundamental_div_mod_converse;
use vstd::array::spec_array_update;
use vstd::prelude::*;

verus! {

pub const USART_RXDATAL: usize = 0x00;

pub const USART_RXDATAH: usize = 0x01;

pub const USART_TXDATAL: usize = 0x02;

pub const USART_TXDATAH: usize = 0x03;

pub const USART_STATUS: usize = 0x04;

pub const USART_CTRLA: usize = 0x05;

pub const USART_CTRLB: usize = 0x06;

pub const USART_CTRLC: usize = 0x07;

pub const USART_BAUDL: usize = 0x08;

pub const USART_BAUDH: usize = 0x09;

pub const USART_RXPLCTRL: usize = 0x0E;

/// The position of the receive pin in the pin lists.
pub const USART_PIN_RX: usize = 0;

/// The position of the transmit pin in the pin lists.
pub const USART_PIN_TX: usize = 1;

/// The receiver mode selected in CTRLB.
#[allow(non_camel_case_types)]
#[derive(Clone, Copy, Debug, PartialEq, Eq, Structural)]
pub enum USART_MODE {
    NORMAL,
    CLK2X,
    GENAUTO,
    LINAUTO,
}

/// The level last seen on the receive pin.
#[derive(Clone, Copy, Debug, PartialEq, Eq, Structural)]
pub enum RxState {
    High,
    Low,
    Undefined,
}

/// Whether a shifter is at rest or in the middle of a frame.
#[derive(Clone, Copy, Debug, PartialEq, Eq, Structural)]
pub enum UsartState {
    Idle,
    Shift,
}

/// The receiver mode that a two-bit field of CTRLB selects.
#[verifier::allow_in_spec]
pub fn mode_selected(field: u8) -> USART_MODE
    returns
        (if field == 0 {
            USART_MODE::NORMAL
        } else if field == 1 {
            USART_MODE::CLK2X
        } else if field == 2 {
            USART_MODE::GENAUTO
        } else {
            USART_MODE::LINAUTO
        }),
{
    if field == 0 {
        USART_MODE::NORMAL
    } else if field == 1 {
        USART_MODE::CLK2X
    } else if field == 2 {
        USART_MODE::GENAUTO
    } else {
        USART_MODE::LINAUTO
    }
}

/// The number by which the baud register is multiplied to give the clock
/// periods per bit, times sixty-four: sixteen samples per bit in normal mode,
/// eight at double speed.
#[verifier::allow_in_spec]
pub fn samples_per_bit(mode: USART_MODE) -> u64
    returns
        (match mode {
            USART_MODE::NORMAL => 16u64,
            USART_MODE::CLK2X => 8u64,
            _ => 1u64,
        }),
{
    match mode {
        USART_MODE::NORMAL => 16u64,
        USART_MODE::CLK2X => 8u64,
        _ => 1u64,
    }
}

/// The increment of the accumulators per clock period for a value of the
/// baud register: `2^32 * 64 / (samples * baud)`, with the divisor at least
/// 64, cut to 32 bits.
pub open spec fn baud_increment(baud: u16, mode: USART_MODE) -> u32 {
    let divisor: int = baud as int * samples_per_bit(mode) as int;
    let bounded: int = if divisor < 64 {
        64int
    } else {
        divisor
    };
    (((0x1_0000_0000int * 64) / bounded) % 0x1_0000_0000int) as u32
}

/// The frame received: bit 0 of `shifted` is the stop bit, bits 1 to 8 are
/// the data bits, last received first. The result holds the data byte and,
/// in bit 10, the framing error that a low stop bit stands for.
pub open spec fn frame_received(shifted: u16) -> u16 {
    let data = reversed8(((shifted >> 1) & 0xFF) as u8) as u16;
    if shifted & 1 == 0 {
        data | 0x0400
    } else {
        data
    }
}

/// The USART.
pub struct Usart {
    pub name: String,
    pub regs: [u8; 0x0F],
    pub txen: bool,
    pub rxen: bool,
    /// The index of the port that carries the pins by default.
    pub port: usize,
    /// The index of the port that carries the pins in the alternative
    /// routing.
    pub port_alt: usize,
    pub pins: [u8; 4],
    pub pins_alt: [u8; 4],
    pub mux_alt: bool,
    pub rx_state: UsartState,
    pub tx_state: UsartState,
    pub rx_accum: u32,
    pub tx_accum: u32,
    pub rx_pinstate: RxState,
    pub rx_bit: usize,
    pub tx_bit: usize,
    pub rx_reg: u16,
    pub tx_reg: u16,
    pub rx_buf: Fifo,
    pub tx_buf: Fifo,
}

impl Usart {
    /// The port indices name two of the three ports, and the pin numbers
    /// name pins of a port. Each buffer holds at most two items, so neither
    /// is ever full, and while the transmit buffer holds two the data
    /// register empty flag is down.
    pub open spec fn wf(self) -> bool {
        &&& self.port < 3
        &&& self.port_alt < 3
        &&& forall|i: int| 0 <= i < 4 ==> self.pins[i] < 8 && self.pins_alt[i] < 8
        &&& self.rx_buf.len <= 2
        &&& self.tx_buf.len <= 2
        &&& self.tx_buf.len == 2 ==> !self.data_register_empty()
    }

    /// The USART is in its reset state, with its pins routed as given: all
    /// registers are cleared but for the data register empty flag, the
    /// buffers are empty, and the receiver is at rest.
    pub open spec fn is_reset(
        self,
        port: usize,
        pins: [u8; 4],
        port_alt: usize,
        pins_alt: [u8; 4],
    ) -> bool {
        &&& forall|i: int| 0 <= i < 0x0F && i != USART_STATUS ==> self.regs[i] == 0
        &&& self.regs[USART_STATUS as int] == 0x20
        &&& !self.txen && !self.rxen
        &&& self.port == port
        &&& self.port_alt == port_alt
        &&& self.pins == pins
        &&& self.pins_alt == pins_alt
        &&& !self.mux_alt
        &&& self.rx_state == UsartState::Idle
        &&& self.tx_state == UsartState::Shift
        &&& self.rx_pinstate == RxState::Undefined
        &&& self.rx_accum == 0 && self.tx_accum == 0
        &&& self.rx_bit == 0 && self.tx_bit == 0
        &&& self.rx_reg == 0 && self.tx_reg == 0
        &&& self.rx_buf.len == 0 && self.tx_buf.len == 0
        &&& forall|i: int| 0 <= i < 4 ==> self.rx_buf.slots[i] == 0 && self.tx_buf.slots[i] == 0
    }

    /// A USART at rest with empty buffers and the data register empty flag
    /// raised.
    pub fn new(name: String, port: usize, pins: [u8; 4], port_alt: usize, pins_alt: [u8; 4]) -> (usart:
        Usart)
        requires
            port < 3,
            port_alt < 3,
            forall|i: int| 0 <= i < 4 ==> pins[i] < 8 && pins_alt[i] < 8,
        ensures
            usart.wf(),
            usart.name@ == name@,
            usart.is_reset(port, pins, port_alt, pins_alt),
    {
        let mut regs = [0u8; 0x0F];
        regs[USART_STATUS] = 0x20;
        Usart {
            name,
            regs,
            txen: false,
            rxen: false,
            port,
            port_alt,
            pins,
            pins_alt,
            mux_alt: false,
            rx_state: UsartState::Idle,
            tx_state: UsartState::Shift,
            rx_accum: 0,
            tx_accum: 0,
            rx_pinstate: RxState::Undefined,
            rx_bit: 0,
            tx_bit: 0,
            rx_reg: 0,
            tx_reg: 0,
            rx_buf: Fifo::new(),
            tx_buf: Fifo::new(),
        }
    }

    /// The size of the register block in bytes.
    pub fn get_size(&self) -> (n: usize)
        ensures
            n == 0x0F,
    {
        0x0F
    }

    /// The USART with one register replaced.
    pub open spec fn with_reg(self, address: usize, value: u8) -> Usart {
        Usart { regs: spec_array_update(self.regs, address as int, value), ..self }
    }

    /// The receiver is enabled.
    pub open spec fn rx_enabled(self) -> bool {
        self.regs[USART_CTRLB as int] & 0x80 != 0
    }

    /// The transmitter is enabled.
    pub open spec fn tx_enabled(self) -> bool {
        self.regs[USART_CTRLB as int] & 0x40 != 0
    }

    /// The data register empty flag is raised.
    pub open spec fn data_register_empty(self) -> bool {
        self.regs[USART_STATUS as int] & 0x20 != 0
    }

    /// The value of the baud register.
    pub open spec fn baud(self) -> u16 {
        ((self.regs[USART_BAUDH as int] as u16) << 8) | (self.regs[USART_BAUDL as int] as u16)
    }

    /// The index of the port that carries the pins at present.
    pub open spec fn active_port(self) -> usize {
        if self.mux_alt {
            self.port_alt
        } else {
            self.port
        }
    }

    /// The port pin with the given position in the pin lists.
    pub open spec fn pin_of(self, position: int) -> u8 {
        if self.mux_alt {
            self.pins_alt[position]
        } else {
            self.pins[position]
        }
    }

    pub fn rxen(&self) -> (enabled: bool)
        ensures
            enabled == self.rx_enabled(),
    {
        (self.regs[USART_CTRLB] & 0x80) != 0
    }

    pub fn txen(&self) -> (enabled: bool)
        ensures
            enabled == self.tx_enabled(),
    {
        (self.regs[USART_CTRLB] & 0x40) != 0
    }

    pub fn mode(&self) -> (mode: USART_MODE)
        ensures
            mode == mode_selected((self.regs[USART_CTRLB as int] >> 1) & 0x03),
    {
        mode_selected((self.regs[USART_CTRLB] >> 1) & 0x03)
    }

    /// The increment of the accumulators per clock period.
    pub fn baud_inc(&self) -> (inc: u32)
        ensures
            inc == baud_increment(
                self.baud(),
                mode_selected((self.regs[USART_CTRLB as int] >> 1) & 0x03),
            ),
    {
        let baud: u16 = ((self.regs[USART_BAUDH] as u16) << 8) | (self.regs[USART_BAUDL] as u16);
        let divisor: u64 = baud as u64 * samples_per_bit(self.mode());
        let bounded: u64 = if divisor < 64 {
            64
        } else {
            divisor
        };
        (((0x1_0000_0000u64 * 64) / bounded) % 0x1_0000_0000u64) as u32
    }

    pub fn dre(&self) -> (empty: bool)
        ensures
            empty == self.data_register_empty(),
    {
        (self.regs[USART_STATUS] & 0x20) != 0
    }

    /// The index of the port that carries the pins at present.
    pub fn port_index(&self) -> (index: usize)
        ensures
            index == self.active_port(),
            self.wf() ==> index < 3,
    {
        if self.mux_alt {
            self.port_alt
        } else {
            self.port
        }
    }

    fn pin_for(&self, position: usize) -> (pin: u8)
        requires
            self.wf(),
            position < 4,
        ensures
            pin == self.pin_of(position as int),
            pin < 8,
    {
        if self.mux_alt {
            self.pins_alt[position]
        } else {
            self.pins[position]
        }
    }

    /// The byte read at a register address, and the USART after the read.
    ///
    /// Reading RXDATAL takes the oldest frame out of the receive buffer into
    /// the data registers, and clears the receive complete flag when the
    /// buffer has run empty. Reading RXDATAH shows the error bits of the
    /// oldest frame without taking it out.
    pub open spec fn read_spec(self, address: usize) -> (u8, Usart) {
        if address == USART_RXDATAL {
            match self.rx_buf.first() {
                Some(data) => {
                    let taken = (Usart { rx_buf: self.rx_buf.popped(), ..self }).with_reg(
                        USART_RXDATAL,
                        data as u8,
                    ).with_reg(
                        USART_RXDATAH,
                        (self.regs[USART_RXDATAH as int] & 0xC0) | ((data >> 8) as u8),
                    );
                    let cleared = if taken.rx_buf.len == 0 {
                        taken.with_reg(
                            USART_RXDATAH,
                            taken.regs[USART_RXDATAH as int] & 0x7F,
                        ).with_reg(USART_STATUS, taken.regs[USART_STATUS as int] & 0x7F)
                    } else {
                        taken
                    };
                    (data as u8, cleared)
                },
                None => (self.regs[USART_RXDATAL as int], self),
            }
        } else if address == USART_RXDATAH {
            match self.rx_buf.first() {
                Some(data) => {
                    let high = (self.regs[USART_RXDATAH as int] & 0xC0) | ((data >> 8) as u8);
                    (high, self.with_reg(USART_RXDATAH, high))
                },
                None => (self.regs[USART_RXDATAH as int], self),
            }
        } else if address <= USART_RXPLCTRL {
            (self.regs[address as int], self)
        } else {
            (0, self)
        }
    }

    /// Reads a register.
    pub fn read(&mut self, address: usize) -> (r: (u8, usize))
        ensures
            (r.0, *final(self)) == old(self).read_spec(address),
            r.1 == 0,
            old(self).wf() ==> final(self).wf(),
    {
        proof {
            lemma_status_keeps_its_flag(self.regs[USART_STATUS as int], 0);
        }
        if address == USART_RXDATAL {
            match self.rx_buf.pop_front() {
                Some(data) => {
                    self.regs[USART_RXDATAL] = data as u8;
                    self.regs[USART_RXDATAH] = (self.regs[USART_RXDATAH] & 0xC0) | ((data
                        >> 8) as u8);
                    if self.rx_buf.len() == 0 {
                        self.regs[USART_RXDATAH] &= 0x7F;
                        self.regs[USART_STATUS] &= 0x7F;
                    }
                },
                None => {},
            }
            (self.regs[USART_RXDATAL], 0)
        } else if address == USART_RXDATAH {
            match self.rx_buf.front() {
                Some(data) => {
                    self.regs[USART_RXDATAH] = (self.regs[USART_RXDATAH] & 0xC0) | ((data
                        >> 8) as u8);
                },
                None => {},
            }
            (self.regs[USART_RXDATAH], 0)
        } else if address <= USART_RXPLCTRL {
            (self.regs[address], 0)
        } else {
            (0, 0)
        }
    }

    /// The USART and the port after a write.
    ///
    /// A byte written to TXDATAL while the data register is empty starts a
    /// frame at once if the transmitter is at rest, pulling the transmit pin
    /// low for the start bit, and waits in the transmit buffer otherwise; the
    /// data register empty flag falls when two bytes wait. STATUS clears the
    /// flags written as one, except those that the hardware owns. CTRLB
    /// hands the transmit pin to the transmitter or releases it.
    pub open spec fn write_spec(self, port: Port, address: usize, value: u8) -> (Usart, Port) {
        if address == USART_TXDATAL {
            if !self.data_register_empty() {
                (self, port)
            } else if self.tx_state == UsartState::Idle {
                (
                    Usart {
                        tx_bit: 9,
                        tx_reg: (value as u16) | 0x0100,
                        tx_accum: 0,
                        tx_state: UsartState::Shift,
                        ..self
                    },
                    port.po_out_spec(self.pin_of(USART_PIN_TX as int), false),
                )
            } else {
                let queued = (Usart { tx_buf: self.tx_buf.pushed(value as u16), ..self }).with_reg(
                    USART_TXDATAL,
                    value,
                );
                if queued.tx_buf.len > 1 {
                    (
                        queued.with_reg(USART_STATUS, queued.regs[USART_STATUS as int] & !0x20u8),
                        port,
                    )
                } else {
                    (queued, port)
                }
            }
        } else if address == USART_STATUS {
            let cleared = self.regs[USART_STATUS as int] & (!value | 0xA5);
            (
                self.with_reg(
                    USART_STATUS,
                    if value & 1 == 1 {
                        cleared | 1
                    } else {
                        cleared & 0xFE
                    },
                ),
                port,
            )
        } else if address == USART_CTRLB {
            let stored = self.with_reg(USART_CTRLB, value);
            if stored.tx_enabled() {
                (stored, port.po_out_spec(self.pin_of(USART_PIN_TX as int), true))
            } else {
                (stored, port.po_out_clear_spec(self.pin_of(USART_PIN_TX as int)))
            }
        } else if address == USART_CTRLA || (USART_CTRLC <= address <= USART_RXPLCTRL) {
            (self.with_reg(address, value), port)
        } else {
            (self, port)
        }
    }

    /// Writes a register. `port` is the port that carries the pins at
    /// present.
    pub fn write(&mut self, port: &mut Port, address: usize, value: u8) -> (latency: usize)
        requires
            old(self).wf(),
        ensures
            final(self).wf(),
            latency == 0,
            (*final(self), *final(port)) == old(self).write_spec(*old(port), address, value),
    {
        proof {
            lemma_status_keeps_its_flag(self.regs[USART_STATUS as int], value);
        }
        if address == USART_TXDATAL {
            if self.dre() {
                if self.tx_state == UsartState::Idle {
                    port.po_out(self.pin_for(USART_PIN_TX), false);
                    self.tx_bit = 9;
                    self.tx_reg = (value as u16) | 0x0100;
                    self.tx_accum = 0;
                    self.tx_state = UsartState::Shift;
                } else {
                    self.tx_buf.push_back(value as u16);
                    self.regs[USART_TXDATAL] = value;
                    if self.tx_buf.len() > 1 {
                        self.regs[USART_STATUS] &= !0x20u8;
                    }
                }
            }
        } else if address == USART_STATUS {
            let cleared = self.regs[USART_STATUS] & (!value | 0xA5);
            self.regs[USART_STATUS] = if (value & 1) == 1 {
                cleared | 1
            } else {
                cleared & 0xFE
            };
        } else if address == USART_CTRLB {
            self.regs[USART_CTRLB] = value;
            if self.txen() {
                port.po_out(self.pin_for(USART_PIN_TX), true);
            } else {
                port.po_out_clear(self.pin_for(USART_PIN_TX));
            }
        } else if address == USART_CTRLA || (USART_CTRLC <= address && address <= USART_RXPLCTRL) {
            self.regs[address] = value;
        }
        0
    }

    /// The receiver after one clock period in which the receive pin was at
    /// `level` and the accumulator went from `self.rx_accum` to `accum`,
    /// together with the accumulator to carry on with.
    ///
    /// At rest, a fall of the pin from high to low starts a frame of ten
    /// bits, with the accumulator set half a bit ahead, and notes a buffer
    /// overflow if two frames wait already. Within a frame, each rollover of
    /// the accumulator samples one bit; the tenth completes the frame, which
    /// goes to the receive buffer, of which only the two newest frames are
    /// kept, and raises the receive complete flag.
    pub open spec fn received(self, level: RxState, accum: u32) -> (Usart, u32) {
        if !self.rx_enabled() {
            (Usart { rx_state: UsartState::Idle, ..self }, accum)
        } else if self.rx_state == UsartState::Idle {
            if level == RxState::Low && self.rx_pinstate == RxState::High {
                let started = Usart { rx_state: UsartState::Shift, rx_bit: 10, ..self };
                if self.rx_buf.len > 1 {
                    (
                        started.with_reg(
                            USART_RXDATAH,
                            self.regs[USART_RXDATAH as int] | 0x40,
                        ),
                        0x8000_0000u32,
                    )
                } else {
                    (started, 0x8000_0000u32)
                }
            } else {
                (self, accum)
            }
        } else if accum < self.rx_accum {
            let shifted = if level == RxState::High {
                self.rx_reg | 1
            } else {
                self.rx_reg
            };
            let left = self.rx_bit.wrapping_sub(1);
            if left == 0 {
                let frame = frame_received(shifted);
                let queued = self.rx_buf.pushed(frame);
                let done = (Usart {
                    rx_state: UsartState::Idle,
                    rx_bit: left,
                    rx_reg: frame & 0x00FF,
                    rx_buf: if queued.len > 2 {
                        queued.popped()
                    } else {
                        queued
                    },
                    ..self
                }).with_reg(USART_RXDATAH, self.regs[USART_RXDATAH as int] | 0x80);
                (done.with_reg(USART_STATUS, done.regs[USART_STATUS as int] | 0x80), accum)
            } else {
                (Usart { rx_bit: left, rx_reg: shifted << 1, ..self }, accum)
            }
        } else {
            (self, accum)
        }
    }

    /// The transmitter and the port after one clock period in which the
    /// accumulator went from `self.tx_accum` to `accum`.
    ///
    /// Within a frame, each rollover of the accumulator puts the next bit on
    /// the transmit pin. After the last bit the next byte of the transmit
    /// buffer follows, framed by a start and a stop bit, and the data
    /// register empty flag rises; with the buffer empty the transmitter
    /// comes to rest and raises the transmit complete flag.
    pub open spec fn transmitted(self, port: Port, accum: u32) -> (Usart, Port) {
        if !self.tx_enabled() {
            (Usart { tx_state: UsartState::Idle, ..self }, port)
        } else if self.tx_state == UsartState::Shift && accum < self.tx_accum {
            let sent = port.po_out_spec(self.pin_of(USART_PIN_TX as int), self.tx_reg & 1 == 1);
            let left = self.tx_bit.wrapping_sub(1);
            let shifted = Usart { tx_reg: self.tx_reg >> 1, tx_bit: left, ..self };
            if left != 0 {
                (shifted, sent)
            } else {
                match self.tx_buf.first() {
                    Some(next) => {
                        let loaded = Usart {
                            tx_reg: (next << 1) | 0x0200,
                            tx_bit: 10,
                            tx_buf: self.tx_buf.popped(),
                            ..shifted
                        };
                        if self.data_register_empty() {
                            (loaded, sent)
                        } else {
                            (
                                loaded.with_reg(
                                    USART_STATUS,
                                    self.regs[USART_STATUS as int] | 0x20,
                                ),
                                sent,
                            )
                        }
                    },
                    None => (
                        (Usart { tx_state: UsartState::Idle, ..shifted }).with_reg(
                            USART_STATUS,
                            self.regs[USART_STATUS as int] | 0x40,
                        ),
                        sent,
                    ),
                }
            }
        } else {
            (self, port)
        }
    }

    /// The USART and the port after one clock period: both accumulators grow
    /// by the baud increment, the receiver looks at the receive pin's bit of
    /// the port's input register, and the transmitter drives the transmit
    /// pin.
    pub open spec fn tick_spec(self, port: Port) -> (Usart, Port) {
        let level = if crate::bits::bit8(
            port.regs[crate::peripherals::port::PORT_IN as int],
            self.pin_of(USART_PIN_RX as int),
        ) {
            RxState::High
        } else {
            RxState::Low
        };
        let inc = baud_increment(
            self.baud(),
            mode_selected((self.regs[USART_CTRLB as int] >> 1) & 0x03),
        );
        let rx_accum = self.rx_accum.wrapping_add(inc);
        let tx_accum = self.tx_accum.wrapping_add(inc);
        let rx = self.received(level, rx_accum);
        let tx = rx.0.transmitted(port, tx_accum);
        (Usart { rx_accum: rx.1, tx_accum, rx_pinstate: level, ..tx.0 }, tx.1)
    }

    fn receive(&mut self, level: RxState, accum: u32) -> (carried: u32)
        ensures
            (*final(self), carried) == old(self).received(level, accum),
            old(self).wf() ==> final(self).wf(),
    {
        proof {
            lemma_status_keeps_its_flag(self.regs[USART_STATUS as int], 0);
        }
        if !self.rxen() {
            self.rx_state = UsartState::Idle;
            return accum;
        }
        if self.rx_state == UsartState::Idle {
            if level == RxState::Low && self.rx_pinstate == RxState::High {
                self.rx_state = UsartState::Shift;
                self.rx_bit = 10;
                if self.rx_buf.len() > 1 {
                    self.regs[USART_RXDATAH] |= 0x40;
                }
                return 0x8000_0000u32;
            }
        } else if accum < self.rx_accum {
            let mut shifted = self.rx_reg;
            if level == RxState::High {
                shifted = shifted | 1;
            }
            self.rx_bit = self.rx_bit.wrapping_sub(1);
            if self.rx_bit == 0 {
                self.rx_state = UsartState::Idle;
                let data = reverse8(((shifted >> 1) & 0xFF) as u8) as u16;
                let frame = if shifted & 1 == 0 {
                    data | 0x0400
                } else {
                    data
                };
                self.rx_reg = frame & 0x00FF;
                self.rx_buf.push_back(frame);
                if self.rx_buf.len() > 2 {
                    self.rx_buf.pop_front();
                }
                let high = self.regs[USART_RXDATAH] | 0x80;
                self.regs[USART_RXDATAH] = high;
                self.regs[USART_STATUS] |= 0x80;
            } else {
                self.rx_reg = shifted << 1;
            }
        }
        accum
    }

    fn transmit(&mut self, port: &mut Port, accum: u32)
        requires
            old(self).wf(),
        ensures
            final(self).wf(),
            (*final(self), *final(port)) == old(self).transmitted(*old(port), accum),
    {
        if !self.txen() {
            self.tx_state = UsartState::Idle;
            return ;
        }
        if self.tx_state == UsartState::Shift && accum < self.tx_accum {
            port.po_out(self.pin_for(USART_PIN_TX), (self.tx_reg & 1) == 1);
            self.tx_reg = self.tx_reg >> 1;
            self.tx_bit = self.tx_bit.wrapping_sub(1);
            if self.tx_bit == 0 {
                let was_empty = self.dre();
                match self.tx_buf.pop_front() {
                    Some(next) => {
                        self.tx_reg = (next << 1) | 0x0200;
                        self.tx_bit = 10;
                        if !was_empty {
                            self.regs[USART_STATUS] |= 0x20;
                        }
                    },
                    None => {
                        self.tx_state = UsartState::Idle;
                        self.regs[USART_STATUS] |= 0x40;
                    },
                }
            }
        }
    }

    /// Advances the USART by one clock period. `port` is the port that
    /// carries the pins at present.
    pub fn tick(&mut self, port: &mut Port, _time: u64)
        requires
            old(self).wf(),
        ensures
            final(self).wf(),
            (*final(self), *final(port)) == old(self).tick_spec(*old(port)),
    {
        let level = if port.get_pinstate(self.pin_for(USART_PIN_RX)) {
            RxState::High
        } else {
            RxState::Low
        };
        let inc = self.baud_inc();
        let rx_accum_new = self.rx_accum.wrapping_add(inc);
        let tx_accum_new = self.tx_accum.wrapping_add(inc);
        let rx_accum_kept = self.receive(level, rx_accum_new);
        self.transmit(port, tx_accum_new);
        self.rx_accum = rx_accum_kept;
        self.tx_accum = tx_accum_new;
        self.rx_pinstate = level;
    }
}

impl InterruptSource for Usart {
    /// The interrupt flags are the status flags that CTRLA enables.
    open spec fn raised(&self, mask: u8) -> bool {
        self.regs[USART_STATUS as int] & self.regs[USART_CTRLA as int] & mask != 0x00
    }

    fn interrupt(&self, mask: u8) -> (pending: bool) {
        (self.regs[USART_STATUS] & self.regs[USART_CTRLA] & mask) != 0x00
    }
}

/// Whether a write asks for something that the USART does not model: a ninth
/// data bit, one of the option bits of CTRLA and CTRLB, a frame format other
/// than asynchronous 8N1, or anything in CTRLD, DBGCTRL, EVCTRL, TXPLCTRL and
/// RXPLCTRL.
#[verifier::allow_in_spec]
pub fn unsupported(address: usize, value: u8) -> bool
    returns
        (if address == USART_TXDATAH {
            true
        } else if address == USART_CTRLA {
            value & 0x0F != 0
        } else if address == USART_CTRLB {
            value & 0x1D != 0
        } else if address == USART_CTRLC {
            value != 0x03
        } else {
            0x0A <= address && address <= USART_RXPLCTRL
        }),
{
    if address == USART_TXDATAH {
        true
    } else if address == USART_CTRLA {
        value & 0x0F != 0
    } else if address == USART_CTRLB {
        value & 0x1D != 0
    } else if address == USART_CTRLC {
        value != 0x03
    } else {
        0x0A <= address && address <= USART_RXPLCTRL
    }
}

/// An accumulator that started at `start` after `periods` clock periods with
/// the increment `inc`.
pub open spec fn accumulated(start: u32, inc: u32, periods: nat) -> u32
    decreases periods,
{
    if periods == 0 {
        start
    } else {
        accumulated(start, inc, (periods - 1) as nat).wrapping_add(inc)
    }
}

/// How often that accumulator has rolled over by then.
pub open spec fn rollovers(start: u32, inc: u32, periods: nat) -> nat
    decreases periods,
{
    if periods == 0 {
        0
    } else {
        let before = accumulated(start, inc, (periods - 1) as nat);
        let once: nat = if before.wrapping_add(inc) < before {
            1
        } else {
            0
        };
        rollovers(start, inc, (periods - 1) as nat) + once
    }
}

/// An accumulator rolls over once for every `2^32` that its increments add
/// up to: after `periods` clock periods it has rolled over
/// `(start + periods * inc) / 2^32` times, and holds the remainder. So the
/// bits come at `inc / 2^32` of the clock rate, each at most one period off.
pub proof fn law_rollover_rate(start: u32, inc: u32, periods: nat)
    ensures
        accumulated(start, inc, periods) == (start + periods * inc) % 0x1_0000_0000,
        rollovers(start, inc, periods) == (start + periods * inc) / 0x1_0000_0000,
    decreases periods,
{
    if periods > 0 {
        let n = (periods - 1) as nat;
        law_rollover_rate(start, inc, n);
        let total: int = start + n * inc;
        let q = total / 0x1_0000_0000;
        let r = total % 0x1_0000_0000;
        assert(periods * inc == n * inc + inc) by (nonlinear_arith)
            requires
                periods == n + 1,
        ;
        assert(0 <= total) by (nonlinear_arith)
            requires
                total == start + n * inc,
        ;
        if r + inc < 0x1_0000_0000 {
            lemma_fundamental_div_mod_converse(total + inc, 0x1_0000_0000, q, r + inc);
        } else {
            lemma_fundamental_div_mod_converse(
                total + inc,
                0x1_0000_0000,
                q + 1,
                r + inc - 0x1_0000_0000,
            );
        }
    }
}

/// The data register empty flag, bit 5 of STATUS, is cleared by masking it
/// out and is kept by everything else that is done to the register: raising
/// or clearing the receive complete flag, and a write, which can clear only
/// the flags that software owns.
proof fn lemma_status_keeps_its_flag(status: u8, value: u8)
    by (bit_vector)
    ensures
        (status & !0x20u8) & 0x20 == 0,
        (status | 0x20) & 0x20 != 0,
        (status & 0x7F) & 0x20 == status & 0x20,
        (status | 0x80) & 0x20 == status & 0x20,
        ((status & (!value | 0xA5)) | 1) & 0x20 == status & 0x20,
        ((status & (!value | 0xA5)) & 0xFE) & 0x20 == status & 0x20,
{
}

/// What the receiver has shifted in when the tenth bit of a frame is
/// sampled: the data bits, of which the least significant came first, above
/// the stop bit.
pub open spec fn frame_shifted(byte: u8, stop: bool) -> u16 {
    ((reversed8(byte) as u16) << 1) | (if stop {
        1u16
    } else {
        0u16
    })
}

/// A frame gives back the byte that was sent: with a high stop bit the byte
/// alone, with a low one the byte and the framing error.
pub proof fn law_frame_gives_the_byte(byte: u8)
    ensures
        frame_received(frame_shifted(byte, true)) == byte as u16,
        frame_received(frame_shifted(byte, false)) == (byte as u16) | 0x0400,
{
    let turned = reversed8(byte);
    assert(((((turned as u16) << 1) | 1u16) >> 1) & 0xFF == turned as u16) by (bit_vector);
    assert((((turned as u16) << 1) | 1u16) & 1 == 1) by (bit_vector);
    assert(((((turned as u16) << 1) | 0u16) >> 1) & 0xFF == turned as u16) by (bit_vector);
    assert((((turned as u16) << 1) | 0u16) & 1 == 0) by (bit_vector);
    crate::bits::law_reversed8_involution(byte);
}

/// A fall of the receive pin while the receiver is at rest starts a frame of
/// ten bits, and the first sample comes half a bit later: the accumulator
/// carries on from half its range.
pub proof fn law_falling_edge_starts_a_frame(usart: Usart, accum: u32)
    requires
        usart.rx_enabled(),
        usart.rx_state == UsartState::Idle,
        usart.rx_pinstate == RxState::High,
    ensures
        ({
            let (next, carried) = usart.received(RxState::Low, accum);
            &&& next.rx_state == UsartState::Shift
            &&& next.rx_bit == 10
            &&& carried == 0x8000_0000u32
            &&& next.rx_buf == usart.rx_buf
        }),
{
}

/// Within a frame a bit is sampled when the accumulator rolls over, and only
/// then. The sample of the tenth bit completes the frame: the receiver comes
/// to rest, the frame is the newest item of the receive buffer, and the
/// receive complete flag, bit 7 of STATUS, is raised.
pub proof fn law_tenth_sample_completes_the_frame(usart: Usart, level: RxState, accum: u32)
    requires
        usart.wf(),
        usart.rx_enabled(),
        usart.rx_state == UsartState::Shift,
    ensures
        accum >= usart.rx_accum ==> usart.received(level, accum) == (usart, accum),
        accum < usart.rx_accum && usart.rx_bit != 1 ==> usart.received(level, accum).0.rx_bit
            == usart.rx_bit.wrapping_sub(1) && usart.received(level, accum).0.rx_state
            == UsartState::Shift,
        accum < usart.rx_accum && usart.rx_bit == 1 ==> ({
            let next = usart.received(level, accum).0;
            let frame = frame_received(
                if level == RxState::High {
                    usart.rx_reg | 1
                } else {
                    usart.rx_reg
                },
            );
            &&& next.rx_state == UsartState::Idle
            &&& next.rx_buf.len > 0
            &&& next.rx_buf.items().last() == frame
            &&& next.regs[USART_STATUS as int] & 0x80 != 0
        }),
{
    let status = usart.regs[USART_STATUS as int];
    assert((status | 0x80) & 0x80 != 0) by (bit_vector);
}

} // verus!
