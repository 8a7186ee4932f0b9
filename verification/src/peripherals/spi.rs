//! The SPI, as a master in mode 0.
//!
//! A transfer takes sixteen half bit intervals. In each even one a bit goes
//! out on MOSI and a bit comes in from MISO; the clock idles low, stays low
//! for the first half interval and toggles in every one after it.

use crate::bits::{bit8, reverse8, reversed8, set_bit8, test_bit8, write_bit8};
use crate::peripherals::fifo::Fifo;
use crate::peripherals::port::{Port, PORT_IN};
use crate::peripherals::InterruptSource;
use vstd::array::spec_array_update;
use vstd::prelude::*;

verus! {

pub const SPI_CTRLA: usize = 0x00;

pub const SPI_CTRLB: usize = 0x01;

pub const SPI_INTCTRL: usize = 0x02;

pub const SPI_INTFLAGS: usize = 0x03;

pub const SPI_DATA: usize = 0x04;

pub const SPI_PIN_MOSI: usize = 0;

pub const SPI_PIN_MISO: usize = 1;

pub const SPI_PIN_SCK: usize = 2;

pub const SPI_PIN_SS: usize = 3;

/// The clock division that CTRLA selects: 4, 16, 64 or 128, halved at double
/// speed.
#[verifier::allow_in_spec]
pub fn division(ctrla: u8) -> u8
    returns
        ({
            let ps: u8 = if (ctrla >> 1) & 0x03 == 0 {
                4
            } else if (ctrla >> 1) & 0x03 == 1 {
                16
            } else if (ctrla >> 1) & 0x03 == 2 {
                64
            } else {
                128
            };
            if ctrla & 0x10 != 0 {
                ps >> 1
            } else {
                ps
            }
        }),
{
    let ps: u8 = if (ctrla >> 1) & 0x03 == 0 {
        4
    } else if (ctrla >> 1) & 0x03 == 1 {
        16
    } else if (ctrla >> 1) & 0x03 == 2 {
        64
    } else {
        128
    };
    if ctrla & 0x10 != 0 {
        ps >> 1
    } else {
        ps
    }
}

/// The SPI.
pub struct Spi {
    pub name: String,
    pub regs: [u8; 0x05],
    pub data_rx: u8,
    pub data_tx: u8,
    pub buf_rx: Fifo,
    pub has_data_tx: bool,
    pub sr_tx: u8,
    pub sr_rx: u8,
    /// The bits of the transfer in progress that are still to be shifted.
    pub sr_state: u8,
    /// The index of the port that carries the pins by default.
    pub port: usize,
    pub pins: [u8; 4],
    /// The index of the port that carries the pins in the alternative
    /// routing.
    pub port_alt: usize,
    pub pins_alt: [u8; 4],
    pub mux_alt: bool,
    /// The clock periods still to go by before the next half bit interval.
    pub ps_count: u8,
    /// The half bit intervals of the transfer in progress that are left.
    pub subinterval: u8,
    pub state_sck: bool,
}

impl Spi {
    /// The port indices name two of the three ports, and the pin numbers
    /// name pins of a port. The receive buffer holds at most two bytes, so
    /// it is never full.
    pub open spec fn wf(self) -> bool {
        &&& self.port < 3
        &&& self.port_alt < 3
        &&& forall|i: int| 0 <= i < 4 ==> self.pins[i] < 8 && self.pins_alt[i] < 8
        &&& self.buf_rx.len <= 2
    }

    /// The SPI is in its reset state, with its pins routed as given.
    pub open spec fn is_reset(
        self,
        port: usize,
        pins: [u8; 4],
        port_alt: usize,
        pins_alt: [u8; 4],
        mux_alt: bool,
    ) -> bool {
        &&& forall|i: int| 0 <= i < 5 ==> self.regs[i] == 0
        &&& self.data_rx == 0 && self.data_tx == 0
        &&& self.buf_rx.len == 0
        &&& forall|i: int| 0 <= i < 4 ==> self.buf_rx.slots[i] == 0
        &&& !self.has_data_tx
        &&& self.sr_tx == 0 && self.sr_rx == 0 && self.sr_state == 0
        &&& self.port == port && self.port_alt == port_alt
        &&& self.pins == pins && self.pins_alt == pins_alt
        &&& self.mux_alt == mux_alt
        &&& self.ps_count == 0 && self.subinterval == 0
        &&& !self.state_sck
    }

    /// A disabled SPI at rest.
    pub fn new(name: String, port: usize, pins: [u8; 4], port_alt: usize, pins_alt: [u8; 4]) -> (spi:
        Spi)
        requires
            port < 3,
            port_alt < 3,
            forall|i: int| 0 <= i < 4 ==> pins[i] < 8 && pins_alt[i] < 8,
        ensures
            spi.wf(),
            spi.name@ == name@,
            spi.is_reset(port, pins, port_alt, pins_alt, false),
    {
        Spi {
            name,
            regs: [0u8; 0x05],
            data_rx: 0,
            data_tx: 0,
            buf_rx: Fifo::new(),
            has_data_tx: false,
            sr_tx: 0,
            sr_rx: 0,
            sr_state: 0,
            port,
            pins,
            port_alt,
            pins_alt,
            mux_alt: false,
            ps_count: 0,
            subinterval: 0,
            state_sck: false,
        }
    }

    /// The size of the register block in bytes.
    pub fn get_size(&self) -> (n: usize)
        ensures
            n == 5,
    {
        5
    }

    /// The SPI with one register replaced.
    pub open spec fn with_reg(self, address: usize, value: u8) -> Spi {
        Spi { regs: spec_array_update(self.regs, address as int, value), ..self }
    }

    /// The SPI with one interrupt flag set or cleared.
    pub open spec fn with_flag(self, flag: u8, set: bool) -> Spi {
        self.with_reg(SPI_INTFLAGS, set_bit8(self.regs[SPI_INTFLAGS as int], flag, set))
    }

    /// The index of the port that carries the pins at present.
    pub open spec fn active_port(self) -> usize {
        if self.mux_alt {
            self.port_alt
        } else {
            self.port
        }
    }

    /// The port pin with the given position in the pin lists.
    pub open spec fn pin_of(self, position: int) -> u8 {
        if self.mux_alt {
            self.pins_alt[position]
        } else {
            self.pins[position]
        }
    }

    /// The index of the port that carries the pins at present.
    pub fn port_index(&self) -> (index: usize)
        ensures
            index == self.active_port(),
            self.wf() ==> index < 3,
    {
        if self.mux_alt {
            self.port_alt
        } else {
            self.port
        }
    }

    fn pin_for(&self, position: usize) -> (pin: u8)
        requires
            self.wf(),
            position < 4,
        ensures
            pin == self.pin_of(position as int),
            pin < 8,
    {
        if self.mux_alt {
            self.pins_alt[position]
        } else {
            self.pins[position]
        }
    }

    fn set_flag(&mut self, flag: usize, set: bool)
        requires
            flag < 8,
        ensures
            *final(self) == old(self).with_flag(flag as u8, set),
    {
        self.regs[SPI_INTFLAGS] = write_bit8(self.regs[SPI_INTFLAGS], flag, set);
    }

    pub fn is_master(&self) -> (b: bool)
        ensures
            b == bit8(self.regs[SPI_CTRLA as int], 5),
    {
        test_bit8(self.regs[SPI_CTRLA], 5)
    }

    pub fn is_enabled(&self) -> (b: bool)
        ensures
            b == bit8(self.regs[SPI_CTRLA as int], 0),
    {
        test_bit8(self.regs[SPI_CTRLA], 0)
    }

    pub fn is_lsb_first(&self) -> (b: bool)
        ensures
            b == bit8(self.regs[SPI_CTRLA as int], 6),
    {
        test_bit8(self.regs[SPI_CTRLA], 6)
    }

    pub fn prescaler(&self) -> (ps: u8)
        ensures
            ps == division(self.regs[SPI_CTRLA as int]),
    {
        division(self.regs[SPI_CTRLA])
    }

    pub fn mode(&self) -> (mode: u8)
        ensures
            mode == self.regs[SPI_CTRLB as int] & 0x03,
    {
        self.regs[SPI_CTRLB] & 0x03
    }

    pub fn is_ssd(&self) -> (b: bool)
        ensures
            b == bit8(self.regs[SPI_CTRLB as int], 2),
    {
        test_bit8(self.regs[SPI_CTRLB], 2)
    }

    pub fn is_bufen(&self) -> (b: bool)
        ensures
            b == bit8(self.regs[SPI_CTRLB as int], 7),
    {
        test_bit8(self.regs[SPI_CTRLB], 7)
    }

    pub fn is_bufwr(&self) -> (b: bool)
        ensures
            b == bit8(self.regs[SPI_CTRLB as int], 6),
    {
        test_bit8(self.regs[SPI_CTRLB], 6)
    }

    /// The byte read from the data register, and the SPI after the read. In
    /// buffered mode the oldest byte of the receive buffer becomes the byte
    /// read, and the receive complete flag falls when the buffer is empty.
    pub open spec fn data_read(self) -> (u8, Spi) {
        if bit8(self.regs[SPI_CTRLB as int], 7) {
            let taken = match self.buf_rx.first() {
                Some(byte) => Spi { data_rx: byte as u8, buf_rx: self.buf_rx.popped(), ..self },
                None => self,
            };
            if taken.buf_rx.len == 0 {
                (taken.data_rx, taken.with_flag(7, false))
            } else {
                (taken.data_rx, taken)
            }
        } else {
            (self.data_rx, self)
        }
    }

    /// The SPI after a byte has been written to the data register. In
    /// buffered mode the byte starts a transfer if none is in progress and
    /// waits otherwise, clearing the data register empty flag. In unbuffered
    /// mode it starts a transfer in any case, and a transfer in progress
    /// raises the write collision flag.
    pub open spec fn data_written(self, value: u8) -> Spi {
        if bit8(self.regs[SPI_CTRLB as int], 7) {
            if self.sr_state == 0 {
                Spi { sr_tx: value, sr_state: 8, ..self }
            } else {
                (Spi { data_tx: value, has_data_tx: true, ..self }).with_flag(5, false)
            }
        } else {
            let flagged = if self.sr_state > 0 {
                self.with_flag(6, true)
            } else {
                self
            };
            Spi { sr_tx: value, sr_state: 8, ..flagged }
        }
    }

    /// The byte read at a register address, and the SPI after the read.
    pub open spec fn read_spec(self, address: usize) -> (u8, Spi) {
        if address <= SPI_INTFLAGS {
            (self.regs[address as int], self)
        } else if address == SPI_DATA {
            self.data_read()
        } else {
            (0, self)
        }
    }

    /// The SPI after a write. The interrupt flags are not cleared by writing.
    pub open spec fn write_spec(self, address: usize, value: u8) -> Spi {
        if address <= SPI_INTCTRL {
            self.with_reg(address, value)
        } else if address == SPI_DATA {
            self.data_written(value)
        } else {
            self
        }
    }

    fn handle_read_data(&mut self) -> (byte: u8)
        ensures
            (byte, *final(self)) == old(self).data_read(),
    {
        if self.is_bufen() {
            match self.buf_rx.pop_front() {
                Some(byte) => {
                    self.data_rx = byte as u8;
                },
                None => {},
            }
            if self.buf_rx.is_empty() {
                self.set_flag(7, false);
            }
            self.data_rx
        } else {
            self.data_rx
        }
    }

    fn handle_write_data(&mut self, value: u8)
        ensures
            *final(self) == old(self).data_written(value),
    {
        if self.is_bufen() {
            if self.sr_state == 0 {
                self.sr_tx = value;
                self.sr_state = 8;
            } else {
                self.data_tx = value;
                self.has_data_tx = true;
                self.set_flag(5, false);
            }
        } else {
            if self.sr_state > 0 {
                self.set_flag(6, true);
            }
            self.sr_tx = value;
            self.sr_state = 8;
        }
    }

    /// Reads a register.
    pub fn read(&mut self, address: usize) -> (r: (u8, usize))
        ensures
            (r.0, *final(self)) == old(self).read_spec(address),
            r.1 == 0,
    {
        if address <= SPI_INTFLAGS {
            (self.regs[address], 0)
        } else if address == SPI_DATA {
            (self.handle_read_data(), 0)
        } else {
            (0, 0)
        }
    }

    /// Writes a register.
    pub fn write(&mut self, address: usize, value: u8) -> (latency: usize)
        ensures
            latency == 0,
            *final(self) == old(self).write_spec(address, value),
    {
        if address <= SPI_INTCTRL {
            self.regs[address] = value;
        } else if address == SPI_DATA {
            self.handle_write_data(value);
        }
        0
    }

    /// The SPI and the port after a half bit interval in which no transfer
    /// is in progress: the clock rests at its idle level, low in modes 0 and
    /// 1 and high in modes 2 and 3.
    pub open spec fn rested(self, port: Port) -> (Spi, Port) {
        let high = self.regs[SPI_CTRLB as int] & 0x03 >= 2;
        (
            Spi { state_sck: high, ..self },
            port.po_out_spec(self.pin_of(SPI_PIN_SCK as int), high),
        )
    }

    /// The SPI with a transfer begun, if a byte waits in the shift register
    /// and no transfer is in progress: sixteen half bit intervals lie ahead,
    /// and the byte is turned round unless the least significant bit goes
    /// first.
    pub open spec fn begun(self) -> Spi {
        if self.sr_state == 8 && self.subinterval == 0 {
            Spi {
                subinterval: 16,
                sr_tx: if bit8(self.regs[SPI_CTRLA as int], 6) {
                    self.sr_tx
                } else {
                    reversed8(self.sr_tx)
                },
                ..self
            }
        } else {
            self
        }
    }

    /// The SPI and the port after the clock edge of a half bit interval: the
    /// clock toggles in every interval but the first.
    pub open spec fn clocked(self, port: Port) -> (Spi, Port) {
        if self.subinterval < 16 {
            (
                Spi { state_sck: !self.state_sck, ..self },
                port.po_out_spec(self.pin_of(SPI_PIN_SCK as int), !self.state_sck),
            )
        } else {
            (self, port)
        }
    }

    /// The SPI and the port after the data phase of a half bit interval: in
    /// an even interval the lowest bit of the transmit register goes out on
    /// MOSI, both shift registers move down by one, and the level of MISO, as
    /// the port's input register shows it, enters the receive register at
    /// the top.
    pub open spec fn shifted(self, port: Port) -> (Spi, Port) {
        if self.subinterval % 2 == 0 {
            let sent = port.po_out_spec(self.pin_of(SPI_PIN_MOSI as int), bit8(self.sr_tx, 0));
            (
                Spi {
                    sr_tx: self.sr_tx >> 1u8,
                    sr_rx: set_bit8(
                        self.sr_rx >> 1u8,
                        7,
                        bit8(sent.regs[PORT_IN as int], self.pin_of(SPI_PIN_MISO as int)),
                    ),
                    sr_state: self.sr_state.wrapping_sub(1),
                    ..self
                },
                sent,
            )
        } else {
            (self, port)
        }
    }

    /// The SPI after the end of a half bit interval. The last interval of a
    /// transfer delivers the received byte, turned round unless the least
    /// significant bit came first. In buffered mode the byte joins the
    /// receive buffer, of which only the two newest bytes are kept (a third
    /// raises the overflow flag), and a byte that waits for transmission
    /// starts the next transfer at once. In unbuffered mode the byte goes to
    /// the data register. Every other interval counts down.
    pub open spec fn finished(self) -> Spi {
        if self.subinterval == 1 {
            let turned = Spi {
                sr_rx: if bit8(self.regs[SPI_CTRLA as int], 6) {
                    self.sr_rx
                } else {
                    reversed8(self.sr_rx)
                },
                ..self
            };
            if bit8(self.regs[SPI_CTRLB as int], 7) {
                let queued = turned.buf_rx.pushed(turned.sr_rx as u16);
                let kept = if queued.len > 2 {
                    (Spi { buf_rx: queued.popped(), ..turned }).with_flag(0, true)
                } else {
                    Spi { buf_rx: queued, ..turned }
                };
                let complete = kept.with_flag(7, true);
                if complete.has_data_tx {
                    (Spi {
                        sr_tx: if bit8(self.regs[SPI_CTRLA as int], 6) {
                            complete.data_tx
                        } else {
                            reversed8(complete.data_tx)
                        },
                        has_data_tx: false,
                        subinterval: 16,
                        sr_state: 8,
                        ..complete
                    }).with_flag(5, true)
                } else {
                    (Spi { subinterval: 0, ..complete }).with_flag(6, true)
                }
            } else {
                (Spi { data_rx: turned.sr_rx, subinterval: 0, ..turned }).with_flag(7, true)
            }
        } else {
            Spi { subinterval: self.subinterval.wrapping_sub(1), ..self }
        }
    }

    /// The port with all four pins released.
    pub open spec fn released(self, port: Port) -> Port {
        port.po_out_clear_spec(self.pin_of(0)).po_dir_clear_spec(
            self.pin_of(0),
        ).po_out_clear_spec(self.pin_of(1)).po_dir_clear_spec(self.pin_of(1)).po_out_clear_spec(
            self.pin_of(2),
        ).po_dir_clear_spec(self.pin_of(2)).po_out_clear_spec(self.pin_of(3)).po_dir_clear_spec(
            self.pin_of(3),
        )
    }

    /// The port with the pins set up for a client: MOSI, SCK and SS are
    /// inputs, and MISO is held low.
    pub open spec fn as_client(self, port: Port) -> Port {
        port.po_dir_spec(self.pin_of(SPI_PIN_MOSI as int), false).po_dir_spec(
            self.pin_of(SPI_PIN_SCK as int),
            false,
        ).po_dir_spec(self.pin_of(SPI_PIN_SS as int), false).po_out_spec(
            self.pin_of(SPI_PIN_MISO as int),
            false,
        )
    }

    /// The SPI and the port after one half bit interval.
    pub open spec fn stepped(self, port: Port) -> (Spi, Port) {
        if !bit8(self.regs[SPI_CTRLA as int], 0) {
            (self, self.released(port))
        } else if !bit8(self.regs[SPI_CTRLA as int], 5) {
            (self, self.as_client(port))
        } else if self.sr_state == 0 && self.subinterval == 0 {
            self.rested(port)
        } else if self.regs[SPI_CTRLB as int] & 0x03 == 0 {
            let edge = self.begun().clocked(port);
            let data = edge.0.shifted(edge.1);
            (data.0.finished(), data.1)
        } else {
            (self.begun(), port)
        }
    }

    /// The SPI and the port after one clock period: the periods of the clock
    /// division go by, and with the last of them a half bit interval begins.
    pub open spec fn tick_spec(self, port: Port) -> (Spi, Port) {
        if self.ps_count == 0 {
            (Spi { ps_count: division(self.regs[SPI_CTRLA as int]) >> 1u8, ..self }).stepped(port)
        } else {
            (Spi { ps_count: (self.ps_count - 1) as u8, ..self }, port)
        }
    }

    fn release(&self, port: &mut Port)
        requires
            self.wf(),
        ensures
            *final(port) == self.released(*old(port)),
    {
        port.po_out_clear(self.pin_for(0));
        port.po_dir_clear(self.pin_for(0));
        port.po_out_clear(self.pin_for(1));
        port.po_dir_clear(self.pin_for(1));
        port.po_out_clear(self.pin_for(2));
        port.po_dir_clear(self.pin_for(2));
        port.po_out_clear(self.pin_for(3));
        port.po_dir_clear(self.pin_for(3));
    }

    fn finish(&mut self)
        ensures
            *final(self) == old(self).finished(),
    {
        if self.subinterval == 1 {
            if !self.is_lsb_first() {
                self.sr_rx = reverse8(self.sr_rx);
            }
            if self.is_bufen() {
                self.buf_rx.push_back(self.sr_rx as u16);
                if self.buf_rx.len() > 2 {
                    self.buf_rx.pop_front();
                    self.set_flag(0, true);
                }
                self.set_flag(7, true);
                if self.has_data_tx {
                    self.sr_tx = self.data_tx;
                    if !self.is_lsb_first() {
                        self.sr_tx = reverse8(self.sr_tx);
                    }
                    self.has_data_tx = false;
                    self.subinterval = 16;
                    self.sr_state = 8;
                    self.set_flag(5, true);
                } else {
                    self.subinterval = 0;
                    self.set_flag(6, true);
                }
            } else {
                self.data_rx = self.sr_rx;
                self.subinterval = 0;
                self.set_flag(7, true);
            }
        } else {
            self.subinterval = self.subinterval.wrapping_sub(1);
        }
    }

    fn step(&mut self, port: &mut Port)
        requires
            old(self).wf(),
        ensures
            final(self).wf(),
            (*final(self), *final(port)) == old(self).stepped(*old(port)),
    {
        if !self.is_enabled() {
            self.release(port);
        } else if !self.is_master() {
            port.po_dir(self.pin_for(SPI_PIN_MOSI), false);
            port.po_dir(self.pin_for(SPI_PIN_SCK), false);
            port.po_dir(self.pin_for(SPI_PIN_SS), false);
            port.po_out(self.pin_for(SPI_PIN_MISO), false);
        } else if self.sr_state == 0 && self.subinterval == 0 {
            let high = self.mode() >= 2;
            self.state_sck = high;
            port.po_out(self.pin_for(SPI_PIN_SCK), high);
        } else {
            if self.sr_state == 8 && self.subinterval == 0 {
                self.subinterval = 16;
                if !self.is_lsb_first() {
                    self.sr_tx = reverse8(self.sr_tx);
                }
            }
            if self.mode() == 0 {
                if self.subinterval < 16 {
                    self.state_sck = !self.state_sck;
                    port.po_out(self.pin_for(SPI_PIN_SCK), self.state_sck);
                }
                if self.subinterval % 2 == 0 {
                    let mosi = test_bit8(self.sr_tx, 0);
                    port.po_out(self.pin_for(SPI_PIN_MOSI), mosi);
                    self.sr_tx = self.sr_tx >> 1u8;
                    let miso = port.get_pinstate(self.pin_for(SPI_PIN_MISO));
                    self.sr_rx = write_bit8(self.sr_rx >> 1u8, 7, miso);
                    self.sr_state = self.sr_state.wrapping_sub(1);
                }
                self.finish();
            }
        }
    }

    /// Advances the SPI by one clock period. `port` is the port that carries
    /// the pins at present.
    pub fn tick(&mut self, port: &mut Port, _time: u64)
        requires
            old(self).wf(),
        ensures
            final(self).wf(),
            (*final(self), *final(port)) == old(self).tick_spec(*old(port)),
    {
        if self.ps_count == 0 {
            self.ps_count = self.prescaler() >> 1u8;
            self.step(port);
        } else {
            self.ps_count -= 1;
        }
    }
}

impl InterruptSource for Spi {
    open spec fn raised(&self, mask: u8) -> bool {
        self.regs[SPI_INTCTRL as int] & self.regs[SPI_INTFLAGS as int] & mask != 0x00
    }

    fn interrupt(&self, mask: u8) -> (pending: bool) {
        (self.regs[SPI_INTCTRL] & self.regs[SPI_INTFLAGS] & mask) != 0x00
    }
}

} // verus!
