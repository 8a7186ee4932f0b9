//! A UART sink: it receives the frames that the microcontroller sends, and
//! sends the bytes that events ask for.

use crate::bits::{reverse8, reversed8};
use crate::hardware::{sense, sensed, Hardware, Reading, Report, Wire};
use crate::nets::{Net, NetState, PinState};
use crate::text::{parse_hex, parsed_hex, same_ignoring_case, same_text_ignoring_case};
use vstd::prelude::*;

verus! {

/// The duration of a bit in nanoseconds at 9600 baud.
pub const NS_PER_BIT: u64 = 104167;

/// The level last seen on the receive input.
#[derive(Clone, Copy, Debug, PartialEq, Eq, Structural)]
pub enum RxState {
    High,
    Low,
    Undefined,
}

/// What a shifter of the sink is doing.
#[derive(Clone, Copy, Debug, PartialEq, Eq, Structural)]
pub enum UartState {
    Idle,
    Shift,
    Check,
}

/// The level of the receive input that a net level stands for.
#[verifier::allow_in_spec]
pub fn rx_level(level: NetState) -> RxState
    returns
        (match level {
            NetState::High => RxState::High,
            NetState::Low => RxState::Low,
            _ => RxState::Undefined,
        }),
{
    match level {
        NetState::High => RxState::High,
        NetState::Low => RxState::Low,
        _ => RxState::Undefined,
    }
}

/// The UART sink.
pub struct SinkUART {
    pub name: String,
    pub pin_tx: PinState,
    pub net_rx: Wire,
    pub rx_pinstate: RxState,
    pub rx_state: UartState,
    pub tx_state: UartState,
    /// The bits of the frame in progress that are still to be received.
    pub rx_bit: u8,
    /// The bits of the frame in progress that are still to be sent.
    pub tx_bit: u8,
    pub rx_reg: u16,
    pub tx_reg: u16,
    /// The time at which the next bit is sampled.
    pub rx_time: u64,
    /// The time at which the next bit is sent.
    pub tx_time: u64,
    pub ns_per_bit: u64,
    /// The name of the file that the received bytes are meant for.
    pub outfile: String,
}

impl SinkUART {
    /// A sink at rest at 9600 baud, with its transmit pin at the idle level.
    pub fn new(name: String, rx: Wire, filename: String) -> (sink: SinkUART)
        ensures
            sink == (SinkUART {
                name,
                pin_tx: PinState::DriveH,
                net_rx: rx,
                rx_pinstate: RxState::Undefined,
                rx_state: UartState::Idle,
                tx_state: UartState::Idle,
                rx_bit: 0,
                tx_bit: 0,
                rx_reg: 0,
                tx_reg: 0,
                rx_time: 0,
                tx_time: 0,
                ns_per_bit: NS_PER_BIT,
                outfile: filename,
            }),
    {
        SinkUART {
            name,
            pin_tx: PinState::DriveH,
            net_rx: rx,
            rx_pinstate: RxState::Undefined,
            rx_state: UartState::Idle,
            tx_state: UartState::Idle,
            rx_bit: 0,
            tx_bit: 0,
            rx_reg: 0,
            tx_reg: 0,
            rx_time: 0,
            tx_time: 0,
            ns_per_bit: NS_PER_BIT,
            outfile: filename,
        }
    }

    /// The sink after it has been asked to send a byte: at rest it pulls its
    /// transmit pin low for the start bit and sends the eight data bits and
    /// the stop bit one bit time apart; in the middle of a frame it ignores
    /// the request.
    pub open spec fn sending(self, time: u64, byte: u8) -> SinkUART {
        if self.tx_state == UartState::Idle {
            SinkUART {
                tx_reg: (byte as u16) | 0x0100,
                tx_bit: 9,
                tx_state: UartState::Shift,
                tx_time: time.wrapping_add(self.ns_per_bit),
                pin_tx: PinState::DriveL,
                ..self
            }
        } else {
            self
        }
    }

    /// Starts sending a byte.
    pub fn tx(&mut self, time: u64, byte: u8)
        ensures
            *final(self) == old(self).sending(time, byte),
    {
        if self.tx_state == UartState::Idle {
            self.tx_reg = (byte as u16) | 0x0100;
            self.tx_bit = 9;
            self.tx_state = UartState::Shift;
            self.tx_time = time.wrapping_add(self.ns_per_bit);
            self.pin_tx = PinState::DriveL;
        }
    }

    /// The receiver after it has looked at its input at `time`, and the byte
    /// received, if a frame has just been checked. At rest, a fall of the
    /// input from high to low starts a frame whose first data bit is sampled
    /// one and a half bit times later. Within a frame a bit is sampled
    /// whenever its time has come; after the eight data bits and the stop
    /// bit the frame is checked, and delivered if the stop bit was high.
    pub open spec fn received(self, level: RxState, time: u64) -> (SinkUART, Option<u8>) {
        match self.rx_state {
            UartState::Idle => if level == RxState::Low && self.rx_pinstate == RxState::High {
                (
                    SinkUART {
                        rx_state: UartState::Shift,
                        rx_bit: 9,
                        rx_time: time.wrapping_add(self.ns_per_bit.wrapping_mul(3) / 2),
                        ..self
                    },
                    None,
                )
            } else {
                (self, None)
            },
            UartState::Shift => if time >= self.rx_time {
                let sampled = if level == RxState::High {
                    self.rx_reg | 1
                } else {
                    self.rx_reg
                };
                let left = self.rx_bit.wrapping_sub(1);
                (
                    SinkUART {
                        rx_time: self.rx_time.wrapping_add(self.ns_per_bit),
                        rx_bit: left,
                        rx_reg: if left == 0 {
                            sampled
                        } else {
                            sampled << 1u16
                        },
                        rx_state: if left == 0 {
                            UartState::Check
                        } else {
                            UartState::Shift
                        },
                        ..self
                    },
                    None,
                )
            } else {
                (self, None)
            },
            UartState::Check => (
                SinkUART { rx_reg: 0, rx_state: UartState::Idle, ..self },
                if self.rx_reg & 1 == 1 {
                    Some(reversed8((self.rx_reg >> 1u16) as u8))
                } else {
                    None
                },
            ),
        }
    }

    /// The transmitter after one look at the clock: within a frame the next
    /// bit goes on the transmit pin whenever its time has come, and after
    /// the last bit the transmitter is at rest.
    pub open spec fn transmitted(self, time: u64) -> SinkUART {
        match self.tx_state {
            UartState::Idle => self,
            UartState::Shift => if time >= self.tx_time {
                let left = self.tx_bit.wrapping_sub(1);
                SinkUART {
                    tx_time: self.tx_time.wrapping_add(self.ns_per_bit),
                    pin_tx: if self.tx_reg & 1 == 1 {
                        PinState::DriveH
                    } else {
                        PinState::DriveL
                    },
                    tx_bit: left,
                    tx_reg: self.tx_reg >> 1u16,
                    tx_state: if left == 0 {
                        UartState::Idle
                    } else {
                        UartState::Shift
                    },
                    ..self
                }
            } else {
                self
            },
            UartState::Check => SinkUART { tx_state: UartState::Idle, ..self },
        }
    }
}

impl Hardware for SinkUART {
    /// The receiver and the transmitter each take their step, and a byte
    /// that has been received is reported.
    open spec fn updated(&self, time: u64, nets: Seq<Net>) -> (SinkUART, Option<Report>) {
        let level = rx_level(sensed(self.net_rx, nets));
        let rx = self.received(level, time);
        (
            SinkUART { rx_pinstate: level, ..rx.0.transmitted(time) },
            match rx.1 {
                Some(byte) => Some(Report { time, what: Reading::UartRx(byte) }),
                None => None,
            },
        )
    }

    /// The event `flush`, in any case, asks for the received bytes to be
    /// written out. Any other event is the byte to send, as a hexadecimal
    /// number; the sending is reported, except at time zero. An event that
    /// is neither is ignored.
    open spec fn notified(&self, time: u64, event: Seq<char>) -> (SinkUART, Option<Report>) {
        if same_ignoring_case(event, "flush"@) {
            (*self, Some(Report { time, what: Reading::UartFlush }))
        } else {
            match parsed_hex(event, 0xFF) {
                Some(byte) => (
                    self.sending(time, byte as u8),
                    if time > 0 {
                        Some(Report { time, what: Reading::UartTx(byte as u8) })
                    } else {
                        None
                    },
                ),
                None => (*self, None),
            }
        }
    }

    open spec fn pin_state(&self, pin: int) -> PinState {
        if pin == 0 {
            self.pin_tx
        } else {
            PinState::Open
        }
    }

    fn update(&mut self, time: u64, nets: &Vec<Net>) -> (report: Option<Report>) {
        let rx_pinstate_new = rx_level(sense(self.net_rx, nets));
        let mut report: Option<Report> = None;
        match self.rx_state {
            UartState::Idle => {
                if rx_pinstate_new == RxState::Low && self.rx_pinstate == RxState::High {
                    self.rx_state = UartState::Shift;
                    self.rx_bit = 9;
                    self.rx_time = time.wrapping_add(self.ns_per_bit.wrapping_mul(3) / 2);
                }
            },
            UartState::Shift => {
                if time >= self.rx_time {
                    self.rx_time = self.rx_time.wrapping_add(self.ns_per_bit);
                    if rx_pinstate_new == RxState::High {
                        self.rx_reg = self.rx_reg | 1;
                    }
                    self.rx_bit = self.rx_bit.wrapping_sub(1);
                    if self.rx_bit == 0 {
                        self.rx_state = UartState::Check;
                    } else {
                        self.rx_reg = self.rx_reg << 1u16;
                    }
                }
            },
            UartState::Check => {
                if self.rx_reg & 1 == 1 {
                    let byte = reverse8((self.rx_reg >> 1u16) as u8);
                    report = Some(Report { time, what: Reading::UartRx(byte) });
                }
                self.rx_reg = 0;
                self.rx_state = UartState::Idle;
            },
        }
        match self.tx_state {
            UartState::Idle => {},
            UartState::Shift => {
                if time >= self.tx_time {
                    self.tx_time = self.tx_time.wrapping_add(self.ns_per_bit);
                    if (self.tx_reg & 1) == 1 {
                        self.pin_tx = PinState::DriveH;
                    } else {
                        self.pin_tx = PinState::DriveL;
                    }
                    self.tx_bit = self.tx_bit.wrapping_sub(1);
                    self.tx_reg = self.tx_reg >> 1u16;
                    if self.tx_bit == 0 {
                        self.tx_state = UartState::Idle;
                    }
                }
            },
            UartState::Check => {
                self.tx_state = UartState::Idle;
            },
        }
        self.rx_pinstate = rx_pinstate_new;
        report
    }

    fn event(&mut self, time: u64, event: &str) -> (report: Option<Report>) {
        if same_text_ignoring_case(event, "flush") {
            Some(Report { time, what: Reading::UartFlush })
        } else {
            match parse_hex(event, 0xFF) {
                Some(byte) => {
                    self.tx(time, byte as u8);
                    if time > 0 {
                        Some(Report { time, what: Reading::UartTx(byte as u8) })
                    } else {
                        None
                    }
                },
                None => None,
            }
        }
    }

    fn pin(&self, pin: usize) -> (state: PinState) {
        if pin == 0 {
            self.pin_tx
        } else {
            PinState::Open
        }
    }
}

} // verus!
