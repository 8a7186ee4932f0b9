//! The QUTy board: an ATtiny1626 with four pushbuttons, a potentiometer, a
//! buzzer, a two-digit display behind a shift register, and a UART.
//!
//! The board owns every net and every hardware model. One step of the board
//! delivers the events that are due, advances the microcontroller by one
//! clock cycle, resolves every net, lets every hardware model look at its
//! nets, and lets the ports sample theirs.

use crate::cores::Core;
use crate::devices::{DataSpace, DataSpaceModel, Device, DeviceType};
use crate::events::Event;
use crate::hardware::display::Display;
use crate::hardware::ic74hc595::IC74HC595;
use crate::hardware::led::Led;
use crate::hardware::pot::Pot;
use crate::hardware::pushbutton::Pushbutton;
use crate::hardware::sinkpwm::SinkPwm;
use crate::hardware::sinkuart::SinkUART;
use crate::hardware::{Hardware, Model, Report, Wire};
use crate::hex::{HexError, HexRecord};
use crate::peripherals::port::PortIO;
use crate::nets::{
    reported_spec, resolve_spec, Net, NetState, NetTrace, NetTransition, PinRef, PinState,
};
use crate::text::same_text;
use vstd::prelude::*;

verus! {

/// The number of ports of the microcontroller; the pins of port `p` have the
/// device handle `p`, and those of the hardware model in slot `h` the handle
/// `PORTS + h`.
pub const PORTS: usize = 3;

/// A hardware model under the name by which events address it.
pub struct Slot {
    pub key: String,
    pub model: Model,
}

impl Slot {
    /// Sends an event to the model in the slot.
    pub fn event(&mut self, time: u64, event: &str) -> (report: Option<Report>)
        ensures
            *final(self) == (Slot { model: old(self).model.notified(time, event@).0, ..*old(self) }),
            report == old(self).model.notified(time, event@).1,
    {
        self.model.event(time, event)
    }

    /// Lets the model in the slot look at its nets.
    pub fn update(&mut self, time: u64, nets: &Vec<Net>) -> (report: Option<Report>)
        ensures
            *final(self) == (Slot { model: old(self).model.updated(time, nets@).0, ..*old(self) }),
            report == old(self).model.updated(time, nets@).1,
    {
        self.model.update(time, nets)
    }
}

/// One entry of the board's log.
#[derive(Clone, Copy, Debug, PartialEq, Eq, Structural)]
pub enum Trace {
    /// A report of the hardware model in slot `index`.
    Hardware { index: usize, report: Report },
    /// A transition of the net with handle `index`.
    Net { index: usize, transition: NetTransition },
}

/// The board.
pub struct QUTy {
    pub hw: Vec<Slot>,
    pub nets: Vec<Net>,
    pub mcu: Device,
    /// The time in nanoseconds.
    pub time: u64,
    /// The events that are still to come, the earliest first.
    pub events: Vec<Event>,
    /// What has been reported since the log was last taken.
    pub log: Vec<Trace>,
    /// Which net transitions are reported.
    pub trace: NetTrace,
}

/// The state of the board.
pub struct BoardModel {
    pub hw: Seq<Slot>,
    pub nets: Seq<Net>,
    pub core: Core,
    pub mm: DataSpaceModel,
    pub ramend: u16,
    pub time: u64,
    pub events: Seq<Event>,
    pub log: Seq<Trace>,
    pub trace: NetTrace,
}

impl View for QUTy {
    type V = BoardModel;

    open spec fn view(&self) -> BoardModel {
        BoardModel {
            hw: self.hw@,
            nets: self.nets@,
            core: self.mcu.core,
            mm: self.mcu.mm@,
            ramend: self.mcu.RAMEND,
            time: self.time,
            events: self.events@,
            log: self.log@,
            trace: self.trace,
        }
    }
}

/// The first slot, among the first `n`, with the given key.
pub open spec fn slot_of(hw: Seq<Slot>, key: Seq<char>, n: int) -> Option<int>
    decreases n,
{
    if n <= 0 {
        None
    } else {
        match slot_of(hw, key, n - 1) {
            Some(i) => Some(i),
            None => if hw[n - 1].key@ == key {
                Some(n - 1)
            } else {
                None
            },
        }
    }
}

/// Whether one of the first `n` events asks the UART sink to flush.
pub open spec fn flush_waits(events: Seq<Event>, n: int) -> bool
    decreases n,
{
    if n <= 0 {
        false
    } else {
        flush_waits(events, n - 1) || (events[n - 1].device@ == "U5"@ && events[n - 1].event@
            == "flush"@)
    }
}

impl BoardModel {
    /// What the pin with the given reference puts on its net; `Open` for
    /// references to pins that do not exist.
    pub open spec fn pin_state_of(self, pin: PinRef) -> PinState {
        if pin.device < PORTS {
            if pin.pin < 8 {
                self.mm.ports[pin.device as int].pio[pin.pin as int].pin
            } else {
                PinState::Open
            }
        } else if pin.device - PORTS < self.hw.len() {
            self.hw[pin.device - PORTS].model.pin_state(pin.pin as int)
        } else {
            PinState::Open
        }
    }

    /// The states of the pins of a net, in the order of attachment.
    pub open spec fn gathered(self, net: int) -> Seq<PinState> {
        Seq::new(
            self.nets[net].io@.len(),
            |k: int| self.pin_state_of(self.nets[net].io@[k]),
        )
    }

    /// The board after an event has been delivered to the hardware model it
    /// names, at the board's time. An event for a model that is not on the
    /// board is dropped.
    #[verifier::opaque]
    pub open spec fn delivered(self, device: Seq<char>, event: Seq<char>) -> BoardModel {
        match slot_of(self.hw, device, self.hw.len() as int) {
            Some(i) => {
                let told = self.hw[i].model.notified(self.time, event);
                BoardModel {
                    hw: self.hw.update(i, Slot { model: told.0, ..self.hw[i] }),
                    log: match told.1 {
                        Some(report) => self.log.push(Trace::Hardware { index: i as usize, report }),
                        None => self.log,
                    },
                    ..self
                }
            },
            None => self,
        }
    }

    /// The board after every event that is due has been delivered and taken
    /// off the list, the earliest first.
    #[verifier::opaque]
    pub open spec fn dispatched(self) -> BoardModel
        decreases self.events.len(),
    {
        if self.events.len() > 0 && self.time >= self.events[0].time {
            (BoardModel {
                events: self.events.skip(1),
                ..self.delivered(self.events[0].device@, self.events[0].event@)
            }).dispatched()
        } else {
            self
        }
    }

    /// The level that net `i` resolves to.
    pub open spec fn level(self, i: int) -> NetState {
        resolve_spec(self.gathered(i))
    }

    /// The transitions that the first `n` nets report when they are
    /// resolved.
    pub open spec fn net_log(self, n: int) -> Seq<Trace>
        decreases n,
    {
        if n <= 0 {
            Seq::empty()
        } else if reported_spec(self.trace, self.time, self.nets[n - 1].state, self.level(n - 1)) {
            self.net_log(n - 1).push(
                Trace::Net {
                    index: (n - 1) as usize,
                    transition: NetTransition {
                        time: self.time,
                        from: self.nets[n - 1].state,
                        to: self.level(n - 1),
                    },
                },
            )
        } else {
            self.net_log(n - 1)
        }
    }

    /// The board after every net has been resolved from the states of its
    /// pins.
    #[verifier::opaque]
    pub open spec fn nets_resolved(self) -> BoardModel {
        BoardModel {
            nets: Seq::new(
                self.nets.len(),
                |i: int| Net { state: self.level(i), ..self.nets[i] },
            ),
            log: self.log + self.net_log(self.nets.len() as int),
            ..self
        }
    }

    /// The reports of the first `n` hardware models when they look at their
    /// nets.
    pub open spec fn hardware_log(self, n: int) -> Seq<Trace>
        decreases n,
    {
        if n <= 0 {
            Seq::empty()
        } else {
            match self.hw[n - 1].model.updated(self.time, self.nets).1 {
                Some(report) => self.hardware_log(n - 1).push(
                    Trace::Hardware { index: (n - 1) as usize, report },
                ),
                None => self.hardware_log(n - 1),
            }
        }
    }

    /// The board after every hardware model has looked at its nets.
    #[verifier::opaque]
    pub open spec fn hardware_updated(self) -> BoardModel {
        BoardModel {
            hw: Seq::new(
                self.hw.len(),
                |i: int|
                    Slot {
                        model: self.hw[i].model.updated(self.time, self.nets).0,
                        ..self.hw[i]
                    },
            ),
            log: self.log + self.hardware_log(self.hw.len() as int),
            ..self
        }
    }

    /// The board after the microcontroller has been advanced by one clock
    /// cycle, and the nanoseconds that the cycle took.
    pub open spec fn ticked(self) -> (BoardModel, u64) {
        let core = self.core.tick_of::<DataSpace>(self.mm);
        let clocked = core.1.clocked(self.time);
        (
            BoardModel { core: core.0, mm: clocked, ..self },
            if core.2 {
                clocked.clkctrl.clock_period
            } else {
                0
            },
        )
    }

    /// The core stops in the next step: after the events that are due, it
    /// meets `BREAK`, or its program counter cannot advance.
    pub open spec fn stops(self) -> bool {
        !self.dispatched().core.tick_of::<DataSpace>(self.dispatched().mm).2
    }

    /// The board after one step, and the nanoseconds that the step took:
    /// events before the tick, the tick before the nets, the nets before the
    /// hardware, the hardware before the ports; then the time advances. A
    /// step of zero nanoseconds tells that the core has stopped; if a flush
    /// of the UART sink is still among the events then, it is delivered at
    /// once.
    pub open spec fn step(self) -> (BoardModel, u64) {
        let ticked = self.dispatched().ticked();
        let sampled = ticked.0.settled();
        let moved = BoardModel {
            time: if sampled.time + ticked.1 > u64::MAX {
                u64::MAX
            } else {
                (sampled.time + ticked.1) as u64
            },
            ..sampled
        };
        if ticked.1 == 0 && flush_waits(moved.events, moved.events.len() as int) {
            (moved.delivered("U5"@, "flush"@), ticked.1)
        } else {
            (moved, ticked.1)
        }
    }
}

/// The names of the nets of the board, by handle.
pub open spec fn quty_nets() -> Seq<Seq<char>> {
    seq![
        "PA1_DISP_LATCH"@,
        "PA2_POT"@,
        "PA3_CLK"@,
        "PA4_BUTTON0"@,
        "PA5_BUTTON1"@,
        "PA6_BUTTON2"@,
        "PA7_BUTTON3"@,
        "PB0_BUZZER"@,
        "PB1_DISP_EN"@,
        "PB2_UART_TX"@,
        "PB3_UART_RX"@,
        "PB4_UART_RX"@,
        "PB5_DISP_DP"@,
        "PC0_SPI_CLK"@,
        "PC1_SPI_MISO"@,
        "PC2_SPI_MOSI"@,
        "PC3_SPI_CS"@,
        "U2_Q0"@,
        "U2_Q1"@,
        "U2_Q2"@,
        "U2_Q3"@,
        "U2_Q4"@,
        "U2_Q5"@,
        "U2_Q6"@,
        "U2_Q7"@,
    ]
}

/// The names by which events address the hardware of the board, by slot.
pub open spec fn quty_keys() -> Seq<Seq<char>> {
    seq![
        "DS1-DP"@,
        "S1"@,
        "S2"@,
        "S3"@,
        "S4"@,
        "P1"@,
        "U2"@,
        "DS1"@,
        "R9"@,
        "R1"@,
        "U5"@,
    ]
}

pub const NET_PA1_DISP_LATCH: usize = 0;

pub const NET_PA2_POT: usize = 1;

pub const NET_PA4_BUTTON0: usize = 3;

pub const NET_PB0_BUZZER: usize = 7;

pub const NET_PB1_DISP_EN: usize = 8;

pub const NET_PB2_UART_TX: usize = 9;

pub const NET_PB3_UART_RX: usize = 10;

pub const NET_PB5_DISP_DP: usize = 12;

pub const NET_PC0_SPI_CLK: usize = 13;

pub const NET_PC2_SPI_MOSI: usize = 15;

pub const NET_U2_Q0: usize = 17;

pub const NET_U2_Q7: usize = 24;

pub const SLOT_LED: usize = 0;

pub const SLOT_S1: usize = 1;

pub const SLOT_BUZZER: usize = 5;

pub const SLOT_SHIFT_REGISTER: usize = 6;

pub const SLOT_DISPLAY: usize = 7;

pub const SLOT_DISP_EN: usize = 8;

pub const SLOT_POT: usize = 9;

pub const SLOT_UART: usize = 10;

/// The net that a pin of a port is attached to on the board: port A from
/// pin 1 on, port B up to pin 5, port C up to pin 3.
pub open spec fn quty_port_net(port: int, pin: int) -> Option<usize> {
    if port == 0 && 1 <= pin <= 7 {
        Some((pin - 1) as usize)
    } else if port == 1 && 0 <= pin <= 5 {
        Some((7 + pin) as usize)
    } else if port == 2 && 0 <= pin <= 3 {
        Some((13 + pin) as usize)
    } else {
        None
    }
}

/// The pins attached to each net of the board, by handle of the net and in
/// the order of attachment. The pins of port `p` have the device handle `p`,
/// those of the hardware model in slot `h` the handle `PORTS + h`.
pub open spec fn quty_wiring() -> Seq<Seq<PinRef>> {
    seq![
        seq![PinRef { device: 0, pin: 1 }],
        seq![PinRef { device: 0, pin: 2 }, PinRef { device: 12, pin: 0 }],
        seq![PinRef { device: 0, pin: 3 }],
        seq![PinRef { device: 0, pin: 4 }, PinRef { device: 4, pin: 0 }],
        seq![PinRef { device: 0, pin: 5 }, PinRef { device: 5, pin: 0 }],
        seq![PinRef { device: 0, pin: 6 }, PinRef { device: 6, pin: 0 }],
        seq![PinRef { device: 0, pin: 7 }, PinRef { device: 7, pin: 0 }],
        seq![PinRef { device: 1, pin: 0 }, PinRef { device: 8, pin: 0 }],
        seq![
            PinRef { device: 1, pin: 1 },
            PinRef { device: 10, pin: 7 },
            PinRef { device: 11, pin: 0 },
        ],
        seq![PinRef { device: 1, pin: 2 }],
        seq![PinRef { device: 1, pin: 3 }, PinRef { device: 13, pin: 0 }],
        seq![PinRef { device: 1, pin: 4 }],
        seq![PinRef { device: 1, pin: 5 }, PinRef { device: 3, pin: 0 }],
        seq![PinRef { device: 2, pin: 0 }],
        seq![PinRef { device: 2, pin: 1 }],
        seq![PinRef { device: 2, pin: 2 }],
        seq![PinRef { device: 2, pin: 3 }],
        seq![PinRef { device: 9, pin: 0 }, PinRef { device: 10, pin: 0 }],
        seq![PinRef { device: 9, pin: 1 }, PinRef { device: 10, pin: 1 }],
        seq![PinRef { device: 9, pin: 2 }, PinRef { device: 10, pin: 2 }],
        seq![PinRef { device: 9, pin: 3 }, PinRef { device: 10, pin: 3 }],
        seq![PinRef { device: 9, pin: 4 }, PinRef { device: 10, pin: 4 }],
        seq![PinRef { device: 9, pin: 5 }, PinRef { device: 10, pin: 5 }],
        seq![PinRef { device: 9, pin: 6 }, PinRef { device: 10, pin: 6 }],
        seq![PinRef { device: 9, pin: 7 }, PinRef { device: 10, pin: 8 }],
    ]
}

/// The hardware model in a slot of the board as it is before it has looked
/// at its nets for the first time.
pub open spec fn quty_model(slot: int, model: Model) -> bool {
    if slot == 0 {
        model matches Model::Led(led) && led.name@ == "DS1-DP"@ && led.pin == PinState::WeakPullUp
            && led.net == Wire::Net(NET_PB5_DISP_DP) && led.state
            == crate::hardware::led::LedState::Undefined && !led.active_high
    } else if 1 <= slot <= 4 {
        model matches Model::Pushbutton(pb) && pb.name@ == quty_keys()[slot] && pb.pin
            == PinState::Open && pb.state == crate::hardware::pushbutton::PushbuttonState::Released
            && !pb.active_high
    } else if slot == 5 {
        model matches Model::SinkPwm(sink) && sink.name@ == "P1"@ && sink.variant@ == "BUZZER"@
            && sink.net == Wire::Net(NET_PB0_BUZZER) && sink.pin == PinState::Open && quty_sink(
            sink,
        )
    } else if slot == 6 {
        model matches Model::ShiftRegister(sr) && sr.name@ == "U2"@ && (forall|i: int|
            0 <= i < 8 ==> sr.pins_out[i] == PinState::Open && #[trigger] sr.nets_out[i]
                == Wire::Net((NET_U2_Q0 + i) as usize)) && sr.pin_q7s == PinState::Open
            && sr.net_ds == Wire::Net(NET_PC2_SPI_MOSI) && sr.net_shcp == Wire::Net(
            NET_PC0_SPI_CLK,
        ) && sr.net_stcp == Wire::Net(NET_PA1_DISP_LATCH) && sr.net_oe_n == Wire::Tied(
            NetState::Low,
        ) && sr.net_mr_n == Wire::Tied(NetState::High) && sr.reg_shift == 0 && sr.reg_latch == 0
            && sr.state_shcp == crate::hardware::ic74hc595::ClockState::Undefined && sr.state_stcp
            == crate::hardware::ic74hc595::ClockState::Undefined
    } else if slot == 7 {
        model matches Model::Display(disp) && disp.name@ == "DS1"@ && (forall|i: int|
            0 <= i < 7 ==> disp.pins_segs[i] == PinState::WeakPullUp && #[trigger] disp.nets_segs[i]
                == Wire::Net((NET_U2_Q0 + i) as usize)) && disp.pin_en == PinState::WeakPullUp
            && disp.pin_digit == PinState::WeakPullDown && disp.net_en == Wire::Net(
            NET_PB1_DISP_EN,
        ) && disp.net_digit == Wire::Net(NET_U2_Q7) && disp.enabled && (forall|i: int|
            0 <= i < 3 ==> disp.state[i] == (0u8, 0u64)) && disp.state_2d is None
            && disp.state_1d is None
    } else if slot == 8 {
        model matches Model::SinkPwm(sink) && sink.name@ == "DISP_EN"@ && sink.variant@ == "PWM"@
            && sink.net == Wire::Net(NET_PB1_DISP_EN) && sink.pin == PinState::WeakPullUp
            && quty_sink(sink)
    } else if slot == 9 {
        model matches Model::Pot(pot) && pot.name@ == "R1"@ && pot.pin == PinState::DriveAnalog(
            1_650_000,
        )
    } else {
        model matches Model::SinkUart(sink) && sink.name@ == "U5"@ && sink.outfile@
            == "./uart.txt"@ && sink.pin_tx == PinState::DriveH && sink.net_rx == Wire::Net(
            NET_PB2_UART_TX,
        ) && sink.rx_pinstate == crate::hardware::sinkuart::RxState::Undefined && sink.rx_state
            == crate::hardware::sinkuart::UartState::Idle && sink.tx_state
            == crate::hardware::sinkuart::UartState::Idle && sink.rx_bit == 0 && sink.tx_bit == 0
            && sink.rx_reg == 0 && sink.tx_reg == 0 && sink.rx_time == 0 && sink.tx_time == 0
            && sink.ns_per_bit == crate::hardware::sinkuart::NS_PER_BIT
    }
}

/// A PWM sink that has seen nothing yet.
pub open spec fn quty_sink(sink: SinkPwm) -> bool {
    &&& sink.state == crate::hardware::sinkpwm::SinkPwmState::Undefined
    &&& sink.t_last == 0
    &&& sink.t_rise_last == 0
    &&& sink.t_fall_last == 0
    &&& !sink.cycle_valid
    &&& sink.is_dc
    &&& sink.desc is None
}

impl BoardModel {
    /// The board as it is wired, before anything on it has looked at
    /// anything: the microcontroller after reset, every net with its pins
    /// attached and still undefined, every hardware model in its slot, the
    /// potentiometer at mid-travel and reported there, and no event to come.
    pub open spec fn wired(self, trace: NetTrace) -> bool {
        &&& self.time == 0
        &&& self.trace == trace
        &&& self.events.len() == 0
        &&& self.log == seq![
            Trace::Hardware {
                index: SLOT_POT,
                report: Report { time: 0, what: crate::hardware::Reading::Pot { millionths: 500_000 } },
            },
        ]
        &&& self.ramend == crate::devices::ATTINY1626_RAMEND
        &&& crate::devices::attiny1626_reset(
            self.core,
            self.mm,
            |p: int, i: int| quty_port_net(p, i),
        )
        &&& self.nets.len() == 25
        &&& forall|i: int|
            0 <= i < 25 ==> (#[trigger] self.nets[i]).name@ == quty_nets()[i] && self.nets[i].io@
                == quty_wiring()[i] && self.nets[i].state == NetState::Undefined
        &&& self.hw.len() == 11
        &&& forall|i: int|
            0 <= i < 11 ==> (#[trigger] self.hw[i]).key@ == quty_keys()[i] && quty_model(
                i,
                self.hw[i].model,
            )
    }

    /// The board after everything on it has been brought up to date at the
    /// board's time: every net resolved, then every hardware model shown its
    /// nets, then the nets sampled by the ports.
    pub open spec fn settled(self) -> BoardModel {
        let seen = self.nets_resolved().hardware_updated();
        BoardModel { mm: seen.mm.updated(seen.nets), ..seen }
    }
}

fn wired_net(name: &str, pins: Vec<PinRef>) -> (net: Net)
    ensures
        net.name@ == name@,
        net.io@ == pins@,
        net.state == NetState::Undefined,
{
    Net { state: NetState::Undefined, io: pins, name: String::from_str(name) }
}

fn port_pin(port: usize, pin: usize) -> (r: PinRef)
    ensures
        r == (PinRef { device: port, pin }),
{
    PinRef { device: port, pin }
}

fn hardware_pin(slot: usize, pin: usize) -> (r: PinRef)
    requires
        slot < 100,
    ensures
        r == (PinRef { device: (PORTS + slot) as usize, pin }),
{
    PinRef { device: PORTS + slot, pin }
}

fn quty_net_list() -> (nets: Vec<Net>)
    ensures
        nets@.len() == 25,
        forall|i: int|
            0 <= i < 25 ==> (#[trigger] nets@[i]).name@ == quty_nets()[i] && nets@[i].io@
                == quty_wiring()[i] && nets@[i].state == NetState::Undefined,
{
    let mut nets: Vec<Net> = Vec::new();
    nets.push(wired_net("PA1_DISP_LATCH", vec![port_pin(0, 1)]));
    nets.push(wired_net("PA2_POT", vec![port_pin(0, 2), hardware_pin(SLOT_POT, 0)]));
    nets.push(wired_net("PA3_CLK", vec![port_pin(0, 3)]));
    nets.push(wired_net("PA4_BUTTON0", vec![port_pin(0, 4), hardware_pin(SLOT_S1, 0)]));
    nets.push(wired_net("PA5_BUTTON1", vec![port_pin(0, 5), hardware_pin(SLOT_S1 + 1, 0)]));
    nets.push(wired_net("PA6_BUTTON2", vec![port_pin(0, 6), hardware_pin(SLOT_S1 + 2, 0)]));
    nets.push(wired_net("PA7_BUTTON3", vec![port_pin(0, 7), hardware_pin(SLOT_S1 + 3, 0)]));
    nets.push(wired_net("PB0_BUZZER", vec![port_pin(1, 0), hardware_pin(SLOT_BUZZER, 0)]));
    nets.push(
        wired_net(
            "PB1_DISP_EN",
            vec![
                port_pin(1, 1),
                hardware_pin(SLOT_DISPLAY, crate::hardware::display::PIN_EN),
                hardware_pin(SLOT_DISP_EN, 0),
            ],
        ),
    );
    nets.push(wired_net("PB2_UART_TX", vec![port_pin(1, 2)]));
    nets.push(wired_net("PB3_UART_RX", vec![port_pin(1, 3), hardware_pin(SLOT_UART, 0)]));
    nets.push(wired_net("PB4_UART_RX", vec![port_pin(1, 4)]));
    nets.push(wired_net("PB5_DISP_DP", vec![port_pin(1, 5), hardware_pin(SLOT_LED, 0)]));
    nets.push(wired_net("PC0_SPI_CLK", vec![port_pin(2, 0)]));
    nets.push(wired_net("PC1_SPI_MISO", vec![port_pin(2, 1)]));
    nets.push(wired_net("PC2_SPI_MOSI", vec![port_pin(2, 2)]));
    nets.push(wired_net("PC3_SPI_CS", vec![port_pin(2, 3)]));
    nets.push(
        wired_net(
            "U2_Q0",
            vec![hardware_pin(SLOT_SHIFT_REGISTER, 0), hardware_pin(SLOT_DISPLAY, 0)],
        ),
    );
    nets.push(
        wired_net(
            "U2_Q1",
            vec![hardware_pin(SLOT_SHIFT_REGISTER, 1), hardware_pin(SLOT_DISPLAY, 1)],
        ),
    );
    nets.push(
        wired_net(
            "U2_Q2",
            vec![hardware_pin(SLOT_SHIFT_REGISTER, 2), hardware_pin(SLOT_DISPLAY, 2)],
        ),
    );
    nets.push(
        wired_net(
            "U2_Q3",
            vec![hardware_pin(SLOT_SHIFT_REGISTER, 3), hardware_pin(SLOT_DISPLAY, 3)],
        ),
    );
    nets.push(
        wired_net(
            "U2_Q4",
            vec![hardware_pin(SLOT_SHIFT_REGISTER, 4), hardware_pin(SLOT_DISPLAY, 4)],
        ),
    );
    nets.push(
        wired_net(
            "U2_Q5",
            vec![hardware_pin(SLOT_SHIFT_REGISTER, 5), hardware_pin(SLOT_DISPLAY, 5)],
        ),
    );
    nets.push(
        wired_net(
            "U2_Q6",
            vec![hardware_pin(SLOT_SHIFT_REGISTER, 6), hardware_pin(SLOT_DISPLAY, 6)],
        ),
    );
    nets.push(
        wired_net(
            "U2_Q7",
            vec![
                hardware_pin(SLOT_SHIFT_REGISTER, 7),
                hardware_pin(SLOT_DISPLAY, crate::hardware::display::PIN_DIGIT),
            ],
        ),
    );
    proof {
        assert forall|i: int| 0 <= i < 25 implies (#[trigger] nets@[i]).io@ == quty_wiring()[i] by {
            assert(nets@[i].io@ =~= quty_wiring()[i]);
        }
    }
    nets
}

fn quty_shift_register() -> (sr: IC74HC595)
    ensures
        quty_model(SLOT_SHIFT_REGISTER as int, Model::ShiftRegister(sr)),
{
    let mut sr = IC74HC595::new(String::from_str("U2"));
    let mut i: usize = 0;
    while i < 8
        invariant
            i <= 8,
            sr.name@ == "U2"@,
            forall|k: int| 0 <= k < 8 ==> sr.pins_out[k] == PinState::Open,
            forall|k: int| 0 <= k < i ==> #[trigger] sr.nets_out[k] == Wire::Net((NET_U2_Q0 + k) as usize),
            sr.pin_q7s == PinState::Open,
            sr.net_stcp == Wire::Open && sr.net_ds == Wire::Open && sr.net_shcp == Wire::Open,
            sr.net_oe_n == Wire::Open && sr.net_mr_n == Wire::Open,
            sr.reg_shift == 0 && sr.reg_latch == 0,
            sr.state_shcp == crate::hardware::ic74hc595::ClockState::Undefined,
            sr.state_stcp == crate::hardware::ic74hc595::ClockState::Undefined,
        decreases 8 - i,
    {
        sr.connect_q(i, Wire::Net(NET_U2_Q0 + i));
        i += 1;
    }
    proof {
        reveal_strlit("shcp");
        reveal_strlit("stcp");
        reveal_strlit("ds");
        reveal_strlit("mr_n");
        reveal_strlit("oe_n");
        assert("ds"@.len() == 2 && "shcp"@.len() == 4 && "stcp"@.len() == 4);
        assert("shcp"@[1] == 'h' && "stcp"@[1] == 't');
        assert("shcp"@[0] == 's' && "stcp"@[0] == 's' && "mr_n"@[0] == 'm' && "oe_n"@[0] == 'o');
        assert("stcp"@ != "shcp"@);
        assert("ds"@ != "shcp"@ && "ds"@ != "stcp"@);
        assert("mr_n"@ != "shcp"@ && "mr_n"@ != "stcp"@ && "mr_n"@ != "ds"@);
        assert("oe_n"@ != "shcp"@ && "oe_n"@ != "stcp"@ && "oe_n"@ != "ds"@ && "oe_n"@
            != "mr_n"@);
    }
    sr.connect("ds", Wire::Net(NET_PC2_SPI_MOSI));
    sr.connect("shcp", Wire::Net(NET_PC0_SPI_CLK));
    sr.connect("stcp", Wire::Net(NET_PA1_DISP_LATCH));
    sr.connect("oe_n", Wire::Tied(NetState::Low));
    sr.connect("mr_n", Wire::Tied(NetState::High));
    sr
}

fn quty_display() -> (disp: Display)
    ensures
        quty_model(SLOT_DISPLAY as int, Model::Display(disp)),
{
    let mut disp = Display::new(String::from_str("DS1"));
    let mut i: usize = 0;
    while i < 7
        invariant
            i <= 7,
            disp.name@ == "DS1"@,
            forall|k: int| 0 <= k < 7 ==> disp.pins_segs[k] == PinState::WeakPullUp,
            forall|k: int| 0 <= k < i ==> #[trigger] disp.nets_segs[k] == Wire::Net((NET_U2_Q0 + k) as usize),
            disp.pin_en == PinState::WeakPullUp,
            disp.pin_digit == PinState::WeakPullDown,
            disp.net_en == Wire::Open && disp.net_digit == Wire::Open,
            disp.enabled,
            forall|k: int| 0 <= k < 3 ==> disp.state[k] == (0u8, 0u64),
            disp.state_2d is None && disp.state_1d is None,
        decreases 7 - i,
    {
        disp.connect_seg(i, Wire::Net(NET_U2_Q0 + i));
        i += 1;
    }
    proof {
        reveal_strlit("en");
        reveal_strlit("digit");
        assert("digit"@.len() == 5 && "en"@.len() == 2);
        assert("digit"@ != "en"@);
    }
    disp.connect("en", Wire::Net(NET_PB1_DISP_EN));
    disp.connect("digit", Wire::Net(NET_U2_Q7));
    disp
}

fn quty_button(name: &str) -> (slot: Slot)
    ensures
        slot.key@ == name@,
        slot.model matches Model::Pushbutton(pb) && pb.name@ == name@ && pb.pin == PinState::Open
            && pb.state == crate::hardware::pushbutton::PushbuttonState::Released
            && !pb.active_high,
{
    Slot {
        key: String::from_str(name),
        model: Model::Pushbutton(Pushbutton::new(String::from_str(name), false)),
    }
}

fn quty_hardware() -> (hw: Vec<Slot>)
    ensures
        hw@.len() == 11,
        forall|i: int|
            0 <= i < 11 ==> (#[trigger] hw@[i]).key@ == quty_keys()[i] && quty_model(
                i,
                hw@[i].model,
            ),
{
    let mut hw: Vec<Slot> = Vec::new();
    hw.push(
        Slot {
            key: String::from_str("DS1-DP"),
            model: Model::Led(
                Led::new(String::from_str("DS1-DP"), false, Wire::Net(NET_PB5_DISP_DP)),
            ),
        },
    );
    hw.push(quty_button("S1"));
    hw.push(quty_button("S2"));
    hw.push(quty_button("S3"));
    hw.push(quty_button("S4"));
    hw.push(
        Slot {
            key: String::from_str("P1"),
            model: Model::SinkPwm(
                SinkPwm::new(
                    String::from_str("P1"),
                    String::from_str("BUZZER"),
                    Wire::Net(NET_PB0_BUZZER),
                    PinState::Open,
                ),
            ),
        },
    );
    hw.push(Slot { key: String::from_str("U2"), model: Model::ShiftRegister(quty_shift_register()) });
    hw.push(Slot { key: String::from_str("DS1"), model: Model::Display(quty_display()) });
    hw.push(
        Slot {
            key: String::from_str("R9"),
            model: Model::SinkPwm(
                SinkPwm::new(
                    String::from_str("DISP_EN"),
                    String::from_str("PWM"),
                    Wire::Net(NET_PB1_DISP_EN),
                    PinState::WeakPullUp,
                ),
            ),
        },
    );
    hw.push(
        Slot { key: String::from_str("R1"), model: Model::Pot(Pot::new(String::from_str("R1"), 500_000)) },
    );
    hw.push(
        Slot {
            key: String::from_str("U5"),
            model: Model::SinkUart(
                SinkUART::new(
                    String::from_str("U5"),
                    Wire::Net(NET_PB2_UART_TX),
                    String::from_str("./uart.txt"),
                ),
            ),
        },
    );
    hw
}

/// Attaches the pins of the ports to their nets.
fn wire_ports(mcu: &mut Device)
    requires
        old(mcu).wf(),
        crate::devices::attiny1626_reset(old(mcu).core, old(mcu).mm@, |p: int, i: int| None::<usize>),
    ensures
        final(mcu).wf(),
        final(mcu).RAMEND == old(mcu).RAMEND,
        crate::devices::attiny1626_reset(
            final(mcu).core,
            final(mcu).mm@,
            |p: int, i: int| quty_port_net(p, i),
        ),
{
    let ghost start = mcu.mm@;
    let mut pin: u8 = 0;
    while pin < 8
        invariant
            pin <= 8,
            mcu.wf(),
            mcu.core == old(mcu).core,
            mcu.RAMEND == old(mcu).RAMEND,
            start == old(mcu).mm@,
            mcu.mm@ == (DataSpaceModel { ports: mcu.mm@.ports, ..start }),
            forall|p: int| 0 <= p < 3 ==> (#[trigger] mcu.mm@.ports[p]).name == start.ports[p].name,
            forall|p: int| 0 <= p < 3 ==> (#[trigger] mcu.mm@.ports[p]).regs == start.ports[p].regs,
            forall|p: int, i: int|
                0 <= p < 3 && 0 <= i < pin ==> #[trigger] mcu.mm@.ports[p].pio[i] == (PortIO {
                    net: quty_port_net(p, i),
                    ..PortIO::new()
                }),
            forall|p: int, i: int|
                0 <= p < 3 && pin <= i < 8 ==> #[trigger] mcu.mm@.ports[p].pio[i] == PortIO::new(),
        decreases 8 - pin,
    {
        let ghost before = mcu.mm@.ports;
        if pin >= 1 {
            mcu.mm.ports[0].connect(pin, (pin - 1) as usize);
        }
        if pin <= 5 {
            mcu.mm.ports[1].connect(pin, 7 + pin as usize);
        }
        if pin <= 3 {
            mcu.mm.ports[2].connect(pin, 13 + pin as usize);
        }
        proof {
            assert forall|p: int, i: int| 0 <= p < 3 && 0 <= i < 8 implies #[trigger] mcu.mm@.ports[p].pio[i]
                == (if i == pin {
                PortIO { net: quty_port_net(p, i), ..before[p].pio[i] }
            } else {
                before[p].pio[i]
            }) by {
                assert(mcu.mm@.ports[p] == mcu.mm.ports[p]);
            }
        }
        pin += 1;
    }
}

impl QUTy {
    /// The parts of the board are well-formed.
    pub open spec fn wf(&self) -> bool {
        self.mcu.wf()
    }

    /// The board at time zero: wired, and then brought up to date. `trace`
    /// selects the net transitions that the board reports.
    pub fn new(trace: NetTrace) -> (board: QUTy)
        ensures
            board.wf(),
            exists|wired: BoardModel| #[trigger] wired.wired(trace) && board@ == wired.settled(),
    {
        let mut mcu = Device::new(DeviceType::ATtiny1626);
        wire_ports(&mut mcu);
        let nets = quty_net_list();
        let mut hw = quty_hardware();
        let mut log: Vec<Trace> = Vec::new();
        match &mut hw[SLOT_POT].model {
            Model::Pot(pot) => {
                match pot.set(0, 500_000) {
                    Some(report) => {
                        log.push(Trace::Hardware { index: SLOT_POT, report });
                    },
                    None => {},
                }
            },
            _ => {},
        }
        let mut quty = QUTy { hw, nets, mcu, time: 0, events: Vec::new(), log, trace };
        let ghost wired = quty@;
        proof {
            assert(wired.log =~= seq![
                Trace::Hardware {
                    index: SLOT_POT,
                    report: Report {
                        time: 0,
                        what: crate::hardware::Reading::Pot { millionths: 500_000 },
                    },
                },
            ]);
            assert(wired.wired(trace));
        }
        quty.settle();
        quty
    }

    /// Brings everything on the board up to date at the board's time: every
    /// net is resolved, then every hardware model looks at its nets, then the
    /// ports sample theirs.
    pub fn settle(&mut self)
        requires
            old(self).wf(),
        ensures
            final(self).wf(),
            final(self)@ == old(self)@.settled(),
    {
        self.resolve_nets();
        self.update_hardware();
        self.mcu.update(self.time, &self.nets);
    }

    /// What the pin with the given reference puts on its net.
    pub fn pin_state(&self, pin: PinRef) -> (state: PinState)
        ensures
            state == self@.pin_state_of(pin),
    {
        if pin.device < PORTS {
            if pin.pin < 8 {
                self.mcu.mm.ports[pin.device].pin(pin.pin as u8)
            } else {
                PinState::Open
            }
        } else if pin.device - PORTS < self.hw.len() {
            self.hw[pin.device - PORTS].model.pin(pin.pin)
        } else {
            PinState::Open
        }
    }

    fn gather(&self, net: usize) -> (pins: Vec<PinState>)
        requires
            net < self.nets@.len(),
        ensures
            pins@ == self@.gathered(net as int),
    {
        let mut pins: Vec<PinState> = Vec::new();
        let n = self.nets[net].pin_count();
        let mut k: usize = 0;
        while k < n
            invariant
                k <= n,
                net < self.nets@.len(),
                n == self.nets@[net as int].io@.len(),
                pins@.len() == k,
                forall|j: int| 0 <= j < k ==> pins@[j] == self@.gathered(net as int)[j],
            decreases n - k,
        {
            let pin = self.nets[net].pin(k);
            pins.push(self.pin_state(pin));
            k += 1;
        }
        proof {
            assert(pins@ =~= self@.gathered(net as int));
        }
        pins
    }

    fn find(&self, key: &str) -> (slot: Option<usize>)
        ensures
            match slot {
                Some(i) => slot_of(self.hw@, key@, self.hw@.len() as int) == Some(i as int) && i
                    < self.hw@.len(),
                None => slot_of(self.hw@, key@, self.hw@.len() as int) is None,
            },
    {
        let mut i: usize = 0;
        while i < self.hw.len()
            invariant
                i <= self.hw@.len(),
                slot_of(self.hw@, key@, i as int) is None,
            decreases self.hw@.len() - i,
        {
            if same_text(self.hw[i].key.as_str(), key) {
                proof {
                    lemma_slot_found(self.hw@, key@, i as int + 1, self.hw@.len() as int);
                }
                return Some(i);
            }
            i += 1;
        }
        None
    }

    fn deliver(&mut self, device: &str, event: &str)
        requires
            old(self).wf(),
        ensures
            final(self).wf(),
            final(self)@ == old(self)@.delivered(device@, event@),
    {
        reveal(BoardModel::delivered);
        match self.find(device) {
            Some(i) => {
                let report = self.hw[i].event(self.time, event);
                match report {
                    Some(report) => {
                        self.log.push(Trace::Hardware { index: i, report });
                    },
                    None => {},
                }
            },
            None => {},
        }
    }

    fn dispatch(&mut self)
        requires
            old(self).wf(),
        ensures
            final(self).wf(),
            final(self)@ == old(self)@.dispatched(),
    {
        while self.events.len() > 0 && self.time >= self.events[0].time
            invariant
                self.wf(),
                self@.dispatched() == old(self)@.dispatched(),
            decreases self.events@.len(),
        {
            let ghost before = self@;
            let event = self.events.remove(0);
            proof {
                reveal(BoardModel::dispatched);
                reveal(BoardModel::delivered);
                assert(self.events@ =~= before.events.skip(1));
            }
            self.deliver(event.device.as_str(), event.event.as_str());
        }
        proof {
            reveal(BoardModel::dispatched);
        }
    }

    fn resolve_nets(&mut self)
        requires
            old(self).wf(),
        ensures
            final(self).wf(),
            final(self)@ == old(self)@.nets_resolved(),
    {
        reveal(BoardModel::nets_resolved);
        let ghost start = self@;
        let n = self.nets.len();
        let mut i: usize = 0;
        while i < n
            invariant
                i <= n,
                n == start.nets.len(),
                self.wf(),
                self@ == (BoardModel { nets: self.nets@, log: self.log@, ..start }),
                self.nets@.len() == n,
                forall|j: int|
                    0 <= j < i ==> #[trigger] self.nets@[j] == (Net {
                        state: start.level(j),
                        ..start.nets[j]
                    }),
                forall|j: int| i <= j < n ==> #[trigger] self.nets@[j] == start.nets[j],
                self.log@ == start.log + start.net_log(i as int),
            decreases n - i,
        {
            let pins = self.gather(i);
            proof {
                assert(self@.gathered(i as int) =~= start.gathered(i as int));
            }
            let log = self.nets[i].update(self.time, &pins, self.trace);
            match log {
                Some(transition) => {
                    self.log.push(Trace::Net { index: i, transition });
                },
                None => {},
            }
            proof {
                assert(self.log@ =~= start.log + start.net_log(i as int + 1));
            }
            i += 1;
        }
        proof {
            assert(self.nets@ =~= start.nets_resolved().nets);
        }
    }

    fn update_hardware(&mut self)
        requires
            old(self).wf(),
        ensures
            final(self).wf(),
            final(self)@ == old(self)@.hardware_updated(),
    {
        reveal(BoardModel::hardware_updated);
        let ghost start = self@;
        let n = self.hw.len();
        let mut i: usize = 0;
        while i < n
            invariant
                i <= n,
                n == start.hw.len(),
                self.wf(),
                self@ == (BoardModel { hw: self.hw@, log: self.log@, ..start }),
                self.hw@.len() == n,
                forall|j: int|
                    0 <= j < i ==> #[trigger] self.hw@[j] == (Slot {
                        model: start.hw[j].model.updated(start.time, start.nets).0,
                        ..start.hw[j]
                    }),
                forall|j: int| i <= j < n ==> #[trigger] self.hw@[j] == start.hw[j],
                self.log@ == start.log + start.hardware_log(i as int),
            decreases n - i,
        {
            let report = self.hw[i].update(self.time, &self.nets);
            match report {
                Some(report) => {
                    self.log.push(Trace::Hardware { index: i, report });
                },
                None => {},
            }
            proof {
                assert(self.log@ =~= start.log + start.hardware_log(i as int + 1));
            }
            i += 1;
        }
        proof {
            assert(self.hw@ =~= start.hardware_updated().hw);
        }
    }

    fn flush_pending(&self) -> (waits: bool)
        ensures
            waits == flush_waits(self.events@, self.events@.len() as int),
    {
        let mut i: usize = 0;
        while i < self.events.len()
            invariant
                i <= self.events@.len(),
                !flush_waits(self.events@, i as int),
            decreases self.events@.len() - i,
        {
            if same_text(self.events[i].device.as_str(), "U5") && same_text(
                self.events[i].event.as_str(),
                "flush",
            ) {
                proof {
                    lemma_flush_found(self.events@, i as int + 1, self.events@.len() as int);
                }
                return true;
            }
            i += 1;
        }
        false
    }

    /// Advances the board by one step and returns the nanoseconds that the
    /// step took: zero exactly when the core has stopped.
    pub fn step(&mut self) -> (timestep: u64)
        requires
            old(self).wf(),
        ensures
            final(self).wf(),
            (final(self)@, timestep) == old(self)@.step(),
            timestep == 0 <==> old(self)@.stops(),
    {
        let ghost start = self@;
        self.dispatch();
        assert(self@ == start.dispatched());
        let timestep = self.mcu.tick(self.time);
        assert(self@ == start.dispatched().ticked().0);
        assert(timestep == start.dispatched().ticked().1);
        let ghost ticked = self@;
        self.settle();
        assert(self@ == ticked.settled());
        self.time = self.time.saturating_add(timestep);
        if timestep == 0 && self.flush_pending() {
            self.deliver("U5", "flush");
        }
        timestep
    }

    /// Switches the per-instruction trace of the core on.
    pub fn core_debug(&mut self)
        ensures
            final(self)@ == (BoardModel {
                core: Core { debug: true, ..old(self)@.core },
                ..old(self)@
            }),
    {
        self.mcu.core.debug(true);
    }

    /// The values of the thirty-two working registers.
    pub fn core_dumpregs(&self) -> (regs: Vec<u8>)
        ensures
            regs@.len() == 32,
            forall|i: int| 0 <= i < 32 ==> regs@[i] == self.mcu.core.regs[i],
    {
        self.mcu.dump_regs()
    }

    /// The bytes on the stack, from the address above the stack pointer up
    /// to the end of the SRAM.
    pub fn mcu_dumpstack(&mut self) -> (bytes: Vec<u8>)
        requires
            old(self).wf(),
        ensures
            final(self).wf(),
            (bytes@, final(self)@.mm) == crate::devices::stack_read(
                old(self)@.mm,
                old(self)@.core.sp,
                if old(self)@.core.sp < old(self)@.ramend {
                    old(self)@.ramend - old(self)@.core.sp
                } else {
                    0
                },
            ),
            final(self)@ == (BoardModel { mm: final(self)@.mm, ..old(self)@ }),
    {
        self.mcu.dump_stack()
    }

    /// Loads a firmware image, given as the text of an Intel HEX file, into
    /// the program memory of the microcontroller.
    pub fn mcu_programme(&mut self, text: &str) -> (r: Result<(), HexError>)
        requires
            old(self).wf(),
        ensures
            final(self).wf(),
            final(self)@ == (BoardModel {
                mm: DataSpaceModel {
                    flash: crate::devices::loaded(
                        old(self)@.mm.flash,
                        crate::hex::hex_records(text@),
                        crate::hex::hex_records(text@).len() as int,
                    ),
                    ..old(self)@.mm
                },
                ..old(self)@
            }),
            match crate::hex::programmed(
                old(self)@.mm.flash.bytes,
                crate::hex::hex_records(text@),
                crate::hex::hex_records(text@).len() as int,
            ).1 {
                Some(error) => r == Err::<(), HexError>(error),
                None => r == Ok::<(), HexError>(()),
            },
    {
        self.mcu.load_hex(text)
    }

    /// The bytes that the firmware has written to the standard output.
    pub fn mcu_write_stdout(&self) -> (bytes: &Vec<u8>)
        ensures
            bytes@ == self@.mm.stdio.out,
    {
        self.mcu.mm.stdio.output()
    }

    /// Replaces the list of events to come.
    pub fn events(&mut self, events: Vec<Event>)
        ensures
            final(self)@ == (BoardModel { events: events@, ..old(self)@ }),
    {
        self.events = events;
    }

    /// Hands out what has been reported since the log was last taken.
    pub fn take_log(&mut self) -> (log: Vec<Trace>)
        ensures
            log@ == old(self)@.log,
            final(self)@ == (BoardModel { log: Seq::empty(), ..old(self)@ }),
    {
        let mut log: Vec<Trace> = Vec::new();
        let mut i: usize = 0;
        while i < self.log.len()
            invariant
                i <= self.log@.len(),
                *self == *old(self),
                log@ == self.log@.take(i as int),
            decreases self.log@.len() - i,
        {
            log.push(self.log[i]);
            proof {
                assert(log@ =~= self.log@.take(i + 1));
            }
            i += 1;
        }
        proof {
            assert(log@ =~= self.log@);
        }
        self.log = Vec::new();
        log
    }
}

/// A slot that has been found stays the one that is found when more slots
/// are looked at.
pub proof fn lemma_slot_found(hw: Seq<Slot>, key: Seq<char>, n: int, m: int)
    requires
        0 <= n <= m,
        slot_of(hw, key, n) is Some,
    ensures
        slot_of(hw, key, m) == slot_of(hw, key, n),
    decreases m - n,
{
    if n < m {
        lemma_slot_found(hw, key, n, m - 1);
    }
}

/// A flush that has been found stays found when more events are looked at.
pub proof fn lemma_flush_found(events: Seq<Event>, n: int, m: int)
    requires
        0 <= n <= m,
        flush_waits(events, n),
    ensures
        flush_waits(events, m),
    decreases m - n,
{
    if n < m {
        lemma_flush_found(events, n, m - 1);
    }
}

} // verus!
