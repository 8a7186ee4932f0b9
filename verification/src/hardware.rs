//! The off-chip hardware on the board, and what its models have in common.
//!
//! A model reads the levels of the nets it is wired to, keeps the states of
//! the pins it drives, and reports what an observer of the hardware would
//! see.

pub mod display;
pub mod ic74hc595;
pub mod led;
pub mod pot;
pub mod pushbutton;
pub mod sinkpwm;
pub mod sinkuart;

use crate::hardware::display::{Display, DisplayReading};
use crate::hardware::ic74hc595::IC74HC595;
use crate::hardware::led::{Led, LedState};
use crate::hardware::pot::Pot;
use crate::hardware::pushbutton::{Pushbutton, PushbuttonState};
use crate::hardware::sinkpwm::{PwmReading, SinkPwm};
use crate::hardware::sinkuart::SinkUART;
use crate::nets::{Net, NetState, PinState};
use vstd::prelude::*;

verus! {

/// What an input of a hardware model is wired to.
#[derive(Clone, Copy, Debug, PartialEq, Eq, Structural)]
pub enum Wire {
    /// Nothing.
    Open,
    /// The net with the given handle.
    Net(usize),
    /// A supply rail at a fixed level.
    Tied(NetState),
}

/// The level that an input sees: that of its net, the fixed level of its
/// rail, or undefined where it is wired to nothing or to a net that does not
/// exist.
pub open spec fn sensed(wire: Wire, nets: Seq<Net>) -> NetState {
    match wire {
        Wire::Open => NetState::Undefined,
        Wire::Net(handle) => if handle < nets.len() {
            nets[handle as int].state
        } else {
            NetState::Undefined
        },
        Wire::Tied(level) => level,
    }
}

/// The level that an input sees.
pub fn sense(wire: Wire, nets: &Vec<Net>) -> (level: NetState)
    ensures
        level == sensed(wire, nets@),
{
    match wire {
        Wire::Open => NetState::Undefined,
        Wire::Net(handle) => if handle < nets.len() {
            nets[handle].state
        } else {
            NetState::Undefined
        },
        Wire::Tied(level) => level,
    }
}

/// What an observer of a piece of hardware sees.
#[derive(Clone, Copy, Debug, PartialEq, Eq, Structural)]
pub enum Reading {
    Led(LedState),
    Pushbutton(PushbuttonState),
    /// The position of a potentiometer in millionths of its travel.
    Pot { millionths: u32 },
    Display(DisplayReading),
    Pwm(PwmReading),
    /// A byte that the UART sink has begun to send.
    UartTx(u8),
    /// A byte that the UART sink has received.
    UartRx(u8),
    /// The bytes received so far are to be written out.
    UartFlush,
}

/// A reading with the time in nanoseconds that it belongs to.
#[derive(Clone, Copy, Debug, PartialEq, Eq, Structural)]
pub struct Report {
    pub time: u64,
    pub what: Reading,
}

/// A model of a piece of hardware.
pub trait Hardware: Sized {
    /// The model after it has looked at its nets at `time`, and what it
    /// reports.
    spec fn updated(&self, time: u64, nets: Seq<Net>) -> (Self, Option<Report>);

    /// The model after it has been sent an event at `time`, and what it
    /// reports.
    spec fn notified(&self, time: u64, event: Seq<char>) -> (Self, Option<Report>);

    /// What the model puts on the net of one of its pins; `Open` for pins it
    /// does not have.
    spec fn pin_state(&self, pin: int) -> PinState;

    fn update(&mut self, time: u64, nets: &Vec<Net>) -> (report: Option<Report>)
        ensures
            (*final(self), report) == old(self).updated(time, nets@),
    ;

    fn event(&mut self, time: u64, event: &str) -> (report: Option<Report>)
        ensures
            (*final(self), report) == old(self).notified(time, event@),
    ;

    fn pin(&self, pin: usize) -> (state: PinState)
        ensures
            state == self.pin_state(pin as int),
    ;
}

/// Any of the hardware models.
pub enum Model {
    Led(Led),
    Pushbutton(Pushbutton),
    Pot(Pot),
    ShiftRegister(IC74HC595),
    Display(Display),
    SinkPwm(SinkPwm),
    SinkUart(SinkUART),
}

impl Hardware for Model {
    open spec fn updated(&self, time: u64, nets: Seq<Net>) -> (Model, Option<Report>) {
        match *self {
            Model::Led(m) => (Model::Led(m.updated(time, nets).0), m.updated(time, nets).1),
            Model::Pushbutton(m) => (
                Model::Pushbutton(m.updated(time, nets).0),
                m.updated(time, nets).1,
            ),
            Model::Pot(m) => (Model::Pot(m.updated(time, nets).0), m.updated(time, nets).1),
            Model::ShiftRegister(m) => (
                Model::ShiftRegister(m.updated(time, nets).0),
                m.updated(time, nets).1,
            ),
            Model::Display(m) => (Model::Display(m.updated(time, nets).0), m.updated(time, nets).1),
            Model::SinkPwm(m) => (Model::SinkPwm(m.updated(time, nets).0), m.updated(time, nets).1),
            Model::SinkUart(m) => (
                Model::SinkUart(m.updated(time, nets).0),
                m.updated(time, nets).1,
            ),
        }
    }

    open spec fn notified(&self, time: u64, event: Seq<char>) -> (Model, Option<Report>) {
        match *self {
            Model::Led(m) => (Model::Led(m.notified(time, event).0), m.notified(time, event).1),
            Model::Pushbutton(m) => (
                Model::Pushbutton(m.notified(time, event).0),
                m.notified(time, event).1,
            ),
            Model::Pot(m) => (Model::Pot(m.notified(time, event).0), m.notified(time, event).1),
            Model::ShiftRegister(m) => (
                Model::ShiftRegister(m.notified(time, event).0),
                m.notified(time, event).1,
            ),
            Model::Display(m) => (
                Model::Display(m.notified(time, event).0),
                m.notified(time, event).1,
            ),
            Model::SinkPwm(m) => (
                Model::SinkPwm(m.notified(time, event).0),
                m.notified(time, event).1,
            ),
            Model::SinkUart(m) => (
                Model::SinkUart(m.notified(time, event).0),
                m.notified(time, event).1,
            ),
        }
    }

    open spec fn pin_state(&self, pin: int) -> PinState {
        match *self {
            Model::Led(m) => m.pin_state(pin),
            Model::Pushbutton(m) => m.pin_state(pin),
            Model::Pot(m) => m.pin_state(pin),
            Model::ShiftRegister(m) => m.pin_state(pin),
            Model::Display(m) => m.pin_state(pin),
            Model::SinkPwm(m) => m.pin_state(pin),
            Model::SinkUart(m) => m.pin_state(pin),
        }
    }

    fn update(&mut self, time: u64, nets: &Vec<Net>) -> (report: Option<Report>) {
        match self {
            Model::Led(m) => m.update(time, nets),
            Model::Pushbutton(m) => m.update(time, nets),
            Model::Pot(m) => m.update(time, nets),
            Model::ShiftRegister(m) => m.update(time, nets),
            Model::Display(m) => m.update(time, nets),
            Model::SinkPwm(m) => m.update(time, nets),
            Model::SinkUart(m) => m.update(time, nets),
        }
    }

    fn event(&mut self, time: u64, event: &str) -> (report: Option<Report>) {
        match self {
            Model::Led(m) => m.event(time, event),
            Model::Pushbutton(m) => m.event(time, event),
            Model::Pot(m) => m.event(time, event),
            Model::ShiftRegister(m) => m.event(time, event),
            Model::Display(m) => m.event(time, event),
            Model::SinkPwm(m) => m.event(time, event),
            Model::SinkUart(m) => m.event(time, event),
        }
    }

    fn pin(&self, pin: usize) -> (state: PinState) {
        match self {
            Model::Led(m) => m.pin(pin),
            Model::Pushbutton(m) => m.pin(pin),
            Model::Pot(m) => m.pin(pin),
            Model::ShiftRegister(m) => m.pin(pin),
            Model::Display(m) => m.pin(pin),
            Model::SinkPwm(m) => m.pin(pin),
            Model::SinkUart(m) => m.pin(pin),
        }
    }
}

} // verus!
