//! A pushbutton.

use crate::hardware::{Hardware, Reading, Report};
use crate::nets::{Net, PinState};
use crate::text::same_text;
use vstd::prelude::*;

verus! {

/// Whether a button is held down.
#[derive(Clone, Copy, Debug, PartialEq, Eq, Structural)]
pub enum PushbuttonState {
    Released,
    Pressed,
}

/// A pushbutton between a net and a supply rail.
pub struct Pushbutton {
    pub name: String,
    pub pin: PinState,
    pub state: PushbuttonState,
    /// The button connects its net to the high rail.
    pub active_high: bool,
}

impl Pushbutton {
    /// A released button.
    pub fn new(name: String, active_high: bool) -> (pb: Pushbutton)
        ensures
            pb == (Pushbutton {
                name,
                pin: PinState::Open,
                state: PushbuttonState::Released,
                active_high,
            }),
    {
        Pushbutton { name, pin: PinState::Open, state: PushbuttonState::Released, active_high }
    }

    /// The button after it has been pressed at `time`, and the report of the
    /// press: the pin drives towards the button's rail; a button that was
    /// released before reports the press, except at time zero.
    pub open spec fn pressed(self, time: u64) -> (Pushbutton, Option<Report>) {
        (
            Pushbutton {
                state: PushbuttonState::Pressed,
                pin: if self.active_high {
                    PinState::DriveH
                } else {
                    PinState::DriveL
                },
                ..self
            },
            if self.state != PushbuttonState::Pressed && time > 0 {
                Some(Report { time, what: Reading::Pushbutton(PushbuttonState::Pressed) })
            } else {
                None
            },
        )
    }

    /// The button after it has been released at `time`, and the report of
    /// the release: the pin is open again.
    pub open spec fn released(self, time: u64) -> (Pushbutton, Option<Report>) {
        (
            Pushbutton { state: PushbuttonState::Released, pin: PinState::Open, ..self },
            if self.state != PushbuttonState::Released && time > 0 {
                Some(Report { time, what: Reading::Pushbutton(PushbuttonState::Released) })
            } else {
                None
            },
        )
    }

    /// Presses the button.
    pub fn press(&mut self, time: u64) -> (report: Option<Report>)
        ensures
            (*final(self), report) == old(self).pressed(time),
    {
        let report = if self.state != PushbuttonState::Pressed && time > 0 {
            Some(Report { time, what: Reading::Pushbutton(PushbuttonState::Pressed) })
        } else {
            None
        };
        self.state = PushbuttonState::Pressed;
        if self.active_high {
            self.pin = PinState::DriveH;
        } else {
            self.pin = PinState::DriveL;
        }
        report
    }

    /// Releases the button.
    pub fn release(&mut self, time: u64) -> (report: Option<Report>)
        ensures
            (*final(self), report) == old(self).released(time),
    {
        let report = if self.state != PushbuttonState::Released && time > 0 {
            Some(Report { time, what: Reading::Pushbutton(PushbuttonState::Released) })
        } else {
            None
        };
        self.state = PushbuttonState::Released;
        self.pin = PinState::Open;
        report
    }
}

impl Hardware for Pushbutton {
    /// A button does not look at its net.
    open spec fn updated(&self, time: u64, nets: Seq<Net>) -> (Pushbutton, Option<Report>) {
        (*self, None)
    }

    /// The event `PRESS` presses the button and `RELEASE` releases it; any
    /// other event is ignored.
    open spec fn notified(&self, time: u64, event: Seq<char>) -> (Pushbutton, Option<Report>) {
        if event == "PRESS"@ {
            self.pressed(time)
        } else if event == "RELEASE"@ {
            self.released(time)
        } else {
            (*self, None)
        }
    }

    open spec fn pin_state(&self, pin: int) -> PinState {
        if pin == 0 {
            self.pin
        } else {
            PinState::Open
        }
    }

    fn update(&mut self, _time: u64, _nets: &Vec<Net>) -> (report: Option<Report>) {
        None
    }

    fn event(&mut self, time: u64, event: &str) -> (report: Option<Report>) {
        if same_text(event, "PRESS") {
            self.press(time)
        } else if same_text(event, "RELEASE") {
            self.release(time)
        } else {
            None
        }
    }

    fn pin(&self, pin: usize) -> (state: PinState) {
        if pin == 0 {
            self.pin
        } else {
            PinState::Open
        }
    }
}

} // verus!
