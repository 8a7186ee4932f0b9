//! A light-emitting diode.

use crate::hardware::{sense, sensed, Hardware, Reading, Report, Wire};
use crate::nets::{Net, NetState, PinState};
use vstd::prelude::*;

verus! {

/// Whether a diode is lit.
#[derive(Clone, Copy, Debug, PartialEq, Eq, Structural)]
pub enum LedState {
    On,
    Off,
    Undefined,
}

/// A light-emitting diode between a net and a supply rail.
pub struct Led {
    pub name: String,
    /// The weak pull of the diode towards its rail.
    pub pin: PinState,
    pub net: Wire,
    pub state: LedState,
    /// The diode lights when its net is high.
    pub active_high: bool,
}

/// Whether a diode is lit at a level of its net: it is on at its active
/// level, off at the opposite one, and undefined at any other.
#[verifier::allow_in_spec]
pub fn lit(level: NetState, active_high: bool) -> LedState
    returns
        (match level {
            NetState::High => if active_high {
                LedState::On
            } else {
                LedState::Off
            },
            NetState::Low => if active_high {
                LedState::Off
            } else {
                LedState::On
            },
            _ => LedState::Undefined,
        }),
{
    match level {
        NetState::High => if active_high {
            LedState::On
        } else {
            LedState::Off
        },
        NetState::Low => if active_high {
            LedState::Off
        } else {
            LedState::On
        },
        _ => LedState::Undefined,
    }
}

impl Led {
    /// A diode whose state is not yet known. A diode that lights at a high
    /// level pulls its net down weakly, the other kind pulls it up.
    pub fn new(name: String, active_high: bool, net: Wire) -> (led: Led)
        ensures
            led == (Led {
                name,
                pin: if active_high {
                    PinState::WeakPullDown
                } else {
                    PinState::WeakPullUp
                },
                net,
                state: LedState::Undefined,
                active_high,
            }),
    {
        Led {
            name,
            pin: if active_high {
                PinState::WeakPullDown
            } else {
                PinState::WeakPullUp
            },
            net,
            state: LedState::Undefined,
            active_high,
        }
    }
}

impl Hardware for Led {
    /// A change of the diode's state is reported.
    open spec fn updated(&self, time: u64, nets: Seq<Net>) -> (Led, Option<Report>) {
        let state = lit(sensed(self.net, nets), self.active_high);
        if state != self.state {
            (Led { state, ..*self }, Some(Report { time, what: Reading::Led(state) }))
        } else {
            (*self, None)
        }
    }

    /// A diode takes no events.
    open spec fn notified(&self, time: u64, event: Seq<char>) -> (Led, Option<Report>) {
        (*self, None)
    }

    open spec fn pin_state(&self, pin: int) -> PinState {
        if pin == 0 {
            self.pin
        } else {
            PinState::Open
        }
    }

    fn update(&mut self, time: u64, nets: &Vec<Net>) -> (report: Option<Report>) {
        let new_state = lit(sense(self.net, nets), self.active_high);
        if self.state != new_state {
            self.state = new_state;
            Some(Report { time, what: Reading::Led(new_state) })
        } else {
            None
        }
    }

    fn event(&mut self, _time: u64, _event: &str) -> (report: Option<Report>) {
        None
    }

    fn pin(&self, pin: usize) -> (state: PinState) {
        if pin == 0 {
            self.pin
        } else {
            PinState::Open
        }
    }
}

/// A diode reports exactly the changes of its state: an update that changes
/// the state gives one report, of the new state at the time of the update,
/// and an update that does not change it gives none. After an update the
/// state is the one that the net shows, so a second update from the same
/// nets reports nothing.
pub proof fn law_one_report_per_change(led: Led, time: u64, later: u64, nets: Seq<Net>)
    ensures
        ({
            let (next, report) = led.updated(time, nets);
            &&& next.state == lit(sensed(led.net, nets), led.active_high)
            &&& (report is Some <==> next.state != led.state)
            &&& (report is Some ==> report == Some(
                Report { time, what: Reading::Led(next.state) },
            ))
            &&& next.updated(later, nets) == (next, None::<Report>)
        }),
{
}

} // verus!
