//! A potentiometer across the 3.3 V supply. Positions are in millionths of
//! the travel, voltages in microvolts.

use crate::hardware::{Hardware, Reading, Report};
use crate::nets::{Net, PinState};
use crate::text::{parse_millionths, parsed_millionths};
use vstd::prelude::*;

verus! {

/// The supply voltage in microvolts.
pub const SUPPLY_MICROVOLTS: u32 = 3_300_000;

/// The end of the travel in millionths.
pub const FULL_TRAVEL: u32 = 1_000_000;

/// The voltage at the wiper in microvolts for a position in millionths: 3.3
/// times the position, rounded to the nearest microvolt; positions beyond
/// the end of the travel count as the end.
#[verifier::allow_in_spec]
pub fn wiper_microvolts(millionths: u32) -> u32
    returns
        (if millionths >= FULL_TRAVEL {
            SUPPLY_MICROVOLTS
        } else {
            ((33 * millionths + 5) / 10) as u32
        }),
{
    if millionths >= FULL_TRAVEL {
        SUPPLY_MICROVOLTS
    } else {
        (33 * millionths + 5) / 10
    }
}

/// A potentiometer whose wiper drives a net.
pub struct Pot {
    pub name: String,
    pub pin: PinState,
}

impl Pot {
    /// A potentiometer at the given position.
    pub fn new(name: String, position: u32) -> (pot: Pot)
        ensures
            pot == (Pot { name, pin: PinState::DriveAnalog(wiper_microvolts(position)) }),
    {
        Pot { name, pin: PinState::DriveAnalog(wiper_microvolts(position)) }
    }

    /// The potentiometer after its wiper has been moved, and the report of
    /// the new position.
    pub open spec fn moved(self, time: u64, position: u32) -> (Pot, Option<Report>) {
        (
            Pot { pin: PinState::DriveAnalog(wiper_microvolts(position)), ..self },
            Some(
                Report {
                    time,
                    what: Reading::Pot {
                        millionths: if position >= FULL_TRAVEL {
                            FULL_TRAVEL
                        } else {
                            position
                        },
                    },
                },
            ),
        )
    }

    /// Moves the wiper to a position in millionths of the travel.
    pub fn set(&mut self, time: u64, position: u32) -> (report: Option<Report>)
        ensures
            (*final(self), report) == old(self).moved(time, position),
    {
        self.pin = PinState::DriveAnalog(wiper_microvolts(position));
        Some(
            Report {
                time,
                what: Reading::Pot {
                    millionths: if position >= FULL_TRAVEL {
                        FULL_TRAVEL
                    } else {
                        position
                    },
                },
            },
        )
    }
}

impl Hardware for Pot {
    /// A potentiometer does not look at its net.
    open spec fn updated(&self, time: u64, nets: Seq<Net>) -> (Pot, Option<Report>) {
        (*self, None)
    }

    /// An event carries the new position as a decimal fraction of the
    /// travel; an event that is no such fraction is ignored.
    open spec fn notified(&self, time: u64, event: Seq<char>) -> (Pot, Option<Report>) {
        match parsed_millionths(event) {
            Some(position) => self.moved(time, position),
            None => (*self, None),
        }
    }

    open spec fn pin_state(&self, pin: int) -> PinState {
        if pin == 0 {
            self.pin
        } else {
            PinState::Open
        }
    }

    fn update(&mut self, _time: u64, _nets: &Vec<Net>) -> (report: Option<Report>) {
        None
    }

    fn event(&mut self, time: u64, event: &str) -> (report: Option<Report>) {
        match parse_millionths(event) {
            Some(position) => self.set(time, position),
            None => None,
        }
    }

    fn pin(&self, pin: usize) -> (state: PinState) {
        if pin == 0 {
            self.pin
        } else {
            PinState::Open
        }
    }
}

} // verus!
