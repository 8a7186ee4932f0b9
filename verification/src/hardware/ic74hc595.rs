//! The 74HC595 shift register with output latch.

use crate::bits::{bit8, test_bit8};
use crate::hardware::{sense, sensed, Hardware, Report, Wire};
use crate::nets::{Net, NetState, PinState};
use crate::text::same_text;
use vstd::array::spec_array_update;
use vstd::prelude::*;

verus! {

/// The level last seen on a clock input.
#[derive(Clone, Copy, Debug, PartialEq, Eq, Structural)]
pub enum ClockState {
    High,
    Low,
    Undefined,
}

/// The clock level that a net level stands for.
#[verifier::allow_in_spec]
pub fn clock_level(level: NetState) -> ClockState
    returns
        (match level {
            NetState::High => ClockState::High,
            NetState::Low => ClockState::Low,
            _ => ClockState::Undefined,
        }),
{
    match level {
        NetState::High => ClockState::High,
        NetState::Low => ClockState::Low,
        _ => ClockState::Undefined,
    }
}

/// The position of the serial output Q7S among the pins, behind the eight
/// parallel outputs.
pub const PIN_Q7S: usize = 8;

/// The 74HC595.
#[allow(dead_code)]
pub struct IC74HC595 {
    pub name: String,
    pub pins_out: [PinState; 8],
    pub pin_q7s: PinState,
    pub nets_out: [Wire; 8],
    pub net_stcp: Wire,
    pub net_ds: Wire,
    pub net_shcp: Wire,
    pub net_oe_n: Wire,
    pub net_mr_n: Wire,
    pub reg_shift: u8,
    pub reg_latch: u8,
    pub state_shcp: ClockState,
    pub state_stcp: ClockState,
}

/// The parallel outputs with the first `n` set from the latch: an enabled
/// output drives high for a one and low for a zero, a disabled one is open.
pub open spec fn outputs_set(pins: [PinState; 8], latch: u8, enabled: bool, n: int) -> [PinState; 8]
    decreases n,
{
    if n <= 0 {
        pins
    } else {
        spec_array_update(
            outputs_set(pins, latch, enabled, n - 1),
            n - 1,
            if !enabled {
                PinState::Open
            } else if bit8(latch, (n - 1) as u8) {
                PinState::DriveH
            } else {
                PinState::DriveL
            },
        )
    }
}

impl IC74HC595 {
    /// A shift register with nothing wired, both registers cleared and all
    /// outputs open.
    pub fn new(name: String) -> (sr: IC74HC595)
        ensures
            sr.name == name,
            forall|i: int| 0 <= i < 8 ==> sr.pins_out[i] == PinState::Open,
            forall|i: int| 0 <= i < 8 ==> sr.nets_out[i] == Wire::Open,
            sr.pin_q7s == PinState::Open,
            sr.net_stcp == Wire::Open && sr.net_ds == Wire::Open && sr.net_shcp == Wire::Open,
            sr.net_oe_n == Wire::Open && sr.net_mr_n == Wire::Open,
            sr.reg_shift == 0 && sr.reg_latch == 0,
            sr.state_shcp == ClockState::Undefined && sr.state_stcp == ClockState::Undefined,
    {
        IC74HC595 {
            name,
            pins_out: [PinState::Open; 8],
            pin_q7s: PinState::Open,
            nets_out: [Wire::Open; 8],
            net_stcp: Wire::Open,
            net_ds: Wire::Open,
            net_shcp: Wire::Open,
            net_oe_n: Wire::Open,
            net_mr_n: Wire::Open,
            reg_shift: 0,
            reg_latch: 0,
            state_shcp: ClockState::Undefined,
            state_stcp: ClockState::Undefined,
        }
    }

    /// Wires the parallel output `n`.
    pub fn connect_q(&mut self, n: usize, net: Wire)
        requires
            n < 8,
        ensures
            *final(self) == (IC74HC595 {
                nets_out: spec_array_update(old(self).nets_out, n as int, net),
                ..*old(self)
            }),
    {
        self.nets_out[n] = net;
    }

    /// The shift register after one of its inputs has been wired.
    pub open spec fn connected(self, pin_name: Seq<char>, net: Wire) -> IC74HC595 {
        if pin_name == "shcp"@ {
            IC74HC595 { net_shcp: net, ..self }
        } else if pin_name == "stcp"@ {
            IC74HC595 { net_stcp: net, ..self }
        } else if pin_name == "ds"@ {
            IC74HC595 { net_ds: net, ..self }
        } else if pin_name == "mr_n"@ {
            IC74HC595 { net_mr_n: net, ..self }
        } else if pin_name == "oe_n"@ {
            IC74HC595 { net_oe_n: net, ..self }
        } else {
            self
        }
    }

    /// Wires one of the inputs `shcp`, `stcp`, `ds`, `mr_n` and `oe_n`; any
    /// other name is ignored.
    pub fn connect(&mut self, pin_name: &str, net: Wire)
        ensures
            *final(self) == old(self).connected(pin_name@, net),
    {
        if same_text(pin_name, "shcp") {
            self.net_shcp = net;
        } else if same_text(pin_name, "stcp") {
            self.net_stcp = net;
        } else if same_text(pin_name, "ds") {
            self.net_ds = net;
        } else if same_text(pin_name, "mr_n") {
            self.net_mr_n = net;
        } else if same_text(pin_name, "oe_n") {
            self.net_oe_n = net;
        }
    }

    /// The shift register after its two registers have reacted to the
    /// inputs. With the master reset low the shift register is cleared, and
    /// so is the latch on a rising store clock. Otherwise a rising store
    /// clock copies the shift register to the latch, and a rising shift
    /// clock moves the shift register up by one bit, takes the serial input
    /// in at the bottom and puts the old bit 6 on the serial output; when
    /// both clocks rise together the latch takes the value from before the
    /// shift.
    pub open spec fn clocked(self, shcp: ClockState, stcp: ClockState, nets: Seq<Net>) -> IC74HC595 {
        let store = stcp == ClockState::High && self.state_stcp == ClockState::Low;
        let shift = shcp == ClockState::High && self.state_shcp == ClockState::Low;
        if sensed(self.net_mr_n, nets) == NetState::Low {
            IC74HC595 {
                pin_q7s: PinState::DriveL,
                reg_shift: 0,
                reg_latch: if store {
                    0
                } else {
                    self.reg_latch
                },
                ..self
            }
        } else {
            IC74HC595 {
                reg_latch: if store {
                    self.reg_shift
                } else {
                    self.reg_latch
                },
                pin_q7s: if !shift {
                    self.pin_q7s
                } else if bit8(self.reg_shift, 6) {
                    PinState::DriveH
                } else {
                    PinState::DriveL
                },
                reg_shift: if !shift {
                    self.reg_shift
                } else if sensed(self.net_ds, nets) == NetState::High {
                    (self.reg_shift << 1u8) | 1
                } else {
                    self.reg_shift << 1u8
                },
                ..self
            }
        }
    }
}

impl Hardware for IC74HC595 {
    /// The registers react to the inputs, the parallel outputs follow the
    /// latch while the output enable is low and are open otherwise, and the
    /// clock levels are remembered. Nothing is reported.
    open spec fn updated(&self, time: u64, nets: Seq<Net>) -> (IC74HC595, Option<Report>) {
        let shcp = clock_level(sensed(self.net_shcp, nets));
        let stcp = clock_level(sensed(self.net_stcp, nets));
        let clocked = self.clocked(shcp, stcp, nets);
        (
            IC74HC595 {
                pins_out: outputs_set(
                    clocked.pins_out,
                    clocked.reg_latch,
                    sensed(self.net_oe_n, nets) == NetState::Low,
                    8,
                ),
                state_shcp: shcp,
                state_stcp: stcp,
                ..clocked
            },
            None,
        )
    }

    /// A shift register takes no events.
    open spec fn notified(&self, time: u64, event: Seq<char>) -> (IC74HC595, Option<Report>) {
        (*self, None)
    }

    open spec fn pin_state(&self, pin: int) -> PinState {
        if 0 <= pin < 8 {
            self.pins_out[pin]
        } else if pin == PIN_Q7S {
            self.pin_q7s
        } else {
            PinState::Open
        }
    }

    fn update(&mut self, _time: u64, nets: &Vec<Net>) -> (report: Option<Report>) {
        let state_shcp_new = clock_level(sense(self.net_shcp, nets));
        let state_stcp_new = clock_level(sense(self.net_stcp, nets));
        let store = state_stcp_new == ClockState::High && self.state_stcp == ClockState::Low;
        let shift = state_shcp_new == ClockState::High && self.state_shcp == ClockState::Low;
        if sense(self.net_mr_n, nets) == NetState::Low {
            self.pin_q7s = PinState::DriveL;
            self.reg_shift = 0;
            if store {
                self.reg_latch = 0;
            }
        } else {
            if store {
                self.reg_latch = self.reg_shift;
            }
            if shift {
                self.pin_q7s = if test_bit8(self.reg_shift, 6) {
                    PinState::DriveH
                } else {
                    PinState::DriveL
                };
                self.reg_shift = self.reg_shift << 1u8;
                if sense(self.net_ds, nets) == NetState::High {
                    self.reg_shift = self.reg_shift | 1;
                }
            }
        }
        let enabled = sense(self.net_oe_n, nets) == NetState::Low;
        let ghost before = self.pins_out;
        let mut i: usize = 0;
        while i < 8
            invariant
                i <= 8,
                before == old(self).pins_out,
                self.pins_out == outputs_set(before, self.reg_latch, enabled, i as int),
                self.name == old(self).name,
                self.pin_q7s == old(self).clocked(state_shcp_new, state_stcp_new, nets@).pin_q7s,
                self.reg_shift == old(self).clocked(state_shcp_new, state_stcp_new, nets@).reg_shift,
                self.reg_latch == old(self).clocked(state_shcp_new, state_stcp_new, nets@).reg_latch,
                self.nets_out == old(self).nets_out,
                self.net_stcp == old(self).net_stcp,
                self.net_ds == old(self).net_ds,
                self.net_shcp == old(self).net_shcp,
                self.net_oe_n == old(self).net_oe_n,
                self.net_mr_n == old(self).net_mr_n,
                self.state_shcp == old(self).state_shcp,
                self.state_stcp == old(self).state_stcp,
            decreases 8 - i,
        {
            self.pins_out[i] = if !enabled {
                PinState::Open
            } else if test_bit8(self.reg_latch, i) {
                PinState::DriveH
            } else {
                PinState::DriveL
            };
            i += 1;
        }
        self.state_shcp = state_shcp_new;
        self.state_stcp = state_stcp_new;
        None
    }

    fn event(&mut self, _time: u64, _event: &str) -> (report: Option<Report>) {
        None
    }

    fn pin(&self, pin: usize) -> (state: PinState) {
        if pin < 8 {
            self.pins_out[pin]
        } else if pin == PIN_Q7S {
            self.pin_q7s
        } else {
            PinState::Open
        }
    }
}

} // verus!
