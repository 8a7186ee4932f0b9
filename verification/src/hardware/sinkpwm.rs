//! A sink that measures the frequency and the duty cycle of a square wave,
//! such as a buzzer or the brightness input of a display.

use crate::hardware::display::{elapsed, rounded_quotient};
use crate::hardware::{sense, sensed, Hardware, Reading, Report, Wire};
use crate::nets::{Net, NetState, PinState};
use vstd::prelude::*;

verus! {

/// The nanoseconds without an edge after which a level counts as steady.
pub const STEADY_AFTER_NS: u64 = 50_000_000;

/// The level last seen on the input.
#[derive(Clone, Copy, Debug, PartialEq, Eq, Structural)]
pub enum SinkPwmState {
    High,
    Low,
    Undefined,
}

/// What the sink has measured.
#[derive(Clone, Copy, Debug, PartialEq, Eq, Structural)]
pub enum PwmReading {
    /// A steady level: 0 Hz at a duty cycle of 0 %, or of 100 % if `high`.
    Steady { high: bool },
    /// A steady undefined level.
    Undefined,
    /// A wave, with its frequency in tenths of a hertz and its duty cycle in
    /// tenths of a percent, both rounded.
    Wave { decihertz: u64, permille: u64 },
}

/// The level of the input that a net level stands for.
#[verifier::allow_in_spec]
pub fn input_level(level: NetState) -> SinkPwmState
    returns
        (match level {
            NetState::High => SinkPwmState::High,
            NetState::Low => SinkPwmState::Low,
            _ => SinkPwmState::Undefined,
        }),
{
    match level {
        NetState::High => SinkPwmState::High,
        NetState::Low => SinkPwmState::Low,
        _ => SinkPwmState::Undefined,
    }
}

/// The wave whose last period took `period` nanoseconds, of which the input
/// was high for `high`: the frequency is `1e9 / period` and the duty cycle
/// `100 * high / period`.
#[verifier::allow_in_spec]
pub fn wave_of(period: u64, high: u64) -> PwmReading
    returns
        (PwmReading::Wave {
            decihertz: rounded_quotient(10_000_000_000u128, period),
            permille: rounded_quotient((1000 * high) as u128, period),
        }),
{
    PwmReading::Wave {
        decihertz: rounded_quotient(10_000_000_000u128, period),
        permille: rounded_quotient(1000 * (high as u128), period),
    }
}

/// The sink.
pub struct SinkPwm {
    pub name: String,
    /// The kind of sink, which goes in front of the name in reports.
    pub variant: String,
    pub pin: PinState,
    pub net: Wire,
    pub state: SinkPwmState,
    /// The time of the last change of level.
    pub t_last: u64,
    pub t_rise_last: u64,
    pub t_fall_last: u64,
    /// A rising edge has been seen since the level was last undefined.
    pub cycle_valid: bool,
    /// The present level has been reported as steady.
    pub is_dc: bool,
    /// The wave that was last measured.
    pub desc: Option<PwmReading>,
}

impl SinkPwm {
    /// A sink that has seen nothing yet and loads its net with `pinstate`.
    pub fn new(name: String, variant: String, net: Wire, pinstate: PinState) -> (sink: SinkPwm)
        ensures
            sink == (SinkPwm {
                name,
                variant,
                pin: pinstate,
                net,
                state: SinkPwmState::Undefined,
                t_last: 0,
                t_rise_last: 0,
                t_fall_last: 0,
                cycle_valid: false,
                is_dc: true,
                desc: None,
            }),
    {
        SinkPwm {
            name,
            variant,
            pin: pinstate,
            net,
            state: SinkPwmState::Undefined,
            t_last: 0,
            t_rise_last: 0,
            t_fall_last: 0,
            cycle_valid: false,
            is_dc: true,
            desc: None,
        }
    }

    /// The sink after it has looked for a steady level, and the report of
    /// one. A change of level restarts the wait. A level that has lasted for
    /// more than 50 ms is reported as steady, once, with the time at which it
    /// began, unless it has lasted since time zero.
    pub open spec fn settled(self, level: SinkPwmState, time: u64) -> (SinkPwm, Option<Report>) {
        if self.state != level {
            (SinkPwm { t_last: time, is_dc: false, ..self }, None)
        } else if time > self.t_last && time - self.t_last > STEADY_AFTER_NS && !self.is_dc {
            (
                SinkPwm { is_dc: true, ..self },
                if self.t_last > 0 {
                    Some(
                        Report {
                            time: self.t_last,
                            what: Reading::Pwm(
                                match self.state {
                                    SinkPwmState::Low => PwmReading::Steady { high: false },
                                    SinkPwmState::High => PwmReading::Steady { high: true },
                                    SinkPwmState::Undefined => PwmReading::Undefined,
                                },
                            ),
                        },
                    )
                } else {
                    None
                },
            )
        } else {
            (self, None)
        }
    }

    /// The sink after it has looked for an edge, and the report of a wave.
    /// A rising edge ends a period that began with the rising edge before
    /// it; from the second rising edge on the wave is measured, and reported
    /// if it differs from the last measurement (never at time zero). A
    /// falling edge is noted. An undefined level makes the next rising edge
    /// the first again.
    pub open spec fn measured(self, level: SinkPwmState, time: u64) -> (SinkPwm, Option<Report>) {
        match self.state {
            SinkPwmState::Low => if level == SinkPwmState::High {
                let wave = wave_of(
                    elapsed(time, self.t_rise_last),
                    elapsed(self.t_fall_last, self.t_rise_last),
                );
                if self.cycle_valid {
                    (
                        SinkPwm { desc: Some(wave), t_rise_last: time, ..self },
                        if self.desc != Some(wave) && time > 0 {
                            Some(Report { time, what: Reading::Pwm(wave) })
                        } else {
                            None
                        },
                    )
                } else {
                    (SinkPwm { t_rise_last: time, cycle_valid: true, ..self }, None)
                }
            } else {
                (self, None)
            },
            SinkPwmState::High => if level == SinkPwmState::Low {
                (SinkPwm { t_fall_last: time, ..self }, None)
            } else {
                (self, None)
            },
            SinkPwmState::Undefined => (SinkPwm { cycle_valid: false, ..self }, None),
        }
    }
}

impl Hardware for SinkPwm {
    /// The sink looks for a steady level and for an edge, of which at most
    /// one yields a report, and remembers the level.
    open spec fn updated(&self, time: u64, nets: Seq<Net>) -> (SinkPwm, Option<Report>) {
        let level = input_level(sensed(self.net, nets));
        let settled = self.settled(level, time);
        let measured = settled.0.measured(level, time);
        (
            SinkPwm { state: level, ..measured.0 },
            if settled.1 is Some {
                settled.1
            } else {
                measured.1
            },
        )
    }

    /// A sink takes no events.
    open spec fn notified(&self, time: u64, event: Seq<char>) -> (SinkPwm, Option<Report>) {
        (*self, None)
    }

    open spec fn pin_state(&self, pin: int) -> PinState {
        if pin == 0 {
            self.pin
        } else {
            PinState::Open
        }
    }

    fn update(&mut self, time: u64, nets: &Vec<Net>) -> (report: Option<Report>) {
        let new_state = input_level(sense(self.net, nets));
        let mut report: Option<Report> = None;
        if self.state != new_state {
            self.t_last = time;
            self.is_dc = false;
        } else if time > self.t_last && time - self.t_last > STEADY_AFTER_NS && !self.is_dc {
            self.is_dc = true;
            if self.t_last > 0 {
                let what = match self.state {
                    SinkPwmState::Low => PwmReading::Steady { high: false },
                    SinkPwmState::High => PwmReading::Steady { high: true },
                    SinkPwmState::Undefined => PwmReading::Undefined,
                };
                report = Some(Report { time: self.t_last, what: Reading::Pwm(what) });
            }
        }
        match self.state {
            SinkPwmState::Low => {
                if new_state == SinkPwmState::High {
                    if self.cycle_valid {
                        let diff = elapsed(time, self.t_rise_last);
                        let ppw = elapsed(self.t_fall_last, self.t_rise_last);
                        let desc_new = wave_of(diff, ppw);
                        let known = match self.desc {
                            Some(wave) => wave == desc_new,
                            None => false,
                        };
                        if !known && time > 0 {
                            report = Some(Report { time, what: Reading::Pwm(desc_new) });
                        }
                        self.desc = Some(desc_new);
                    }
                    self.t_rise_last = time;
                    if !self.cycle_valid {
                        self.cycle_valid = true;
                    }
                }
            },
            SinkPwmState::High => {
                if new_state == SinkPwmState::Low {
                    self.t_fall_last = time;
                }
            },
            _ => {
                self.cycle_valid = false;
            },
        }
        self.state = new_state;
        report
    }

    fn event(&mut self, _time: u64, _event: &str) -> (report: Option<Report>) {
        None
    }

    fn pin(&self, pin: usize) -> (state: PinState) {
        if pin == 0 {
            self.pin
        } else {
            PinState::Open
        }
    }
}

} // verus!
