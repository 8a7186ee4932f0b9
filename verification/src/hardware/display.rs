//! A two-digit seven-segment display that shows one digit at a time.
//!
//! The seven segment inputs are active low and count only while the enable
//! input is high; the digit input selects the right-hand digit when low and
//! the left-hand digit when high. The display remembers its last three
//! states and recognises the alternation that multiplexed driving produces.

use crate::hardware::{sense, sensed, Hardware, Reading, Report, Wire};
use crate::nets::{Net, NetState, PinState};
use crate::text::same_text;
use vstd::array::spec_array_update;
use vstd::prelude::*;

verus! {

/// What the segments of one digit show.
#[derive(Clone, Copy, Debug, PartialEq, Eq, Structural)]
pub enum Glyph {
    /// No segment lit.
    Blank,
    /// One of the sixteen hexadecimal digits.
    Hex(u8),
    /// The digit one on the left-hand pair of segments.
    LeftOne,
    Minus,
    /// Any other pattern.
    Unknown,
}

/// The glyph that a segment code shows. Bit `i` of the code is zero when
/// segment `i` is lit; bit 7 does not count.
#[verifier::allow_in_spec]
pub fn seg_to_char(segs: u8) -> Glyph
    returns
        ({
            let code = segs & 0x7F;
            if code == 0b0111_1111 {
                Glyph::Blank
            } else if code == 0b0000_1000 {
                Glyph::Hex(0)
            } else if code == 0b0110_1011 {
                Glyph::Hex(1)
            } else if code == 0b0011_1110 {
                Glyph::LeftOne
            } else if code == 0b0100_0100 {
                Glyph::Hex(2)
            } else if code == 0b0100_0001 {
                Glyph::Hex(3)
            } else if code == 0b0010_0011 {
                Glyph::Hex(4)
            } else if code == 0b0001_0001 {
                Glyph::Hex(5)
            } else if code == 0b0001_0000 {
                Glyph::Hex(6)
            } else if code == 0b0100_1011 {
                Glyph::Hex(7)
            } else if code == 0b0000_0000 {
                Glyph::Hex(8)
            } else if code == 0b0000_0001 {
                Glyph::Hex(9)
            } else if code == 0b0000_0010 {
                Glyph::Hex(10)
            } else if code == 0b0011_0000 {
                Glyph::Hex(11)
            } else if code == 0b0001_1100 {
                Glyph::Hex(12)
            } else if code == 0b0110_0000 {
                Glyph::Hex(13)
            } else if code == 0b0001_0100 {
                Glyph::Hex(14)
            } else if code == 0b0001_0110 {
                Glyph::Hex(15)
            } else if code == 0b0111_0111 {
                Glyph::Minus
            } else {
                Glyph::Unknown
            }
        }),
{
    let code = segs & 0x7F;
    if code == 0b0111_1111 {
        Glyph::Blank
    } else if code == 0b0000_1000 {
        Glyph::Hex(0)
    } else if code == 0b0110_1011 {
        Glyph::Hex(1)
    } else if code == 0b0011_1110 {
        Glyph::LeftOne
    } else if code == 0b0100_0100 {
        Glyph::Hex(2)
    } else if code == 0b0100_0001 {
        Glyph::Hex(3)
    } else if code == 0b0010_0011 {
        Glyph::Hex(4)
    } else if code == 0b0001_0001 {
        Glyph::Hex(5)
    } else if code == 0b0001_0000 {
        Glyph::Hex(6)
    } else if code == 0b0100_1011 {
        Glyph::Hex(7)
    } else if code == 0b0000_0000 {
        Glyph::Hex(8)
    } else if code == 0b0000_0001 {
        Glyph::Hex(9)
    } else if code == 0b0000_0010 {
        Glyph::Hex(10)
    } else if code == 0b0011_0000 {
        Glyph::Hex(11)
    } else if code == 0b0001_1100 {
        Glyph::Hex(12)
    } else if code == 0b0110_0000 {
        Glyph::Hex(13)
    } else if code == 0b0001_0100 {
        Glyph::Hex(14)
    } else if code == 0b0001_0110 {
        Glyph::Hex(15)
    } else if code == 0b0111_0111 {
        Glyph::Minus
    } else {
        Glyph::Unknown
    }
}

/// A frequency and a duty cycle measured over one period of an alternation.
#[derive(Clone, Copy, Debug, PartialEq, Eq, Structural)]
pub struct Cycle {
    /// The frequency in hertz, rounded.
    pub hertz: u64,
    /// The share of the period in percent, rounded.
    pub percent: u64,
}

/// What the display shows.
#[allow(inconsistent_fields)]
#[derive(Clone, Copy, Debug, PartialEq, Eq, Structural)]
pub enum DisplayReading {
    /// One digit, steadily: its segment code and its side.
    Steady { code: u8, lhs: bool },
    /// Two digits in alternation, with the frequency of the alternation and
    /// the share of the left-hand digit.
    TwoDigit { lhs: Glyph, rhs: Glyph, cycle: Cycle },
    /// One digit that blinks, with the frequency of the blinking and the
    /// share of the time that it is lit.
    OneDigit { glyph: Glyph, lhs: bool, cycle: Cycle },
}

/// `numerator / denominator`, rounded to the nearest integer; zero where the
/// denominator is zero, and the largest number where the quotient has no
/// room.
#[verifier::allow_in_spec]
pub fn rounded_quotient(numerator: u128, denominator: u64) -> u64
    returns
        (if denominator == 0 {
            0u64
        } else if numerator > u128::MAX - denominator / 2 {
            u64::MAX
        } else if (numerator + denominator / 2) / (denominator as int) > u64::MAX {
            u64::MAX
        } else {
            ((numerator + denominator / 2) / (denominator as int)) as u64
        }),
{
    if denominator == 0 {
        0u64
    } else if numerator > u128::MAX - (denominator / 2) as u128 {
        u64::MAX
    } else {
        let quotient: u128 = (numerator + (denominator / 2) as u128) / (denominator as u128);
        if quotient > u64::MAX as u128 {
            u64::MAX
        } else {
            quotient as u64
        }
    }
}

/// The frequency `1e9 / period` and the duty cycle `100 * on / period` of an
/// alternation with the given period and on-time in nanoseconds.
#[verifier::allow_in_spec]
pub fn cycle_of(period: u64, on: u64) -> Cycle
    returns
        (Cycle {
            hertz: rounded_quotient(1_000_000_000u128, period),
            percent: rounded_quotient((100 * on) as u128, period),
        }),
{
    Cycle {
        hertz: rounded_quotient(1_000_000_000u128, period),
        percent: rounded_quotient(100 * (on as u128), period),
    }
}

/// The difference of two times, or zero where the later one is not later.
#[verifier::allow_in_spec]
pub fn elapsed(later: u64, earlier: u64) -> u64
    returns
        (if later >= earlier {
            (later - earlier) as u64
        } else {
            0u64
        }),
{
    if later >= earlier {
        later - earlier
    } else {
        0u64
    }
}

/// The position of the enable input among the pins, behind the seven
/// segment inputs.
pub const PIN_EN: usize = 7;

/// The position of the digit input among the pins.
pub const PIN_DIGIT: usize = 8;

/// The display.
pub struct Display {
    pub name: String,
    pub pins_segs: [PinState; 7],
    pub pin_en: PinState,
    pub pin_digit: PinState,
    pub nets_segs: [Wire; 7],
    pub net_en: Wire,
    pub net_digit: Wire,
    pub enabled: bool,
    /// The last three states with the times at which they began, the newest
    /// first. Bits 0 to 6 of a state are the segment code, bit 7 the side.
    pub state: [(u8, u64); 3],
    /// The last alternation of two digits that was recognised.
    pub state_2d: Option<DisplayReading>,
    /// The last blinking of one digit that was recognised.
    pub state_1d: Option<DisplayReading>,
}

/// The segment code after the first `n` segment inputs have been looked at:
/// a low input clears its bit.
pub open spec fn segments_read(wires: [Wire; 7], nets: Seq<Net>, n: int) -> u8
    decreases n,
{
    if n <= 0 {
        0x7F
    } else if sensed(wires[n - 1], nets) == NetState::Low {
        segments_read(wires, nets, n - 1) & !(1u8 << ((n - 1) as u8))
    } else {
        segments_read(wires, nets, n - 1)
    }
}

impl Display {
    /// A display with nothing wired. Its segment and enable inputs pull up
    /// weakly, its digit input pulls down.
    pub fn new(name: String) -> (display: Display)
        ensures
            display.name == name,
            forall|i: int| 0 <= i < 7 ==> display.pins_segs[i] == PinState::WeakPullUp,
            forall|i: int| 0 <= i < 7 ==> display.nets_segs[i] == Wire::Open,
            display.pin_en == PinState::WeakPullUp,
            display.pin_digit == PinState::WeakPullDown,
            display.net_en == Wire::Open && display.net_digit == Wire::Open,
            display.enabled,
            forall|i: int| 0 <= i < 3 ==> display.state[i] == (0u8, 0u64),
            display.state_2d is None && display.state_1d is None,
    {
        Display {
            name,
            pins_segs: [PinState::WeakPullUp; 7],
            pin_en: PinState::WeakPullUp,
            pin_digit: PinState::WeakPullDown,
            nets_segs: [Wire::Open; 7],
            net_en: Wire::Open,
            net_digit: Wire::Open,
            enabled: true,
            state: [(0u8, 0u64); 3],
            state_2d: None,
            state_1d: None,
        }
    }

    /// Wires the segment input `n`.
    pub fn connect_seg(&mut self, n: usize, net: Wire)
        requires
            n < 7,
        ensures
            *final(self) == (Display {
                nets_segs: spec_array_update(old(self).nets_segs, n as int, net),
                ..*old(self)
            }),
    {
        self.nets_segs[n] = net;
    }

    /// The display after one of its inputs has been wired.
    pub open spec fn connected(self, pin_name: Seq<char>, net: Wire) -> Display {
        if pin_name == "en"@ {
            Display { net_en: net, ..self }
        } else if pin_name == "digit"@ {
            Display { net_digit: net, ..self }
        } else {
            self
        }
    }

    /// Wires one of the inputs `en` and `digit`; any other name is ignored.
    pub fn connect(&mut self, pin_name: &str, net: Wire)
        ensures
            *final(self) == old(self).connected(pin_name@, net),
    {
        if same_text(pin_name, "en") {
            self.net_en = net;
        } else if same_text(pin_name, "digit") {
            self.net_digit = net;
        }
    }

    /// The newest state, as one steady digit.
    pub open spec fn decoded(self) -> DisplayReading {
        DisplayReading::Steady { code: self.state[0].0 & 0x7F, lhs: self.state[0].0 & 0x80 != 0 }
    }

    /// The three remembered states as two digits in alternation. The period
    /// runs from the oldest state to the newest, and the left-hand digit's
    /// share of it is the time for which the left-hand state lasted.
    pub open spec fn decoded_2d(self) -> DisplayReading {
        let lhs_first = self.state[0].0 & 0x80 != 0;
        let period = elapsed(self.state[0].1, self.state[2].1);
        let on = if lhs_first {
            elapsed(self.state[1].1, self.state[2].1)
        } else {
            elapsed(self.state[0].1, self.state[1].1)
        };
        DisplayReading::TwoDigit {
            lhs: seg_to_char(
                if lhs_first {
                    self.state[0].0
                } else {
                    self.state[1].0
                },
            ),
            rhs: seg_to_char(
                if lhs_first {
                    self.state[1].0
                } else {
                    self.state[0].0
                },
            ),
            cycle: cycle_of(period, on),
        }
    }

    /// The three remembered states as one digit that blinks.
    pub open spec fn decoded_1d(self) -> DisplayReading {
        let on_first = self.state[0].0 & 0x7F != 0x7F;
        let lit = if on_first {
            self.state[0].0
        } else {
            self.state[1].0
        };
        let period = elapsed(self.state[0].1, self.state[2].1);
        let on = if on_first {
            elapsed(self.state[1].1, self.state[2].1)
        } else {
            elapsed(self.state[0].1, self.state[1].1)
        };
        DisplayReading::OneDigit {
            glyph: seg_to_char(lit),
            lhs: lit & 0x80 != 0,
            cycle: cycle_of(period, on),
        }
    }

    fn decode(&self) -> (reading: DisplayReading)
        ensures
            reading == self.decoded(),
    {
        DisplayReading::Steady { code: self.state[0].0 & 0x7F, lhs: self.state[0].0 & 0x80 != 0 }
    }

    fn decode_2d(&self) -> (reading: DisplayReading)
        ensures
            reading == self.decoded_2d(),
    {
        let lhs_first = (self.state[0].0 & 0x80) != 0;
        let (lhs, rhs) = if lhs_first {
            (self.state[0], self.state[1])
        } else {
            (self.state[1], self.state[0])
        };
        let time0 = self.state[0].1;
        let time1 = self.state[1].1;
        let time2 = self.state[2].1;
        let period = elapsed(time0, time2);
        let inton = if lhs_first {
            elapsed(time1, time2)
        } else {
            elapsed(time0, time1)
        };
        DisplayReading::TwoDigit {
            lhs: seg_to_char(lhs.0),
            rhs: seg_to_char(rhs.0),
            cycle: cycle_of(period, inton),
        }
    }

    fn decode_1d(&self) -> (reading: DisplayReading)
        ensures
            reading == self.decoded_1d(),
    {
        let on_first = (self.state[0].0 & 0x7F) != 0x7F;
        let on = if on_first {
            self.state[0]
        } else {
            self.state[1]
        };
        let time0 = self.state[0].1;
        let time1 = self.state[1].1;
        let time2 = self.state[2].1;
        let period = elapsed(time0, time2);
        let inton = if on_first {
            elapsed(time1, time2)
        } else {
            elapsed(time0, time1)
        };
        DisplayReading::OneDigit {
            glyph: seg_to_char(on.0),
            lhs: on.0 & 0x80 != 0,
            cycle: cycle_of(period, inton),
        }
    }

    /// The state that the inputs stand for: the segment code, which shows no
    /// segment unless the enable input is high, and the side in bit 7, set
    /// by a high digit input.
    pub open spec fn input_state(self, nets: Seq<Net>) -> u8 {
        let segments = if sensed(self.net_en, nets) == NetState::High {
            segments_read(self.nets_segs, nets, 7)
        } else {
            0x7Fu8
        };
        match sensed(self.net_digit, nets) {
            NetState::Low => segments & 0x7F,
            NetState::High => segments | 0x80,
            _ => segments,
        }
    }

    /// The history is full: all three remembered states began after time
    /// zero, so none of them is left from before the display was driven.
    pub open spec fn filled(self) -> bool {
        self.state[2].1 > 0
    }

    /// The display after a new state has begun at `time`, and what it
    /// reports. The state joins the history, from which the oldest state
    /// drops out. While the history is not yet full nothing is recognised
    /// and nothing is reported: the states so far may be the beginning of an
    /// alternation. With a full history: if the newest and the oldest state
    /// are equal and the one between them is on the other side, two digits
    /// alternate; if instead the one between them is on the same side and one
    /// of the two is blank, one digit blinks. Either is reported when it
    /// differs from what was last recognised. Otherwise the new state is
    /// reported as a steady digit, unless it and the state before it are both
    /// blank. Nothing is reported at time zero.
    pub open spec fn changed(self, state_new: u8, time: u64) -> (Display, Option<Report>) {
        let shown = (self.state[0].0 & state_new) & 0x7F != 0x7F;
        let next = Display {
            state: spec_array_update(
                spec_array_update(
                    spec_array_update(self.state, 2, self.state[1]),
                    1,
                    self.state[0],
                ),
                0,
                (state_new, time),
            ),
            ..self
        };
        let same_ends = next.state[0].0 == next.state[2].0;
        let sides_differ = (next.state[0].0 ^ next.state[1].0) & 0x80 == 0x80;
        let one_blank = next.state[0].0 & 0x7F == 0x7F || next.state[1].0 & 0x7F == 0x7F;
        if !next.filled() {
            (next, None)
        } else if same_ends && sides_differ {
            let reading = next.decoded_2d();
            if next.state_2d != Some(reading) {
                (
                    Display { state_2d: Some(reading), ..next },
                    if time > 0 {
                        Some(Report { time, what: Reading::Display(reading) })
                    } else {
                        None
                    },
                )
            } else {
                (next, None)
            }
        } else if same_ends && one_blank && !sides_differ {
            let reading = next.decoded_1d();
            if next.state_1d != Some(reading) {
                (
                    Display { state_1d: Some(reading), ..next },
                    if time > 0 {
                        Some(Report { time, what: Reading::Display(reading) })
                    } else {
                        None
                    },
                )
            } else {
                (next, None)
            }
        } else if shown && time > 0 {
            (next, Some(Report { time, what: Reading::Display(next.decoded()) }))
        } else {
            (next, None)
        }
    }
}

impl Hardware for Display {
    /// The display notes whether it is enabled, and a state of the inputs
    /// that differs from the newest remembered state begins a new state.
    open spec fn updated(&self, time: u64, nets: Seq<Net>) -> (Display, Option<Report>) {
        let seen = Display { enabled: sensed(self.net_en, nets) == NetState::High, ..*self };
        if seen.state[0].0 != self.input_state(nets) {
            seen.changed(self.input_state(nets), time)
        } else {
            (seen, None)
        }
    }

    /// A display takes no events.
    open spec fn notified(&self, time: u64, event: Seq<char>) -> (Display, Option<Report>) {
        (*self, None)
    }

    open spec fn pin_state(&self, pin: int) -> PinState {
        if 0 <= pin < 7 {
            self.pins_segs[pin]
        } else if pin == PIN_EN {
            self.pin_en
        } else if pin == PIN_DIGIT {
            self.pin_digit
        } else {
            PinState::Open
        }
    }

    fn update(&mut self, time: u64, nets: &Vec<Net>) -> (report: Option<Report>) {
        self.enabled = sense(self.net_en, nets) == NetState::High;
        let state = self.state[0].0;
        let mut state_new: u8 = 0x7F;
        if self.enabled {
            let mut i: usize = 0;
            while i < 7
                invariant
                    i <= 7,
                    state_new == segments_read(self.nets_segs, nets@, i as int),
                decreases 7 - i,
            {
                if sense(self.nets_segs[i], nets) == NetState::Low {
                    state_new = state_new & !(1u8 << (i as u8));
                }
                i += 1;
            }
        }
        match sense(self.net_digit, nets) {
            NetState::Low => {
                state_new = state_new & 0x7F;
            },
            NetState::High => {
                state_new = state_new | 0x80;
            },
            _ => {},
        }
        if state != state_new {
            let print_state = (state & state_new) & 0x7F != 0x7F;
            let newest = self.state[0];
            let middle = self.state[1];
            self.state[2] = middle;
            self.state[1] = newest;
            self.state[0] = (state_new, time);
            let same_ends = self.state[0].0 == self.state[2].0;
            let sides_differ = ((self.state[0].0 ^ self.state[1].0) & 0x80) == 0x80;
            let one_blank = (self.state[0].0 & 0x7F == 0x7F) || (self.state[1].0 & 0x7F == 0x7F);
            if self.state[2].1 == 0 {
                return None;
            } else if same_ends && sides_differ {
                let state_2d_new = self.decode_2d();
                let known = match self.state_2d {
                    Some(reading) => reading == state_2d_new,
                    None => false,
                };
                if !known {
                    self.state_2d = Some(state_2d_new);
                    if time > 0 {
                        return Some(Report { time, what: Reading::Display(state_2d_new) });
                    }
                }
            } else if same_ends && one_blank && !sides_differ {
                let state_1d_new = self.decode_1d();
                let known = match self.state_1d {
                    Some(reading) => reading == state_1d_new,
                    None => false,
                };
                if !known {
                    self.state_1d = Some(state_1d_new);
                    if time > 0 {
                        return Some(Report { time, what: Reading::Display(state_1d_new) });
                    }
                }
            } else if print_state && time > 0 {
                return Some(Report { time, what: Reading::Display(self.decode()) });
            }
        }
        None
    }

    fn event(&mut self, _time: u64, _event: &str) -> (report: Option<Report>) {
        None
    }

    fn pin(&self, pin: usize) -> (state: PinState) {
        if pin < 7 {
            self.pins_segs[pin]
        } else if pin == PIN_EN {
            self.pin_en
        } else if pin == PIN_DIGIT {
            self.pin_digit
        } else {
            PinState::Open
        }
    }
}

/// A display whose history is not yet full reports nothing, whatever state
/// begins: an alternation that starts from rest gives no single-digit report
/// before it is recognised.
pub proof fn law_nothing_before_the_history_fills(display: Display, state_new: u8, time: u64)
    requires
        display.state[1].1 == 0,
    ensures
        display.changed(state_new, time).1 is None,
{
}

/// Two states on opposite sides that alternate are recognised as two digits
/// once the history is full, and never as a steady digit; while the timing
/// stays as it was recognised, nothing more is reported.
pub proof fn law_alternation_is_reported_once(display: Display, state_new: u8, time: u64)
    requires
        display.state[1].1 > 0,
        state_new == display.state[1].0,
        (state_new ^ display.state[0].0) & 0x80 == 0x80,
    ensures
        ({
            let (next, report) = display.changed(state_new, time);
            &&& next.state_2d == Some(next.decoded_2d())
            &&& report is Some ==> report->0.what == Reading::Display(next.decoded_2d())
            &&& display.state_2d == Some(next.decoded_2d()) ==> report is None
        }),
{
}

} // verus!
