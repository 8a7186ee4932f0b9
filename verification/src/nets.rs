//! Four-valued tri-state nets.
//!
//! Every wire on the board is a [`Net`]. Each pin attached to it contributes a
//! [`PinState`]; the net's [`NetState`] is the fold of those contributions
//! through [`arbitrate`], starting from `Open`.

use vstd::prelude::*;

verus! {

/// What one pin puts on its net. An analog drive carries its voltage in
/// microvolts.
#[derive(Clone, Copy, Debug, PartialEq, Eq, Structural)]
pub enum PinState {
    Open,
    WeakPullDown,
    WeakPullUp,
    UndefinedWeak,
    DriveL,
    DriveH,
    DriveAnalog(u32),
    UndefinedStrong,
}

/// The resolved level of a net. An analog level is in microvolts.
#[derive(Clone, Copy, Debug, PartialEq, Eq, Structural)]
pub enum NetState {
    Undefined,
    High,
    Low,
    Analog(u32),
}

/// Identifies a pin by the board-level handle of the component that owns it
/// and the pin's index within that component.
#[derive(Clone, Copy, Debug, PartialEq, Eq, Structural)]
pub struct PinRef {
    pub device: usize,
    pub pin: usize,
}

/// Which net transitions are reported.
#[derive(Clone, Copy, Debug, PartialEq, Eq, Structural)]
pub struct NetTrace {
    /// Report every transition.
    pub all: bool,
    /// Report transitions that leave the undefined state.
    pub undef: bool,
}

/// A reported change of a net's state.
#[derive(Clone, Copy, Debug, PartialEq, Eq, Structural)]
pub struct NetTransition {
    pub time: u64,
    pub from: NetState,
    pub to: NetState,
}

impl PinState {
    /// True for the three states in which the pin actively drives the net.
    pub open spec fn is_drive(self) -> bool {
        self is DriveL || self is DriveH || self is DriveAnalog
    }
}

/// The dominant pin state after one more pin is taken into account.
///
/// `Open` changes nothing; opposite pulls give `UndefinedWeak`; any drive
/// overrides every weak state; two drives agree only when both are `DriveL` or
/// both are `DriveH`, and otherwise give `UndefinedStrong`, which absorbs
/// everything.
pub open spec fn arbitrate_spec(dominant: PinState, incoming: PinState) -> PinState {
    match (dominant, incoming) {
        (PinState::UndefinedStrong, _) => PinState::UndefinedStrong,
        (_, PinState::UndefinedStrong) => PinState::UndefinedStrong,
        (d, PinState::Open) => d,
        (PinState::Open, i) => i,
        (PinState::DriveL, PinState::DriveL) => PinState::DriveL,
        (PinState::DriveH, PinState::DriveH) => PinState::DriveH,
        (d, i) => if d.is_drive() && i.is_drive() {
            PinState::UndefinedStrong
        } else if d.is_drive() {
            d
        } else if i.is_drive() {
            i
        } else if d == i {
            d
        } else {
            PinState::UndefinedWeak
        },
    }
}

/// The dominant pin state of a sequence of pins, folded in order from `Open`.
pub open spec fn dominant_spec(pins: Seq<PinState>) -> PinState
    decreases pins.len(),
{
    if pins.len() == 0 {
        PinState::Open
    } else {
        arbitrate_spec(dominant_spec(pins.drop_last()), pins.last())
    }
}

/// The net level that a dominant pin state stands for.
pub open spec fn reduce_spec(dominant: PinState) -> NetState {
    match dominant {
        PinState::Open | PinState::UndefinedWeak | PinState::UndefinedStrong => NetState::Undefined,
        PinState::WeakPullDown | PinState::DriveL => NetState::Low,
        PinState::WeakPullUp | PinState::DriveH => NetState::High,
        PinState::DriveAnalog(v) => NetState::Analog(v),
    }
}

/// The level of a net whose pins are in the given states.
pub open spec fn resolve_spec(pins: Seq<PinState>) -> NetState {
    reduce_spec(dominant_spec(pins))
}

/// Whether a change from `from` to `to` at `time` is reported under `trace`.
pub open spec fn reported_spec(trace: NetTrace, time: u64, from: NetState, to: NetState) -> bool {
    from != to && (trace.all || (trace.undef && from == NetState::Undefined)) && time > 0
}

/// One step of arbitration.
pub fn arbitrate(dominant: PinState, incoming: PinState) -> (r: PinState)
    ensures
        r == arbitrate_spec(dominant, incoming),
{
    match incoming {
        PinState::Open => dominant,
        PinState::WeakPullDown => match dominant {
            PinState::Open => PinState::WeakPullDown,
            PinState::WeakPullUp => PinState::UndefinedWeak,
            _ => dominant,
        },
        PinState::WeakPullUp => match dominant {
            PinState::Open => PinState::WeakPullUp,
            PinState::WeakPullDown => PinState::UndefinedWeak,
            _ => dominant,
        },
        PinState::UndefinedWeak => match dominant {
            PinState::Open | PinState::WeakPullDown | PinState::WeakPullUp => {
                PinState::UndefinedWeak
            },
            _ => dominant,
        },
        PinState::DriveL => match dominant {
            PinState::DriveH | PinState::DriveAnalog(_) | PinState::UndefinedStrong => {
                PinState::UndefinedStrong
            },
            _ => PinState::DriveL,
        },
        PinState::DriveH => match dominant {
            PinState::DriveL | PinState::DriveAnalog(_) | PinState::UndefinedStrong => {
                PinState::UndefinedStrong
            },
            _ => PinState::DriveH,
        },
        PinState::DriveAnalog(v) => match dominant {
            PinState::DriveL
            | PinState::DriveH
            | PinState::DriveAnalog(_)
            | PinState::UndefinedStrong => PinState::UndefinedStrong,
            _ => PinState::DriveAnalog(v),
        },
        PinState::UndefinedStrong => PinState::UndefinedStrong,
    }
}

/// The final reduction from dominant pin state to net level.
pub fn reduce(dominant: PinState) -> (r: NetState)
    ensures
        r == reduce_spec(dominant),
{
    match dominant {
        PinState::Open | PinState::UndefinedWeak | PinState::UndefinedStrong => NetState::Undefined,
        PinState::WeakPullDown | PinState::DriveL => NetState::Low,
        PinState::WeakPullUp | PinState::DriveH => NetState::High,
        PinState::DriveAnalog(v) => NetState::Analog(v),
    }
}

/// Resolves the level of a net from the states of its pins, in order. Stops
/// early once the dominant state can no longer change.
pub fn resolve(pins: &Vec<PinState>) -> (r: NetState)
    ensures
        r == resolve_spec(pins@),
{
    let mut dominant = PinState::Open;
    let mut i: usize = 0;
    while i < pins.len()
        invariant
            i <= pins.len(),
            dominant == dominant_spec(pins@.take(i as int)),
        decreases pins.len() - i,
    {
        proof {
            assert(pins@.take(i + 1).drop_last() =~= pins@.take(i as int));
        }
        dominant = arbitrate(dominant, pins[i]);
        i += 1;
        if dominant == PinState::UndefinedStrong {
            proof {
                lemma_strong_is_terminal(pins@.take(i as int), pins@.skip(i as int));
                assert(pins@.take(i as int) + pins@.skip(i as int) =~= pins@);
            }
            return NetState::Undefined;
        }
    }
    proof {
        assert(pins@.take(i as int) =~= pins@);
    }
    reduce(dominant)
}

/// Once the dominant state is `UndefinedStrong`, further pins cannot change it.
pub proof fn lemma_strong_is_terminal(head: Seq<PinState>, tail: Seq<PinState>)
    requires
        dominant_spec(head) == PinState::UndefinedStrong,
    ensures
        dominant_spec(head + tail) == PinState::UndefinedStrong,
    decreases tail.len(),
{
    if tail.len() == 0 {
        assert(head + tail =~= head);
    } else {
        lemma_strong_is_terminal(head, tail.drop_last());
        assert((head + tail).drop_last() =~= head + tail.drop_last());
    }
}

/// Arbitration does not depend on which of two pins is looked at first.
pub proof fn law_arbitrate_commutes(a: PinState, b: PinState)
    ensures
        arbitrate_spec(a, b) == arbitrate_spec(b, a),
{
}

/// Arbitration of three pins does not depend on how they are grouped.
pub proof fn law_arbitrate_associates(a: PinState, b: PinState, c: PinState)
    ensures
        arbitrate_spec(arbitrate_spec(a, b), c) == arbitrate_spec(a, arbitrate_spec(b, c)),
{
}

/// A net with a single pin takes the level that this pin's state stands for.
pub proof fn law_single_pin(p: PinState)
    ensures
        resolve_spec(seq![p]) == reduce_spec(p),
{
    let pins = seq![p];
    assert(pins.drop_last() =~= Seq::<PinState>::empty());
    assert(dominant_spec(pins.drop_last()) == PinState::Open);
    assert(pins.last() == p);
}

/// Inserting an `Open` pin anywhere among the pins of a net leaves the
/// resolved level unchanged.
pub proof fn law_open_pin_is_neutral(pins: Seq<PinState>, at: int)
    requires
        0 <= at <= pins.len(),
    ensures
        dominant_spec(pins.insert(at, PinState::Open)) == dominant_spec(pins),
        resolve_spec(pins.insert(at, PinState::Open)) == resolve_spec(pins),
    decreases pins.len(),
{
    let longer = pins.insert(at, PinState::Open);
    if at == pins.len() {
        assert(longer.drop_last() =~= pins);
        assert(longer.last() == PinState::Open);
    } else {
        law_open_pin_is_neutral(pins.drop_last(), at);
        assert(longer.drop_last() =~= pins.drop_last().insert(at, PinState::Open));
        assert(longer.last() == pins.last());
    }
}

/// A net on which some pin drives low stays at `DriveL` or in conflict.
pub proof fn lemma_low_driver_dominates(pins: Seq<PinState>, i: int)
    requires
        0 <= i < pins.len(),
        pins[i] == PinState::DriveL,
    ensures
        dominant_spec(pins) == PinState::DriveL || dominant_spec(pins)
            == PinState::UndefinedStrong,
    decreases pins.len(),
{
    if i < pins.len() - 1 {
        lemma_low_driver_dominates(pins.drop_last(), i);
    }
}

/// A net on which some pin drives high stays at `DriveH` or in conflict.
pub proof fn lemma_high_driver_dominates(pins: Seq<PinState>, i: int)
    requires
        0 <= i < pins.len(),
        pins[i] == PinState::DriveH,
    ensures
        dominant_spec(pins) == PinState::DriveH || dominant_spec(pins)
            == PinState::UndefinedStrong,
    decreases pins.len(),
{
    if i < pins.len() - 1 {
        lemma_high_driver_dominates(pins.drop_last(), i);
    }
}

/// A net with one pin driving low and another driving high is undefined,
/// whatever the other pins do and in whatever order they are attached.
pub proof fn law_conflicting_drivers(pins: Seq<PinState>, low: int, high: int)
    requires
        0 <= low < pins.len(),
        0 <= high < pins.len(),
        pins[low] == PinState::DriveL,
        pins[high] == PinState::DriveH,
    ensures
        dominant_spec(pins) == PinState::UndefinedStrong,
        resolve_spec(pins) == NetState::Undefined,
{
    lemma_low_driver_dominates(pins, low);
    lemma_high_driver_dominates(pins, high);
}

/// A named electrical connection.
pub struct Net {
    /// The level found by the last `update`.
    pub state: NetState,
    /// The attached pins, in the order of attachment.
    pub io: Vec<PinRef>,
    pub name: String,
}

impl Net {
    /// The pins attached so far, in the order of attachment.
    pub open spec fn pins(&self) -> Seq<PinRef> {
        self.io@
    }

    /// The net's name.
    pub open spec fn label(&self) -> Seq<char> {
        self.name@
    }

    /// A net with no pins, in the undefined state.
    pub fn new(name: String) -> (net: Net)
        ensures
            net.state == NetState::Undefined,
            net.pins() == Seq::<PinRef>::empty(),
            net.label() == name@,
    {
        Net { state: NetState::Undefined, io: Vec::new(), name }
    }

    /// Attaches one more pin.
    pub fn connect(&mut self, pin: PinRef)
        ensures
            final(self).pins() == old(self).pins().push(pin),
            final(self).state == old(self).state,
            final(self).name == old(self).name,
    {
        self.io.push(pin);
    }

    /// How many pins are attached.
    pub fn pin_count(&self) -> (n: usize)
        ensures
            n == self.pins().len(),
    {
        self.io.len()
    }

    /// The `i`-th attached pin.
    pub fn pin(&self, i: usize) -> (p: PinRef)
        requires
            i < self.pins().len(),
        ensures
            p == self.pins()[i as int],
    {
        self.io[i]
    }

    /// The net's name.
    pub fn name(&self) -> (s: &String)
        ensures
            s@ == self.label(),
    {
        &self.name
    }

    /// The net after an update from the states of its pins.
    pub open spec fn updated(self, pins: Seq<PinState>) -> Net {
        Net { state: resolve_spec(pins), ..self }
    }

    /// What an update from the states of its pins reports.
    pub open spec fn transition(
        self,
        time: u64,
        pins: Seq<PinState>,
        trace: NetTrace,
    ) -> Option<NetTransition> {
        if reported_spec(trace, time, self.state, resolve_spec(pins)) {
            Some(NetTransition { time, from: self.state, to: resolve_spec(pins) })
        } else {
            None
        }
    }

    /// Re-resolves the net from the current states of its pins, given in the
    /// order of attachment, and returns the transition if it is to be
    /// reported. The new state depends on `pins` alone.
    pub fn update(&mut self, time: u64, pins: &Vec<PinState>, trace: NetTrace) -> (log: Option<
        NetTransition,
    >)
        ensures
            *final(self) == old(self).updated(pins@),
            log == old(self).transition(time, pins@, trace),
    {
        let state_new = resolve(pins);
        let state_old = self.state;
        self.state = state_new;
        if state_old != state_new && (trace.all || (trace.undef && state_old
            == NetState::Undefined)) && time > 0 {
            Some(NetTransition { time, from: state_old, to: state_new })
        } else {
            None
        }
    }
}

/// Updating a net a second time from the same pin states changes nothing and
/// reports nothing, whatever the net was before, at whatever time, and
/// whatever is traced.
pub proof fn law_update_is_idempotent(net: Net, pins: Seq<PinState>, trace: NetTrace, time: u64)
    ensures
        net.updated(pins).updated(pins) == net.updated(pins),
        net.updated(pins).transition(time, pins, trace) is None,
{
}

} // verus!
