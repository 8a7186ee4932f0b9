use qutyemu::nets::PinState::{
    DriveAnalog, DriveH, DriveL, Open, UndefinedStrong, UndefinedWeak, WeakPullDown, WeakPullUp,
};
use qutyemu::nets::{arbitrate, reduce, resolve, Net, NetState, NetTrace, NetTransition, PinRef, PinState};

fn all_states() -> Vec<PinState> {
    vec![
        PinState::Open,
        PinState::WeakPullDown,
        PinState::WeakPullUp,
        PinState::UndefinedWeak,
        PinState::DriveL,
        PinState::DriveH,
        PinState::DriveAnalog(1650),
        PinState::UndefinedStrong,
    ]
}

#[test]
fn single_pin_decides_the_net() {
    assert_eq!(resolve(&vec![PinState::Open]), NetState::Undefined);
    assert_eq!(resolve(&vec![PinState::WeakPullDown]), NetState::Low);
    assert_eq!(resolve(&vec![PinState::WeakPullUp]), NetState::High);
    assert_eq!(resolve(&vec![PinState::UndefinedWeak]), NetState::Undefined);
    assert_eq!(resolve(&vec![PinState::DriveL]), NetState::Low);
    assert_eq!(resolve(&vec![PinState::DriveH]), NetState::High);
    assert_eq!(resolve(&vec![PinState::DriveAnalog(1234)]), NetState::Analog(1234));
    assert_eq!(resolve(&vec![PinState::UndefinedStrong]), NetState::Undefined);
}

#[test]
fn empty_net_is_undefined() {
    assert_eq!(resolve(&Vec::new()), NetState::Undefined);
}

#[test]
fn arbitration_table() {
    assert_eq!(arbitrate(Open, WeakPullDown), WeakPullDown);
    assert_eq!(arbitrate(Open, WeakPullUp), WeakPullUp);
    assert_eq!(arbitrate(WeakPullDown, WeakPullUp), UndefinedWeak);
    assert_eq!(arbitrate(WeakPullUp, WeakPullDown), UndefinedWeak);
    assert_eq!(arbitrate(WeakPullUp, WeakPullUp), WeakPullUp);
    assert_eq!(arbitrate(UndefinedWeak, DriveL), DriveL);
    assert_eq!(arbitrate(UndefinedWeak, DriveH), DriveH);
    assert_eq!(arbitrate(UndefinedWeak, DriveAnalog(7)), DriveAnalog(7));
    assert_eq!(arbitrate(WeakPullDown, DriveH), DriveH);
    assert_eq!(arbitrate(WeakPullUp, DriveL), DriveL);
    assert_eq!(arbitrate(DriveL, WeakPullUp), DriveL);
    assert_eq!(arbitrate(DriveL, DriveL), DriveL);
    assert_eq!(arbitrate(DriveH, DriveH), DriveH);
    assert_eq!(arbitrate(DriveL, DriveH), UndefinedStrong);
    assert_eq!(arbitrate(DriveL, DriveAnalog(1)), UndefinedStrong);
    assert_eq!(arbitrate(DriveH, DriveL), UndefinedStrong);
    assert_eq!(arbitrate(DriveH, DriveAnalog(1)), UndefinedStrong);
    assert_eq!(arbitrate(DriveAnalog(1), DriveL), UndefinedStrong);
    assert_eq!(arbitrate(DriveAnalog(1), DriveH), UndefinedStrong);
    assert_eq!(arbitrate(DriveAnalog(1), DriveAnalog(1)), UndefinedStrong);
    assert_eq!(arbitrate(UndefinedStrong, Open), UndefinedStrong);
    assert_eq!(arbitrate(UndefinedStrong, DriveL), UndefinedStrong);
    assert_eq!(arbitrate(DriveL, UndefinedStrong), UndefinedStrong);
}

#[test]
fn arbitration_commutes_and_associates() {
    for a in all_states() {
        for b in all_states() {
            assert_eq!(arbitrate(a, b), arbitrate(b, a));
            for c in all_states() {
                assert_eq!(arbitrate(arbitrate(a, b), c), arbitrate(a, arbitrate(b, c)));
            }
        }
    }
}

#[test]
fn reduction_table() {
    assert_eq!(reduce(PinState::Open), NetState::Undefined);
    assert_eq!(reduce(PinState::UndefinedWeak), NetState::Undefined);
    assert_eq!(reduce(PinState::UndefinedStrong), NetState::Undefined);
    assert_eq!(reduce(PinState::WeakPullDown), NetState::Low);
    assert_eq!(reduce(PinState::DriveL), NetState::Low);
    assert_eq!(reduce(PinState::WeakPullUp), NetState::High);
    assert_eq!(reduce(PinState::DriveH), NetState::High);
    assert_eq!(reduce(PinState::DriveAnalog(3300)), NetState::Analog(3300));
}

#[test]
fn open_pin_changes_nothing() {
    for a in all_states() {
        for b in all_states() {
            let plain = resolve(&vec![a, b]);
            assert_eq!(resolve(&vec![PinState::Open, a, b]), plain);
            assert_eq!(resolve(&vec![a, PinState::Open, b]), plain);
            assert_eq!(resolve(&vec![a, b, PinState::Open]), plain);
        }
    }
}

#[test]
fn conflicting_drivers_are_undefined() {
    for other in all_states() {
        assert_eq!(resolve(&vec![PinState::DriveL, PinState::DriveH, other]), NetState::Undefined);
        assert_eq!(resolve(&vec![PinState::DriveH, other, PinState::DriveL]), NetState::Undefined);
        assert_eq!(resolve(&vec![other, PinState::DriveL, PinState::DriveH]), NetState::Undefined);
    }
}

#[test]
fn strong_conflict_ends_the_resolution_early() {
    let pins = vec![PinState::DriveL, PinState::DriveH, PinState::DriveAnalog(100), PinState::WeakPullUp];
    assert_eq!(resolve(&pins), NetState::Undefined);
}

#[test]
fn net_update_is_idempotent() {
    let mut net = Net::new(String::from("N"));
    net.connect(PinRef { device: 0, pin: 1 });
    net.connect(PinRef { device: 3, pin: 0 });
    assert_eq!(net.pin_count(), 2);
    assert_eq!(net.pin(1), PinRef { device: 3, pin: 0 });
    assert_eq!(net.name(), "N");
    let trace = NetTrace { all: true, undef: false };
    let pins = vec![PinState::WeakPullUp, PinState::DriveL];
    let first = net.update(5, &pins, trace);
    assert_eq!(
        first,
        Some(NetTransition { time: 5, from: NetState::Undefined, to: NetState::Low })
    );
    assert_eq!(net.state, NetState::Low);
    let second = net.update(6, &pins, trace);
    assert_eq!(second, None);
    assert_eq!(net.state, NetState::Low);
}

#[test]
fn net_transitions_are_reported_as_selected() {
    let pins_high = vec![PinState::DriveH];
    let pins_low = vec![PinState::DriveL];
    let mut net = Net::new(String::from("N"));
    assert_eq!(net.update(0, &pins_high, NetTrace { all: true, undef: true }), None);
    assert_eq!(net.state, NetState::High);
    assert_eq!(net.update(9, &pins_low, NetTrace { all: false, undef: true }), None);
    assert_eq!(net.state, NetState::Low);
    let mut fresh = Net::new(String::from("M"));
    assert_eq!(
        fresh.update(9, &pins_low, NetTrace { all: false, undef: true }),
        Some(NetTransition { time: 9, from: NetState::Undefined, to: NetState::Low })
    );
    assert_eq!(fresh.update(10, &pins_high, NetTrace { all: false, undef: false }), None);
    assert_eq!(fresh.state, NetState::High);
}
