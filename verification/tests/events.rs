use qutyemu::events::{Captured, Event};
use qutyemu::text::{
    hex_digit, parse_hex, parse_millionths, same_text, same_text_ignoring_case, trim,
};

#[test]
fn event_lines_are_parsed() {
    let text = "@00000000000A U5: 41\n@0000000000000400 S1: PRESS\n\n@3B9ACA00 R1: 0.75\n";
    let events = Event::from_text(text);
    assert_eq!(events.len(), 3);
    assert_eq!(events[0].time, 10);
    assert_eq!(events[0].device, "U5");
    assert_eq!(events[0].event, "41");
    assert_eq!(events[1].time, 0x400);
    assert_eq!(events[1].device, "S1");
    assert_eq!(events[1].event, "PRESS");
    assert_eq!(events[2].time, 1_000_000_000);
    assert_eq!(events[2].device, "R1");
    assert_eq!(events[2].event, "0.75");
}

#[test]
fn event_lines_tolerate_spacing_and_case() {
    let events = Event::from_text("@ff   U5 :   flush  \r\n@Ab\tS2:\tRELEASE");
    assert_eq!(events.len(), 2);
    assert_eq!(events[0].time, 0xFF);
    assert_eq!(events[0].device, "U5");
    assert_eq!(events[0].event, "flush");
    assert_eq!(events[1].time, 0xAB);
    assert_eq!(events[1].device, "S2");
    assert_eq!(events[1].event, "RELEASE");
}

#[test]
fn lines_that_are_no_events_are_passed_over() {
    let events = Event::from_text("# comment\n@XYZ S1: PRESS\nS1: PRESS\n@10 S1 PRESS\n@20 S3: PRESS\n");
    assert_eq!(events.len(), 1);
    assert_eq!(events[0].time, 0x20);
    assert_eq!(events[0].device, "S3");
    assert!(Event::from_text("").is_empty());
}

#[test]
fn times_beyond_sixty_four_bits_are_dropped() {
    let captures = vec![
        Captured {
            time: String::from("FFFFFFFFFFFFFFFF"),
            device: String::from(" S1 "),
            payload: String::from("PRESS\t"),
        },
        Captured {
            time: String::from("10000000000000000"),
            device: String::from("S1"),
            payload: String::from("PRESS"),
        },
        Captured { time: String::from(""), device: String::from("S1"), payload: String::from("x") },
    ];
    let events = Event::from_captures(&captures);
    assert_eq!(events.len(), 1);
    assert_eq!(events[0].time, u64::MAX);
    assert_eq!(events[0].device, "S1");
    assert_eq!(events[0].event, "PRESS");
}

#[test]
fn hexadecimal_numbers() {
    assert_eq!(hex_digit('0'), Some(0));
    assert_eq!(hex_digit('9'), Some(9));
    assert_eq!(hex_digit('a'), Some(10));
    assert_eq!(hex_digit('F'), Some(15));
    assert_eq!(hex_digit('g'), None);
    assert_eq!(hex_digit(' '), None);
    assert_eq!(parse_hex("41", 0xFF), Some(0x41));
    assert_eq!(parse_hex("fF", 0xFF), Some(0xFF));
    assert_eq!(parse_hex("100", 0xFF), None);
    assert_eq!(parse_hex("0000000041", 0xFF), Some(0x41));
    assert_eq!(parse_hex("", 0xFF), None);
    assert_eq!(parse_hex("4 1", 0xFF), None);
    assert_eq!(parse_hex("0x41", 0xFF), None);
    assert_eq!(parse_hex("7", 5), None);
    assert_eq!(parse_hex("5", 5), Some(5));
    assert_eq!(parse_hex("FFFFFFFFFFFFFFFF", u64::MAX), Some(u64::MAX));
    assert_eq!(parse_hex("10000000000000000", u64::MAX), None);
}

#[test]
fn decimal_fractions() {
    assert_eq!(parse_millionths("0"), Some(0));
    assert_eq!(parse_millionths("1"), Some(1_000_000));
    assert_eq!(parse_millionths("0.5"), Some(500_000));
    assert_eq!(parse_millionths(".5"), Some(500_000));
    assert_eq!(parse_millionths("0.25"), Some(250_000));
    assert_eq!(parse_millionths("0.125"), Some(125_000));
    assert_eq!(parse_millionths("0.1259"), Some(125_900));
    assert_eq!(parse_millionths("0.999"), Some(999_000));
    assert_eq!(parse_millionths("1.0"), Some(1_000_000));
    assert_eq!(parse_millionths("1."), Some(1_000_000));
    assert_eq!(parse_millionths("2.5"), Some(1_000_000));
    assert_eq!(parse_millionths("99999999999999999999"), Some(1_000_000));
    assert_eq!(parse_millionths("+0.3"), Some(300_000));
    assert_eq!(parse_millionths("-0.3"), Some(0));
    assert_eq!(parse_millionths("0.5004"), Some(500_400));
    assert_eq!(parse_millionths("0.123456"), Some(123_456));
    assert_eq!(parse_millionths("0.1234569"), Some(123_456));
    assert_eq!(parse_millionths("0.000001"), Some(1));
    assert_eq!(parse_millionths("0.9999999"), Some(999_999));
    assert_eq!(parse_millionths(""), None);
    assert_eq!(parse_millionths("."), None);
    assert_eq!(parse_millionths("-"), None);
    assert_eq!(parse_millionths("0.5.5"), None);
    assert_eq!(parse_millionths("0,5"), None);
    assert_eq!(parse_millionths("1e-1"), None);
    assert_eq!(parse_millionths("0.5-"), None);
}

#[test]
fn text_comparison_and_trimming() {
    assert!(same_text("PRESS", "PRESS"));
    assert!(!same_text("PRESS", "press"));
    assert!(!same_text("PRESS", "PRES"));
    assert!(same_text("", ""));
    assert!(same_text_ignoring_case("Flush", "fLUSH"));
    assert!(!same_text_ignoring_case("flush", "flash"));
    assert!(!same_text_ignoring_case("flush", "flushh"));
    assert!(!same_text_ignoring_case("@", "`"));
    assert_eq!(trim("  a b \t\r\n"), "a b");
    assert_eq!(trim("ab"), "ab");
    assert_eq!(trim(" \t "), "");
    assert_eq!(trim(""), "");
    assert_eq!(trim("\u{b}x\u{c}"), "x");
}
