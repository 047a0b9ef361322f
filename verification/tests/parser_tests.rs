use gcode3d::models::{BridgeAction, WebsocketEvents};
use gcode3d::parser::{ack_of, resend_of, Classification, Parser, TempInfo};

fn xor(bytes: &[u8]) -> u8 {
    bytes.iter().fold(0u8, |a, b| a ^ b)
}

fn lines(texts: &[&str]) -> Vec<Vec<u8>> {
    texts.iter().map(|t| t.as_bytes().to_vec()).collect()
}

#[test]
fn checksum_of_a_short_command() {
    let wire = Parser::add_checksum(1, b"G28");
    assert_eq!(xor(b"N1G28"), 50);
    assert_eq!(wire, b"N1G28*50".to_vec());
}

#[test]
fn checksum_strips_spaces_and_numbers_the_line() {
    let wire = Parser::add_checksum(10, b"G1 X10 Y20");
    assert_eq!(xor(b"N10G1X10Y20"), 59);
    assert_eq!(wire, b"N10G1X10Y20*59".to_vec());
}

#[test]
fn checksum_is_the_xor_of_the_numbered_line() {
    for (nr, text) in [(0u64, "M110 N0"), (7, "G1 X1.5 Y2 E0.3"), (123456, " M105 "), (42, "")] {
        let wire = Parser::add_checksum(nr, text.as_bytes());
        let star = wire.iter().position(|b| *b == b'*').unwrap();
        let numbered = &wire[..star];
        let expected: Vec<u8> =
            format!("N{}{}", nr, text.replace(' ', "")).into_bytes();
        assert_eq!(numbered, expected.as_slice());
        assert_eq!(&wire[star + 1..], format!("{}", xor(numbered)).as_bytes());
        assert!(!wire.contains(&b'\n'));
    }
}

#[test]
fn checksum_ignores_spaces_in_the_line() {
    assert_eq!(Parser::add_checksum(3, b"G1 X10"), Parser::add_checksum(3, b"G1X10"));
    assert_eq!(Parser::add_checksum(3, b"  G 1  X 1 0 "), Parser::add_checksum(3, b"G1X10"));
}

#[test]
fn checksum_of_the_largest_line_number() {
    let wire = Parser::add_checksum(u64::MAX, b"G0");
    assert!(wire.starts_with(b"N18446744073709551615G0*"));
}

#[test]
fn wire_line_is_not_taken_for_a_reply() {
    for (nr, text) in [(1u64, "G28"), (5, "ok"), (6, "Resend: 5"), (7, "error"), (8, "M117 ok N5")] {
        let mut wire = Parser::add_checksum(nr, text.as_bytes());
        wire.push(b'\n');
        match Parser::classify(&wire) {
            Classification::Okay { .. } | Classification::Resend { .. } | Classification::Error { .. } => {
                panic!("wire line classified as a reply")
            }
            _ => {}
        }
    }
}

#[test]
fn classify_plain_ok() {
    assert_eq!(Parser::classify(b"ok"), Classification::Okay { ack: None });
    assert_eq!(Parser::classify(b"ok\n"), Classification::Okay { ack: None });
}

#[test]
fn classify_ok_with_line_number() {
    assert_eq!(Parser::classify(b"ok N6"), Classification::Okay { ack: Some(6) });
    assert_eq!(Parser::classify(b"ok N123 P15 B3"), Classification::Okay { ack: Some(123) });
    assert_eq!(Parser::classify(b"ok N"), Classification::Okay { ack: None });
}

#[test]
fn classify_ok_number_saturates() {
    assert_eq!(
        Parser::classify(b"ok N99999999999999999999999"),
        Classification::Okay { ack: Some(u64::MAX) }
    );
    assert_eq!(
        Parser::classify(b"ok N18446744073709551615"),
        Classification::Okay { ack: Some(u64::MAX) }
    );
    assert_eq!(
        Parser::classify(b"ok N18446744073709551614"),
        Classification::Okay { ack: Some(u64::MAX - 1) }
    );
}

#[test]
fn classify_resend_forms() {
    assert_eq!(Parser::classify(b"Resend: 5"), Classification::Resend { line: 5 });
    assert_eq!(Parser::classify(b"Resend: N5"), Classification::Resend { line: 5 });
    assert_eq!(Parser::classify(b"Resend: N:17"), Classification::Resend { line: 17 });
    assert_eq!(Parser::classify(b"Resend: :8"), Classification::Resend { line: 8 });
    assert_eq!(Parser::classify(b"echo Resend: N42 now"), Classification::Resend { line: 42 });
}

#[test]
fn classify_resend_needs_a_number() {
    assert_eq!(Parser::classify(b"Resend: N"), Classification::Other);
    assert_eq!(Parser::classify(b"Resend:5"), Classification::Other);
    assert_eq!(resend_of(b"Resend: x Resend: 9"), Some(9));
}

#[test]
fn classify_error_in_any_case() {
    assert_eq!(
        Parser::classify(b"Error:Printer halted"),
        Classification::Error { text: b"Error:Printer halted".to_vec() }
    );
    assert_eq!(
        Parser::classify(b"error: checksum mismatch"),
        Classification::Error { text: b"error: checksum mismatch".to_vec() }
    );
    assert_eq!(Parser::classify(b"ERROR"), Classification::Error { text: b"ERROR".to_vec() });
}

#[test]
fn classify_suppresses_line_number_mismatch() {
    assert_eq!(
        Parser::classify(b"Error:Line Number is not Last Line Number+1, Last Line: 7"),
        Classification::Other
    );
    assert_eq!(
        Parser::classify(b"error:Line Number is not Last Line Number+1"),
        Classification::Error { text: b"error:Line Number is not Last Line Number+1".to_vec() }
    );
}

#[test]
fn classify_resend_wins_over_error() {
    assert_eq!(Parser::classify(b"Error: Resend: 3"), Classification::Resend { line: 3 });
}

#[test]
fn classify_busy() {
    assert_eq!(Parser::classify(b"echo:busy: processing"), Classification::Busy);
    assert_eq!(Parser::classify(b"Echo:Busy: Processing\n"), Classification::Busy);
    assert_eq!(Parser::classify(b"echo:busy: paused for user"), Classification::Other);
}

#[test]
fn classify_other() {
    assert_eq!(Parser::classify(b""), Classification::Other);
    assert_eq!(Parser::classify(b"start"), Classification::Other);
    assert_eq!(Parser::classify(b"FIRMWARE_NAME:Marlin 2.0"), Classification::Other);
    assert_eq!(Parser::classify(b" ok"), Classification::Other);
}

#[test]
fn classify_temperature_goes_first() {
    match Parser::classify(b"ok T:203.12 /210.00 B:59.8 /60.0\n") {
        Classification::Temperature(report) => {
            assert_eq!(report.tools.len(), 1);
            assert_eq!(report.tools[0].tool_name().as_slice(), b"T");
            assert_eq!(report.tools[0].current_temp().as_slice(), b"203.12");
            assert_eq!(report.tools[0].target_temp().as_slice(), b"210.00");
            let bed = report.bed.unwrap();
            assert_eq!(bed.tool_name().as_slice(), b"");
            assert_eq!(bed.current_temp().as_slice(), b"59.8");
            assert_eq!(bed.target_temp().as_slice(), b"60.0");
            assert!(report.chamber.is_none());
        }
        other => panic!("not a temperature report: {:?}", other),
    }
}

#[test]
fn temperature_numbers_read_as_floats() {
    match Parser::parse_temperature(b"ok T:203.12 /210.00 B:59.8 /60.0\n") {
        WebsocketEvents::TempUpdate { tools, bed, chamber } => {
            let value = |text: &Vec<u8>| -> f64 {
                std::str::from_utf8(text).unwrap().parse::<f64>().unwrap_or(0.0)
            };
            assert_eq!(tools.len(), 1);
            assert_eq!(value(tools[0].current_temp()), 203.12);
            assert_eq!(value(tools[0].target_temp()), 210.00);
            let bed = bed.unwrap();
            assert_eq!(value(bed.current_temp()), 59.8);
            assert_eq!(value(bed.target_temp()), 60.0);
            assert!(chamber.is_none());
        }
        _ => panic!("not a temperature update"),
    }
}

#[test]
fn temperature_of_several_tools_and_chamber() {
    match Parser::parse_temperature(b" T:20.5 /0 B:21/0 T0:20.5 /0.0 T1:19/0 C:25.1 /30 @:0 B@:0") {
        WebsocketEvents::TempUpdate { tools, bed, chamber } => {
            assert_eq!(
                tools,
                vec![
                    TempInfo::new(b"T".to_vec(), b"20.5".to_vec(), b"0".to_vec()),
                    TempInfo::new(b"T0".to_vec(), b"20.5".to_vec(), b"0.0".to_vec()),
                    TempInfo::new(b"T1".to_vec(), b"19".to_vec(), b"0".to_vec()),
                ]
            );
            assert_eq!(bed, Some(TempInfo::new_no_name(b"21".to_vec(), b"0".to_vec())));
            assert_eq!(chamber, Some(TempInfo::new_no_name(b"25.1".to_vec(), b"30".to_vec())));
        }
        _ => panic!("not a temperature update"),
    }
}

#[test]
fn temperature_needs_a_complete_reading() {
    assert_eq!(Parser::classify(b"T:"), Classification::Other);
    assert_eq!(Parser::classify(b"T:20"), Classification::Other);
    assert_eq!(Parser::classify(b"T:20 /"), Classification::Other);
    assert_eq!(Parser::classify(b"T:20  /30"), Classification::Other);
    assert_eq!(Parser::classify(b"T12:20/30"), Classification::Other);
    assert_eq!(Parser::classify(b"B:20/30"), Classification::Other);
    assert!(matches!(Parser::classify(b"T:20/30"), Classification::Temperature(_)));
    assert!(matches!(Parser::classify(b"xT5:1./2."), Classification::Temperature(_)));
}

#[test]
fn temperature_number_stops_at_second_dot() {
    match Parser::classify(b"T:1.2.3/4") {
        Classification::Other => {}
        other => panic!("unexpected: {:?}", other),
    }
    match Parser::classify(b"T:1.2/4.5.6") {
        Classification::Temperature(report) => {
            assert_eq!(report.tools[0].target_temp().as_slice(), b"4.5");
        }
        other => panic!("unexpected: {:?}", other),
    }
}

#[test]
fn zero_reading_is_absent() {
    assert!(TempInfo::new(b"T".to_vec(), b"0".to_vec(), b"210".to_vec()).is_absent());
    assert!(TempInfo::new(b"T".to_vec(), b"0.00".to_vec(), b"210".to_vec()).is_absent());
    assert!(TempInfo::new(b"T".to_vec(), b"000.".to_vec(), b"210".to_vec()).is_absent());
    assert!(!TempInfo::new(b"T".to_vec(), b"0.01".to_vec(), b"0".to_vec()).is_absent());
    assert!(!TempInfo::new(b"T".to_vec(), b"203.12".to_vec(), b"0".to_vec()).is_absent());
}

#[test]
fn ack_number_is_found_anywhere() {
    assert_eq!(ack_of(b"ok N6"), Some(6));
    assert_eq!(ack_of(b"ok"), None);
    assert_eq!(ack_of(b"ok ok N77"), Some(77));
    assert_eq!(ack_of(b"ok N007"), Some(7));
}

#[test]
fn responses_without_trouble_continue() {
    assert_eq!(Parser::parse_responses(&lines(&[])), BridgeAction::Continue(None));
    assert_eq!(Parser::parse_responses(&lines(&["ok"])), BridgeAction::Continue(None));
    assert_eq!(
        Parser::parse_responses(&lines(&["echo: hello", "ok N12"])),
        BridgeAction::Continue(Some(12))
    );
    assert_eq!(
        Parser::parse_responses(&lines(&["ok N3", "ok"])),
        BridgeAction::Continue(None)
    );
    assert_eq!(
        Parser::parse_responses(&lines(&["ok N3", "ok N4", "text"])),
        BridgeAction::Continue(Some(4))
    );
}

#[test]
fn responses_with_resend_ask_for_the_first_one() {
    assert_eq!(
        Parser::parse_responses(&lines(&["Resend: N5", "ok"])),
        BridgeAction::Resend(5)
    );
    assert_eq!(
        Parser::parse_responses(&lines(&["Resend: 9", "Resend: 5", "ok"])),
        BridgeAction::Resend(9)
    );
}

#[test]
fn responses_resend_goes_before_error() {
    assert_eq!(
        Parser::parse_responses(&lines(&["Error:checksum mismatch", "Resend: 4", "ok"])),
        BridgeAction::Resend(4)
    );
    assert_eq!(
        Parser::parse_responses(&lines(&[
            "Error:Line Number is not Last Line Number+1, Last Line: 3",
            "Resend: 4",
            "ok"
        ])),
        BridgeAction::Resend(4)
    );
}

#[test]
fn responses_with_error_stop() {
    assert_eq!(
        Parser::parse_responses(&lines(&["Error:Printer halted. kill() called!", "ok"])),
        BridgeAction::Error
    );
    assert_eq!(Parser::parse_responses(&lines(&["ok", "ERROR"])), BridgeAction::Error);
}

#[test]
fn responses_suppressed_error_alone_continues() {
    assert_eq!(
        Parser::parse_responses(&lines(&[
            "Error:Line Number is not Last Line Number+1, Last Line: 3",
            "ok"
        ])),
        BridgeAction::Continue(None)
    );
}
