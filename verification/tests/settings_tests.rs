use gcode3d::settings::{
    connection_info, find_setting, parse_number, ConnectionInfo, SettingRow, SettingValue,
};

fn row(id: &str, value: &str, row_type: u8) -> SettingRow {
    SettingRow::new(id.as_bytes().to_vec(), value.as_bytes().to_vec(), row_type)
}

#[test]
fn numbers_are_parsed_exactly() {
    assert_eq!(parse_number(b"0"), Some(0));
    assert_eq!(parse_number(b"115200"), Some(115200));
    assert_eq!(parse_number(b"+42"), Some(42));
    assert_eq!(parse_number(b"007"), Some(7));
    assert_eq!(parse_number(b"18446744073709551615"), Some(u64::MAX));
    assert_eq!(parse_number(b"18446744073709551616"), None);
    assert_eq!(parse_number(b"99999999999999999999999"), None);
    assert_eq!(parse_number(b""), None);
    assert_eq!(parse_number(b"+"), None);
    assert_eq!(parse_number(b"-1"), None);
    assert_eq!(parse_number(b"12a"), None);
    assert_eq!(parse_number(b" 12"), None);
    assert_eq!(parse_number(b"1.5"), None);
}

#[test]
fn rows_are_read_by_their_type() {
    let text = row("S_devicePath", "/dev/ttyUSB0", 0);
    assert_eq!((text.flag, text.number), (None, None));
    assert_eq!(text.value(), Some(SettingValue::Text { text: b"/dev/ttyUSB0".to_vec() }));

    assert_eq!(row("B_x", "1", 1).flag, Some(true));
    assert_eq!(row("B_x", "true", 1).flag, Some(true));
    assert_eq!(row("B_x", "false", 1).flag, Some(false));
    assert_eq!(row("B_x", "", 1).flag, Some(false));
    assert_eq!(row("B_x", "TRUE", 1).flag, Some(false));
    assert_eq!(row("B_x", "1", 1).value(), Some(SettingValue::Flag { flag: true }));

    assert_eq!(row("N_x", "", 2).number, Some(0));
    assert_eq!(row("N_x", "250000", 2).number, Some(250000));
    assert_eq!(row("N_x", "fast", 2).number, None);
    assert_eq!(row("N_x", "250000", 2).value(), Some(SettingValue::Number { number: 250000 }));
    assert_eq!(row("N_x", "fast", 2).value(), None);

    assert_eq!(row("F_x", "1.25", 3).value(), Some(SettingValue::Fraction { text: b"1.25".to_vec() }));
    assert_eq!(row("X_x", "1.25", 9).value(), None);
}

#[test]
fn settings_are_found_by_name() {
    let rows = vec![row("a", "1", 0), row("b", "2", 0), row("a", "3", 0)];
    assert_eq!(find_setting(&rows, b"a"), Some(2));
    assert_eq!(find_setting(&rows, b"b"), Some(1));
    assert_eq!(find_setting(&rows, b"c"), None);
    assert_eq!(find_setting(&Vec::new(), b"a"), None);
}

#[test]
fn connection_needs_a_path_and_a_rate() {
    let rows = vec![
        row("B_startOnBoot", "true", 1),
        row("S_devicePath", "/dev/ttyUSB0", 0),
        row("N_deviceBaud", "115200", 2),
    ];
    assert_eq!(
        connection_info(&rows),
        Some(ConnectionInfo::new(b"/dev/ttyUSB0".to_vec(), 115200))
    );
    assert_eq!(connection_info(&vec![row("S_devicePath", "/dev/ttyUSB0", 0)]), None);
    assert_eq!(connection_info(&vec![row("N_deviceBaud", "115200", 2)]), None);
    assert_eq!(
        connection_info(&vec![row("S_devicePath", "", 0), row("N_deviceBaud", "115200", 2)]),
        None
    );
    assert_eq!(
        connection_info(&vec![row("S_devicePath", "p", 0), row("N_deviceBaud", "", 2)]),
        None
    );
    assert_eq!(
        connection_info(&vec![row("S_devicePath", "p", 0), row("N_deviceBaud", "x", 2)]),
        None
    );
    assert_eq!(
        connection_info(&vec![row("S_devicePath", "p", 0), row("N_deviceBaud", "4294967296", 2)]),
        None
    );
    assert_eq!(
        connection_info(&vec![row("S_devicePath", "p", 0), row("N_deviceBaud", "4294967295", 2)]),
        Some(ConnectionInfo::new(b"p".to_vec(), u32::MAX))
    );
}
