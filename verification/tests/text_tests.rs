use gcode3d::text::{
    append, bytes_of, contains, copy_bytes, copy_lines, cut_comment, lower_byte, matches_at,
    same_bytes, space_byte, starts_with, starts_with_lowered, strip_spaces, to_digits, trim,
    xor_bytes,
};

#[test]
fn digits_of_numbers() {
    assert_eq!(to_digits(0), b"0".to_vec());
    assert_eq!(to_digits(7), b"7".to_vec());
    assert_eq!(to_digits(10), b"10".to_vec());
    assert_eq!(to_digits(1234567890), b"1234567890".to_vec());
    assert_eq!(to_digits(u64::MAX), b"18446744073709551615".to_vec());
}

#[test]
fn white_space_is_trimmed_at_both_ends() {
    assert_eq!(trim(b"  G28 \t\r\n"), b"G28".to_vec());
    assert_eq!(trim(b"G1 X1"), b"G1 X1".to_vec());
    assert_eq!(trim(b" \x0b\x0c "), Vec::<u8>::new());
    assert_eq!(trim(b""), Vec::<u8>::new());
    assert_eq!(trim(b"\xa0x\xa0"), b"\xa0x\xa0".to_vec());
    assert!(space_byte(b' ') && space_byte(b'\t') && space_byte(b'\r') && !space_byte(b'x'));
}

#[test]
fn spaces_are_stripped_everywhere() {
    assert_eq!(strip_spaces(b" G1  X10 Y20 "), b"G1X10Y20".to_vec());
    assert_eq!(strip_spaces(b"G1\tX10"), b"G1\tX10".to_vec());
    assert_eq!(strip_spaces(b"   "), Vec::<u8>::new());
}

#[test]
fn comment_is_cut_at_the_first_semicolon() {
    assert_eq!(cut_comment(b"G28 ; home ; now"), b"G28 ".to_vec());
    assert_eq!(cut_comment(b"G28"), b"G28".to_vec());
    assert_eq!(cut_comment(b";"), Vec::<u8>::new());
}

#[test]
fn xor_of_bytes() {
    assert_eq!(xor_bytes(b""), 0);
    assert_eq!(xor_bytes(b"N"), 78);
    assert_eq!(xor_bytes(b"N1G28"), 50);
    assert_eq!(xor_bytes(b"aa"), 0);
}

#[test]
fn prefixes_and_occurrences() {
    assert!(starts_with(b"ok N5", b"ok"));
    assert!(starts_with(b"ok", b""));
    assert!(!starts_with(b"o", b"ok"));
    assert!(!starts_with(b" ok", b"ok"));
    assert!(starts_with_lowered(b"ERROR: x", b"error"));
    assert!(starts_with_lowered(b"Error", b"error"));
    assert!(!starts_with_lowered(b"Erro", b"error"));
    assert!(!starts_with_lowered(b"error", b"Error"));
    assert!(matches_at(b"abcabc", b"bc", 1));
    assert!(matches_at(b"abcabc", b"bc", 4));
    assert!(!matches_at(b"abcabc", b"bc", 5));
    assert!(!matches_at(b"abcabc", b"bc", 7));
    assert!(matches_at(b"abc", b"", 3));
    assert!(contains(b"Cap:EEPROM:1", b"EEPROM"));
    assert!(contains(b"", b""));
    assert!(!contains(b"Cap:EEPROM:0", b"EEPROM:1"));
    assert_eq!(lower_byte(b'A'), b'a');
    assert_eq!(lower_byte(b'Z'), b'z');
    assert_eq!(lower_byte(b'@'), b'@');
    assert_eq!(lower_byte(b'['), b'[');
    assert_eq!(lower_byte(b'a'), b'a');
}

#[test]
fn bytes_are_copied_and_compared() {
    assert_eq!(bytes_of("M115"), b"M115".to_vec());
    assert_eq!(bytes_of("é"), vec![0xc3, 0xa9]);
    assert_eq!(copy_bytes(b"abc"), b"abc".to_vec());
    assert!(same_bytes(b"abc", b"abc"));
    assert!(!same_bytes(b"abc", b"abd"));
    assert!(!same_bytes(b"abc", b"ab"));
    let lines = vec![b"a".to_vec(), Vec::new(), b"bc".to_vec()];
    assert_eq!(copy_lines(&lines), lines);
    let mut out = b"N1".to_vec();
    append(&mut out, b"G28");
    assert_eq!(out, b"N1G28".to_vec());
}
