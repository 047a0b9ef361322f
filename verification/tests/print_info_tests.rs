use gcode3d::print_info::{strip_line, PrintInfo, Progress};

fn raw(texts: &[&str]) -> Vec<Vec<u8>> {
    texts.iter().map(|t| t.as_bytes().to_vec()).collect()
}

fn all_lines(job: &PrintInfo) -> Vec<Vec<u8>> {
    let mut out = Vec::new();
    let mut i = 0u64;
    while let Some(line) = job.get_line_by_index(i) {
        assert_eq!(line.line_number(), i);
        out.push(line.content().clone());
        i += 1;
    }
    out
}

#[test]
fn load_prepends_the_reset_command() {
    let job = PrintInfo::new(b"cube.gcode".to_vec(), &raw(&["G28", "G1 X10"]), 1234);
    assert_eq!(all_lines(&job), raw(&["M110 N0", "G28", "G1 X10"]));
    assert_eq!(job.get_line_amount(), 3);
    assert_eq!(job.filename().as_slice(), b"cube.gcode");
    assert_eq!(job.start(), 1234);
    assert_eq!(job.end(), None);
    assert_eq!(job.line_number(), 0);
    assert_eq!(job.data_sent(), 0);
    assert_eq!(job.get_resend_amount(), 0);
}

#[test]
fn load_strips_comments_blanks_and_white_space() {
    let job = PrintInfo::new(
        b"a.gcode".to_vec(),
        &raw(&[
            "; generated by a slicer",
            "",
            "  G28 ; home all",
            "\tG1 X10 Y20\r",
            "   ",
            ";",
            "M104 S200;heat;up",
        ]),
        0,
    );
    assert_eq!(all_lines(&job), raw(&["M110 N0", "G28", "G1 X10 Y20", "M104 S200"]));
    assert_eq!(job.filesize(), (3 + 10 + 9) as u64);
}

#[test]
fn load_is_the_same_however_comments_and_blanks_are_mixed_in() {
    let plain = PrintInfo::new(b"f".to_vec(), &raw(&["G28", "G1 X1", "M84"]), 0);
    let noisy = PrintInfo::new(
        b"f".to_vec(),
        &raw(&["", "; header", "G28 ; home", "", "  ", "G1 X1;move", ";;", "M84", "; end", ""]),
        0,
    );
    assert_eq!(all_lines(&plain), all_lines(&noisy));
    assert_eq!(plain.filesize(), noisy.filesize());
}

#[test]
fn load_of_an_empty_file_holds_the_reset_command_only() {
    let job = PrintInfo::new(b"empty.gcode".to_vec(), &raw(&[]), 0);
    assert_eq!(all_lines(&job), raw(&["M110 N0"]));
    assert_eq!(job.filesize(), 0);
    assert_eq!(job.get_line_amount(), 1);
    assert_eq!(job.progress().rounded_tenths(), 0);
}

#[test]
fn load_now_takes_the_clock() {
    let job = PrintInfo::load(b"f".to_vec(), &raw(&["G28"]));
    assert!(job.start() > 1_600_000_000_000);
    assert_eq!(all_lines(&job), raw(&["M110 N0", "G28"]));
}

#[test]
fn strip_line_cuts_at_the_first_semicolon() {
    assert_eq!(strip_line(b"  G1 X1 ; a ; b "), b"G1 X1".to_vec());
    assert_eq!(strip_line(b";G1"), Vec::<u8>::new());
    assert_eq!(strip_line(b" \t\r\n"), Vec::<u8>::new());
    assert_eq!(strip_line(b"G1  X1"), b"G1  X1".to_vec());
}

#[test]
fn line_lookup_outside_the_job_is_none() {
    let job = PrintInfo::new(b"f".to_vec(), &raw(&["G28"]), 0);
    assert!(job.get_line_by_index(2).is_none());
    assert!(job.get_line_by_index(u64::MAX).is_none());
    assert_eq!(job.get_line_by_index(1).unwrap().content().as_slice(), b"G28");
}

#[test]
fn line_wire_form_is_numbered_and_checksummed() {
    let job = PrintInfo::new(b"f".to_vec(), &raw(&["G1 X10 Y20"]), 0);
    let line = job.get_line_by_index(1).unwrap();
    assert_eq!(line.wire(), b"N1G1X10Y20*11".to_vec());
}

#[test]
fn cursor_is_set_and_advanced() {
    let mut job = PrintInfo::new(b"f".to_vec(), &raw(&["G28"]), 0);
    job.set_line_number(7);
    assert_eq!(job.line_number(), 7);
    assert_eq!(job.advance(), 8);
    assert_eq!(job.line_number(), 8);
    job.set_line_number(u64::MAX);
    assert_eq!(job.advance(), u64::MAX);
}

#[test]
fn bytes_sent_and_progress() {
    let mut job = PrintInfo::new(b"f".to_vec(), &raw(&["G28", "G1 X10 Y2", " M84 "]), 0);
    assert_eq!(job.filesize(), 15);
    job.add_bytes_sent(3);
    assert_eq!(job.data_sent(), 3);
    assert_eq!(job.progress(), Progress { data_sent: 3, filesize: 15 });
    assert_eq!(job.progress().rounded_tenths(), 200);
    job.add_bytes_sent(9);
    assert_eq!(job.progress().rounded_tenths(), 800);
    job.add_bytes_sent(u64::MAX);
    assert_eq!(job.data_sent(), u64::MAX);
}

#[test]
fn bytes_sent_of_an_empty_job_stay_zero() {
    let mut job = PrintInfo::new(b"f".to_vec(), &raw(&[";"]), 0);
    job.add_bytes_sent(10);
    assert_eq!(job.data_sent(), 0);
    assert_eq!(job.progress().rounded_tenths(), 0);
}

#[test]
fn progress_rounds_to_the_nearest_tenth() {
    assert_eq!(Progress { data_sent: 1, filesize: 3 }.rounded_tenths(), 333);
    assert_eq!(Progress { data_sent: 2, filesize: 3 }.rounded_tenths(), 667);
    assert_eq!(Progress { data_sent: 1, filesize: 2000 }.rounded_tenths(), 1);
    assert_eq!(Progress { data_sent: 1, filesize: 2001 }.rounded_tenths(), 0);
    assert_eq!(Progress { data_sent: 0, filesize: 0 }.rounded_tenths(), 0);
    assert_eq!(Progress { data_sent: 5, filesize: 0 }.rounded_tenths(), 0);
    assert_eq!(
        Progress { data_sent: u64::MAX, filesize: 1 }.rounded_tenths(),
        u64::MAX as u128 * 1000
    );
}

#[test]
fn resend_limit_is_a_tenth_of_the_lines() {
    let texts: Vec<String> = (0..19).map(|i| format!("G1 X{}", i)).collect();
    let refs: Vec<&str> = texts.iter().map(|s| s.as_str()).collect();
    let mut job = PrintInfo::new(b"f".to_vec(), &raw(&refs), 0);
    assert_eq!(job.get_line_amount(), 20);
    job.report_resend();
    assert_eq!(job.get_resend_amount(), 1);
    assert!(!job.resend_limit_exceeded());
    job.report_resend();
    assert!(!job.resend_limit_exceeded());
    job.report_resend();
    assert_eq!(job.get_resend_amount(), 3);
    assert!(job.resend_limit_exceeded());
}
