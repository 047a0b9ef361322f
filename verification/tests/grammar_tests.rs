use gcode3d::models::WebsocketEvents;
use gcode3d::parser::{ack_of, holds_temperature, resend_of, Parser, TempInfo};
use gcode3d::routes::rename_file::valid_name;
use gcode3d::routes::upload_file::find_name;
use regex::Regex;

/// A small generator of lines over the bytes that the firmware's replies
/// are made of, the same lines on every run.
struct Lines {
    state: u64,
    pieces: &'static [&'static str],
}

impl Lines {
    fn new(seed: u64, pieces: &'static [&'static str]) -> Lines {
        Lines { state: seed, pieces }
    }

    fn next(&mut self) -> u64 {
        self.state = self.state.wrapping_mul(6364136223846793005).wrapping_add(1442695040888963407);
        self.state >> 33
    }

    fn line(&mut self, most: u64) -> String {
        let len = self.next() % (most + 1);
        (0..len)
            .map(|_| self.pieces[(self.next() % self.pieces.len() as u64) as usize])
            .collect()
    }
}

fn number(text: &str) -> u64 {
    text.parse::<u64>().unwrap_or(u64::MAX)
}

#[test]
fn temperature_lines_are_those_that_the_pattern_matches() {
    let pattern = Regex::new(r"((T\d?):(\d+\.?\d*) ?/(\d+\.?\d*))+").unwrap();
    let mut lines = Lines::new(
        1,
        &["T:", "T1:", "T12:", "T", "1", "20", ".", "5.", "/", " /", "/0", "  /", ":"],
    );
    let mut hits = 0;
    for _ in 0..20000 {
        let line = lines.line(10);
        let expected = pattern.is_match(&line);
        assert_eq!(holds_temperature(line.as_bytes()), expected, "{:?}", line);
        hits += expected as u32;
    }
    assert!(hits > 100);
}

#[test]
fn tool_readings_are_the_matches_of_the_pattern() {
    let pattern = Regex::new(r"(T\d?):(\d+\.?\d*) ?/(\d+\.?\d*)").unwrap();
    let bed = Regex::new(r"B:(\d+\.?\d*) ?/(\d+\.?\d*)").unwrap();
    let chamber = Regex::new(r"C:(\d+\.?\d*) ?/(\d+\.?\d*)").unwrap();
    let mut lines = Lines::new(
        2,
        &["T:", "T1:", "B:", "C:", "T", "1", "20", ".", "5.", "/", " /", "/0", " ", ":"],
    );
    let mut found = 0;
    for _ in 0..20000 {
        let line = lines.line(14);
        let expected: Vec<TempInfo> = pattern
            .captures_iter(&line)
            .map(|c| {
                TempInfo::new(
                    c[1].as_bytes().to_vec(),
                    c[2].as_bytes().to_vec(),
                    c[3].as_bytes().to_vec(),
                )
            })
            .collect();
        let heater = |pattern: &Regex| {
            pattern.captures(&line).map(|c| {
                TempInfo::new_no_name(c[1].as_bytes().to_vec(), c[2].as_bytes().to_vec())
            })
        };
        match Parser::parse_temperature(line.as_bytes()) {
            WebsocketEvents::TempUpdate { tools, bed: b, chamber: c } => {
                found += tools.len();
                assert_eq!(tools, expected, "{:?}", line);
                assert_eq!(b, heater(&bed), "{:?}", line);
                assert_eq!(c, heater(&chamber), "{:?}", line);
            }
            _ => panic!("no temperature update"),
        }
    }
    assert!(found > 100);
}

#[test]
fn resend_requests_are_the_matches_of_the_pattern() {
    let pattern = Regex::new(r"Resend: N?:?(\d+)").unwrap();
    let mut lines = Lines::new(3, &["N", ":", "0", "7", "12", "99999999999", " ", "x", "Resend: "]);
    let mut hits = 0;
    for _ in 0..20000 {
        let line = format!("{}Resend:{}", lines.line(2), lines.line(6));
        let expected = pattern.captures(&line).map(|c| number(&c[1]));
        assert_eq!(resend_of(line.as_bytes()), expected, "{:?}", line);
        hits += expected.is_some() as u32;
    }
    assert!(hits > 100);
}

#[test]
fn acknowledged_lines_are_the_matches_of_the_pattern() {
    let pattern = Regex::new(r"ok N(\d+)").unwrap();
    let mut lines = Lines::new(4, &["ok", " N", "N", " ", "0", "7", "12", "99999999999", "ok N"]);
    let mut hits = 0;
    for _ in 0..20000 {
        let line = format!("ok{}", lines.line(5));
        let expected = pattern.captures(&line).map(|c| number(&c[1]));
        assert_eq!(ack_of(line.as_bytes()), expected, "{:?}", line);
        hits += expected.is_some() as u32;
    }
    assert!(hits > 100);
}

#[test]
fn file_names_are_those_that_the_pattern_matches() {
    let pattern = Regex::new(r"^[^\\/.]*\.gcode$").unwrap();
    let mut lines = Lines::new(5, &["a", "b", ".", "/", "\\", " ", "ab"]);
    let mut hits = 0;
    for _ in 0..20000 {
        let stem = lines.line(4);
        let line = match lines.next() % 4 {
            0 => stem,
            1 => format!("{}.gcod", stem),
            _ => format!("{}.gcode{}", stem, lines.line(1)),
        };
        let expected = pattern.is_match(&line);
        assert_eq!(valid_name(line.as_bytes()), expected, "{:?}", line);
        hits += expected as u32;
    }
    assert!(hits > 100);
}

#[test]
fn uploaded_file_names_are_the_matches_of_the_pattern() {
    let pattern = Regex::new(
        r#"Content-Disposition: form-data; name="file"; filename="([^\\/.]*\.gcode)""#,
    )
    .unwrap();
    let mut lines = Lines::new(6, &["a", "b", ".", "/", "\\", " ", "\"", "\n", "ab"]);
    let mut hits = 0;
    for _ in 0..20000 {
        let lead = match lines.next() % 3 {
            0 => "Content-Disposition: form-data; name=\"file\"; filename=\"",
            1 => "--x\nContent-Disposition: form-data; name=\"file\"; filename=\"",
            _ => "Content-Disposition: form-data; name=\"file\"; filename='",
        };
        let tail = match lines.next() % 3 {
            0 => ".gcode\"",
            1 => ".gcode",
            _ => ".gcode\"\nContent-Disposition: form-data; name=\"file\"; filename=\"b.gcode\"",
        };
        let line = format!("{}{}{}{}", lead, lines.line(4), tail, lines.line(2));
        let expected = pattern.captures(&line).map(|c| c[1].as_bytes().to_vec());
        assert_eq!(find_name(line.as_bytes()), expected, "{:?}", line);
        hits += expected.is_some() as u32;
    }
    assert!(hits > 100);
}
