//! The firmware's replies, read line by line: temperature reports,
//! acknowledgements, resend requests and errors; and the numbered,
//! checksummed form in which a print line goes out.

use crate::models::{BridgeAction, WebsocketEvents, WebsocketEventsView};
use crate::text::{
    append, copy_bytes, decimal_digits, decimal_value, digits_end, first_from, is_digit,
    lemma_decimal_digits, lemma_first_from, lemma_first_from_none, lemma_space_dropped,
    lemma_spaceless_add, lemma_without_spaces, lit, lowered, matches_at, occurs_at, parse_decimal,
    saturated, skip_digits, slice_of, spaceless, starts_with, starts_with_lowered, strip_spaces,
    to_digits, views, without_spaces, xor_all, xor_bytes,
};
use vstd::prelude::*;
use vstd::string::*;

verus! {

/// One temperature reading: the heater's name (empty for the bed and the
/// chamber) and the two numbers as the firmware wrote them.
#[derive(Debug, PartialEq, Eq)]
pub struct TempInfo {
    tool_name: Vec<u8>,
    current_temp: Vec<u8>,
    target_temp: Vec<u8>,
}

pub struct TempInfoView {
    pub tool_name: Seq<u8>,
    pub current_temp: Seq<u8>,
    pub target_temp: Seq<u8>,
}

impl View for TempInfo {
    type V = TempInfoView;

    closed spec fn view(&self) -> TempInfoView {
        TempInfoView {
            tool_name: self.tool_name@,
            current_temp: self.current_temp@,
            target_temp: self.target_temp@,
        }
    }
}

impl DeepView for TempInfo {
    type V = TempInfoView;

    open spec fn deep_view(&self) -> TempInfoView {
        self@
    }
}

/// A number's text reads zero when none of its digits differs from `0`.
pub open spec fn reads_zero(number: Seq<u8>) -> bool {
    forall|i: int| 0 <= i < number.len() && is_digit(#[trigger] number[i]) ==> number[i] == 48
}

impl TempInfo {
    pub fn new(tool_name: Vec<u8>, current_temp: Vec<u8>, target_temp: Vec<u8>) -> (r: Self)
        ensures
            r@ == (TempInfoView {
                tool_name: tool_name@,
                current_temp: current_temp@,
                target_temp: target_temp@,
            }),
    {
        Self { tool_name, current_temp, target_temp }
    }

    pub fn new_no_name(current_temp: Vec<u8>, target_temp: Vec<u8>) -> (r: Self)
        ensures
            r@ == (TempInfoView {
                tool_name: Seq::<u8>::empty(),
                current_temp: current_temp@,
                target_temp: target_temp@,
            }),
    {
        Self { tool_name: Vec::new(), current_temp, target_temp }
    }

    pub fn tool_name(&self) -> (r: &Vec<u8>)
        ensures
            r@ == self@.tool_name,
    {
        &self.tool_name
    }

    pub fn current_temp(&self) -> (r: &Vec<u8>)
        ensures
            r@ == self@.current_temp,
    {
        &self.current_temp
    }

    pub fn target_temp(&self) -> (r: &Vec<u8>)
        ensures
            r@ == self@.target_temp,
    {
        &self.target_temp
    }

    /// Whether the current temperature reads zero: such a reading is
    /// reported to clients as absent.
    pub fn is_absent(&self) -> (r: bool)
        ensures
            r == reads_zero(self@.current_temp),
    {
        let mut i: usize = 0;
        while i < self.current_temp.len()
            invariant
                i <= self.current_temp.len(),
                forall|k: int|
                    0 <= k < i && is_digit(#[trigger] self.current_temp@[k])
                        ==> self.current_temp@[k] == 48,
            decreases self.current_temp.len() - i,
        {
            let b = self.current_temp[i];
            if 49 <= b && b <= 57 {
                return false;
            }
            i = i + 1;
        }
        true
    }

    pub fn copy(&self) -> (r: Self)
        ensures
            r@ == self@,
    {
        Self {
            tool_name: copy_bytes(self.tool_name.as_slice()),
            current_temp: copy_bytes(self.current_temp.as_slice()),
            target_temp: copy_bytes(self.target_temp.as_slice()),
        }
    }
}

/// The index behind the number (digits, an optional dot, digits) that starts
/// at `i`, if one starts there.
pub open spec fn number_end(s: Seq<u8>, i: int) -> Option<int> {
    if 0 <= i < s.len() && is_digit(s[i]) {
        let whole = digits_end(s, i);
        let dot = if whole < s.len() && s[whole] == 46 {
            whole + 1
        } else {
            whole
        };
        Some(digits_end(s, dot))
    } else {
        None
    }
}

/// The reading that starts at `i`, and the index behind it: the heater's
/// letter, for a tool an optional digit, a colon, the current temperature, an
/// optional space, a slash and the target temperature.
pub open spec fn reading_at(s: Seq<u8>, i: int, letter: u8, tool: bool) -> Option<
    (TempInfoView, int),
> {
    if !(0 <= i < s.len() && s[i] == letter) {
        None
    } else {
        let colon = if tool && i + 1 < s.len() && is_digit(s[i + 1]) {
            i + 2
        } else {
            i + 1
        };
        if !(colon < s.len() && s[colon] == 58) {
            None
        } else {
            match number_end(s, colon + 1) {
                None => None,
                Some(current_end) => {
                    let slash = if current_end < s.len() && s[current_end] == 32 {
                        current_end + 1
                    } else {
                        current_end
                    };
                    if !(slash < s.len() && s[slash] == 47) {
                        None
                    } else {
                        match number_end(s, slash + 1) {
                            None => None,
                            Some(end) => Some(
                                (
                                    TempInfoView {
                                        tool_name: if tool {
                                            s.subrange(i, colon)
                                        } else {
                                            Seq::<u8>::empty()
                                        },
                                        current_temp: s.subrange(colon + 1, current_end),
                                        target_temp: s.subrange(slash + 1, end),
                                    },
                                    end,
                                ),
                            ),
                        }
                    }
                },
            }
        }
    }
}

/// The first index at or behind `from` where a reading of that heater starts,
/// or the length of `s`.
pub open spec fn first_reading(s: Seq<u8>, letter: u8, tool: bool, from: int) -> int {
    first_from(|i: int| reading_at(s, i, letter, tool) is Some, from, s.len() as int)
}

/// The readings of that heater in `s` from `from` on, from left to right,
/// none overlapping another.
pub open spec fn readings_from(s: Seq<u8>, letter: u8, tool: bool, from: int) -> Seq<TempInfoView>
    decreases s.len() - from,
{
    if from < s.len() {
        let at = first_reading(s, letter, tool, from);
        match reading_at(s, at, letter, tool) {
            Some(found) => if at < s.len() && from < found.1 <= s.len() {
                seq![found.0].add(readings_from(s, letter, tool, found.1))
            } else {
                Seq::empty()
            },
            None => Seq::empty(),
        }
    } else {
        Seq::empty()
    }
}

/// The first reading of that heater in `s`.
pub open spec fn single_reading(s: Seq<u8>, letter: u8) -> Option<TempInfoView> {
    let at = first_reading(s, letter, false, 0);
    if at < s.len() {
        match reading_at(s, at, letter, false) {
            Some((info, end)) => Some(info),
            None => None,
        }
    } else {
        None
    }
}

/// A line is a temperature report when it holds a tool's reading.
pub open spec fn is_temperature(s: Seq<u8>) -> bool {
    first_reading(s, 84, true, 0) < s.len()
}

/// The index behind the number that starts at `i`.
fn scan_number(s: &[u8], i: usize) -> (r: Option<usize>)
    requires
        i <= s.len(),
    ensures
        match r {
            Some(end) => number_end(s@, i as int) == Some(end as int) && i < end <= s.len(),
            None => number_end(s@, i as int) is None,
        },
{
    if i < s.len() && 48 <= s[i] && s[i] <= 57 {
        let whole = skip_digits(s, i);
        let dot: usize = if whole < s.len() && s[whole] == 46 {
            whole + 1
        } else {
            whole
        };
        let end = skip_digits(s, dot);
        proof {
            lemma_first_from(|j: int| !is_digit(s@[j]), i as int, s.len() as int);
            assert(whole > i);
        }
        Some(end)
    } else {
        None
    }
}

/// The reading that starts at `i`, and the index behind it.
fn scan_reading(s: &[u8], i: usize, letter: u8, tool: bool) -> (r: Option<(TempInfo, usize)>)
    requires
        i <= s.len(),
    ensures
        match r {
            Some((info, end)) => reading_at(s@, i as int, letter, tool) == Some(
                (info@, end as int),
            ) && i < end <= s.len(),
            None => reading_at(s@, i as int, letter, tool) is None,
        },
{
    if !(i < s.len() && s[i] == letter) {
        return None;
    }
    let colon: usize = if tool && i + 1 < s.len() && 48 <= s[i + 1] && s[i + 1] <= 57 {
        i + 2
    } else {
        i + 1
    };
    if !(colon < s.len() && s[colon] == 58) {
        return None;
    }
    let current_end = match scan_number(s, colon + 1) {
        Some(e) => e,
        None => {
            return None;
        },
    };
    let slash: usize = if current_end < s.len() && s[current_end] == 32 {
        current_end + 1
    } else {
        current_end
    };
    if !(slash < s.len() && s[slash] == 47) {
        return None;
    }
    let end = match scan_number(s, slash + 1) {
        Some(e) => e,
        None => {
            return None;
        },
    };
    let name = if tool {
        slice_of(s, i, colon)
    } else {
        Vec::new()
    };
    let info = TempInfo::new(name, slice_of(s, colon + 1, current_end), slice_of(s, slash + 1, end));
    Some((info, end))
}

/// The first reading of that heater at or behind `from`: where it starts,
/// what it says and where it ends.
fn next_reading(s: &[u8], letter: u8, tool: bool, from: usize) -> (r: Option<(TempInfo, usize)>)
    requires
        from <= s.len(),
    ensures
        match r {
            Some((info, end)) => {
                let at = first_reading(s@, letter, tool, from as int);
                &&& at < s.len()
                &&& reading_at(s@, at, letter, tool) == Some((info@, end as int))
                &&& from < end <= s.len()
            },
            None => first_reading(s@, letter, tool, from as int) >= s.len(),
        },
{
    let ghost hit = |i: int| reading_at(s@, i, letter, tool) is Some;
    let mut i: usize = from;
    while i < s.len()
        invariant
            from <= i <= s.len(),
            hit == (|i: int| reading_at(s@, i, letter, tool) is Some),
            first_from(hit, from as int, s.len() as int) == first_from(
                hit,
                i as int,
                s.len() as int,
            ),
        decreases s.len() - i,
    {
        match scan_reading(s, i, letter, tool) {
            Some(found) => {
                assert(hit(i as int));
                return Some(found);
            },
            None => {
                assert(!hit(i as int));
            },
        }
        i = i + 1;
    }
    None
}

/// Whether `s` holds a tool's reading.
pub fn holds_temperature(s: &[u8]) -> (r: bool)
    ensures
        r == is_temperature(s@),
{
    next_reading(s, 84, true, 0).is_some()
}

/// The temperatures that one line reports.
#[derive(Debug, PartialEq, Eq)]
pub struct TempReport {
    pub tools: Vec<TempInfo>,
    pub bed: Option<TempInfo>,
    pub chamber: Option<TempInfo>,
}

pub struct TempReportView {
    pub tools: Seq<TempInfoView>,
    pub bed: Option<TempInfoView>,
    pub chamber: Option<TempInfoView>,
}

impl View for TempReport {
    type V = TempReportView;

    open spec fn view(&self) -> TempReportView {
        TempReportView {
            tools: self.tools.deep_view(),
            bed: self.bed.deep_view(),
            chamber: self.chamber.deep_view(),
        }
    }
}

/// What a line reports: every tool's reading, the first reading of the bed
/// (`B`) and the first of the chamber (`C`).
pub open spec fn temperature_report(s: Seq<u8>) -> TempReportView {
    TempReportView {
        tools: readings_from(s, 84, true, 0),
        bed: single_reading(s, 66),
        chamber: single_reading(s, 67),
    }
}

/// The index behind the bytes of `optional` that stand at `i`, each of them
/// skipped if it is there, in their order.
pub open spec fn skip_optional(s: Seq<u8>, i: int, optional: Seq<u8>) -> int
    decreases optional.len(),
{
    if optional.len() == 0 {
        i
    } else {
        let next = if 0 <= i < s.len() && s[i] == optional[0] {
            i + 1
        } else {
            i
        };
        skip_optional(s, next, optional.drop_first())
    }
}

/// The number that follows `head` at `i`, behind the optional bytes: `head`
/// stands at `i`, and at least one digit follows.
pub open spec fn number_after(s: Seq<u8>, i: int, head: Seq<u8>, optional: Seq<u8>) -> Option<nat> {
    if occurs_at(s, head, i) {
        let digits = skip_optional(s, i + head.len(), optional);
        if 0 <= digits < s.len() && is_digit(s[digits]) {
            Some(decimal_value(s.subrange(digits, digits_end(s, digits))))
        } else {
            None
        }
    } else {
        None
    }
}

/// The number behind the leftmost `head` that a number follows, cut off at the
/// largest `u64`.
pub open spec fn first_number_after(s: Seq<u8>, head: Seq<u8>, optional: Seq<u8>) -> Option<u64> {
    let at = first_from(|i: int| number_after(s, i, head, optional) is Some, 0, s.len() as int);
    if at < s.len() {
        match number_after(s, at, head, optional) {
            Some(n) => Some(saturated(n)),
            None => None,
        }
    } else {
        None
    }
}

/// The bytes that may stand between `Resend: ` and its number: `N`, then `:`.
pub open spec fn resend_optional() -> Seq<u8> {
    seq![78u8, 58u8]
}

/// The line that the firmware asks to have sent again, if `s` asks for one.
pub open spec fn resend_request(s: Seq<u8>) -> Option<u64> {
    first_number_after(s, lit("Resend: "), resend_optional())
}

/// The line number that an acknowledgement carries, if `s` carries one.
pub open spec fn acknowledged(s: Seq<u8>) -> Option<u64> {
    first_number_after(s, lit("ok N"), Seq::<u8>::empty())
}

/// The firmware's complaint about a line number out of sequence. A resend
/// request follows it, so it is no error of its own.
pub open spec fn is_suppressed(s: Seq<u8>) -> bool {
    lit("Error:Line Number is not Last Line Number+1").is_prefix_of(s)
}

/// A line that begins with `error` in any case, unless it is suppressed.
pub open spec fn is_error(s: Seq<u8>) -> bool {
    lit("error").is_prefix_of(lowered(s)) && !is_suppressed(s)
}

/// A line that begins with `ok`.
pub open spec fn is_ok(s: Seq<u8>) -> bool {
    lit("ok").is_prefix_of(s)
}

/// A line that says that the firmware is busy.
pub open spec fn is_busy(s: Seq<u8>) -> bool {
    lit("echo:busy: processing").is_prefix_of(lowered(s))
}

/// What a line of the firmware is.
#[derive(Debug, PartialEq, Eq)]
pub enum Classification {
    Temperature(TempReport),
    Okay { ack: Option<u64> },
    Resend { line: u64 },
    Error { text: Vec<u8> },
    Busy,
    Other,
}

pub enum ClassificationView {
    Temperature(TempReportView),
    Okay { ack: Option<u64> },
    Resend { line: u64 },
    Error { text: Seq<u8> },
    Busy,
    Other,
}

impl View for Classification {
    type V = ClassificationView;

    open spec fn view(&self) -> ClassificationView {
        match self {
            Classification::Temperature(report) => ClassificationView::Temperature(report@),
            Classification::Okay { ack } => ClassificationView::Okay { ack: *ack },
            Classification::Resend { line } => ClassificationView::Resend { line: *line },
            Classification::Error { text } => ClassificationView::Error { text: text@ },
            Classification::Busy => ClassificationView::Busy,
            Classification::Other => ClassificationView::Other,
        }
    }
}

/// The rules by which a line is classified, the first that applies.
pub open spec fn classification(s: Seq<u8>) -> ClassificationView {
    if is_temperature(s) {
        ClassificationView::Temperature(temperature_report(s))
    } else if resend_request(s) is Some {
        ClassificationView::Resend { line: resend_request(s).unwrap() }
    } else if is_error(s) {
        ClassificationView::Error { text: s }
    } else if is_ok(s) {
        ClassificationView::Okay { ack: acknowledged(s) }
    } else if is_busy(s) {
        ClassificationView::Busy
    } else {
        ClassificationView::Other
    }
}

/// `N`, the line number and the line without its spaces.
pub open spec fn numbered(linenr: nat, line: Seq<u8>) -> Seq<u8> {
    seq![78u8] + decimal_digits(linenr) + without_spaces(line)
}

/// The form in which a print line goes out: the numbered line, `*`, and the
/// exclusive or of the numbered line's bytes in decimal.
pub open spec fn checksummed(linenr: nat, line: Seq<u8>) -> Seq<u8> {
    numbered(linenr, line) + seq![42u8] + decimal_digits(xor_all(numbered(linenr, line)) as nat)
}

/// Every reading of a tool in `s`.
fn tool_readings(s: &[u8]) -> (tools: Vec<TempInfo>)
    ensures
        tools.deep_view() == readings_from(s@, 84, true, 0),
{
    let mut tools: Vec<TempInfo> = Vec::new();
    let mut pos: usize = 0;
    let mut done = false;
    assert(tools.deep_view() == Seq::<TempInfoView>::empty());
    while !done
        invariant
            pos <= s.len(),
            readings_from(s@, 84, true, 0) == tools.deep_view() + readings_from(
                s@,
                84,
                true,
                pos as int,
            ),
            done ==> readings_from(s@, 84, true, pos as int) == Seq::<TempInfoView>::empty(),
        decreases s.len() - pos + (if done { 0int } else { 1int }),
    {
        match next_reading(s, 84, true, pos) {
            Some((info, end)) => {
                let ghost before = tools.deep_view();
                let ghost view = info@;
                tools.push(info);
                assert(tools.deep_view() == before.push(view));
                assert(readings_from(s@, 84, true, pos as int) == seq![view] + readings_from(
                    s@,
                    84,
                    true,
                    end as int,
                ));
                assert(before + (seq![view] + readings_from(s@, 84, true, end as int))
                    == before.push(view) + readings_from(s@, 84, true, end as int));
                pos = end;
            },
            None => {
                done = true;
            },
        }
    }
    assert(tools.deep_view() + Seq::<TempInfoView>::empty() == tools.deep_view());
    tools
}

/// The first reading of the bed or of the chamber in `s`.
fn heater_reading(s: &[u8], letter: u8) -> (r: Option<TempInfo>)
    ensures
        r.deep_view() == single_reading(s@, letter),
{
    match next_reading(s, letter, false, 0) {
        Some((info, end)) => Some(info),
        None => None,
    }
}

/// The index behind the optional bytes at `i`.
fn skip_over(s: &[u8], i: usize, optional: &[u8]) -> (r: usize)
    requires
        i <= s.len(),
    ensures
        r == skip_optional(s@, i as int, optional@),
        i <= r <= s.len(),
{
    let mut at: usize = i;
    let mut k: usize = 0;
    assert(optional@.subrange(0, optional.len() as int) == optional@);
    while k < optional.len()
        invariant
            k <= optional.len(),
            i <= at <= s.len(),
            skip_optional(s@, i as int, optional@) == skip_optional(
                s@,
                at as int,
                optional@.subrange(k as int, optional.len() as int),
            ),
        decreases optional.len() - k,
    {
        let ghost rest = optional@.subrange(k as int, optional.len() as int);
        assert(rest.drop_first() == optional@.subrange(k + 1, optional.len() as int));
        if at < s.len() && s[at] == optional[k] {
            at = at + 1;
        }
        k = k + 1;
    }
    assert(optional@.subrange(optional.len() as int, optional.len() as int).len() == 0);
    at
}

/// The number that follows `head` at `i`.
fn scan_number_after(s: &[u8], i: usize, head: &[u8], optional: &[u8]) -> (r: Option<u64>)
    requires
        i <= s.len(),
    ensures
        match r {
            Some(n) => number_after(s@, i as int, head@, optional@) is Some && n == saturated(
                number_after(s@, i as int, head@, optional@).unwrap(),
            ),
            None => number_after(s@, i as int, head@, optional@) is None,
        },
{
    if !matches_at(s, head, i) {
        return None;
    }
    let digits = skip_over(s, i + head.len(), optional);
    if digits < s.len() && 48 <= s[digits] && s[digits] <= 57 {
        let end = skip_digits(s, digits);
        proof {
            let stop = |j: int| !is_digit(s@[j]);
            lemma_first_from(stop, digits as int, s.len() as int);
            assert forall|j: int| digits <= j < end implies is_digit(#[trigger] s@[j]) by {
                assert(!stop(j));
            }
        }
        Some(parse_decimal(s, digits, end))
    } else {
        None
    }
}

/// The number behind the leftmost `head` that a number follows.
fn find_number_after(s: &[u8], head: &[u8], optional: &[u8]) -> (r: Option<u64>)
    ensures
        r == first_number_after(s@, head@, optional@),
{
    let ghost hit = |i: int| number_after(s@, i, head@, optional@) is Some;
    let mut i: usize = 0;
    while i < s.len()
        invariant
            i <= s.len(),
            hit == (|i: int| number_after(s@, i, head@, optional@) is Some),
            first_from(hit, 0, s.len() as int) == first_from(hit, i as int, s.len() as int),
        decreases s.len() - i,
    {
        match scan_number_after(s, i, head, optional) {
            Some(n) => {
                assert(hit(i as int));
                return Some(n);
            },
            None => {
                assert(!hit(i as int));
            },
        }
        i = i + 1;
    }
    None
}

/// The line that `s` asks to have sent again.
pub fn resend_of(s: &[u8]) -> (r: Option<u64>)
    ensures
        r == resend_request(s@),
{
    let mut optional: Vec<u8> = Vec::new();
    optional.push(78);
    optional.push(58);
    assert(optional@ == resend_optional());
    find_number_after(s, "Resend: ".as_bytes(), optional.as_slice())
}

/// The line number that `s` acknowledges.
pub fn ack_of(s: &[u8]) -> (r: Option<u64>)
    ensures
        r == acknowledged(s@),
{
    let optional: Vec<u8> = Vec::new();
    find_number_after(s, "ok N".as_bytes(), optional.as_slice())
}

/// Whether `s` begins with `ok`.
pub fn begins_ok(s: &[u8]) -> (r: bool)
    ensures
        r == is_ok(s@),
{
    starts_with(s, "ok".as_bytes())
}

/// Whether `s` is an error that counts.
pub fn reports_error(s: &[u8]) -> (r: bool)
    ensures
        r == is_error(s@),
{
    starts_with_lowered(s, "error".as_bytes()) && !starts_with(
        s,
        "Error:Line Number is not Last Line Number+1".as_bytes(),
    )
}

/// Whether `s` says that the firmware is busy.
pub fn reports_busy(s: &[u8]) -> (r: bool)
    ensures
        r == is_busy(s@),
{
    starts_with_lowered(s, "echo:busy: processing".as_bytes())
}

/// The event that tells clients what a line reports.
pub open spec fn temperature_event(s: Seq<u8>) -> WebsocketEventsView {
    WebsocketEventsView::TempUpdate {
        tools: temperature_report(s).tools,
        bed: temperature_report(s).bed,
        chamber: temperature_report(s).chamber,
    }
}

/// The line number that the last acknowledgement of a batch carries.
pub open spec fn last_ack(batch: Seq<Seq<u8>>) -> Option<u64>
    decreases batch.len(),
{
    if batch.len() == 0 {
        None
    } else {
        match classification(batch.last()) {
            ClassificationView::Okay { ack } => ack,
            _ => last_ack(batch.drop_last()),
        }
    }
}

/// The index of the first resend request of a batch, or its length.
pub open spec fn first_resend(batch: Seq<Seq<u8>>) -> int {
    first_from(|i: int| classification(batch[i]) is Resend, 0, batch.len() as int)
}

/// The index of the first error of a batch, or its length.
pub open spec fn first_error(batch: Seq<Seq<u8>>) -> int {
    first_from(|i: int| classification(batch[i]) is Error, 0, batch.len() as int)
}

/// What a batch of replies asks for: the line of its first resend request;
/// else, if it holds an error, to stop; else to go on, with the line number of
/// its last acknowledgement.
pub open spec fn decision(batch: Seq<Seq<u8>>) -> BridgeAction {
    if first_resend(batch) < batch.len() {
        match classification(batch[first_resend(batch)]) {
            ClassificationView::Resend { line } => BridgeAction::Resend(line),
            _ => BridgeAction::Error,
        }
    } else if first_error(batch) < batch.len() {
        BridgeAction::Error
    } else {
        BridgeAction::Continue(last_ack(batch))
    }
}

pub struct Parser {}

impl Parser {
    /// Classifies one line of the firmware.
    pub fn classify(line: &[u8]) -> (r: Classification)
        ensures
            r@ == classification(line@),
    {
        if holds_temperature(line) {
            let tools = tool_readings(line);
            let bed = heater_reading(line, 66);
            let chamber = heater_reading(line, 67);
            return Classification::Temperature(TempReport { tools, bed, chamber });
        }
        match resend_of(line) {
            Some(n) => {
                return Classification::Resend { line: n };
            },
            None => {},
        }
        if reports_error(line) {
            Classification::Error { text: copy_bytes(line) }
        } else if begins_ok(line) {
            Classification::Okay { ack: ack_of(line) }
        } else if reports_busy(line) {
            Classification::Busy
        } else {
            Classification::Other
        }
    }

    /// The numbered, checksummed form of a print line, without a newline.
    pub fn add_checksum(linenr: u64, line: &[u8]) -> (r: Vec<u8>)
        ensures
            r@ == checksummed(linenr as nat, line@),
    {
        let mut out: Vec<u8> = Vec::new();
        out.push(78);
        let digits = to_digits(linenr);
        append(&mut out, digits.as_slice());
        let stripped = strip_spaces(line);
        append(&mut out, stripped.as_slice());
        assert(out@ == numbered(linenr as nat, line@));
        let cs = xor_bytes(out.as_slice());
        out.push(42);
        let cs_digits = to_digits(cs as u64);
        append(&mut out, cs_digits.as_slice());
        out
    }

    /// The temperatures that a line reports, as the event for the clients.
    pub fn parse_temperature(input: &[u8]) -> (r: WebsocketEvents)
        ensures
            r@ == temperature_event(input@),
    {
        let tools = tool_readings(input);
        let bed = heater_reading(input, 66);
        let chamber = heater_reading(input, 67);
        WebsocketEvents::TempUpdate { tools, bed, chamber }
    }

    /// Decides what a batch of replies asks for.
    pub fn parse_responses(responses: &Vec<Vec<u8>>) -> (r: BridgeAction)
        ensures
            r == decision(views(responses@)),
    {
        let ghost batch = views(responses@);
        let ghost resend = |i: int| classification(batch[i]) is Resend;
        let mut i: usize = 0;
        while i < responses.len()
            invariant
                i <= responses.len(),
                batch == views(responses@),
                resend == (|i: int| classification(batch[i]) is Resend),
                first_from(resend, 0, batch.len() as int) == first_from(
                    resend,
                    i as int,
                    batch.len() as int,
                ),
            decreases responses.len() - i,
        {
            match Self::classify(responses[i].as_slice()) {
                Classification::Resend { line } => {
                    assert(resend(i as int));
                    return BridgeAction::Resend(line);
                },
                _ => {
                    assert(!resend(i as int));
                },
            }
            i = i + 1;
        }
        let ghost error = |i: int| classification(batch[i]) is Error;
        let mut i: usize = 0;
        while i < responses.len()
            invariant
                i <= responses.len(),
                batch == views(responses@),
                first_resend(batch) >= batch.len(),
                error == (|i: int| classification(batch[i]) is Error),
                first_from(error, 0, batch.len() as int) == first_from(
                    error,
                    i as int,
                    batch.len() as int,
                ),
            decreases responses.len() - i,
        {
            match Self::classify(responses[i].as_slice()) {
                Classification::Error { text } => {
                    assert(error(i as int));
                    return BridgeAction::Error;
                },
                _ => {
                    assert(!error(i as int));
                },
            }
            i = i + 1;
        }
        let mut k: usize = responses.len();
        assert(batch.subrange(0, k as int) == batch);
        while k > 0
            invariant
                k <= responses.len(),
                batch == views(responses@),
                first_resend(batch) >= batch.len(),
                first_error(batch) >= batch.len(),
                last_ack(batch) == last_ack(batch.subrange(0, k as int)),
            decreases k,
        {
            let ghost upto = batch.subrange(0, k as int);
            assert(upto.last() == batch[k - 1]);
            assert(upto.drop_last() == batch.subrange(0, k - 1));
            match Self::classify(responses[k - 1].as_slice()) {
                Classification::Okay { ack } => {
                    return BridgeAction::Continue(ack);
                },
                _ => {},
            }
            k = k - 1;
        }
        assert(batch.subrange(0, 0).len() == 0);
        BridgeAction::Continue(None)
    }
}

/// Spaces in a print line change nothing in its checksummed form: the line
/// without its spaces gives the same.
pub proof fn lemma_checksum_of_stripped_line(linenr: nat, line: Seq<u8>)
    ensures
        checksummed(linenr, without_spaces(line)) == checksummed(linenr, line),
{
    lemma_without_spaces(line);
    lemma_without_spaces(without_spaces(line));
}

/// A space more in a print line, wherever it stands, changes nothing in
/// the line's checksummed form.
pub proof fn lemma_checksum_ignores_space(linenr: nat, before: Seq<u8>, after: Seq<u8>)
    ensures
        checksummed(linenr, before + seq![32u8] + after) == checksummed(linenr, before + after),
{
    lemma_space_dropped(before, after);
}

/// The checksummed form of a print line holds no space, begins with `N` and
/// ends with a digit.
pub proof fn lemma_checksummed_shape(linenr: nat, line: Seq<u8>)
    ensures
        spaceless(checksummed(linenr, line)),
        checksummed(linenr, line).len() >= 4,
        checksummed(linenr, line)[0] == 78,
        is_digit(checksummed(linenr, line).last()),
{
    let number = decimal_digits(linenr);
    let sum = decimal_digits(xor_all(numbered(linenr, line)) as nat);
    lemma_decimal_digits(linenr);
    lemma_decimal_digits(xor_all(numbered(linenr, line)) as nat);
    lemma_without_spaces(line);
    assert(spaceless(seq![78u8]));
    assert(spaceless(seq![42u8]));
    lemma_spaceless_add(seq![78u8], number);
    lemma_spaceless_add(seq![78u8] + number, without_spaces(line));
    lemma_spaceless_add(numbered(linenr, line), seq![42u8]);
    lemma_spaceless_add(numbered(linenr, line) + seq![42u8], sum);
    assert(checksummed(linenr, line).last() == sum.last());
}

/// A print line on the wire, read back as a reply of the firmware, is no
/// acknowledgement, no resend request and no error.
pub proof fn lemma_wire_line_is_no_reply(linenr: nat, line: Seq<u8>)
    ensures
        !(classification(checksummed(linenr, line).push(10)) is Okay),
        !(classification(checksummed(linenr, line).push(10)) is Resend),
        !(classification(checksummed(linenr, line).push(10)) is Error),
{
    let wire = checksummed(linenr, line).push(10);
    lemma_checksummed_shape(linenr, line);
    assert(wire[0] == 78);
    assert(spaceless(wire)) by {
        assert forall|i: int| 0 <= i < wire.len() implies #[trigger] wire[i] != 32 by {
            if i < wire.len() - 1 {
                assert(wire[i] == checksummed(linenr, line)[i]);
            }
        }
    }
    assert(!is_ok(wire)) by {
        reveal_strlit("ok");
        broadcast use is_ascii_spec_bytes;
        assert(is_ascii("ok"));
        if is_ok(wire) {
            assert(wire.subrange(0, 2)[0] == lit("ok")[0]);
        }
    }
    assert(!lit("error").is_prefix_of(lowered(wire))) by {
        reveal_strlit("error");
        broadcast use is_ascii_spec_bytes;
        assert(is_ascii("error"));
        if lit("error").is_prefix_of(lowered(wire)) {
            assert(lowered(wire).subrange(0, 5)[0] == lit("error")[0]);
        }
    }
    assert(resend_request(wire) is None) by {
        reveal_strlit("Resend: ");
        broadcast use is_ascii_spec_bytes;
        assert(is_ascii("Resend: "));
        let head = lit("Resend: ");
        assert(head.len() == 8);
        assert(head[7] == 32);
        let hit = |i: int| number_after(wire, i, head, resend_optional()) is Some;
        assert forall|i: int| 0 <= i < wire.len() implies !#[trigger] hit(i) by {
            if occurs_at(wire, head, i) {
                assert(wire.subrange(i, i + 8)[7] == head[7]);
                assert(wire[i + 7] == 32);
            }
        }
        lemma_first_from_none(hit, 0, wire.len() as int);
    }
}

} // verus!
