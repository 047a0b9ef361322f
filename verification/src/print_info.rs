//! A print job: the lines of a G-code file made ready for the wire, and how
//! far the print has come.

use crate::outside::now;
use crate::parser::{checksummed, Parser};
use crate::text::{
    before_comment, bytes_of, comment_start, copy_bytes, cut_comment, leading_space,
    lemma_first_from, lemma_first_from_none, lit, saturated, trailing_space, trim, trimmed, views,
};
use vstd::prelude::*;

verus! {

/// A raw line without its comment and without the white space around it.
pub open spec fn stripped(raw: Seq<u8>) -> Seq<u8> {
    trimmed(before_comment(raw))
}

pub open spec fn strip() -> spec_fn(Seq<u8>) -> Seq<u8> {
    |l: Seq<u8>| stripped(l)
}

pub open spec fn kept() -> spec_fn(Seq<u8>) -> bool {
    |l: Seq<u8>| l.len() > 0
}

/// The commands of a file: its lines stripped, the empty ones left out.
pub open spec fn payload(raw: Seq<Seq<u8>>) -> Seq<Seq<u8>> {
    raw.map_values(strip()).filter(kept())
}

/// The command that resets the firmware's line counter.
pub open spec fn reset_line() -> Seq<u8> {
    lit("M110 N0")
}

/// The lines of a job: the reset command, then the file's commands.
pub open spec fn job_lines(raw: Seq<Seq<u8>>) -> Seq<Seq<u8>> {
    seq![reset_line()] + payload(raw)
}

/// A command as a job holds it: not empty, without a comment, and without
/// white space at its ends.
pub open spec fn is_command(line: Seq<u8>) -> bool {
    &&& line.len() > 0
    &&& forall|j: int| 0 <= j < line.len() ==> #[trigger] line[j] != 59
    &&& !crate::text::is_space(line[0])
    &&& !crate::text::is_space(line.last())
}

/// The lines of a job are the reset command and, behind it, commands.
pub open spec fn are_job_lines(lines: Seq<Seq<u8>>) -> bool {
    &&& lines.len() >= 1
    &&& lines[0] == reset_line()
    &&& forall|i: int| 1 <= i < lines.len() ==> is_command(#[trigger] lines[i])
}

/// The sum of the lengths of `lines`.
pub open spec fn total_len(lines: Seq<Seq<u8>>) -> nat
    decreases lines.len(),
{
    if lines.len() == 0 {
        0
    } else {
        total_len(lines.drop_last()) + lines.last().len()
    }
}

/// How far a print has come: bytes sent, of the bytes of the file's commands.
#[derive(Clone, Copy, Debug, PartialEq, Eq, Structural)]
pub struct Progress {
    pub data_sent: u64,
    pub filesize: u64,
}

impl Progress {
    /// The progress in tenths of a percent, rounded to the nearest, a half
    /// upwards; 0 for an empty file.
    pub open spec fn tenths(self) -> nat {
        if self.filesize == 0 {
            0
        } else {
            ((self.data_sent * 1000 + self.filesize / 2) / (self.filesize as int)) as nat
        }
    }

    pub fn rounded_tenths(&self) -> (r: u128)
        ensures
            r == self.tenths(),
    {
        if self.filesize == 0 {
            0
        } else {
            let sent: u128 = self.data_sent as u128;
            let size: u128 = self.filesize as u128;
            (sent * 1000 + size / 2) / size
        }
    }
}

/// One line of a job with its index.
#[derive(Debug, PartialEq, Eq)]
pub struct Line {
    line_number: u64,
    content: Vec<u8>,
}

pub struct LineView {
    pub line_number: u64,
    pub content: Seq<u8>,
}

impl View for Line {
    type V = LineView;

    closed spec fn view(&self) -> LineView {
        LineView { line_number: self.line_number, content: self.content@ }
    }
}

impl Line {
    pub fn line_number(&self) -> (r: u64)
        ensures
            r == self@.line_number,
    {
        self.line_number
    }

    pub fn content(&self) -> (r: &Vec<u8>)
        ensures
            r@ == self@.content,
    {
        &self.content
    }

    /// The line as it goes out: numbered and checksummed, without a newline.
    pub fn wire(&self) -> (r: Vec<u8>)
        ensures
            r@ == checksummed(self@.line_number as nat, self@.content),
    {
        Parser::add_checksum(self.line_number, self.content.as_slice())
    }
}

#[derive(Debug, PartialEq, Eq)]
pub struct PrintInfo {
    filename: Vec<u8>,
    filesize: u64,
    data_sent: u64,
    lines: Vec<Vec<u8>>,
    start: i64,
    end: Option<i64>,
    line_number: u64,
    resends: u64,
}

pub struct PrintInfoView {
    pub filename: Seq<u8>,
    pub filesize: u64,
    pub data_sent: u64,
    pub lines: Seq<Seq<u8>>,
    pub start: i64,
    pub end: Option<i64>,
    pub line_number: u64,
    pub resends: u64,
}

/// The job that a file's lines make, loaded at `start`.
pub open spec fn loaded(filename: Seq<u8>, raw: Seq<Seq<u8>>, start: i64) -> PrintInfoView {
    PrintInfoView {
        filename,
        filesize: saturated(total_len(payload(raw))),
        data_sent: 0,
        lines: job_lines(raw),
        start,
        end: None,
        line_number: 0,
        resends: 0,
    }
}

impl PrintInfoView {
    /// The line at `index`, if the job has one there.
    pub open spec fn line_at(self, index: u64) -> Option<LineView> {
        if index < self.lines.len() {
            Some(LineView { line_number: index, content: self.lines[index as int] })
        } else {
            None
        }
    }

    pub open spec fn progress(self) -> Progress {
        Progress { data_sent: self.data_sent, filesize: self.filesize }
    }

    /// More than one line in ten was asked for again.
    pub open spec fn resend_limit_exceeded(self) -> bool {
        self.resends * 10 > self.lines.len()
    }

    pub open spec fn with_line_number(self, line_number: u64) -> PrintInfoView {
        PrintInfoView { line_number, ..self }
    }

    /// `bytes` more are sent; a job without payload counts none.
    pub open spec fn with_bytes_sent(self, bytes: u64) -> PrintInfoView {
        if self.filesize == 0 {
            self
        } else {
            PrintInfoView { data_sent: saturated((self.data_sent + bytes) as nat), ..self }
        }
    }

    pub open spec fn with_resend(self) -> PrintInfoView {
        PrintInfoView { resends: saturated((self.resends + 1) as nat), ..self }
    }
}

impl View for PrintInfo {
    type V = PrintInfoView;

    closed spec fn view(&self) -> PrintInfoView {
        PrintInfoView {
            filename: self.filename@,
            filesize: self.filesize,
            data_sent: self.data_sent,
            lines: views(self.lines@),
            start: self.start,
            end: self.end,
            line_number: self.line_number,
            resends: self.resends,
        }
    }
}

/// A raw line without its comment and the white space around it.
pub fn strip_line(raw: &[u8]) -> (r: Vec<u8>)
    ensures
        r@ == stripped(raw@),
{
    let code = cut_comment(raw);
    trim(code.as_slice())
}

impl PrintInfo {
    #[verifier::type_invariant]
    spec fn holds_job_lines(self) -> bool {
        &&& are_job_lines(views(self.lines@))
        &&& self.filesize == saturated(total_len(views(self.lines@).skip(1)))
    }

    /// Makes a job of a file's lines: strips comments and white space, drops
    /// the lines that are then empty and puts the reset command in front.
    pub fn new(filename: Vec<u8>, raw_lines: &Vec<Vec<u8>>, start: i64) -> (r: Self)
        ensures
            r@ == loaded(filename@, views(raw_lines@), start),
    {
        let ghost raw = views(raw_lines@);
        let mut lines: Vec<Vec<u8>> = Vec::new();
        lines.push(bytes_of("M110 N0"));
        let mut size: u64 = 0;
        let mut i: usize = 0;
        proof {
            reveal(Seq::filter);
            assert(raw.subrange(0, 0).map_values(strip()) == Seq::<Seq<u8>>::empty());
            assert(payload(raw.subrange(0, 0)) == Seq::<Seq<u8>>::empty());
            assert(views(lines@) == job_lines(raw.subrange(0, 0)));
        }
        while i < raw_lines.len()
            invariant
                i <= raw_lines.len(),
                raw == views(raw_lines@),
                lines@.len() >= 1,
                views(lines@) == job_lines(raw.subrange(0, i as int)),
                size == saturated(total_len(payload(raw.subrange(0, i as int)))),
            decreases raw_lines.len() - i,
        {
            let line = strip_line(raw_lines[i].as_slice());
            proof {
                let before = raw.subrange(0, i as int);
                let after = raw.subrange(0, i + 1);
                assert(after == before.push(raw[i as int]));
                assert(after.map_values(strip()) == before.map_values(strip()).push(line@));
                before.map_values(strip()).lemma_filter_push(line@, kept());
                if line@.len() > 0 {
                    assert(payload(after) == payload(before).push(line@));
                    assert(payload(after).drop_last() == payload(before));
                }
            }
            if line.len() > 0 {
                size = size.saturating_add(line.len() as u64);
                let ghost old_lines = views(lines@);
                lines.push(line);
                assert(views(lines@) == old_lines.push(line@));
            }
            i = i + 1;
        }
        assert(raw.subrange(0, raw_lines.len() as int) == raw);
        proof {
            assert(job_lines(raw).skip(1) == payload(raw));
            lemma_job_lines_clean(raw, 0);
            assert forall|i: int| 1 <= i < job_lines(raw).len() implies is_command(
                #[trigger] job_lines(raw)[i],
            ) by {
                lemma_job_lines_clean(raw, i);
            }
        }
        Self {
            filename,
            filesize: size,
            data_sent: 0,
            lines,
            start,
            end: None,
            line_number: 0,
            resends: 0,
        }
    }

    /// Makes a job of a file's lines, started now.
    pub fn load(filename: Vec<u8>, raw_lines: &Vec<Vec<u8>>) -> (r: Self)
        ensures
            exists|start: i64| r@ == loaded(filename@, views(raw_lines@), start),
    {
        let start = now();
        Self::new(filename, raw_lines, start)
    }

    /// The line at `index`: the reset command at 0, a command behind it.
    pub fn get_line_by_index(&self, index: u64) -> (r: Option<Line>)
        ensures
            r is Some <==> index < self@.lines.len(),
            self@.lines.len() <= usize::MAX,
            match r {
                Some(line) => Some(line@) == self@.line_at(index) && if index == 0 {
                    line@.content == reset_line()
                } else {
                    is_command(line@.content)
                },
                None => self@.line_at(index) is None,
            },
    {
        proof {
            use_type_invariant(self);
        }
        if index < self.lines.len() as u64 {
            let content = copy_bytes(self.lines[index as usize].as_slice());
            Some(Line { line_number: index, content })
        } else {
            None
        }
    }

    /// The number of lines, the reset command counted.
    pub fn get_line_amount(&self) -> (r: usize)
        ensures
            r == self@.lines.len(),
            r >= 1,
    {
        proof {
            use_type_invariant(self);
        }
        self.lines.len()
    }

    pub fn filename(&self) -> (r: &Vec<u8>)
        ensures
            r@ == self@.filename,
    {
        &self.filename
    }

    /// The bytes of the file's commands: the sum of their lengths, cut off
    /// at the largest `u64`.
    pub fn filesize(&self) -> (r: u64)
        ensures
            r == self@.filesize,
            r == saturated(total_len(self@.lines.skip(1))),
    {
        proof {
            use_type_invariant(self);
        }
        self.filesize
    }

    pub fn data_sent(&self) -> (r: u64)
        ensures
            r == self@.data_sent,
    {
        self.data_sent
    }

    pub fn start(&self) -> (r: i64)
        ensures
            r == self@.start,
    {
        self.start
    }

    pub fn end(&self) -> (r: Option<i64>)
        ensures
            r == self@.end,
    {
        self.end
    }

    /// The index of the line that was last acknowledged.
    pub fn line_number(&self) -> (r: u64)
        ensures
            r == self@.line_number,
    {
        self.line_number
    }

    pub fn set_line_number(&mut self, line_number: u64)
        ensures
            final(self)@ == old(self)@.with_line_number(line_number),
    {
        proof {
            use_type_invariant(&*self);
        }
        self.line_number = line_number;
    }

    /// Moves to the next line and returns its index.
    pub fn advance(&mut self) -> (r: u64)
        ensures
            r == saturated((old(self)@.line_number + 1) as nat),
            final(self)@ == old(self)@.with_line_number(r),
    {
        proof {
            use_type_invariant(&*self);
        }
        self.line_number = self.line_number.saturating_add(1);
        self.line_number
    }

    pub fn progress(&self) -> (r: Progress)
        ensures
            r == self@.progress(),
    {
        Progress { data_sent: self.data_sent, filesize: self.filesize }
    }

    pub fn add_bytes_sent(&mut self, bytes: u64)
        ensures
            final(self)@ == old(self)@.with_bytes_sent(bytes),
    {
        proof {
            use_type_invariant(&*self);
        }
        if self.filesize == 0 {
            return ;
        }
        self.data_sent = self.data_sent.saturating_add(bytes);
    }

    pub fn report_resend(&mut self)
        ensures
            final(self)@ == old(self)@.with_resend(),
    {
        proof {
            use_type_invariant(&*self);
        }
        self.resends = self.resends.saturating_add(1);
    }

    pub fn get_resend_amount(&self) -> (r: u64)
        ensures
            r == self@.resends,
    {
        self.resends
    }

    /// Whether more than a tenth of the job's lines were asked for again.
    pub fn resend_limit_exceeded(&self) -> (r: bool)
        ensures
            r == self@.resend_limit_exceeded(),
    {
        (self.resends as u128) * 10 > self.lines.len() as u128
    }
}

/// A line that holds nothing but white space and a comment changes nothing
/// in a job, wherever in the file it stands.
pub proof fn lemma_blank_line_ignored(raw: Seq<Seq<u8>>, i: int, blank: Seq<u8>)
    requires
        0 <= i <= raw.len(),
        stripped(blank).len() == 0,
    ensures
        job_lines(raw.insert(i, blank)) == job_lines(raw),
{
    let head = raw.subrange(0, i);
    let tail = raw.subrange(i, raw.len() as int);
    assert(raw == head + tail);
    assert(raw.insert(i, blank) == head.push(blank) + tail);
    assert((head.push(blank) + tail).map_values(strip()) == head.map_values(strip()).push(
        stripped(blank),
    ) + tail.map_values(strip()));
    assert((head + tail).map_values(strip()) == head.map_values(strip()) + tail.map_values(
        strip(),
    ));
    Seq::filter_distributes_over_add(
        head.map_values(strip()).push(stripped(blank)),
        tail.map_values(strip()),
        kept(),
    );
    Seq::filter_distributes_over_add(head.map_values(strip()), tail.map_values(strip()), kept());
    head.map_values(strip()).lemma_filter_push(stripped(blank), kept());
}

/// A comment behind a line's command changes nothing in what the line says.
pub proof fn lemma_comment_ignored(code: Seq<u8>, comment: Seq<u8>)
    requires
        forall|j: int| 0 <= j < code.len() ==> #[trigger] code[j] != 59,
    ensures
        stripped(code + seq![59u8] + comment) == stripped(code),
{
    let line = code + seq![59u8] + comment;
    let in_line = |j: int| line[j] == 59;
    let in_code = |j: int| code[j] == 59;
    lemma_first_from(in_line, 0, line.len() as int);
    assert(in_line(code.len() as int));
    assert forall|j: int| 0 <= j < code.len() implies !#[trigger] in_line(j) by {
        assert(line[j] == code[j]);
    }
    assert(comment_start(line) == code.len());
    assert forall|j: int| 0 <= j < code.len() implies !#[trigger] in_code(j) by {}
    lemma_first_from_none(in_code, 0, code.len() as int);
    assert(before_comment(line) == code);
    assert(before_comment(code) == code);
}

/// A comment in a raw line changes nothing in a job: the line may be
/// replaced by the line with a comment behind it.
pub proof fn lemma_comment_line_ignored(raw: Seq<Seq<u8>>, i: int, comment: Seq<u8>)
    requires
        0 <= i < raw.len(),
        forall|j: int| 0 <= j < raw[i].len() ==> #[trigger] raw[i][j] != 59,
    ensures
        job_lines(raw.update(i, raw[i] + seq![59u8] + comment)) == job_lines(raw),
{
    lemma_comment_ignored(raw[i], comment);
    assert(raw.update(i, raw[i] + seq![59u8] + comment).map_values(strip()) == raw.map_values(
        strip(),
    ));
}

/// The lines of a job begin with the reset command; behind it no line is
/// empty, none holds a comment, and none begins or ends with white space.
pub proof fn lemma_job_lines_clean(raw: Seq<Seq<u8>>, i: int)
    requires
        0 <= i < job_lines(raw).len(),
    ensures
        job_lines(raw)[0] == reset_line(),
        i >= 1 ==> is_command(job_lines(raw)[i]),
{
    if i >= 1 {
        let mapped = raw.map_values(strip());
        let line = job_lines(raw)[i];
        assert(line == payload(raw)[i - 1]);
        mapped.lemma_filter_pred(kept(), i - 1);
        assert(mapped.filter(kept()).contains(line));
        mapped.lemma_filter_contains_rev(kept(), line);
        let k = choose|k: int| 0 <= k < mapped.len() && mapped[k] == line;
        assert(line == stripped(raw[k]));
        lemma_stripped_clean(raw[k]);
    }
}

/// What is left of a raw line holds no semicolon and no white space at its
/// ends.
pub proof fn lemma_stripped_clean(raw: Seq<u8>)
    ensures
        forall|j: int| 0 <= j < stripped(raw).len() ==> #[trigger] stripped(raw)[j] != 59,
        stripped(raw).len() > 0 ==> !crate::text::is_space(stripped(raw)[0]),
        stripped(raw).len() > 0 ==> !crate::text::is_space(stripped(raw).last()),
{
    let semicolon = |j: int| raw[j] == 59;
    lemma_first_from(semicolon, 0, raw.len() as int);
    let code = before_comment(raw);
    let front = |j: int| !crate::text::is_space(code[j]);
    lemma_first_from(front, 0, code.len() as int);
    let a = leading_space(code);
    let back = |j: int| !crate::text::is_space(code[code.len() - 1 - j]);
    lemma_first_from(back, 0, code.len() - a);
    let t = trailing_space(code);
    assert forall|j: int| 0 <= j < stripped(raw).len() implies #[trigger] stripped(raw)[j]
        != 59 by {
        assert(stripped(raw)[j] == raw[a + j]);
        assert(!semicolon(a + j));
    }
    if stripped(raw).len() > 0 {
        assert(a < code.len());
        assert(front(a));
        assert(t < code.len() - a);
        assert(back(t));
        assert(stripped(raw)[0] == code[a]);
        assert(stripped(raw).last() == code[code.len() - 1 - t]);
    }
}

} // verus!
