//! `POST /api/files`: takes a G-code file as a form upload. The body comes in
//! chunks; each chunk says what to store of it.

use crate::api_manager::{
    bad_request_response, forbidden_response, too_large_response, PlainResponse,
};
use crate::outside::is_utf8;
use crate::routes::rename_file::is_barred;
use crate::settings::{number_of, parse_number};
use crate::text::{
    append, first_from, first_occurrence, find_from, is_space, leading_space, lemma_first_from,
    lit, matches_at, occurs_at, same_bytes, slice_of, space_byte, starts_with,
};
use vstd::prelude::*;
use vstd::string::*;

verus! {

pub const METHODS: &'static str = "GET, POST";

pub const PATH: &'static str = "/api/files";

/// The largest upload, in bytes.
pub const MAX_SIZE: u64 = 200_000_000;

/// What the content type of an upload begins with; the rest is the boundary.
pub const FORM: &'static str = "multipart/form-data; boundary=";

/// What stands before the file's name in the head of the form's part.
pub const NAME_LEAD: &'static str = "Content-Disposition: form-data; name=\"file\"; filename=\"";

/// What the file's name ends with, and what closes it.
pub const NAME_END: &'static str = ".gcode\"";

/// `s` with every line ending as a newline: a carriage return with or
/// without a newline behind it becomes one newline.
pub open spec fn unix_lines(s: Seq<u8>) -> Seq<u8>
    decreases s.len(),
{
    if s.len() == 0 {
        s
    } else if s[0] == 13 && s.len() > 1 && s[1] == 10 {
        seq![10u8] + unix_lines(s.skip(2))
    } else if s[0] == 13 {
        seq![10u8] + unix_lines(s.skip(1))
    } else {
        seq![s[0]] + unix_lines(s.skip(1))
    }
}

/// The index behind the run of bytes from `i` on that a file's name may
/// hold before its ending.
pub open spec fn stem_end(s: Seq<u8>, i: int) -> int {
    first_from(|j: int| is_barred(s[j]), i, s.len() as int)
}

/// The name of the file that the head of a part names at `i`: the lead
/// stands there, then bytes that are no backslash, slash or dot, then the
/// ending `.gcode` and a quote. The name is what stands between the quotes.
pub open spec fn name_at(head: Seq<u8>, i: int) -> Option<Seq<u8>> {
    if occurs_at(head, lit(NAME_LEAD), i) {
        let start = i + lit(NAME_LEAD).len();
        let dot = stem_end(head, start);
        if occurs_at(head, lit(NAME_END), dot) {
            Some(head.subrange(start, dot + lit(NAME_END).len() - 1))
        } else {
            None
        }
    } else {
        None
    }
}

/// The name of the file that the head of a part names, the leftmost.
pub open spec fn named_file(head: Seq<u8>) -> Option<Seq<u8>> {
    let at = first_from(|i: int| name_at(head, i) is Some, 0, head.len() as int);
    if at < head.len() {
        name_at(head, at)
    } else {
        None
    }
}

/// The marker that opens a part.
pub open spec fn opening(boundary: Seq<u8>) -> Seq<u8> {
    lit("--") + boundary
}

/// The marker that closes the form.
pub open spec fn closing(boundary: Seq<u8>) -> Seq<u8> {
    lit("\n--") + boundary + lit("--")
}

/// `s` without the white space that it begins with.
pub open spec fn trimmed_start(s: Seq<u8>) -> Seq<u8> {
    s.subrange(leading_space(s), s.len() as int)
}

/// `s` up to the form's closing marker, if `s` holds it and `cut` is set.
pub open spec fn content(s: Seq<u8>, boundary: Seq<u8>, cut: bool) -> Seq<u8> {
    if cut && first_occurrence(s, closing(boundary), 0) < s.len() {
        s.subrange(0, first_occurrence(s, closing(boundary), 0))
    } else {
        s
    }
}

/// An upload that is under way.
#[derive(Debug, PartialEq, Eq)]
pub struct Upload {
    boundary: Vec<u8>,
    promised: u64,
    received: u64,
    has_file: bool,
    capturing: bool,
}

pub struct UploadView {
    pub boundary: Seq<u8>,
    pub promised: u64,
    pub received: u64,
    pub has_file: bool,
    pub capturing: bool,
}

impl View for Upload {
    type V = UploadView;

    closed spec fn view(&self) -> UploadView {
        UploadView {
            boundary: self.boundary@,
            promised: self.promised,
            received: self.received,
            has_file: self.has_file,
            capturing: self.capturing,
        }
    }
}

/// What to do with a chunk.
#[derive(Debug, PartialEq, Eq)]
pub enum ChunkResult {
    /// The upload ends with this reply.
    Reject { reply: PlainResponse },
    /// Make the file `create` first, if one is named; then write `data` to
    /// the file of this upload, if `data` is not empty.
    Store { create: Option<Vec<u8>>, data: Vec<u8> },
}

pub enum ChunkView {
    Reject { status: u16 },
    Store { create: Option<Seq<u8>>, data: Seq<u8> },
}

impl View for ChunkResult {
    type V = ChunkView;

    open spec fn view(&self) -> ChunkView {
        match self {
            ChunkResult::Reject { reply } => ChunkView::Reject { status: reply.status },
            ChunkResult::Store { create, data } => ChunkView::Store {
                create: match create {
                    Some(name) => Some(name@),
                    None => None,
                },
                data: data@,
            },
        }
    }
}

/// How an upload begins: the content type has to name a form and its
/// boundary, and the length has to be a number that is not too large.
pub open spec fn begun(content_type: Option<Seq<u8>>, content_length: Option<Seq<u8>>) -> Result<
    UploadView,
    u16,
> {
    if content_type is None || !lit(FORM).is_prefix_of(content_type.unwrap()) {
        Err(400)
    } else if content_length is None || number_of(content_length.unwrap()) is None {
        Err(400)
    } else if number_of(content_length.unwrap()).unwrap() > MAX_SIZE {
        Err(413)
    } else {
        Ok(
            UploadView {
                boundary: content_type.unwrap().subrange(
                    lit(FORM).len() as int,
                    content_type.unwrap().len() as int,
                ),
                promised: number_of(content_length.unwrap()).unwrap(),
                received: 0,
                has_file: false,
                capturing: false,
            },
        )
    }
}

impl UploadView {
    /// The bytes of a chunk are counted, whatever becomes of the chunk.
    pub open spec fn counted(self, chunk: Seq<u8>) -> UploadView {
        UploadView {
            received: if self.received + chunk.len() > u64::MAX {
                u64::MAX
            } else {
                (self.received + chunk.len()) as u64
            },
            ..self
        }
    }

    /// Whether a chunk opens a part: it begins with the opening marker and
    /// holds an empty line.
    pub open spec fn opens(self, text: Seq<u8>) -> bool {
        opening(self.boundary).is_prefix_of(text) && first_occurrence(text, lit("\n\n"), 0)
            < text.len()
    }

    /// The head of the part that a chunk opens: what stands before the
    /// empty line.
    pub open spec fn head(self, text: Seq<u8>) -> Seq<u8> {
        text.subrange(0, first_occurrence(text, lit("\n\n"), 0))
    }

    /// What becomes of a chunk, and the upload after it. A chunk that is no
    /// text is a bad request. A chunk that opens a part has to name a file
    /// that is not the one that is printed; what follows the head, without
    /// the white space before it, is the file's. A chunk before any file is
    /// a bad request. The file ends at the form's closing marker.
    pub open spec fn chunk(self, chunk: Seq<u8>, printed: Option<Seq<u8>>) -> (UploadView, ChunkView) {
        let counted = self.counted(chunk);
        let text = unix_lines(chunk);
        if !vstd::utf8::valid_utf8(chunk) {
            (counted, ChunkView::Reject { status: 400 })
        } else if self.opens(text) {
            match named_file(self.head(text)) {
                None => (counted, ChunkView::Reject { status: 400 }),
                Some(name) => if printed == Some(name) {
                    (counted, ChunkView::Reject { status: 403 })
                } else {
                    let rest = trimmed_start(text.subrange(self.head(text).len() as int, text.len() as int));
                    let data = content(rest, self.boundary, true);
                    (
                        UploadView { has_file: true, capturing: data == rest, ..counted },
                        ChunkView::Store { create: Some(name), data },
                    )
                },
            }
        } else if !self.has_file {
            (counted, ChunkView::Reject { status: 400 })
        } else {
            let data = content(text, self.boundary, self.capturing);
            (
                UploadView { capturing: self.capturing && data == text, ..counted },
                ChunkView::Store { create: None, data },
            )
        }
    }

    /// How the upload ends: with more bytes than promised it was too large,
    /// with fewer it was a bad request, and else the file is there.
    pub open spec fn finished(self) -> u16 {
        if self.received > self.promised {
            413
        } else if self.received < self.promised {
            400
        } else {
            201
        }
    }
}

/// `s` with every line ending as a newline.
pub fn to_unix_lines(s: &[u8]) -> (r: Vec<u8>)
    ensures
        r@ == unix_lines(s@),
{
    let mut out: Vec<u8> = Vec::new();
    let mut i: usize = 0;
    assert(s@.skip(0) == s@);
    while i < s.len()
        invariant
            i <= s.len(),
            unix_lines(s@) == out@ + unix_lines(s@.skip(i as int)),
        decreases s.len() - i,
    {
        let ghost rest = s@.skip(i as int);
        let ghost before = out@;
        assert(rest[0] == s@[i as int]);
        if s[i] == 13 && i + 1 < s.len() && s[i + 1] == 10 {
            assert(rest[1] == s@[i + 1]);
            assert(rest.skip(2) == s@.skip(i + 2));
            out.push(10);
            i = i + 2;
            assert(before + (seq![10u8] + unix_lines(s@.skip(i as int))) == out@ + unix_lines(
                s@.skip(i as int),
            ));
        } else if s[i] == 13 {
            assert(rest.skip(1) == s@.skip(i + 1));
            out.push(10);
            i = i + 1;
            assert(before + (seq![10u8] + unix_lines(s@.skip(i as int))) == out@ + unix_lines(
                s@.skip(i as int),
            ));
        } else {
            assert(rest.skip(1) == s@.skip(i + 1));
            out.push(s[i]);
            i = i + 1;
            assert(before + (seq![s@[i - 1]] + unix_lines(s@.skip(i as int))) == out@
                + unix_lines(s@.skip(i as int)));
        }
    }
    assert(s@.skip(s.len() as int).len() == 0);
    assert(out@ + Seq::<u8>::empty() == out@);
    out
}

/// The name of the file that the head names at `i`.
fn scan_name(head: &[u8], i: usize) -> (r: Option<Vec<u8>>)
    requires
        i <= head.len(),
    ensures
        match r {
            Some(name) => Some(name@),
            None => None,
        } == name_at(head@, i as int),
{
    let lead = NAME_LEAD.as_bytes();
    let end = NAME_END.as_bytes();
    if !matches_at(head, lead, i) {
        return None;
    }
    let start = i + lead.len();
    let ghost barred = |j: int| is_barred(head@[j]);
    let mut dot: usize = start;
    while dot < head.len() && !(head[dot] == 92 || head[dot] == 47 || head[dot] == 46)
        invariant
            start <= dot <= head.len(),
            barred == (|j: int| is_barred(head@[j])),
            first_from(barred, start as int, head.len() as int) == first_from(
                barred,
                dot as int,
                head.len() as int,
            ),
        decreases head.len() - dot,
    {
        dot = dot + 1;
    }
    assert(dot == stem_end(head@, start as int));
    if !matches_at(head, end, dot) {
        return None;
    }
    proof {
        reveal_strlit(".gcode\"");
        broadcast use is_ascii_spec_bytes;
        assert(is_ascii(NAME_END));
        assert(lit(NAME_END).len() == 7);
    }
    Some(slice_of(head, start, dot + end.len() - 1))
}

/// The name of the file that the head of a part names.
pub fn find_name(head: &[u8]) -> (r: Option<Vec<u8>>)
    ensures
        match r {
            Some(name) => Some(name@),
            None => None,
        } == named_file(head@),
{
    let ghost hit = |i: int| name_at(head@, i) is Some;
    let mut i: usize = 0;
    while i < head.len()
        invariant
            i <= head.len(),
            hit == (|i: int| name_at(head@, i) is Some),
            first_from(hit, 0, head.len() as int) == first_from(hit, i as int, head.len() as int),
        decreases head.len() - i,
    {
        match scan_name(head, i) {
            Some(name) => {
                assert(hit(i as int));
                return Some(name);
            },
            None => {
                assert(!hit(i as int));
            },
        }
        i = i + 1;
    }
    None
}

/// `s` from its first byte that is no white space on.
fn trim_start(s: &[u8]) -> (r: Vec<u8>)
    ensures
        r@ == trimmed_start(s@),
{
    let ghost front = |j: int| !is_space(s@[j]);
    let mut a: usize = 0;
    while a < s.len() && space_byte(s[a])
        invariant
            a <= s.len(),
            front == (|j: int| !is_space(s@[j])),
            first_from(front, 0, s.len() as int) == first_from(front, a as int, s.len() as int),
        decreases s.len() - a,
    {
        a = a + 1;
    }
    slice_of(s, a, s.len())
}

impl Upload {
    /// Begins an upload with what the request's head says of its content.
    pub fn begin(content_type: Option<&[u8]>, content_length: Option<&[u8]>) -> (r: Result<
        Upload,
        PlainResponse,
    >)
        ensures
            match r {
                Ok(upload) => Ok::<UploadView, u16>(upload@),
                Err(reply) => Err(reply.status),
            } == begun(
                match content_type {
                    Some(t) => Some(t@),
                    None => None,
                },
                match content_length {
                    Some(l) => Some(l@),
                    None => None,
                },
            ),
            r is Err ==> r->Err_0.standard(),
    {
        let form = FORM.as_bytes();
        let content_type = match content_type {
            Some(t) => t,
            None => {
                return Err(bad_request_response());
            },
        };
        if !starts_with(content_type, form) {
            return Err(bad_request_response());
        }
        let content_length = match content_length {
            Some(l) => l,
            None => {
                return Err(bad_request_response());
            },
        };
        let promised = match parse_number(content_length) {
            Some(n) => n,
            None => {
                return Err(bad_request_response());
            },
        };
        if promised > MAX_SIZE {
            return Err(too_large_response());
        }
        Ok(
            Upload {
                boundary: slice_of(content_type, form.len(), content_type.len()),
                promised,
                received: 0,
                has_file: false,
                capturing: false,
            },
        )
    }

    /// The bytes that the request promised.
    pub fn promised(&self) -> (r: u64)
        ensures
            r == self@.promised,
    {
        self.promised
    }

    /// The bytes that have come.
    pub fn received(&self) -> (r: u64)
        ensures
            r == self@.received,
    {
        self.received
    }

    /// The data of a chunk up to the form's closing marker.
    fn cut(&self, text: Vec<u8>, cut: bool) -> (r: Vec<u8>)
        ensures
            r@ == content(text@, self@.boundary, cut),
    {
        if !cut {
            return text;
        }
        let mut marker: Vec<u8> = Vec::new();
        append(&mut marker, "\n--".as_bytes());
        append(&mut marker, self.boundary.as_slice());
        append(&mut marker, "--".as_bytes());
        assert(marker@ == closing(self@.boundary));
        let at = find_from(text.as_slice(), marker.as_slice(), 0);
        if at < text.len() {
            slice_of(text.as_slice(), 0, at)
        } else {
            text
        }
    }

    /// Takes one chunk of the body. `printed` is the file that is printed,
    /// if one is.
    pub fn chunk(&mut self, chunk: &[u8], printed: Option<&[u8]>) -> (r: ChunkResult)
        ensures
            (final(self)@, r@) == old(self)@.chunk(
                chunk@,
                match printed {
                    Some(name) => Some(name@),
                    None => None,
                },
            ),
            r matches ChunkResult::Reject { reply } ==> reply.standard(),
    {
        self.received = self.received.saturating_add(chunk.len() as u64);
        if !is_utf8(chunk) {
            return ChunkResult::Reject { reply: bad_request_response() };
        }
        let text = to_unix_lines(chunk);
        let mut marker: Vec<u8> = Vec::new();
        append(&mut marker, "--".as_bytes());
        append(&mut marker, self.boundary.as_slice());
        assert(marker@ == opening(self@.boundary));
        let empty_line = find_from(text.as_slice(), "\n\n".as_bytes(), 0);
        if starts_with(text.as_slice(), marker.as_slice()) && empty_line < text.len() {
            let head = slice_of(text.as_slice(), 0, empty_line);
            let name = match find_name(head.as_slice()) {
                Some(name) => name,
                None => {
                    return ChunkResult::Reject { reply: bad_request_response() };
                },
            };
            match printed {
                Some(printed) => {
                    if same_bytes(printed, name.as_slice()) {
                        return ChunkResult::Reject { reply: forbidden_response() };
                    }
                },
                None => {},
            }
            let behind = slice_of(text.as_slice(), empty_line, text.len());
            let rest = trim_start(behind.as_slice());
            let whole = rest.len();
            let data = self.cut(rest, true);
            self.has_file = true;
            self.capturing = data.len() == whole;
            proof {
                let all = trimmed_start(text@.subrange(empty_line as int, text@.len() as int));
                let found = first_occurrence(all, closing(old(self)@.boundary), 0);
                lemma_first_from(
                    |j: int| occurs_at(all, closing(old(self)@.boundary), j),
                    0,
                    all.len() as int,
                );
                assert((data@ == all) <==> (data@.len() == all.len()));
            }
            return ChunkResult::Store { create: Some(name), data };
        }
        if !self.has_file {
            return ChunkResult::Reject { reply: bad_request_response() };
        }
        let whole = text.len();
        let ghost all = text@;
        let data = self.cut(text, self.capturing);
        proof {
            lemma_first_from(
                |j: int| occurs_at(all, closing(old(self)@.boundary), j),
                0,
                all.len() as int,
            );
            assert((data@ == all) <==> (data@.len() == all.len()));
        }
        self.capturing = self.capturing && data.len() == whole;
        ChunkResult::Store { create: None, data }
    }

    /// Ends the upload.
    pub fn finish(&self) -> (r: PlainResponse)
        ensures
            r.status == self@.finished(),
            r.standard(),
    {
        if self.received > self.promised {
            too_large_response()
        } else if self.received < self.promised {
            bad_request_response()
        } else {
            PlainResponse { status: 201, body: "Created" }
        }
    }
}

} // verus!
