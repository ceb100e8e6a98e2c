//! The reader of a multipart body: parts between boundary lines, each with
//! its headers and its data.

use crate::buffer::Buffer;
use crate::fields::bytes_eq;
use crate::request::{
    ascii, find_byte, header_value, lemma_find_byte, line_is, name_bytes, spec_split_cd, split_cd,
    text_of, tos, CR, LF,
};
use crate::share::{parts_view, Error, Part, PartView, Query};
use vstd::prelude::*;

verus! {

/// The part of a multipart body that is being read.
#[derive(Clone, Copy, PartialEq, Eq, Structural, Debug)]
pub enum PartStage {
    /// The first line, which gives the boundary.
    Boundary,
    /// The headers of a part, up to the empty line.
    Head,
    /// The data of a part, up to the next boundary line.
    Data,
}

/// How far the reading of a multipart body has come: a reader that runs
/// out of input stops here, and goes on from here when there is more.
#[derive(Debug)]
pub struct Multipart {
    /// The part of the body that is being read.
    pub stage: PartStage,
    /// The boundary, without the end of its line.
    pub boundary: Vec<u8>,
    /// What was read of the line that is not yet complete.
    pub line: Vec<u8>,
    /// The part that is being read.
    pub part: Part,
    /// The data of that part, as far as it was read.
    pub data: Vec<u8>,
}

/// The reading of a multipart body with what it has filled so far, as
/// plain values.
pub struct MultipartView {
    pub stage: PartStage,
    pub boundary: Seq<u8>,
    pub line: Seq<u8>,
    pub part: PartView,
    pub data: Seq<u8>,
    /// The form fields of the query, in the order in which they were set.
    pub form: Seq<(Seq<char>, Seq<char>)>,
    /// The parts of the query.
    pub parts: Seq<PartView>,
}

/// Why the reader of a body stopped.
#[derive(Debug)]
pub enum PartStep {
    /// The input ran out: more is needed.
    Pending,
    /// The last boundary line was read: the body is complete.
    Done,
    /// The body is refused.
    Failed(Error),
}

/// Why the reader of a body stopped, as plain values.
pub enum PartOutcome {
    Pending,
    Done,
    Failed(u16),
}

impl View for PartStep {
    type V = PartOutcome;

    open spec fn view(&self) -> PartOutcome {
        match self {
            PartStep::Pending => PartOutcome::Pending,
            PartStep::Done => PartOutcome::Done,
            PartStep::Failed(e) => PartOutcome::Failed(e.code),
        }
    }
}

/// Why reading stopped after a line, if it did.
pub open spec fn stop_view(step: Option<PartStep>) -> Option<PartOutcome> {
    match step {
        Some(s) => Some(s@),
        None => None,
    }
}

/// The state of a reader and the fields and parts of the query that it
/// fills, as plain values.
pub open spec fn model(st: &Multipart, q: &Query) -> MultipartView {
    MultipartView {
        stage: st.stage,
        boundary: st.boundary@,
        line: st.line@,
        part: st.part@,
        data: st.data@,
        form: q.form.entries(),
        parts: parts_view(q.parts@),
    }
}

/// What one header line does to a part: the content type and the
/// disposition are taken from it, any other line is passed over. Nothing
/// where the content type is not UTF-8.
pub open spec fn part_header(part: PartView, line: Seq<u8>) -> Option<PartView> {
    if header_value(line, ascii("content-type"@)) is Some {
        match text_of(header_value(line, ascii("content-type"@))->Some_0) {
            Some(content_type) => Some(PartView { content_type, ..part }),
            None => None,
        }
    } else if header_value(line, ascii("content-disposition"@)) is Some {
        match spec_split_cd(header_value(line, ascii("content-disposition"@))->Some_0) {
            Some((name, file_name)) => Some(PartView { name, file_name, ..part }),
            None => Some(part),
        }
    } else {
        Some(part)
    }
}

/// The byte of a hyphen.
pub const HYPHEN: u8 = 45;

/// The line that stands between two parts: the boundary and the end of
/// the line.
pub open spec fn boundary_line(boundary: Seq<u8>) -> Seq<u8> {
    boundary + seq![CR, LF]
}

/// The line that stands after the last part: the boundary, two hyphens
/// and the end of the line.
pub open spec fn last_boundary_line(boundary: Seq<u8>) -> Seq<u8> {
    boundary + seq![HYPHEN, HYPHEN, CR, LF]
}

/// The line is a boundary line: exactly the line between two parts or
/// the line after the last part. Any other line is data, also one that
/// only begins with the boundary.
pub open spec fn is_boundary_line(boundary: Seq<u8>, line: Seq<u8>) -> bool {
    line == boundary_line(boundary) || line == last_boundary_line(boundary)
}

/// Whether the line is the boundary line between two parts, or, with
/// `last`, the line after the last part.
pub fn is_line(line: &[u8], boundary: &[u8], last: bool) -> (result: bool)
    ensures
        result == (line@ == if last {
            last_boundary_line(boundary@)
        } else {
            boundary_line(boundary@)
        }),
{
    let bn = boundary.len();
    let n = line.len();
    if n < bn {
        return false;
    }
    let tail = n - bn;
    if !bytes_eq(&line[0..bn], boundary) {
        proof {
            assert(boundary_line(boundary@).subrange(0, bn as int) =~= boundary@);
            assert(last_boundary_line(boundary@).subrange(0, bn as int) =~= boundary@);
        }
        return false;
    }
    let matched = if last {
        tail == 4 && line[bn] == HYPHEN && line[bn + 1] == HYPHEN && line[bn + 2] == CR && line[bn
            + 3] == LF
    } else {
        tail == 2 && line[bn] == CR && line[bn + 1] == LF
    };
    proof {
        let want = if last {
            last_boundary_line(boundary@)
        } else {
            boundary_line(boundary@)
        };
        if matched {
            assert(line@ =~= want);
        } else if line@.len() == want.len() {
            if last {
                assert(want[bn as int] == HYPHEN && want[bn + 1] == HYPHEN && want[bn + 2] == CR
                    && want[bn + 3] == LF);
            } else {
                assert(want[bn as int] == CR && want[bn + 1] == LF);
            }
        }
    }
    matched
}

/// The data of a part without the end of the line that stands before the
/// boundary line.
pub open spec fn without_line_end(data: Seq<u8>) -> Seq<u8> {
    if data.len() >= 2 {
        data.subrange(0, data.len() - 2)
    } else {
        Seq::empty()
    }
}

/// What the end of a part does: a part without a content type becomes a
/// form field, its data read as text; a part with one is kept with its
/// data as it is. After the last part the body is complete. A field whose
/// data is not UTF-8 fails the request.
pub open spec fn part_end(m: MultipartView, last: bool) -> (MultipartView, Option<PartOutcome>) {
    let data = without_line_end(m.data);
    let stop = if last {
        Some(PartOutcome::Done)
    } else {
        None
    };
    if m.part.content_type.len() == 0 {
        match text_of(data) {
            Some(value) => (
                MultipartView {
                    stage: PartStage::Head,
                    part: Part::empty(),
                    data: Seq::empty(),
                    form: m.form.push((m.part.name, value)),
                    ..m
                },
                stop,
            ),
            None => (m, Some(PartOutcome::Failed(400))),
        }
    } else {
        (
            MultipartView {
                stage: PartStage::Head,
                part: Part::empty(),
                data: Seq::empty(),
                parts: m.parts.push(PartView { data, ..m.part }),
                ..m
            },
            stop,
        )
    }
}

/// What one complete line does to the reading, and whether reading stops
/// after it. The line holds the byte that ended it; the reading holds no
/// unfinished line.
pub open spec fn multipart_token(m: MultipartView, line: Seq<u8>) -> (
    MultipartView,
    Option<PartOutcome>,
) {
    match m.stage {
        PartStage::Boundary => if line.len() < 4 {
            (m, Some(PartOutcome::Failed(0)))
        } else {
            (
                MultipartView {
                    stage: PartStage::Head,
                    boundary: line.subrange(0, line.len() - 2),
                    ..m
                },
                None,
            )
        },
        PartStage::Head => if line.len() <= 2 {
            (MultipartView { stage: PartStage::Data, ..m }, None)
        } else {
            match part_header(m.part, line.subrange(0, line.len() - 2)) {
                Some(part) => (MultipartView { part, ..m }, None),
                None => (m, Some(PartOutcome::Failed(400))),
            }
        },
        PartStage::Data => if is_boundary_line(m.boundary, line) {
            part_end(m, line == last_boundary_line(m.boundary))
        } else {
            (MultipartView { data: m.data + line, ..m }, None)
        },
    }
}

/// What the reader of a multipart body does with the input at hand: it
/// takes line after line until one stops it or the input runs out. Gives
/// the state it ends in, the input it leaves, and why it stopped.
pub open spec fn multipart_run(m: MultipartView, input: Seq<u8>) -> (
    MultipartView,
    Seq<u8>,
    PartOutcome,
)
    decreases input.len(),
    via multipart_run_decreases
{
    let end = find_byte(input, 0, LF);
    if end >= input.len() {
        (MultipartView { line: m.line + input, ..m }, Seq::empty(), PartOutcome::Pending)
    } else {
        let line = m.line + input.subrange(0, end + 1);
        let rest = input.subrange(end + 1, input.len() as int);
        let (next, stop) = multipart_token(MultipartView { line: Seq::empty(), ..m }, line);
        match stop {
            Some(outcome) => (next, rest, outcome),
            None => multipart_run(next, rest),
        }
    }
}

#[via_fn]
proof fn multipart_run_decreases(m: MultipartView, input: Seq<u8>) {
    lemma_find_byte(input, 0, LF);
}

impl Multipart {
    /// The state before anything was read.
    pub fn new() -> (result: Multipart)
        ensures
            result.stage == PartStage::Boundary,
            result.boundary@.len() == 0,
            result.line@.len() == 0,
            result.part@ == Part::empty(),
            result.data@.len() == 0,
    {
        Multipart {
            stage: PartStage::Boundary,
            boundary: Vec::new(),
            line: Vec::new(),
            part: Part::new(),
            data: Vec::new(),
        }
    }

    /// Takes in one header line of a part, without the end of the line.
    /// Tells whether the line could be read.
    pub fn header(&mut self, line: &[u8]) -> (result: Result<(), Error>)
        ensures
            final(self).stage == old(self).stage,
            final(self).boundary == old(self).boundary,
            final(self).line == old(self).line,
            final(self).data == old(self).data,
            match result {
                Ok(_) => part_header(old(self).part@, line@) == Some(final(self).part@),
                Err(e) => part_header(old(self).part@, line@) is None && e.code == 400
                    && final(self).part == old(self).part,
            },
    {
        proof {
            reveal_strlit("content-type");
            reveal_strlit("content-disposition");
        }
        if let Some(value) = line_is(line, name_bytes("content-type")) {
            match tos(value) {
                Ok(content_type) => {
                    self.part.content_type = content_type;
                },
                Err(e) => {
                    return Err(e);
                },
            }
        } else if let Some(value) = line_is(line, name_bytes("content-disposition")) {
            if let Some((name, file_name)) = split_cd(value) {
                self.part.name = name;
                self.part.file_name = file_name;
            }
        }
        Ok(())
    }

    /// Ends the part that was read: it becomes a form field or a part of
    /// the query.
    pub fn end_part(&mut self, q: &mut Query, last: bool) -> (result: Option<PartStep>)
        ensures
            (model(final(self), final(q)), stop_view(result)) == part_end(
                model(old(self), old(q)),
                last,
            ),
            final(q).sql == old(q).sql,
            final(q).path == old(q).path,
            final(q).params == old(q).params,
            final(q).cookies == old(q).cookies,
            final(q).now == old(q).now,
    {
        let keep = if self.data.len() >= 2 {
            self.data.len() - 2
        } else {
            0
        };
        let ghost before = model(self, q);
        assert(self.data@.subrange(0, keep as int) =~= without_line_end(self.data@));
        if self.part.content_type.as_str().is_empty() {
            let value = match tos(&self.data.as_slice()[0..keep]) {
                Ok(value) => value,
                Err(e) => {
                    return Some(PartStep::Failed(e));
                },
            };
            let mut part = Part::new();
            core::mem::swap(&mut part, &mut self.part);
            q.form.insert(part.name, value);
            self.data = Vec::new();
        } else {
            let mut data: Vec<u8> = Vec::new();
            core::mem::swap(&mut data, &mut self.data);
            data.truncate(keep);
            let mut part = Part::new();
            core::mem::swap(&mut part, &mut self.part);
            part.data = data;
            let ghost added = part@;
            q.parts.push(part);
            assert(parts_view(q.parts@) =~= before.parts.push(added));
        }
        self.stage = PartStage::Head;
        assert(self.data@ =~= Seq::empty());
        if last {
            Some(PartStep::Done)
        } else {
            None
        }
    }

    /// Takes in one complete line, with the byte that ended it.
    pub fn token(&mut self, q: &mut Query, line: Vec<u8>) -> (result: Option<PartStep>)
        ensures
            (model(final(self), final(q)), stop_view(result)) == multipart_token(
                model(old(self), old(q)),
                line@,
            ),
            final(q).sql == old(q).sql,
            final(q).path == old(q).path,
            final(q).params == old(q).params,
            final(q).cookies == old(q).cookies,
            final(q).now == old(q).now,
    {
        let n = line.len();
        match self.stage {
            PartStage::Boundary => {
                if n < 4 {
                    return Some(PartStep::Failed(crate::request::eof()));
                }
                let mut boundary = line;
                boundary.truncate(n - 2);
                self.boundary = boundary;
                self.stage = PartStage::Head;
                assert(self.boundary@ =~= line@.subrange(0, line@.len() - 2));
                None
            },
            PartStage::Head => {
                if n <= 2 {
                    self.stage = PartStage::Data;
                    None
                } else {
                    match self.header(&line.as_slice()[0..n - 2]) {
                        Ok(_) => None,
                        Err(e) => Some(PartStep::Failed(e)),
                    }
                }
            },
            PartStage::Data => {
                let last = is_line(line.as_slice(), self.boundary.as_slice(), true);
                if last || is_line(line.as_slice(), self.boundary.as_slice(), false) {
                    self.end_part(q, last)
                } else {
                    self.data.extend_from_slice(line.as_slice());
                    assert(self.data@ =~= old(self).data@ + line@);
                    None
                }
            },
        }
    }
}

/// Parse multipart body. Reads from the buffer as far as the input at
/// hand goes, and tells why it stopped. The state holds what was read;
/// called again with more input, the reader goes on where it stopped.
/// Fields and parts go to the query as they are completed.
pub fn get_multipart(br: &mut Buffer, st: &mut Multipart, q: &mut Query) -> (result: PartStep)
    ensures
        (model(final(st), final(q)), final(br).pending(), result@) == multipart_run(
            model(old(st), old(q)),
            old(br).pending(),
        ),
        final(br).u() == old(br).u(),
        final(br).uid() == old(br).uid(),
        final(br).total() == old(br).total(),
        final(q).sql == old(q).sql,
        final(q).path == old(q).path,
        final(q).params == old(q).params,
        final(q).cookies == old(q).cookies,
        final(q).now == old(q).now,
{
    loop
        invariant
            multipart_run(model(st, q), br.pending()) == multipart_run(
                model(old(st), old(q)),
                old(br).pending(),
            ),
            br.u() == old(br).u(),
            br.uid() == old(br).uid(),
            br.total() == old(br).total(),
            q.sql == old(q).sql,
            q.path == old(q).path,
            q.params == old(q).params,
            q.cookies == old(q).cookies,
            q.now == old(q).now,
        decreases br.pending().len(),
    {
        proof {
            lemma_find_byte(br.pending(), 0, LF);
        }
        let found = br.read_until(LF, &mut st.line);
        if !found {
            return PartStep::Pending;
        }
        let mut line: Vec<u8> = Vec::new();
        core::mem::swap(&mut line, &mut st.line);
        let stop = st.token(q, line);
        if let Some(step) = stop {
            return step;
        }
    }
}

/// A multipart body is read the same in one piece and in two. Where the
/// reader runs out of input on the first piece, reading both pieces at
/// once ends as reading the second piece from where the first left off.
/// Where it stops within the first piece, it stops there with both, and
/// the second piece is left with the rest.
pub proof fn lemma_multipart_run_pieces(m: MultipartView, a: Seq<u8>, b: Seq<u8>)
    ensures
        multipart_run(m, a).2 is Pending ==> multipart_run(m, a + b) == multipart_run(
            multipart_run(m, a).0,
            b,
        ),
        !(multipart_run(m, a).2 is Pending) ==> multipart_run(m, a + b) == (
            multipart_run(m, a).0,
            multipart_run(m, a).1 + b,
            multipart_run(m, a).2,
        ),
    decreases a.len(),
{
    let k = find_byte(a, 0, LF);
    lemma_find_byte(a, 0, LF);
    lemma_find_byte(b, 0, LF);
    crate::request::lemma_find_byte_pieces(a, b, 0, LF);
    if k >= a.len() {
        let kb = find_byte(b, 0, LF);
        let held = MultipartView { line: m.line + a, ..m };
        assert(multipart_run(m, a).0 == held);
        assert(MultipartView { line: Seq::empty(), ..held } == MultipartView {
            line: Seq::empty(),
            ..m
        });
        if kb >= b.len() {
            assert(m.line + (a + b) =~= (m.line + a) + b);
        } else {
            assert(m.line + (a + b).subrange(0, a.len() + kb + 1) =~= (m.line + a) + b.subrange(
                0,
                kb + 1,
            ));
            assert((a + b).subrange(a.len() + kb + 1, (a + b).len() as int) =~= b.subrange(
                kb + 1,
                b.len() as int,
            ));
        }
    } else {
        assert((a + b).subrange(0, k + 1) =~= a.subrange(0, k + 1));
        let rest = a.subrange(k + 1, a.len() as int);
        assert((a + b).subrange(k + 1, (a + b).len() as int) =~= rest + b);
        let line = m.line + a.subrange(0, k + 1);
        let (next, stop) = multipart_token(MultipartView { line: Seq::empty(), ..m }, line);
        if stop is None {
            lemma_multipart_run_pieces(next, rest, b);
        }
    }
}

} // verus!
