//! The course of one request: what to do next, given what has happened.
//! The caller reads from the stream, runs transactions and writes to the
//! stream; every decision in between is taken here.

use crate::buffer::{write_charged, write_timeout, Buffer};
use crate::fields::{bytes_eq, map_of};
use crate::multipart::{
    get_multipart, model, multipart_run, Multipart, PartOutcome, PartStage, PartStep,
};
use crate::request::{
    ascii, form_fields, head_run, header, is_multipart, spec_header, urlencoded_pairs, HeadState,
    HeadStep, Headers, HeadersView, Outcome,
};
use crate::share::{main_sql, Error, Part, SharedState, Trans};
use crate::usage::{charged, U_CPU, U_WRITE};
use vstd::prelude::*;
use vstd::string::{is_ascii_spec_bytes, StringSliceAdditionalSpecFns};
use vstd::utf8::encode_utf8;

verus! {

/// The number that a text of decimal digits stands for.
pub open spec fn digits_value(s: Seq<u8>) -> nat
    decreases s.len(),
{
    if s.len() == 0 {
        0
    } else {
        digits_value(s.drop_last()) * 10 + (s.last() - 48) as nat
    }
}

/// The text holds decimal digits only, and at least one.
pub open spec fn is_digits(s: Seq<u8>) -> bool {
    s.len() > 0 && forall|i: int| 0 <= i < s.len() ==> 48 <= #[trigger] s[i] <= 57
}

/// The length that a content-length header gives: decimal digits, with
/// or without a plus sign before them, that stand for a number which
/// fits the machine. Nothing for any other text.
pub open spec fn spec_length(s: Seq<u8>) -> Option<usize> {
    let digits = if s.len() > 0 && s[0] == 43 {
        s.subrange(1, s.len() as int)
    } else {
        s
    };
    if is_digits(digits) && digits_value(digits) <= usize::MAX {
        Some(digits_value(digits) as usize)
    } else {
        None
    }
}

/// A longer text of digits stands for no smaller number.
proof fn lemma_digits_grow(s: Seq<u8>, k: int)
    requires
        is_digits(s),
        0 <= k <= s.len(),
    ensures
        digits_value(s.subrange(0, k)) <= digits_value(s),
    decreases s.len() - k,
{
    if k < s.len() {
        let t = s.subrange(0, k + 1);
        assert(t.drop_last() =~= s.subrange(0, k));
        assert(t.last() == s[k]);
        lemma_digits_grow(s, k + 1);
    } else {
        assert(s.subrange(0, k) =~= s);
    }
}

/// Reads the length that a content-length header gives.
pub fn parse_length(s: &[u8]) -> (result: Option<usize>)
    ensures
        result == spec_length(s@),
{
    let start: usize = if s.len() > 0 && s[0] == 43 {
        1
    } else {
        0
    };
    let ghost digits = if s@.len() > 0 && s@[0] == 43 {
        s@.subrange(1, s@.len() as int)
    } else {
        s@
    };
    assert(digits =~= s@.subrange(start as int, s@.len() as int));
    if start == s.len() {
        return None;
    }
    let mut value: usize = 0;
    let mut i: usize = start;
    assert(digits.subrange(0, 0) =~= Seq::empty());
    while i < s.len()
        invariant
            start <= i <= s.len(),
            start < s.len(),
            digits == s@.subrange(start as int, s@.len() as int),
            digits == (if s@.len() > 0 && s@[0] == 43 {
                s@.subrange(1, s@.len() as int)
            } else {
                s@
            }),
            forall|j: int| 0 <= j < i - start ==> 48 <= #[trigger] digits[j] <= 57,
            value == digits_value(digits.subrange(0, i - start)),
        decreases s.len() - i,
    {
        let b = s[i];
        assert(b == digits[i - start]);
        if b < 48 || b > 57 {
            return None;
        }
        let ghost next = digits.subrange(0, i - start + 1);
        proof {
            assert(next.drop_last() =~= digits.subrange(0, i - start));
            assert(next.last() == b);
        }
        let grown = match value.checked_mul(10) {
            Some(tens) => tens.checked_add((b - 48) as usize),
            None => None,
        };
        match grown {
            Some(v) => {
                value = v;
            },
            None => {
                proof {
                    assert(digits_value(next) > usize::MAX);
                    if is_digits(digits) {
                        lemma_digits_grow(digits, i - start + 1);
                    }
                }
                return None;
            },
        }
        i += 1;
    }
    assert(digits.subrange(0, i - start) =~= digits);
    Some(value)
}

/// The length that a response gives for its body is read back as the
/// same number: the digits that stand for a number stand for that number.
pub proof fn lemma_length_round_trip(n: nat)
    ensures
        is_digits(crate::request::decimal(n)),
        digits_value(crate::request::decimal(n)) == n,
        n <= usize::MAX ==> spec_length(crate::request::decimal(n)) == Some(n as usize),
    decreases n,
{
    let text = crate::request::decimal(n);
    if n >= 10 {
        lemma_length_round_trip(n / 10);
        let front = crate::request::decimal(n / 10);
        assert(text.drop_last() =~= front);
        assert(text.last() == (48 + n % 10) as u8);
        assert forall|i: int| 0 <= i < text.len() implies 48 <= #[trigger] text[i] <= 57 by {
            if i < front.len() {
                assert(text[i] == front[i]);
            }
        }
        assert(text[0] == front[0]);
        assert(digits_value(text) == digits_value(front) * 10 + (text.last() - 48) as nat);
    } else {
        assert(text.drop_last() =~= Seq::<u8>::empty());
        assert(text.last() == (48 + n) as u8);
        assert(digits_value(text.drop_last()) == 0);
        assert(digits_value(text) == digits_value(text.drop_last()) * 10 + (text.last() - 48) as nat);
    }
    assert(text[0] != 43);
}

/// The part of a request that is under way.
#[derive(Clone, Copy, PartialEq, Eq, Structural, Debug)]
pub enum Phase {
    /// The head is being read.
    Head,
    /// The transaction that finds the user of the request is running.
    User,
    /// A url-encoded body is being read.
    Form,
    /// A multipart body is being read.
    Multipart,
    /// The body was read, and the transaction of the request is to run.
    Ready,
    /// The transaction of the request is running.
    Run,
    /// The response is to be written.
    Reply,
    /// The head of the response is being written.
    WriteHead,
    /// The body of the response is being written.
    WriteBody,
    /// The request has ended.
    Done,
}

/// What has happened since the last step.
#[derive(Debug)]
pub enum Event {
    /// The request starts, or the read that was asked for has ended: with
    /// more input in the buffer, or with the error of the read.
    Input(Result<(), Error>),
    /// The transaction that was handed out has run.
    Ran(Trans),
    /// The write that was asked for has ended after so many
    /// milli-seconds, well or with an error.
    Written(u64, Result<(), Error>),
}

/// What the caller does next.
#[derive(Debug)]
pub enum Action {
    /// Read from the stream into the buffer, within the time that the
    /// buffer allows.
    Fill,
    /// Take the next step at once.
    Again,
    /// Run the transaction.
    Run(Trans),
    /// Write the bytes to the stream, within so many milli-seconds.
    Write(Vec<u8>, u64),
    /// The request has ended, well or with an error.
    End(Result<(), Error>),
}

/// The times that a step is taken at.
#[derive(Debug)]
pub struct Clock {
    /// Micro-seconds since the start of 1970.
    pub now: i64,
    /// Milli-seconds since the connection was opened.
    pub elapsed: u64,
}

/// How far a request has come.
#[derive(Debug)]
pub struct Request {
    /// The part of the request that is under way.
    pub phase: Phase,
    /// The reading of the head.
    pub head: HeadState,
    /// The reading of a multipart body.
    pub body: Multipart,
    /// A url-encoded body, as far as it was read.
    pub form: Vec<u8>,
    /// The length of the url-encoded body.
    pub length: usize,
    /// The transaction of the request only reads.
    pub readonly: bool,
    /// The transaction of the request, while it is not out running.
    pub trans: Option<Trans>,
    /// The body of the response, until it is written.
    pub output: Vec<u8>,
    /// The number of bytes of the write that is under way.
    pub writing: usize,
}

/// The query that finds the user of a request and sets the limits.
pub open spec fn user_sql() -> Seq<char> {
    "EXEC web.SetUser()"@
}

/// How a request ends when its head could not be read: in silence where
/// the stream ended, with the error otherwise.
pub open spec fn head_end(code: u16) -> Result<(), u16> {
    if code == 0 {
        Ok(())
    } else {
        Err(code)
    }
}

/// How a request ends, by the code of its error.
pub open spec fn end_view(end: Result<(), Error>) -> Result<(), u16> {
    match end {
        Ok(_) => Ok(()),
        Err(e) => Err(e.code),
    }
}

/// The request only reads: its method is GET, or its query string holds
/// the parameter `readonly`.
pub open spec fn reads_only(head: HeadersView) -> bool {
    head.method == ascii("GET"@) || map_of(head.args).contains_key("readonly"@)
}

/// What the body of a request is, by its content type.
#[derive(Debug)]
pub enum BodyKind {
    /// There is no body.
    Empty,
    /// A url-encoded form.
    Form,
    /// Multipart form data.
    Multipart,
    /// A body that is not read.
    Unsupported,
}

/// What the body of a request is, by its content type: none without a
/// content type, a form or multipart data by theirs, unsupported with
/// any other.
pub open spec fn spec_body_kind(content_type: Seq<u8>) -> BodyKind {
    if content_type.len() == 0 {
        BodyKind::Empty
    } else if content_type == ascii("application/x-www-form-urlencoded"@) {
        BodyKind::Form
    } else if ascii("multipart/form-data"@).is_prefix_of(content_type) {
        BodyKind::Multipart
    } else {
        BodyKind::Unsupported
    }
}

/// What the body of a request is, by its content type.
pub fn body_kind(content_type: &[u8]) -> (result: BodyKind)
    ensures
        result == spec_body_kind(content_type@),
{
    if content_type.len() == 0 {
        return BodyKind::Empty;
    }
    let form = "application/x-www-form-urlencoded";
    proof {
        reveal_strlit("application/x-www-form-urlencoded");
        is_ascii_spec_bytes(form);
        assert(form.spec_bytes() =~= ascii(form@));
    }
    if bytes_eq(content_type, form.as_bytes()) {
        BodyKind::Form
    } else if is_multipart(content_type) {
        BodyKind::Multipart
    } else {
        BodyKind::Unsupported
    }
}

/// The request has ended in this way.
pub open spec fn ended(after: Request, action: Action, end: Result<(), u16>) -> bool {
    after.phase == Phase::Done && action is End && end_view(action->End_0) == end
}

/// The transaction that finds the user of a request: it carries the path,
/// the parameters and the cookies of the head, belongs to the identity of
/// the connection, and only reads.
pub open spec fn user_trans(t: Trans, head: HeadersView, uid: Seq<char>, now: i64) -> bool {
    &&& t.qy.sql@ == user_sql()
    &&& t.qy.path@ == head.path
    &&& t.qy.params.entries() == head.args
    &&& t.qy.cookies.entries() == head.cookies
    &&& t.qy.form.entries().len() == 0
    &&& t.qy.parts@.len() == 0
    &&& t.qy.now == now
    &&& t.rp.status_code == 200
    &&& t.rp.headers@.len() == 0
    &&& t.rp.output@.len() == 0
    &&& t.readonly
    &&& t.log
    &&& !t.replication
    &&& t.ext.has_state
    &&& t.ext.uid@ == uid
    &&& !t.ext.tx_email
    &&& t.ext.sleep == 0
    &&& !t.ext.trans_wait
    &&& !t.ext.trans_flush
    &&& !t.ext.to_pdf
    &&& !t.ext.no_log
}

/// The two transactions differ at most in the text of the query and in
/// whether they only read.
pub open spec fn same_work(a: Trans, b: Trans) -> bool {
    &&& a.qy.path == b.qy.path
    &&& a.qy.params == b.qy.params
    &&& a.qy.form == b.qy.form
    &&& a.qy.cookies == b.qy.cookies
    &&& a.qy.parts == b.qy.parts
    &&& a.qy.now == b.qy.now
    &&& a.rp == b.rp
    &&& a.ext == b.ext
    &&& a.log == b.log
    &&& a.replication == b.replication
    &&& a.run_time == b.run_time
    &&& a.updates == b.updates
    &&& a.uid == b.uid
}

/// What the request holds of its reading is the same.
pub open spec fn same_reading(a: Request, b: Request) -> bool {
    &&& a.head == b.head
    &&& a.body == b.body
    &&& a.form == b.form
    &&& a.length == b.length
    &&& a.readonly == b.readonly
}

/// What the request holds of the response to write is the same.
pub open spec fn same_writing(a: Request, b: Request) -> bool {
    a.output == b.output && a.writing == b.writing
}

/// Nothing of the connection but what is pending has changed.
pub open spec fn same_account(a: Buffer, b: Buffer) -> bool {
    a.u() == b.u() && a.uid() == b.uid() && a.total() == b.total()
}

/// What a step does while the head is read. The reader takes what is
/// pending. When it runs out, more is asked for. A head that cannot be
/// read ends the request. When the header of a proxy names the client,
/// the connection is charged to the client from there on, and ends if
/// nothing is left for the client. When the head is complete, the
/// transaction that finds the user is handed out.
pub open spec fn head_post(
    before: Request,
    br0: Buffer,
    ss0: SharedState,
    clock: Clock,
    after: Request,
    br1: Buffer,
    ss1: SharedState,
    action: Action,
) -> bool {
    let (st, rest, outcome) = head_run(before.head@, br0.pending());
    &&& br1.pending() == rest
    &&& br1.total() == br0.total()
    &&& br1.u().used == br0.u().used
    &&& ss1.same_settings(&ss0)
    &&& after.body == before.body
    &&& after.form == before.form
    &&& after.length == before.length
    &&& same_writing(after, before)
    &&& match outcome {
        Outcome::Pending => {
            &&& after.head@ == st
            &&& after.phase == Phase::Head
            &&& action is Fill
            &&& same_account(br1, br0)
            &&& ss1.ledger() == ss0.ledger()
        },
        Outcome::Failed(code) => {
            &&& ended(after, action, head_end(code))
            &&& same_account(br1, br0)
            &&& ss1.ledger() == ss0.ledger()
        },
        Outcome::Identity(ip) => {
            &&& after.head@ == st
            &&& br1.uid() == ip
            &&& br1.u().limit == ss0.record(ip).with_default(ss0.dos_limit).spec_budget()
            &&& ss1.ledger() == ss0.ledger().insert(
                ip,
                ss0.record(ip).with_default(ss0.dos_limit),
            )
            &&& if br1.u().limit[0] == 0 {
                ended(after, action, Err(429))
            } else {
                after.phase == Phase::Head && action is Again
            }
        },
        Outcome::Done => {
            &&& after.phase == Phase::User
            &&& action is Run
            &&& user_trans(action->Run_0, st.head, br0.uid(), clock.now)
            &&& after.readonly == reads_only(st.head)
            &&& after.head.head.content_type@ == st.head.content_type
            &&& after.head.head.content_length@ == st.head.content_length
            &&& after.trans is None
            &&& same_account(br1, br0)
            &&& ss1.ledger() == ss0.ledger()
        },
    }
}

/// What a step does when the transaction that finds the user has run.
/// The budget of the connection becomes what is left for that user. The
/// content type says what is read next: a form of the length that the
/// head gave, multipart data, or nothing; any other body is refused as
/// unsupported. A form without a length that can be read ends the
/// request.
pub open spec fn user_post(
    before: Request,
    br0: Buffer,
    ss0: SharedState,
    ran: Trans,
    after: Request,
    br1: Buffer,
    ss1: SharedState,
    action: Action,
) -> bool {
    let record = ss0.record(ran.uid@).with_default(ss0.dos_limit);
    &&& ss1.same_settings(&ss0)
    &&& ss1.ledger() == ss0.ledger().insert(ran.uid@, record)
    &&& br1.u() == br0.u().with_limit(record.spec_budget())
    &&& br1.uid() == br0.uid()
    &&& br1.total() == br0.total()
    &&& br1.pending() == br0.pending()
    &&& after.head == before.head
    &&& after.body == before.body
    &&& same_writing(after, before)
    &&& match spec_body_kind(before.head.head.content_type@) {
        BodyKind::Form => match spec_length(encode_utf8(before.head.head.content_length@)) {
            Some(length) => {
                &&& after.phase == Phase::Form
                &&& after.length == length
                &&& after.form@.len() == 0
                &&& action is Again
                &&& settled(after, ran, 200)
            },
            None => ended(after, action, Err(400)),
        },
        BodyKind::Multipart => {
            &&& after.phase == Phase::Multipart
            &&& action is Again
            &&& after.body == before.body
            &&& settled(after, ran, 200)
        },
        BodyKind::Empty => {
            &&& after.phase == Phase::Ready
            &&& action is Again
            &&& settled(after, ran, ran.rp.status_code)
        },
        BodyKind::Unsupported => {
            &&& after.phase == Phase::Ready
            &&& action is Again
            &&& settled(after, ran, 501)
        },
    }
    &&& after.readonly == before.readonly
}

/// The request holds the transaction that ran, set back to the query of
/// the request and to writing. Where a status is named that differs from
/// the one that the transaction had, the response has that status.
pub open spec fn settled(after: Request, ran: Trans, status: u16) -> bool {
    &&& after.trans is Some
    &&& after.trans->Some_0.qy.sql@ == main_sql()
    &&& !after.trans->Some_0.readonly
    &&& after.trans->Some_0.qy.path == ran.qy.path
    &&& after.trans->Some_0.qy.params == ran.qy.params
    &&& after.trans->Some_0.qy.form == ran.qy.form
    &&& after.trans->Some_0.qy.cookies == ran.qy.cookies
    &&& after.trans->Some_0.qy.parts == ran.qy.parts
    &&& after.trans->Some_0.qy.now == ran.qy.now
    &&& after.trans->Some_0.rp.err == ran.rp.err
    &&& after.trans->Some_0.rp.headers == ran.rp.headers
    &&& after.trans->Some_0.rp.output == ran.rp.output
    &&& after.trans->Some_0.rp.status_code == (if status == 501 {
        501
    } else {
        ran.rp.status_code
    })
    &&& after.trans->Some_0.ext == ran.ext
    &&& after.trans->Some_0.log == ran.log
    &&& after.trans->Some_0.replication == ran.replication
    &&& after.trans->Some_0.run_time == ran.run_time
    &&& after.trans->Some_0.updates == ran.updates
    &&& after.trans->Some_0.uid == ran.uid
}

impl Request {
    /// A request of which nothing was read yet: its head is to be read,
    /// no body was begun, no transaction is at hand, and nothing is to be
    /// written.
    pub fn new() -> (result: Request)
        ensures
            result.phase == Phase::Head,
            result.head@ == HeadState::new_view(),
            result.body.stage == PartStage::Boundary,
            result.body.boundary@.len() == 0,
            result.body.line@.len() == 0,
            result.body.part@ == Part::empty(),
            result.body.data@.len() == 0,
            result.form@.len() == 0,
            result.length == 0,
            !result.readonly,
            result.trans is None,
            result.output@.len() == 0,
            result.writing == 0,
    {
        Request {
            phase: Phase::Head,
            head: HeadState::new(),
            body: Multipart::new(),
            form: Vec::new(),
            length: 0,
            readonly: false,
            trans: None,
            output: Vec::new(),
            writing: 0,
        }
    }

    /// Ends the request.
    fn end(&mut self, result: Result<(), Error>) -> (action: Action)
        ensures
            ended(*final(self), action, end_view(result)),
            *final(self) == (Request { phase: Phase::Done, ..*old(self) }),
    {
        self.phase = Phase::Done;
        Action::End(result)
    }

    /// A step while the head is read.
    pub fn read_head(&mut self, br: &mut Buffer, ss: &mut SharedState, clock: &Clock) -> (action:
        Action)
        requires
            old(self).phase == Phase::Head,
        ensures
            head_post(
                *old(self),
                *old(br),
                *old(ss),
                *clock,
                *final(self),
                *final(br),
                *final(ss),
                action,
            ),
    {
        match Headers::get(br, &mut self.head) {
            HeadStep::Pending => Action::Fill,
            HeadStep::Failed(e) => {
                if e.code == 0 {
                    self.end(Ok(()))
                } else {
                    self.end(Err(e))
                }
            },
            HeadStep::Identity(ip) => {
                match br.set_identity(ss, ip) {
                    Ok(_) => Action::Again,
                    Err(e) => self.end(Err(e)),
                }
            },
            HeadStep::Done => {
                let mut st = Trans::new_with_state(br.identity().clone(), clock.now);
                let get = "GET";
                proof {
                    reveal_strlit("GET");
                    is_ascii_spec_bytes(get);
                    assert(get.spec_bytes() =~= ascii(get@));
                    self.head.head.args.lemma_view();
                }
                self.readonly = bytes_eq(self.head.head.method.as_slice(), get.as_bytes())
                    || self.head.head.args.contains("readonly");
                core::mem::swap(&mut st.qy.path, &mut self.head.head.path);
                core::mem::swap(&mut st.qy.params, &mut self.head.head.args);
                core::mem::swap(&mut st.qy.cookies, &mut self.head.head.cookies);
                st.readonly = true;
                st.qy.sql = "EXEC web.SetUser()".to_owned();
                self.trans = None;
                self.phase = Phase::User;
                Action::Run(st)
            },
        }
    }

    /// A step when the transaction that finds the user has run.
    pub fn on_user(&mut self, br: &mut Buffer, ss: &mut SharedState, ran: Trans) -> (action: Action)
        requires
            old(self).phase == Phase::User,
        ensures
            user_post(
                *old(self),
                *old(br),
                *old(ss),
                ran,
                *final(self),
                *final(br),
                *final(ss),
                action,
            ),
    {
        let mut st = ran;
        st.qy.sql = "EXEC web.Main()".to_owned();
        st.readonly = false;
        let limit = ss.u_budget(st.uid.clone());
        br.set_limit(limit);
        match body_kind(self.head.head.content_type.as_slice()) {
            BodyKind::Form => {
                match parse_length(self.head.head.content_length.as_str().as_bytes()) {
                    Some(length) => {
                        self.length = length;
                        self.form = Vec::new();
                        self.phase = Phase::Form;
                    },
                    None => {
                        return self.end(Err(crate::request::bad()));
                    },
                }
            },
            BodyKind::Multipart => {
                self.phase = Phase::Multipart;
            },
            BodyKind::Empty => {
                self.phase = Phase::Ready;
            },
            BodyKind::Unsupported => {
                st.rp.status_code = 501;
                self.phase = Phase::Ready;
            },
        }
        self.trans = Some(st);
        Action::Again
    }
}

/// The two transactions differ at most in their form fields and parts.
pub open spec fn same_but_body(a: Trans, b: Trans) -> bool {
    &&& a.qy.sql == b.qy.sql
    &&& a.qy.path == b.qy.path
    &&& a.qy.params == b.qy.params
    &&& a.qy.cookies == b.qy.cookies
    &&& a.qy.now == b.qy.now
    &&& a.rp == b.rp
    &&& a.ext == b.ext
    &&& a.log == b.log
    &&& a.readonly == b.readonly
    &&& a.replication == b.replication
    &&& a.run_time == b.run_time
    &&& a.updates == b.updates
    &&& a.uid == b.uid
}

/// The url-encoded body that is complete once what is pending is taken
/// in: what was read of it, and as much of what is pending as is still
/// missing.
pub open spec fn form_body(before: Request, pending: Seq<u8>) -> Seq<u8> {
    if before.form@.len() <= before.length {
        before.form@ + pending.subrange(0, before.length - before.form@.len())
    } else {
        before.form@
    }
}

/// What a step does while a url-encoded body is read. The body takes
/// what is pending, up to its length. When it is not complete, more is
/// asked for. A complete body is decoded into the form fields of the
/// transaction; one that cannot be decoded ends the request.
pub open spec fn form_post(
    before: Request,
    br0: Buffer,
    after: Request,
    br1: Buffer,
    action: Action,
) -> bool {
    &&& same_account(br1, br0)
    &&& after.readonly == before.readonly
    &&& after.head == before.head
    &&& after.body == before.body
    &&& after.length == before.length
    &&& same_writing(after, before)
    &&& if before.form@.len() + br0.pending().len() < before.length {
        &&& after.form@ == before.form@ + br0.pending()
        &&& br1.pending().len() == 0
        &&& after.phase == Phase::Form
        &&& after.length == before.length
        &&& after.trans == before.trans
        &&& action is Fill
    } else {
        &&& before.form@.len() <= before.length ==> br1.pending() == br0.pending().subrange(
            before.length - before.form@.len(),
            br0.pending().len() as int,
        )
        &&& match urlencoded_pairs(form_body(before, br0.pending())) {
            Some(pairs) => {
                &&& after.phase == Phase::Ready
                &&& action is Again
                &&& after.trans is Some
                &&& after.trans->Some_0.qy.form.entries() == pairs
                &&& after.trans->Some_0.qy.parts == before.trans->Some_0.qy.parts
                &&& same_but_body(after.trans->Some_0, before.trans->Some_0)
            },
            None => ended(after, action, Err(400)),
        }
    }
}

/// What a step does while a multipart body is read. The reader takes
/// what is pending and fills the form fields and parts of the
/// transaction. When it runs out, more is asked for. A body that cannot
/// be read ends the request.
pub open spec fn multipart_post(
    before: Request,
    br0: Buffer,
    after: Request,
    br1: Buffer,
    action: Action,
) -> bool {
    let (m, rest, outcome) = multipart_run(
        model(&before.body, &before.trans->Some_0.qy),
        br0.pending(),
    );
    &&& same_account(br1, br0)
    &&& br1.pending() == rest
    &&& after.readonly == before.readonly
    &&& after.head == before.head
    &&& after.form == before.form
    &&& after.length == before.length
    &&& same_writing(after, before)
    &&& after.trans is Some
    &&& model(&after.body, &after.trans->Some_0.qy) == m
    &&& same_but_body(after.trans->Some_0, before.trans->Some_0)
    &&& match outcome {
        PartOutcome::Pending => after.phase == Phase::Multipart && action is Fill,
        PartOutcome::Failed(code) => ended(after, action, Err(code)),
        PartOutcome::Done => after.phase == Phase::Ready && action is Again,
    }
}

/// What a step does once the body was read. The read usage of the
/// connection is settled. A request that is in order hands out its
/// transaction, to read or to write as the head said; any other goes on
/// to its response.
pub open spec fn ready_post(
    before: Request,
    br0: Buffer,
    clock: Clock,
    after: Request,
    br1: Buffer,
    action: Action,
) -> bool {
    &&& br1.u().limit == br0.u().limit
    &&& br1.u().used == br0.settled(clock.elapsed)
    &&& br1.total() == 0
    &&& br1.uid() == br0.uid()
    &&& br1.pending() == br0.pending()
    &&& same_reading(after, before)
    &&& same_writing(after, before)
    &&& if before.trans->Some_0.rp.status_code == 200 {
        &&& after.phase == Phase::Run
        &&& after.trans is None
        &&& action is Run
        &&& action->Run_0.readonly == before.readonly
        &&& action->Run_0.qy == before.trans->Some_0.qy
        &&& same_work(action->Run_0, before.trans->Some_0)
    } else {
        &&& after.phase == Phase::Reply
        &&& after.trans == before.trans
        &&& action is Again
    }
}

/// What a step does when the transaction of the request has run: the
/// connection is charged to the user that the transaction found, with
/// the time that the transaction took, and the response is next.
pub open spec fn run_post(
    before: Request,
    br0: Buffer,
    ran: Trans,
    after: Request,
    br1: Buffer,
    action: Action,
) -> bool {
    &&& br1.uid() == ran.uid@
    &&& br1.u().limit == br0.u().limit
    &&& br1.u().used@ == br0.u().used@.update(2, ran.run_time)
    &&& br1.total() == br0.total()
    &&& br1.pending() == br0.pending()
    &&& after.phase == Phase::Reply
    &&& after.trans == Some(ran)
    &&& same_reading(after, before)
    &&& same_writing(after, before)
    &&& action is Again
}

/// What a step does when the response is due: its head is handed out to
/// be written within the time that the write budget allows, and its body
/// is kept for the write after that.
pub open spec fn reply_post(before: Request, br: Buffer, after: Request, action: Action) -> bool {
    let t = before.trans->Some_0;
    let head = spec_header(t.rp.status_code, t.rp.headers@, t.rp.output@.len());
    &&& after.phase == Phase::WriteHead
    &&& same_reading(after, before)
    &&& after.trans is Some
    &&& same_work(after.trans->Some_0, Trans { rp: after.trans->Some_0.rp, ..t })
    &&& after.trans->Some_0.qy == t.qy
    &&& after.trans->Some_0.readonly == t.readonly
    &&& after.trans->Some_0.rp.status_code == t.rp.status_code
    &&& after.trans->Some_0.rp.headers == t.rp.headers
    &&& after.trans->Some_0.rp.err == t.rp.err
    &&& after.output@ == t.rp.output@
    &&& after.writing == head.len()
    &&& action is Write
    &&& action->Write_0@ == head
    &&& action->Write_1 == crate::buffer::write_allowance(
        br.u().limit[3] as int,
        br.u().used[3] as int,
        head.len() as int,
    )
}

/// What a step does when a write has ended. The write is charged to the
/// connection, by its time and its size. A write that failed ends the
/// request. After the head the body is handed out, unless it is empty;
/// after the body the request ends well.
pub open spec fn written_post(
    before: Request,
    br0: Buffer,
    millis: u64,
    result: Result<(), Error>,
    after: Request,
    br1: Buffer,
    action: Action,
) -> bool {
    &&& br1.uid() == br0.uid()
    &&& br1.u().limit == br0.u().limit
    &&& br1.u().used@ == br0.u().used@.update(
        3,
        charged(
            br0.u().used[3] as int,
            crate::buffer::transfer_cost(millis as int, before.writing as int),
        ) as u64,
    )
    &&& br1.total() == br0.total()
    &&& br1.pending() == br0.pending()
    &&& same_reading(after, before)
    &&& after.trans == before.trans
    &&& match result {
        Err(e) => ended(after, action, Err(e.code)),
        Ok(_) => if before.phase == Phase::WriteHead && before.output@.len() > 0 {
            &&& after.phase == Phase::WriteBody
            &&& after.writing == before.output@.len()
            &&& action is Write
            &&& action->Write_0@ == before.output@
            &&& action->Write_1 == crate::buffer::write_allowance(
                br1.u().limit[3] as int,
                br1.u().used[3] as int,
                before.output@.len() as int,
            )
        } else {
            ended(after, action, Ok(()))
        },
    }
}

impl Request {
    /// A step while a url-encoded body is read.
    pub fn read_form(&mut self, br: &mut Buffer) -> (action: Action)
        requires
            old(self).phase == Phase::Form,
            old(self).trans is Some,
        ensures
            form_post(*old(self), *old(br), *final(self), *final(br), action),
    {
        let done = br.read(self.length, &mut self.form);
        if !done {
            return Action::Fill;
        }
        match form_fields(self.form.as_slice()) {
            Ok(fields) => {
                let mut taken = self.trans.take();
                match &mut taken {
                    Some(st) => {
                        st.qy.form = fields;
                    },
                    None => {},
                }
                self.trans = taken;
                self.phase = Phase::Ready;
                Action::Again
            },
            Err(e) => self.end(Err(e)),
        }
    }

    /// A step while a multipart body is read.
    pub fn read_multipart(&mut self, br: &mut Buffer) -> (action: Action)
        requires
            old(self).phase == Phase::Multipart,
            old(self).trans is Some,
        ensures
            multipart_post(*old(self), *old(br), *final(self), *final(br), action),
    {
        let mut st = self.trans.take().unwrap();
        let step = get_multipart(br, &mut self.body, &mut st.qy);
        self.trans = Some(st);
        match step {
            PartStep::Pending => Action::Fill,
            PartStep::Failed(e) => self.end(Err(e)),
            PartStep::Done => {
                self.phase = Phase::Ready;
                Action::Again
            },
        }
    }

    /// A step once the body was read.
    pub fn on_ready(&mut self, br: &mut Buffer, clock: &Clock) -> (action: Action)
        requires
            old(self).phase == Phase::Ready,
            old(self).trans is Some,
        ensures
            ready_post(*old(self), *old(br), *clock, *final(self), *final(br), action),
    {
        let ghost settled = br.settled(clock.elapsed);
        br.read_complete(clock.elapsed);
        assert(br.u().used =~= settled);
        let mut st = self.trans.take().unwrap();
        if st.rp.status_code == 200 {
            st.readonly = self.readonly;
            self.phase = Phase::Run;
            Action::Run(st)
        } else {
            self.trans = Some(st);
            self.phase = Phase::Reply;
            Action::Again
        }
    }

    /// A step when the transaction of the request has run.
    pub fn on_ran(&mut self, br: &mut Buffer, ran: Trans) -> (action: Action)
        requires
            old(self).phase == Phase::Run,
        ensures
            run_post(*old(self), *old(br), ran, *final(self), *final(br), action),
    {
        br.charge_to(ran.uid.clone());
        br.set_used(U_CPU, ran.run_time);
        self.trans = Some(ran);
        self.phase = Phase::Reply;
        Action::Again
    }

    /// A step when the response is due.
    pub fn reply(&mut self, br: &Buffer) -> (action: Action)
        requires
            old(self).phase == Phase::Reply,
            old(self).trans is Some,
        ensures
            reply_post(*old(self), *br, *final(self), action),
    {
        let mut st = self.trans.take().unwrap();
        let head = header(&st);
        let mut output: Vec<u8> = Vec::new();
        core::mem::swap(&mut output, &mut st.rp.output);
        self.output = output;
        self.trans = Some(st);
        self.writing = head.len();
        self.phase = Phase::WriteHead;
        let u = br.usage();
        let wait = write_timeout(head.len(), u.limit[U_WRITE], u.used[U_WRITE]);
        Action::Write(head, wait)
    }

    /// A step when a write has ended.
    pub fn on_written(&mut self, br: &mut Buffer, millis: u64, result: Result<(), Error>) -> (action:
        Action)
        requires
            old(self).phase == Phase::WriteHead || old(self).phase == Phase::WriteBody,
        ensures
            written_post(*old(self), *old(br), millis, result, *final(self), *final(br), action),
    {
        let u = br.usage();
        let used = write_charged(self.writing, millis, u.used[U_WRITE]);
        br.set_used(U_WRITE, used);
        match result {
            Err(e) => self.end(Err(e)),
            Ok(_) => {
                if self.phase == Phase::WriteHead && self.output.len() > 0 {
                    let mut output: Vec<u8> = Vec::new();
                    core::mem::swap(&mut output, &mut self.output);
                    self.writing = output.len();
                    self.phase = Phase::WriteBody;
                    let wait = write_timeout(output.len(), u.limit[U_WRITE], used);
                    Action::Write(output, wait)
                } else {
                    self.end(Ok(()))
                }
            },
        }
    }
}

/// The step is one that the course of a request knows: the event is the
/// one that the phase waits for, and the transaction is at hand where
/// the phase needs it.
pub open spec fn in_order(before: Request, event: Event) -> bool {
    match before.phase {
        Phase::Head => event is Input,
        Phase::User => event is Ran,
        Phase::Form => event is Input && before.trans is Some,
        Phase::Multipart => event is Input && before.trans is Some,
        Phase::Ready => event is Input && event->Input_0 is Ok && before.trans is Some,
        Phase::Run => event is Ran,
        Phase::Reply => event is Input && event->Input_0 is Ok && before.trans is Some,
        Phase::WriteHead => event is Written,
        Phase::WriteBody => event is Written,
        Phase::Done => false,
    }
}

/// Neither the connection nor the shared state has changed.
pub open spec fn untouched(br0: Buffer, ss0: SharedState, br1: Buffer, ss1: SharedState) -> bool {
    &&& same_account(br1, br0)
    &&& br1.pending() == br0.pending()
    &&& ss1.ledger() == ss0.ledger()
    &&& ss1.same_settings(&ss0)
}

/// What one step of a request does, by the phase it is in and by what
/// has happened. A read that failed ends the request with its error, or
/// in silence where the stream ended before the head was complete: the
/// request then never hands out a transaction. A step that is out of
/// order ends the request with an internal error.
pub open spec fn process_post(
    before: Request,
    br0: Buffer,
    ss0: SharedState,
    event: Event,
    clock: Clock,
    after: Request,
    br1: Buffer,
    ss1: SharedState,
    action: Action,
) -> bool {
    if !in_order(before, event) {
        ended(after, action, Err(500)) && untouched(br0, ss0, br1, ss1)
    } else {
        match before.phase {
            Phase::Head => match event->Input_0 {
                Ok(_) => head_post(before, br0, ss0, clock, after, br1, ss1, action),
                Err(e) => ended(after, action, head_end(e.code)) && untouched(br0, ss0, br1, ss1),
            },
            Phase::User => user_post(before, br0, ss0, event->Ran_0, after, br1, ss1, action),
            Phase::Form => ss1.ledger() == ss0.ledger() && ss1.same_settings(&ss0)
                && match event->Input_0 {
                Ok(_) => form_post(before, br0, after, br1, action),
                Err(e) => ended(after, action, Err(e.code)) && untouched(br0, ss0, br1, ss1),
            },
            Phase::Multipart => ss1.ledger() == ss0.ledger() && ss1.same_settings(&ss0)
                && match event->Input_0 {
                Ok(_) => multipart_post(before, br0, after, br1, action),
                Err(e) => ended(after, action, Err(e.code)) && untouched(br0, ss0, br1, ss1),
            },
            Phase::Ready => ss1.ledger() == ss0.ledger() && ss1.same_settings(&ss0) && ready_post(
                before,
                br0,
                clock,
                after,
                br1,
                action,
            ),
            Phase::Run => ss1.ledger() == ss0.ledger() && ss1.same_settings(&ss0) && run_post(
                before,
                br0,
                event->Ran_0,
                after,
                br1,
                action,
            ),
            Phase::Reply => untouched(br0, ss0, br1, ss1) && reply_post(
                before,
                br0,
                after,
                action,
            ),
            Phase::WriteHead => ss1.ledger() == ss0.ledger() && ss1.same_settings(&ss0)
                && written_post(
                before,
                br0,
                event->Written_0,
                event->Written_1,
                after,
                br1,
                action,
            ),
            Phase::WriteBody => ss1.ledger() == ss0.ledger() && ss1.same_settings(&ss0)
                && written_post(
                before,
                br0,
                event->Written_0,
                event->Written_1,
                after,
                br1,
                action,
            ),
            Phase::Done => true,
        }
    }
}

/// Process http request: one step of it. Given what has happened, the
/// request moves on and tells what is to be done next. The caller does
/// it and comes back with the outcome, until the request ends.
pub fn process(
    req: &mut Request,
    br: &mut Buffer,
    ss: &mut SharedState,
    event: Event,
    clock: &Clock,
) -> (action: Action)
    ensures
        process_post(
            *old(req),
            *old(br),
            *old(ss),
            event,
            *clock,
            *final(req),
            *final(br),
            *final(ss),
            action,
        ),
{
    match req.phase {
        Phase::Head => match event {
            Event::Input(Ok(_)) => req.read_head(br, ss, clock),
            Event::Input(Err(e)) => {
                if e.code == 0 {
                    req.end(Ok(()))
                } else {
                    req.end(Err(e))
                }
            },
            _ => req.end(Err(Error { code: 500 })),
        },
        Phase::User => match event {
            Event::Ran(ran) => req.on_user(br, ss, ran),
            _ => req.end(Err(Error { code: 500 })),
        },
        Phase::Form => match event {
            Event::Input(input) => {
                if req.trans.is_none() {
                    req.end(Err(Error { code: 500 }))
                } else {
                    match input {
                        Ok(_) => req.read_form(br),
                        Err(e) => req.end(Err(e)),
                    }
                }
            },
            _ => req.end(Err(Error { code: 500 })),
        },
        Phase::Multipart => match event {
            Event::Input(input) => {
                if req.trans.is_none() {
                    req.end(Err(Error { code: 500 }))
                } else {
                    match input {
                        Ok(_) => req.read_multipart(br),
                        Err(e) => req.end(Err(e)),
                    }
                }
            },
            _ => req.end(Err(Error { code: 500 })),
        },
        Phase::Ready => match event {
            Event::Input(Ok(_)) => {
                if req.trans.is_none() {
                    req.end(Err(Error { code: 500 }))
                } else {
                    req.on_ready(br, clock)
                }
            },
            _ => req.end(Err(Error { code: 500 })),
        },
        Phase::Run => match event {
            Event::Ran(ran) => req.on_ran(br, ran),
            _ => req.end(Err(Error { code: 500 })),
        },
        Phase::Reply => match event {
            Event::Input(Ok(_)) => {
                if req.trans.is_none() {
                    req.end(Err(Error { code: 500 }))
                } else {
                    req.reply(br)
                }
            },
            _ => req.end(Err(Error { code: 500 })),
        },
        Phase::WriteHead => match event {
            Event::Written(millis, result) => req.on_written(br, millis, result),
            _ => req.end(Err(Error { code: 500 })),
        },
        Phase::WriteBody => match event {
            Event::Written(millis, result) => req.on_written(br, millis, result),
            _ => req.end(Err(Error { code: 500 })),
        },
        Phase::Done => req.end(Err(Error { code: 500 })),
    }
}

/// A request whose read runs out of time never reaches the writer: while
/// the head or the body is read, a read that ended with the error of a
/// spent budget ends the request with that error, and no transaction is
/// handed out.
pub proof fn lemma_timeout_runs_nothing(
    before: Request,
    br0: Buffer,
    ss0: SharedState,
    event: Event,
    clock: Clock,
    after: Request,
    br1: Buffer,
    ss1: SharedState,
    action: Action,
)
    requires
        process_post(before, br0, ss0, event, clock, after, br1, ss1, action),
        in_order(before, event),
        before.phase == Phase::Head || before.phase == Phase::Form || before.phase
            == Phase::Multipart,
        event->Input_0 is Err,
        event->Input_0->Err_0.code == 429,
    ensures
        !(action is Run),
        action is End,
        action->End_0 is Err,
        action->End_0->Err_0.code == 429,
        after.phase == Phase::Done,
{
}

} // verus!
