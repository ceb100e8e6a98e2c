//! State shared by every task of the server: its configuration and the
//! usage ledger, with the transaction envelope that travels between them.

use crate::fields::Fields;
use crate::usage::{UseInfo, UA};
use core::str::Utf8Error;
use serde_urlencoded::de::Error as DecodeError;
use std::io::Error as IoError;
use rustc_hash::{FxBuildHasher, FxHashMap};
use vstd::prelude::*;

verus! {

/// The hasher builder of `rustc_hash`, which the ledger's map is built on.
#[verifier::external_type_specification]
#[verifier::external_body]
pub struct ExFxBuildHasher(FxBuildHasher);

/// The map that holds the ledger: a usage record for each identity.
pub type Ledger = FxHashMap<String, UseInfo>;

/// The records that a ledger map holds, by identity.
pub uninterp spec fn ledger_view(m: Ledger) -> Map<Seq<char>, UseInfo>;

/// A ledger that holds no record.
pub open spec fn ledger_empty() -> Map<Seq<char>, UseInfo> {
    Map::empty()
}

/// `FxHashMap::default`: a map that holds no record.
#[verifier::external_body]
fn ledger_new() -> (result: Ledger)
    ensures
        ledger_view(result) == ledger_empty(),
{
    FxHashMap::default()
}

/// `HashMap::get`: the record stored under `uid`, if there is one. The map
/// compares keys as strings, so the record found is the one whose key has
/// the characters of `uid`.
#[verifier::external_body]
fn ledger_get<'a>(m: &'a Ledger, uid: &str) -> (r: Option<&'a UseInfo>)
    ensures
        r == (if ledger_view(*m).contains_key(uid@) {
            Some(&ledger_view(*m)[uid@])
        } else {
            None
        }),
{
    m.get(uid)
}

/// `HashMap::insert`: afterwards `uid` maps to `info`, in place of any
/// record it had, and every other identity keeps its record.
#[verifier::external_body]
fn ledger_insert(m: &mut Ledger, uid: String, info: UseInfo)
    ensures
        ledger_view(*final(m)) == ledger_view(*old(m)).insert(uid@, info),
{
    m.insert(uid, info);
}

/// The ledger after one sweep: every record decayed by one step, and only
/// the records that still show usage kept.
pub open spec fn ledger_decayed(m: Map<Seq<char>, UseInfo>) -> Map<Seq<char>, UseInfo> {
    Map::new(
        |uid: Seq<char>| m.contains_key(uid) && m[uid].spec_decay().active(),
        |uid: Seq<char>| m[uid].spec_decay(),
    )
}

/// `HashMap::retain` with `UseInfo::decay` as the predicate: `retain` hands
/// every record to the predicate once, keeps the change the predicate made
/// to it, and removes the records for which it answered `false`.
#[verifier::external_body]
fn ledger_retain_decayed(m: &mut Ledger)
    ensures
        ledger_view(*final(m)) == ledger_decayed(ledger_view(*old(m))),
{
    m.retain(|_uid, info| info.decay());
}

/// Global shared state.
#[derive(Debug)]
pub struct SharedState {
    /// Server is master (not replicating another database).
    pub is_master: bool,
    /// URL of master server.
    pub replicate_source: String,
    /// Cookies for replication.
    pub replicate_credentials: String,
    /// Denial of service limits.
    pub dos_limit: UA,
    /// Information for mitigating DoS attacks.
    pub dos: Ledger,
    /// Trace time to process each request.
    pub tracetime: bool,
    /// Trace DoS.
    pub tracedos: bool,
    /// Trace memory.
    pub tracemem: bool,
}

impl SharedState {
    /// The ledger: the usage record of every identity seen and not yet
    /// forgotten.
    pub open spec fn ledger(&self) -> Map<Seq<char>, UseInfo> {
        ledger_view(self.dos)
    }

    /// The record of `uid`, or a fresh one where the ledger has none.
    pub open spec fn record(&self, uid: Seq<char>) -> UseInfo {
        if self.ledger().contains_key(uid) {
            self.ledger()[uid]
        } else {
            UseInfo::spec_default()
        }
    }

    /// Everything but the ledger is the same in `self` and `other`.
    pub open spec fn same_settings(&self, other: &SharedState) -> bool {
        &&& self.is_master == other.is_master
        &&& self.replicate_source == other.replicate_source
        &&& self.replicate_credentials == other.replicate_credentials
        &&& self.dos_limit == other.dos_limit
        &&& self.tracetime == other.tracetime
        &&& self.tracedos == other.tracedos
        &&& self.tracemem == other.tracemem
    }

    /// Shared state with the given settings and an empty ledger. The server
    /// is master when it has no source to replicate.
    pub fn new(
        replicate_source: String,
        replicate_credentials: String,
        dos_limit: UA,
        tracetime: bool,
        tracedos: bool,
        tracemem: bool,
    ) -> (result: SharedState)
        ensures
            result.ledger() == ledger_empty(),
            result.is_master == (replicate_source@.len() == 0),
            result.replicate_source == replicate_source,
            result.replicate_credentials == replicate_credentials,
            result.dos_limit == dos_limit,
            result.tracetime == tracetime,
            result.tracedos == tracedos,
            result.tracemem == tracemem,
    {
        SharedState {
            is_master: replicate_source.as_str().is_empty(),
            replicate_source,
            replicate_credentials,
            dos_limit,
            dos: ledger_new(),
            tracetime,
            tracedos,
            tracemem,
        }
    }

    /// Get the usage budget for specified user (difference between limit
    /// and usage). A user seen for the first time gets a record, and a
    /// record without a limit gets the global one.
    pub fn u_budget(&mut self, uid: String) -> (result: UA)
        ensures
            result == old(self).record(uid@).with_default(old(self).dos_limit).spec_budget(),
            final(self).ledger() == old(self).ledger().insert(
                uid@,
                old(self).record(uid@).with_default(old(self).dos_limit),
            ),
            final(self).same_settings(old(self)),
    {
        let mut info = match ledger_get(&self.dos, uid.as_str()) {
            Some(found) => *found,
            None => UseInfo::default(),
        };
        if info.limit[0] == 0 {
            info.limit = self.dos_limit;
        }
        ledger_insert(&mut self.dos, uid, info);
        info.budget()
    }

    /// Increment usage for specified user. A user without a record is not
    /// charged: usage is only counted once a budget was asked for.
    pub fn u_inc(&mut self, uid: &str, amount: UA)
        ensures
            final(self).ledger() == (if old(self).ledger().contains_key(uid@) {
                old(self).ledger().insert(uid@, old(self).ledger()[uid@].spec_charge(amount))
            } else {
                old(self).ledger()
            }),
            final(self).same_settings(old(self)),
    {
        let found = match ledger_get(&self.dos, uid) {
            Some(found) => Some(*found),
            None => None,
        };
        if let Some(mut info) = found {
            info.charge(amount);
            ledger_insert(&mut self.dos, uid.to_owned(), info);
        }
    }

    /// Set the limits for specified user. Tells whether the user is
    /// already over the new limits: some dimension of the usage has met or
    /// passed its new limit.
    pub fn u_set_limits(&mut self, uid: String, limit: UA) -> (result: bool)
        ensures
            result == old(self).record(uid@).with_limit(limit).exhausted(),
            final(self).ledger() == old(self).ledger().insert(
                uid@,
                old(self).record(uid@).with_limit(limit),
            ),
            final(self).same_settings(old(self)),
    {
        let mut info = match ledger_get(&self.dos, uid.as_str()) {
            Some(found) => *found,
            None => UseInfo::default(),
        };
        info.limit = limit;
        ledger_insert(&mut self.dos, uid, info);
        !info.within_limit()
    }

    /// Deflate old usage by 10% periodically. Items with zero usage are
    /// removed.
    pub fn u_decay(&mut self)
        ensures
            final(self).ledger() == ledger_decayed(old(self).ledger()),
            final(self).same_settings(old(self)),
    {
        ledger_retain_decayed(&mut self.dos);
    }

    /// The record kept for `uid`, if any.
    pub fn usage(&self, uid: &str) -> (result: Option<UseInfo>)
        ensures
            result == (if self.ledger().contains_key(uid@) {
                Some(self.ledger()[uid@])
            } else {
                None
            }),
    {
        match ledger_get(&self.dos, uid) {
            Some(found) => Some(*found),
            None => None,
        }
    }
}

/// Between two looks at the budget of one user, a charge can only lower
/// it: in every dimension what `u_budget` reports after `u_inc` is at most
/// what it reported before.
pub proof fn lemma_budget_falls_with_charge(info: UseInfo, limit: UA, amount: UA, i: int)
    requires
        0 <= i < 4,
    ensures
        info.spec_charge(amount).with_default(limit).spec_budget()[i] <= info.with_default(
            limit,
        ).spec_budget()[i],
{
}

/// What happens to the record of one user between two looks at the
/// budget, while the ledger is neither swept nor given new limits.
pub enum Touch {
    /// `u_inc` charged this amount.
    Charge(UA),
    /// `u_budget` was asked, which gives a record without a limit the
    /// global one.
    Look,
}

/// The record of a user after a sequence of charges and looks, under the
/// global limit `limit`.
pub open spec fn touched(info: UseInfo, limit: UA, steps: Seq<Touch>) -> UseInfo
    decreases steps.len(),
{
    if steps.len() == 0 {
        info
    } else {
        let before = touched(info, limit, steps.drop_last());
        match steps.last() {
            Touch::Charge(amount) => before.spec_charge(amount),
            Touch::Look => before.with_default(limit),
        }
    }
}

/// The budget never rises while the ledger is only charged and asked:
/// after any sequence of charges and looks, what `u_budget` reports is in
/// every dimension at most what it reported at the start.
pub proof fn lemma_budget_never_rises(info: UseInfo, limit: UA, steps: Seq<Touch>, i: int)
    requires
        0 <= i < 4,
    ensures
        touched(info, limit, steps).with_default(limit).spec_budget()[i] <= info.with_default(
            limit,
        ).spec_budget()[i],
    decreases steps.len(),
{
    if steps.len() > 0 {
        let before = touched(info, limit, steps.drop_last());
        lemma_budget_never_rises(info, limit, steps.drop_last(), i);
        match steps.last() {
            Touch::Charge(amount) => {
                lemma_budget_falls_with_charge(before, limit, amount, i);
            },
            Touch::Look => {
                assert(before.with_default(limit).with_default(limit) == before.with_default(
                    limit,
                ));
            },
        }
    }
}

/// A sweep of the ledger can only raise the budget that `u_budget` reports
/// for a user whose record is kept, and never past the limit.
pub proof fn lemma_budget_rises_with_decay(info: UseInfo, limit: UA, i: int)
    requires
        0 <= i < 4,
    ensures
        info.spec_decay().with_default(limit).spec_budget()[i] >= info.with_default(
            limit,
        ).spec_budget()[i],
        info.spec_decay().with_default(limit).spec_budget()[i] <= info.with_default(
            limit,
        ).limit[i],
{
}

/// After a sweep the ledger holds exactly the users whose decayed usage is
/// not all zero: a user with nothing left is gone, and asking for the
/// budget again starts from a fresh record.
pub proof fn lemma_sweep_evicts(ledger: Map<Seq<char>, UseInfo>, uid: Seq<char>)
    ensures
        ledger_decayed(ledger).contains_key(uid) <==> ledger.contains_key(uid)
            && ledger[uid].spec_decay().active(),
        ledger_decayed(ledger).contains_key(uid) ==> ledger_decayed(ledger)[uid]
            == ledger[uid].spec_decay(),
{
}

/// Part of multipart data (uploaded files).
#[derive(Debug)]
pub struct Part {
    /// Part name.
    pub name: String,
    /// Part filename.
    pub file_name: String,
    /// Part content type.
    pub content_type: String,
    /// Text.
    pub text: String,
    /// Data.
    pub data: Vec<u8>,
}

/// What a part holds, as plain values.
pub struct PartView {
    pub name: Seq<char>,
    pub file_name: Seq<char>,
    pub content_type: Seq<char>,
    pub text: Seq<char>,
    pub data: Seq<u8>,
}

impl View for Part {
    type V = PartView;

    open spec fn view(&self) -> PartView {
        PartView {
            name: self.name@,
            file_name: self.file_name@,
            content_type: self.content_type@,
            text: self.text@,
            data: self.data@,
        }
    }
}

/// What a list of parts holds, as plain values.
pub open spec fn parts_view(parts: Seq<Part>) -> Seq<PartView> {
    Seq::new(parts.len(), |i: int| parts[i]@)
}

impl Part {
    /// A part with nothing in it, as plain values.
    pub open spec fn empty() -> PartView {
        PartView {
            name: Seq::empty(),
            file_name: Seq::empty(),
            content_type: Seq::empty(),
            text: Seq::empty(),
            data: Seq::empty(),
        }
    }

    /// A part with nothing in it.
    pub fn new() -> (result: Part)
        ensures
            result@ == Part::empty(),
    {
        let result = Part {
            name: String::new(),
            file_name: String::new(),
            content_type: String::new(),
            text: String::new(),
            data: Vec::new(),
        };
        assert(result@.data =~= Seq::empty());
        result
    }
}

/// The query of a transaction: what was asked, by path, parameters,
/// cookies, form fields and uploaded parts.
#[derive(Debug)]
pub struct Query {
    /// The SQL query string.
    pub sql: String,
    /// The path argument for the query.
    pub path: String,
    /// Query parameters.
    pub params: Fields,
    /// Query form.
    pub form: Fields,
    /// Query cookies.
    pub cookies: Fields,
    /// Query parts (files).
    pub parts: Vec<Part>,
    /// Micro-seconds since January 1, 1970 0:00:00 UTC.
    pub now: i64,
}

/// The response of a transaction.
#[derive(Debug)]
pub struct Response {
    /// Error string.
    pub err: String,
    /// Response status code.
    pub status_code: u16,
    /// Response headers.
    pub headers: Vec<(String, String)>,
    /// Response body.
    pub output: Vec<u8>,
}

/// Extra transaction data: what the query asks of the server beyond its
/// output. The query sets these; the router acts on them once the
/// transaction has run.
#[derive(Debug)]
pub struct TransExt {
    /// The transaction belongs to a request and may change the ledger.
    pub has_state: bool,
    /// Id of requestor (IP address or logged in user id).
    pub uid: String,
    /// Signals there is new email to be sent.
    pub tx_email: bool,
    /// Signals time to sleep.
    pub sleep: u64,
    /// Signals wait for new transaction to be logged.
    pub trans_wait: bool,
    /// Signals wait for transactions to be flushed.
    pub trans_flush: bool,
    /// Transform html output to pdf.
    pub to_pdf: bool,
    /// Do not log transaction.
    pub no_log: bool,
}

/// Transaction to be processed.
#[derive(Debug)]
pub struct Trans {
    /// The query.
    pub qy: Query,
    /// The response.
    pub rp: Response,
    /// What the query asked of the server.
    pub ext: TransExt,
    /// The transaction may be appended to the replication log.
    pub log: bool,
    /// The transaction only reads, and runs on a snapshot.
    pub readonly: bool,
    /// The transaction came from the replication log of the master.
    pub replication: bool,
    /// Time the transaction took, in micro-seconds.
    pub run_time: u64,
    /// Number of pages the transaction changed.
    pub updates: usize,
    /// Id of requestor, once the transaction has run.
    pub uid: String,
}

impl TransExt {
    /// Extra data with nothing asked for.
    pub fn new() -> (result: TransExt)
        ensures
            !result.has_state,
            result.uid@.len() == 0,
            !result.tx_email,
            result.sleep == 0,
            !result.trans_wait,
            !result.trans_flush,
            !result.to_pdf,
            !result.no_log,
    {
        TransExt {
            has_state: false,
            uid: String::new(),
            tx_email: false,
            sleep: 0,
            trans_wait: false,
            trans_flush: false,
            to_pdf: false,
            no_log: false,
        }
    }

    /// Set limits, returns false if limit exceeded. A transaction that
    /// belongs to no request changes nothing and reports no excess.
    pub fn set_dos(&self, ss: &mut SharedState, uid: String, to: UA) -> (result: bool)
        ensures
            self.has_state ==> result == !old(ss).record(uid@).with_limit(to).exhausted()
                && final(ss).ledger() == old(ss).ledger().insert(
                uid@,
                old(ss).record(uid@).with_limit(to),
            ),
            !self.has_state ==> result && final(ss).ledger() == old(ss).ledger(),
            final(ss).same_settings(old(ss)),
    {
        if self.has_state {
            !ss.u_set_limits(uid, to)
        } else {
            true
        }
    }

    /// The sleep time that a request for `to` micro-seconds stands for:
    /// at least one, so that the request is seen.
    pub open spec fn spec_sleep(to: i64) -> u64 {
        if to <= 0 {
            1
        } else {
            to as u64
        }
    }

    /// Asks for the timed jobs to run after `to` micro-seconds.
    pub fn ask_sleep(&mut self, to: i64)
        ensures
            final(self).sleep == Self::spec_sleep(to),
            final(self).has_state == old(self).has_state,
            final(self).uid == old(self).uid,
            final(self).tx_email == old(self).tx_email,
            final(self).trans_wait == old(self).trans_wait,
            final(self).trans_flush == old(self).trans_flush,
            final(self).to_pdf == old(self).to_pdf,
            final(self).no_log == old(self).no_log,
    {
        self.sleep = if to <= 0 {
            1
        } else {
            to as u64
        };
    }
}

impl TransExt {
    /// The limits that a request for these four numbers stands for: each
    /// number as an unsigned one, a negative number as the large value
    /// that has its bits.
    pub open spec fn spec_limits(to: [i64; 4]) -> UA {
        [to[0] as u64, to[1] as u64, to[2] as u64, to[3] as u64]
    }

    /// Names the requestor of the transaction and sets the limits of
    /// that requestor. The answer is 1 unless a limit is already
    /// exceeded.
    pub fn ask_dos(&mut self, ss: &mut SharedState, uid: String, to: [i64; 4]) -> (result: i64)
        ensures
            final(self).uid@ == uid@,
            final(self).has_state == old(self).has_state,
            final(self).tx_email == old(self).tx_email,
            final(self).sleep == old(self).sleep,
            final(self).trans_wait == old(self).trans_wait,
            final(self).trans_flush == old(self).trans_flush,
            final(self).to_pdf == old(self).to_pdf,
            final(self).no_log == old(self).no_log,
            old(self).has_state ==> final(ss).ledger() == old(ss).ledger().insert(
                uid@,
                old(ss).record(uid@).with_limit(Self::spec_limits(to)),
            ) && result == (if old(ss).record(uid@).with_limit(
                Self::spec_limits(to),
            ).exhausted() {
                0i64
            } else {
                1i64
            }),
            !old(self).has_state ==> result == 1 && final(ss).ledger() == old(ss).ledger(),
            final(ss).same_settings(old(ss)),
    {
        let limits: UA = [
            #[verifier::truncate]
            (to[0] as u64),
            #[verifier::truncate]
            (to[1] as u64),
            #[verifier::truncate]
            (to[2] as u64),
            #[verifier::truncate]
            (to[3] as u64),
        ];
        assert(limits =~= Self::spec_limits(to));
        self.uid = uid.clone();
        if self.set_dos(ss, uid, limits) {
            1
        } else {
            0
        }
    }
}

/// The query that a request runs unless it is told otherwise.
pub open spec fn main_sql() -> Seq<char> {
    "EXEC web.Main()"@
}

impl Query {
    /// A query that asks for nothing yet, made at the time `now`.
    pub fn new(now: i64) -> (result: Query)
        ensures
            result.sql@ == main_sql(),
            result.path@.len() == 0,
            result.params.entries().len() == 0,
            result.form.entries().len() == 0,
            result.cookies.entries().len() == 0,
            result.parts@.len() == 0,
            result.now == now,
    {
        Query {
            sql: "EXEC web.Main()".to_owned(),
            path: String::new(),
            params: Fields::new(),
            form: Fields::new(),
            cookies: Fields::new(),
            parts: Vec::new(),
            now,
        }
    }
}

impl Response {
    /// A response that holds nothing yet and reports success.
    pub fn new() -> (result: Response)
        ensures
            result.err@.len() == 0,
            result.status_code == 200,
            result.headers@.len() == 0,
            result.output@.len() == 0,
    {
        Response {
            err: String::new(),
            status_code: 200,
            headers: Vec::new(),
            output: Vec::with_capacity(10000),
        }
    }
}

impl Trans {
    /// A transaction that has not run and carries no request: but for
    /// the text of its query and for whether it may be logged, it is as
    /// every transaction starts out.
    pub open spec fn plain(&self, now: i64) -> bool {
        &&& self.qy.path@.len() == 0
        &&& self.qy.params.entries().len() == 0
        &&& self.qy.form.entries().len() == 0
        &&& self.qy.cookies.entries().len() == 0
        &&& self.qy.parts@.len() == 0
        &&& self.qy.now == now
        &&& self.rp.err@.len() == 0
        &&& self.rp.status_code == 200
        &&& self.rp.headers@.len() == 0
        &&& self.rp.output@.len() == 0
        &&& !self.readonly
        &&& !self.replication
        &&& self.run_time == 0
        &&& self.updates == 0
        &&& self.uid@.len() == 0
        &&& !self.ext.tx_email
        &&& self.ext.sleep == 0
        &&& !self.ext.trans_wait
        &&& !self.ext.trans_flush
        &&& !self.ext.to_pdf
        &&& !self.ext.no_log
    }

    /// A transaction as it starts out: it runs the query of a request,
    /// it may be logged, it writes, it has not run.
    pub open spec fn fresh(&self, now: i64) -> bool {
        self.plain(now) && self.qy.sql@ == main_sql() && self.log
    }

    fn make(now: i64) -> (result: Trans)
        ensures
            result.fresh(now),
            !result.ext.has_state,
            result.ext.uid@.len() == 0,
    {
        Trans {
            qy: Query::new(now),
            rp: Response::new(),
            ext: TransExt::new(),
            log: true,
            readonly: false,
            replication: false,
            run_time: 0,
            updates: 0,
            uid: String::new(),
        }
    }

    /// A transaction that belongs to no request, made at the time `now`
    /// (micro-seconds since the start of 1970).
    pub fn new(now: i64) -> (result: Trans)
        ensures
            result.fresh(now),
            !result.ext.has_state,
            result.ext.uid@.len() == 0,
    {
        Self::make(now)
    }

    /// A transaction for the request of `ip`, made at the time `now`.
    pub fn new_with_state(ip: String, now: i64) -> (result: Trans)
        ensures
            result.fresh(now),
            result.ext.has_state,
            result.ext.uid@ == ip@,
    {
        let mut result = Self::make(now);
        result.ext.has_state = true;
        result.ext.uid = ip;
        result
    }

    /// The query asked not to be logged.
    pub fn no_log(&self) -> (result: bool)
        ensures
            result == self.ext.no_log,
    {
        self.ext.no_log
    }

    /// Whether the transaction is appended to the replication log once it
    /// has run: it must be one that may be logged, the query must not
    /// have asked to stay out of the log, and either it came from the log
    /// of the master or it changed the database.
    pub open spec fn spec_should_log(&self, changed: bool) -> bool {
        self.log && !self.ext.no_log && (self.replication || changed)
    }

    /// Whether the writer appends the transaction to the replication log,
    /// given whether it changed the database.
    pub fn should_log(&self, changed: bool) -> (result: bool)
        ensures
            result == self.spec_should_log(changed),
    {
        self.log && !self.no_log() && (self.replication || changed)
    }
}

/// Where a transaction runs.
#[derive(Clone, Copy, PartialEq, Eq, Structural, Debug)]
pub enum Route {
    /// On a snapshot of the database, beside other readers and the writer.
    Snapshot,
    /// On the one writer, in its turn.
    Writer,
}

/// The longest that a transaction waits for the next write, in seconds.
pub const WAIT_SECS: u64 = 600;

/// What the router does once a transaction has run, in this order.
#[derive(Debug)]
pub struct Plan {
    /// Tell the tasks that wait for a write that there was one.
    pub notify: bool,
    /// Tell the timed jobs to run after this many micro-seconds.
    pub sleep: Option<u64>,
    /// Tell the email task that there is email to send.
    pub email: bool,
    /// Wait for the next write, at most this many seconds.
    pub wait: Option<u64>,
    /// Wait until all writes have reached storage.
    pub flush: bool,
    /// Render the output as PDF.
    pub to_pdf: bool,
}

impl SharedState {
    /// Where a transaction runs: one that only reads runs on a snapshot
    /// and never waits for the writer; any other is queued for the writer.
    pub fn route(&self, trans: &Trans) -> (result: Route)
        ensures
            result == (if trans.readonly {
                Route::Snapshot
            } else {
                Route::Writer
            }),
    {
        if trans.readonly {
            Route::Snapshot
        } else {
            Route::Writer
        }
    }

    /// What the signals of a transaction ask for on this server. Only a
    /// master runs timed jobs and sends email.
    pub open spec fn spec_plan(&self, trans: &Trans) -> Plan {
        Plan {
            notify: trans.updates > 0,
            sleep: if self.is_master && trans.ext.sleep > 0 {
                Some(trans.ext.sleep)
            } else {
                None
            },
            email: self.is_master && trans.ext.tx_email,
            wait: if trans.ext.trans_wait {
                Some(WAIT_SECS)
            } else {
                None
            },
            flush: trans.ext.trans_flush,
            to_pdf: trans.ext.to_pdf,
        }
    }

    /// Process a server transaction that has run for `run_time`
    /// micro-seconds: the time and the requestor that the query named
    /// are noted on it, and its signals become the plan of what is left
    /// to do.
    pub fn process(&self, trans: &mut Trans, run_time: u64) -> (plan: Plan)
        ensures
            plan == self.spec_plan(old(trans)),
            final(trans).run_time == run_time,
            final(trans).uid@ == old(trans).ext.uid@,
            final(trans).qy == old(trans).qy,
            final(trans).rp == old(trans).rp,
            final(trans).ext == old(trans).ext,
            final(trans).log == old(trans).log,
            final(trans).readonly == old(trans).readonly,
            final(trans).replication == old(trans).replication,
            final(trans).updates == old(trans).updates,
    {
        trans.run_time = run_time;
        trans.uid = trans.ext.uid.clone();
        Plan {
            notify: trans.updates > 0,
            sleep: if self.is_master && trans.ext.sleep > 0 {
                Some(trans.ext.sleep)
            } else {
                None
            },
            email: self.is_master && trans.ext.tx_email,
            wait: if trans.ext.trans_wait {
                Some(WAIT_SECS)
            } else {
                None
            },
            flush: trans.ext.trans_flush,
            to_pdf: trans.ext.to_pdf,
        }
    }
}

/// http error
#[derive(Debug)]
pub struct Error {
    pub code: u16,
}

impl Error {
    /// The error as text: its code in decimal digits.
    pub fn text(&self) -> (result: String)
        ensures
            result@ == crate::tasks::decimal_chars(self.code as nat),
    {
        let mut result = String::new();
        crate::tasks::push_number(&mut result, self.code as u64);
        assert(Seq::<char>::empty() + crate::tasks::decimal_chars(self.code as nat)
            =~= crate::tasks::decimal_chars(self.code as nat));
        result
    }
}

/// The error of `core::str::from_utf8`.
#[verifier::external_type_specification]
#[verifier::external_body]
pub struct ExUtf8Error(Utf8Error);

/// The error of `serde_urlencoded::from_bytes`.
#[verifier::external_type_specification]
#[verifier::external_body]
pub struct ExDecodeError(DecodeError);

/// The error of a read or write on a stream.
#[verifier::external_type_specification]
#[verifier::external_body]
pub struct ExIoError(IoError);

impl From<IoError> for Error {
    fn from(_e: IoError) -> (result: Error) {
        Error { code: 500 }
    }
}

impl vstd::std_specs::convert::FromSpecImpl<IoError> for Error {
    open spec fn obeys_from_spec() -> bool {
        true
    }

    open spec fn from_spec(_e: IoError) -> Error {
        Error { code: 500 }
    }
}

impl From<Utf8Error> for Error {
    fn from(_e: Utf8Error) -> (result: Error) {
        Error { code: 400 }
    }
}

impl vstd::std_specs::convert::FromSpecImpl<Utf8Error> for Error {
    open spec fn obeys_from_spec() -> bool {
        true
    }

    open spec fn from_spec(_e: Utf8Error) -> Error {
        Error { code: 400 }
    }
}

impl From<DecodeError> for Error {
    fn from(_e: DecodeError) -> (result: Error) {
        Error { code: 400 }
    }
}

impl vstd::std_specs::convert::FromSpecImpl<DecodeError> for Error {
    open spec fn obeys_from_spec() -> bool {
        true
    }

    open spec fn from_spec(_e: DecodeError) -> Error {
        Error { code: 400 }
    }
}

} // verus!
