//! The background tasks of the server, as the decisions they take: the
//! replication client, the task of the timed jobs and the email task. The
//! caller waits, fetches, sends and runs transactions, and tells each
//! task what came of it.

use crate::share::{Query, SharedState, Trans};
use vstd::prelude::*;
use vstd::string::StringExecFns;
use vstd::utf8::{decode_utf8, valid_utf8};

verus! {

/// The character of a decimal digit.
pub open spec fn digit_char(d: nat) -> char {
    ((48 + d) as u8) as char
}

/// The decimal digits of `n`, as text.
pub open spec fn decimal_chars(n: nat) -> Seq<char>
    decreases n,
{
    if n < 10 {
        seq![digit_char(n)]
    } else {
        decimal_chars(n / 10).push(digit_char(n % 10))
    }
}

/// The text of one decimal digit.
fn digit_str(d: u64) -> (result: &'static str)
    requires
        d < 10,
    ensures
        result@ == seq![digit_char(d as nat)],
{
    proof {
        reveal_strlit("0");
        reveal_strlit("1");
        reveal_strlit("2");
        reveal_strlit("3");
        reveal_strlit("4");
        reveal_strlit("5");
        reveal_strlit("6");
        reveal_strlit("7");
        reveal_strlit("8");
        reveal_strlit("9");
    }
    let result = if d == 0 {
        "0"
    } else if d == 1 {
        "1"
    } else if d == 2 {
        "2"
    } else if d == 3 {
        "3"
    } else if d == 4 {
        "4"
    } else if d == 5 {
        "5"
    } else if d == 6 {
        "6"
    } else if d == 7 {
        "7"
    } else if d == 8 {
        "8"
    } else {
        "9"
    };
    assert(result@ =~= seq![digit_char(d as nat)]);
    result
}

/// Appends the decimal digits of `n` to `to`.
pub fn push_number(to: &mut String, n: u64)
    ensures
        final(to)@ == old(to)@ + decimal_chars(n as nat),
    decreases n,
{
    if n >= 10 {
        push_number(to, n / 10);
    }
    let ghost before = to@;
    to.append(digit_str(n % 10));
    proof {
        let d = digit_char(n as nat % 10);
        if n >= 10 {
            assert(old(to)@ + decimal_chars(n as nat / 10).push(d) =~= (old(to)@ + decimal_chars(
                n as nat / 10,
            )) + seq![d]);
        } else {
            assert(old(to)@ + seq![d] =~= before + seq![d]);
        }
    }
}

/// How long a request to the master may take before the client gives it
/// up, in seconds.
pub const WATCHDOG_SECS: u64 = 800;

/// How long the client waits before it asks the master again after a
/// request that failed, in seconds.
pub const RETRY_SECS: u64 = 10;

/// How long one nap of the watchdog lasts, in seconds.
pub const NAP_SECS: u64 = 10;

/// What came of one request to the master.
#[derive(Debug)]
pub enum Fetched {
    /// The master answered with success and this body.
    Body(Vec<u8>),
    /// The master answered with another status.
    Status(u16),
    /// The request or the reading of its answer failed.
    Failed,
    /// The watchdog gave the request up.
    TimedOut,
}

/// What the client does after a request to the master.
#[derive(Debug)]
pub enum Fetch {
    /// The body is there.
    Done(Vec<u8>),
    /// Ask the same again, after so many seconds.
    Retry(u64),
}

/// Get data from master server, retries in case of error: what to do
/// with the outcome of one request. A body that came with success ends
/// the asking. After anything else the same is asked again once the
/// retry time has passed; the client never gives up.
pub fn rget(outcome: Fetched) -> (result: Fetch)
    ensures
        match outcome {
            Fetched::Body(body) => result == Fetch::Done(body),
            _ => result == Fetch::Retry(RETRY_SECS),
        },
{
    match outcome {
        Fetched::Body(body) => Fetch::Done(body),
        _ => Fetch::Retry(RETRY_SECS),
    }
}

/// The address of a request to the master: the address of the master,
/// then the path and query of the request.
pub fn master_url(ss: &SharedState, query: &str) -> (result: String)
    ensures
        result@ == ss.replicate_source@ + query@,
{
    ss.replicate_source.clone().concat(query)
}

/// The number of naps that a sleep of `secs` seconds is made of.
pub open spec fn naps_of(secs: int) -> int {
    (secs + NAP_SECS - 1) / (NAP_SECS as int)
}

/// Whether a sleep of `secs` seconds goes on after `naps` naps, when the
/// clock shows that `elapsed` seconds have passed. The sleep ends when
/// its naps are done, and sooner when the time has in truth passed or
/// the clock cannot be read.
pub open spec fn spec_sleep_real(secs: u64, naps: u64, elapsed: Option<u64>) -> bool {
    &&& naps < naps_of(secs as int)
    &&& naps == 0 || (elapsed is Some && elapsed->Some_0 < secs)
}

/// Sleep function that checks real time elapsed: whether another nap is
/// due.
pub fn sleep_real(secs: u64, naps: u64, elapsed: Option<u64>) -> (result: bool)
    ensures
        result == spec_sleep_real(secs, naps, elapsed),
{
    let whole = secs / NAP_SECS;
    let due = if secs % NAP_SECS == 0 {
        naps < whole
    } else {
        naps <= whole
    };
    if !due {
        return false;
    }
    if naps == 0 {
        return true;
    }
    match elapsed {
        Some(e) => e < secs,
        None => false,
    }
}

/// The path and query that asks the master for the whole database.
pub open spec fn script_path() -> Seq<char> {
    "/ScriptExact?readonly"@
}

/// The path and query that asks the master for one transaction.
pub open spec fn transaction_path(tid: u64) -> Seq<char> {
    "/GetTransaction?k="@ + decimal_chars(tid as nat)
}

/// Where the replication client stands.
#[derive(Clone, Copy, PartialEq, Eq, Structural, Debug)]
pub enum SyncState {
    /// It waits to learn whether the database is new.
    Start,
    /// It has asked the master for the whole database.
    Bootstrap,
    /// The script of the whole database is running.
    Loading,
    /// It has asked for the id of the next transaction.
    Polling,
    /// It has asked the master for the transaction of this id.
    Tailing(u64),
    /// A transaction of the master is running.
    Applying,
    /// It has stopped.
    Stopped,
}

/// What has happened to the replication client.
#[derive(Debug)]
pub enum SyncEvent {
    /// The database was opened; it is new or not.
    Opened(bool),
    /// The id of the first transaction that the local log lacks.
    NextId(u64),
    /// The body that the master sent.
    Body(Vec<u8>),
    /// The transaction that was handed out has run.
    Ran,
}

/// What the replication client does next.
#[derive(Debug)]
pub enum SyncAction {
    /// Ask the master for this path and query, until a body comes.
    Fetch(String),
    /// Run this transaction.
    Run(Trans),
    /// Decode this record of the master and run it as a transaction
    /// that came from the log of the master.
    Replay(Vec<u8>),
    /// Find the id of the first transaction that the local log lacks.
    FindNext,
    /// Stop.
    Stop,
}

/// The script that a body holds, if it is text.
pub open spec fn script_of(body: Seq<u8>) -> Option<Seq<char>> {
    if valid_utf8(body) {
        Some(decode_utf8(body))
    } else {
        None
    }
}

/// The transaction that loads the whole database: it runs the script,
/// and is not logged.
pub open spec fn is_load(t: Trans, script: Seq<char>, now: i64) -> bool {
    &&& t.plain(now)
    &&& t.qy.sql@ == script
    &&& !t.log
    &&& !t.ext.has_state
    &&& t.ext.uid@.len() == 0
}

/// What one step of the replication client does. A new database is
/// loaded once, from the script of the master, by a transaction that is
/// not logged. After that the client asks for the transaction that the
/// local log lacks, replays it when it comes, and asks again: an empty
/// body means that the master has none yet. The id is read anew after
/// every answer, so no transaction is replayed twice.
pub open spec fn sync_post(
    before: SyncState,
    event: SyncEvent,
    now: i64,
    after: SyncState,
    action: SyncAction,
) -> bool {
    match (before, event) {
        (SyncState::Start, SyncEvent::Opened(is_new)) => if is_new {
            after == SyncState::Bootstrap && action is Fetch && action->Fetch_0@ == script_path()
        } else {
            after == SyncState::Polling && action is FindNext
        },
        (SyncState::Bootstrap, SyncEvent::Body(body)) => match script_of(body@) {
            Some(script) => after == SyncState::Loading && action is Run && is_load(
                action->Run_0,
                script,
                now,
            ),
            None => after == SyncState::Stopped && action is Stop,
        },
        (SyncState::Loading, SyncEvent::Ran) => after == SyncState::Polling && action is FindNext,
        (SyncState::Polling, SyncEvent::NextId(tid)) => after == SyncState::Tailing(tid)
            && action is Fetch && action->Fetch_0@ == transaction_path(tid),
        (SyncState::Tailing(tid), SyncEvent::Body(body)) => if body@.len() == 0 {
            after == SyncState::Polling && action is FindNext
        } else {
            after == SyncState::Applying && action is Replay && action->Replay_0 == body
        },
        (SyncState::Applying, SyncEvent::Ran) => after == SyncState::Polling && action is FindNext,
        _ => after == SyncState::Stopped && action is Stop,
    }
}

/// The script that a body holds, if it is text.
fn script_text(body: &[u8]) -> (result: Option<String>)
    ensures
        match result {
            Some(text) => script_of(body@) == Some(text@),
            None => script_of(body@) is None,
        },
{
    match crate::request::tos(body) {
        Ok(text) => Some(text),
        Err(_) => None,
    }
}

/// Task for syncing with master database: one step of it.
pub fn sync_loop(state: &mut SyncState, event: SyncEvent, now: i64) -> (action: SyncAction)
    ensures
        sync_post(*old(state), event, now, *final(state), action),
{
    match (*state, event) {
        (SyncState::Start, SyncEvent::Opened(is_new)) => {
            if is_new {
                *state = SyncState::Bootstrap;
                SyncAction::Fetch("/ScriptExact?readonly".to_owned())
            } else {
                *state = SyncState::Polling;
                SyncAction::FindNext
            }
        },
        (SyncState::Bootstrap, SyncEvent::Body(body)) => {
            match script_text(body.as_slice()) {
                Some(script) => {
                    let mut st = Trans::new(now);
                    st.log = false;
                    st.qy.sql = script;
                    *state = SyncState::Loading;
                    SyncAction::Run(st)
                },
                None => {
                    *state = SyncState::Stopped;
                    SyncAction::Stop
                },
            }
        },
        (SyncState::Loading, SyncEvent::Ran) => {
            *state = SyncState::Polling;
            SyncAction::FindNext
        },
        (SyncState::Polling, SyncEvent::NextId(tid)) => {
            let mut url = "/GetTransaction?k=".to_owned();
            push_number(&mut url, tid);
            *state = SyncState::Tailing(tid);
            SyncAction::Fetch(url)
        },
        (SyncState::Tailing(_), SyncEvent::Body(body)) => {
            if body.len() == 0 {
                *state = SyncState::Polling;
                SyncAction::FindNext
            } else {
                *state = SyncState::Applying;
                SyncAction::Replay(body)
            }
        },
        (SyncState::Applying, SyncEvent::Ran) => {
            *state = SyncState::Polling;
            SyncAction::FindNext
        },
        _ => {
            *state = SyncState::Stopped;
            SyncAction::Stop
        },
    }
}

/// The transaction that replays a query of the master: it came from the
/// log of the master, so it is logged here whether or not it changes
/// anything.
pub fn replayed(query: Query, now: i64) -> (result: Trans)
    ensures
        result.qy == query,
        result.replication,
        result.log,
        !result.readonly,
        result.rp.err@.len() == 0,
        result.rp.status_code == 200,
        result.rp.headers@.len() == 0,
        result.rp.output@.len() == 0,
        result.run_time == 0,
        result.updates == 0,
        result.uid@.len() == 0,
        !result.ext.has_state,
        result.ext.uid@.len() == 0,
        !result.ext.tx_email,
        result.ext.sleep == 0,
        !result.ext.trans_wait,
        !result.ext.trans_flush,
        !result.ext.to_pdf,
        !result.ext.no_log,
        result.spec_should_log(false),
{
    let mut st = Trans::new(now);
    st.qy = query;
    st.replication = true;
    st
}

/// The time that the task of the timed jobs sleeps before anything has
/// set it, in micro-seconds.
pub const FIRST_SLEEP: u64 = 5_000_000;

/// The longest that the task of the timed jobs sleeps, in micro-seconds:
/// a day.
pub const LONGEST_SLEEP: u64 = 86_400_000_000;

/// The query that runs the jobs that are due.
pub open spec fn timed_sql() -> Seq<char> {
    "EXEC timed.Run()"@
}

/// The time that the task of the timed jobs sleeps.
#[derive(Debug)]
pub struct SleepState {
    /// Micro-seconds to sleep.
    pub sleep_micro: u64,
}

/// What has happened to the task of the timed jobs.
#[derive(Debug)]
pub enum SleepEvent {
    /// A transaction asked for this sleep time, in micro-seconds.
    Asked(u64),
    /// The sleep time has passed.
    Elapsed,
    /// The transaction that was handed out has run.
    Ran,
}

/// What the task of the timed jobs does next.
#[derive(Debug)]
pub enum SleepAction {
    /// Sleep for so many micro-seconds, or until a new time is set.
    Sleep(u64),
    /// Run this transaction.
    Run(Trans),
}

/// The sleep time that a request for `micros` gives: no longer than a
/// day.
pub open spec fn capped(micros: u64) -> u64 {
    if micros > LONGEST_SLEEP {
        LONGEST_SLEEP
    } else {
        micros
    }
}

/// The transaction that runs the jobs that are due: a writing
/// transaction that belongs to no request.
pub open spec fn is_job(t: Trans, sql: Seq<char>, now: i64) -> bool {
    &&& t.plain(now)
    &&& t.qy.sql@ == sql
    &&& t.log
    &&& !t.ext.has_state
    &&& t.ext.uid@.len() == 0
}

/// What one step of the task of the timed jobs does. A new sleep time
/// takes the place of the old one. When the time has passed, a master
/// runs the jobs that are due; a replica sleeps on. After the jobs the
/// task sleeps for the time that they have set.
pub open spec fn sleep_post(
    before: SleepState,
    event: SleepEvent,
    is_master: bool,
    now: i64,
    after: SleepState,
    action: SleepAction,
) -> bool {
    match event {
        SleepEvent::Asked(micros) => after.sleep_micro == capped(micros) && action
            == SleepAction::Sleep(capped(micros)),
        SleepEvent::Elapsed => after == before && if is_master {
            action is Run && is_job(action->Run_0, timed_sql(), now)
        } else {
            action == SleepAction::Sleep(before.sleep_micro)
        },
        SleepEvent::Ran => after == before && action == SleepAction::Sleep(before.sleep_micro),
    }
}

impl SleepState {
    /// The task before anything has set its sleep time.
    pub fn new() -> (result: SleepState)
        ensures
            result.sleep_micro == FIRST_SLEEP,
    {
        SleepState { sleep_micro: FIRST_SLEEP }
    }
}

/// Task for sleeping - calls timed.Run once sleep time has elapsed: one
/// step of it.
pub fn sleep_loop(state: &mut SleepState, event: SleepEvent, is_master: bool, now: i64) -> (action:
    SleepAction)
    ensures
        sleep_post(*old(state), event, is_master, now, *final(state), action),
{
    match event {
        SleepEvent::Asked(micros) => {
            state.sleep_micro = if micros > LONGEST_SLEEP {
                LONGEST_SLEEP
            } else {
                micros
            };
            SleepAction::Sleep(state.sleep_micro)
        },
        SleepEvent::Elapsed => {
            if is_master {
                let mut st = Trans::new(now);
                st.qy.sql = "EXEC timed.Run()".to_owned();
                SleepAction::Run(st)
            } else {
                SleepAction::Sleep(state.sleep_micro)
            }
        },
        SleepEvent::Ran => SleepAction::Sleep(state.sleep_micro),
    }
}

/// What came of the sending of one email.
#[derive(Debug)]
pub enum SendOutcome {
    /// It was sent.
    Sent,
    /// An address could not be read.
    Address(String),
    /// The message could not be built.
    Message(String),
    /// The mail server refused, for now or for good.
    Smtp(bool, String),
}

/// What is noted for an email that could not be sent: whether to try
/// again, and why it failed. Only a refusal that the mail server calls
/// transient is tried again.
pub open spec fn send_failure(outcome: SendOutcome) -> Option<(nat, Seq<char>)> {
    match outcome {
        SendOutcome::Sent => None,
        SendOutcome::Address(text) => Some((0, text@)),
        SendOutcome::Message(text) => Some((0, text@)),
        SendOutcome::Smtp(transient, text) => Some(
            (
                if transient {
                    1
                } else {
                    0
                },
                text@,
            ),
        ),
    }
}

/// The query that notes that the email `msg` was sent.
pub open spec fn sent_sql(msg: u64) -> Seq<char> {
    "EXEC email.Sent("@ + decimal_chars(msg as nat) + ")"@
}

/// The query that notes that the email `msg` could not be sent.
pub open spec fn error_sql(msg: u64, retry: nat, err: Seq<char>) -> Seq<char> {
    "EXEC email.LogSendError("@ + decimal_chars(msg as nat) + ","@ + decimal_chars(retry) + ",'"@
        + err + "')"@
}

/// Update the database to reflect an email was sent: the transaction
/// that does so.
pub fn email_sent(msg: u64, now: i64) -> (result: Trans)
    ensures
        is_job(result, sent_sql(msg), now),
{
    let mut sql = "EXEC email.Sent(".to_owned();
    push_number(&mut sql, msg);
    sql.append(")");
    let mut st = Trans::new(now);
    st.qy.sql = sql;
    st
}

/// Update the database to reflect an error occurred sending an email:
/// the transaction that does so.
pub fn email_error(msg: u64, retry: u8, err: String, now: i64) -> (result: Trans)
    ensures
        is_job(result, error_sql(msg, retry as nat, err@), now),
{
    let mut sql = "EXEC email.LogSendError(".to_owned();
    push_number(&mut sql, msg);
    sql.append(",");
    push_number(&mut sql, retry as u64);
    sql.append(",'");
    sql.append(err.as_str());
    sql.append("')");
    let mut st = Trans::new(now);
    st.qy.sql = sql;
    st
}

/// The query that follows the sending of the email `msg`.
pub open spec fn followup_sql(msg: u64, outcome: SendOutcome) -> Seq<char> {
    match send_failure(outcome) {
        None => sent_sql(msg),
        Some((retry, err)) => error_sql(msg, retry, err),
    }
}

/// Task that sends emails: what follows the sending of one email. An
/// email that was sent is marked as sent. One that failed is noted with
/// its error, to be tried again if the failure may pass.
pub fn email_loop(msg: u64, outcome: SendOutcome, now: i64) -> (result: Trans)
    ensures
        is_job(result, followup_sql(msg, outcome), now),
{
    match outcome {
        SendOutcome::Sent => email_sent(msg, now),
        SendOutcome::Address(text) => email_error(msg, 0, text, now),
        SendOutcome::Message(text) => email_error(msg, 0, text, now),
        SendOutcome::Smtp(transient, text) => {
            let retry: u8 = if transient {
                1
            } else {
                0
            };
            email_error(msg, retry, text, now)
        },
    }
}

} // verus!
