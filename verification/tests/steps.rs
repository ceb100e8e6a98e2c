use rustweb::buffer::Buffer;
use rustweb::handler::{
    body_kind, parse_length, process, Action, BodyKind, Clock, Event, Phase, Request,
};
use rustweb::request::tmr;
use rustweb::share::{Error, Plan, Route, SharedState, Trans, TransExt, WAIT_SECS};
use rustweb::tasks::{
    email_error, email_loop, email_sent, master_url, push_number, replayed, rget, sleep_loop,
    sleep_real, sync_loop, Fetch, Fetched, SendOutcome, SleepAction, SleepEvent, SleepState,
    SyncAction, SyncEvent, SyncState, FIRST_SLEEP, LONGEST_SLEEP, RETRY_SECS,
};

fn state(limit: [u64; 4]) -> SharedState {
    SharedState::new(String::new(), String::new(), limit, false, false, false)
}

/// Runs a request over the given input, answering each transaction with
/// `run`, and gives what was written and how the request ended.
fn serve(
    ss: &mut SharedState,
    chunks: &[&[u8]],
    mut run: impl FnMut(&mut Trans),
) -> (Vec<u8>, Result<(), Error>, Vec<Trans>, Buffer) {
    let mut br = Buffer::new(ss, "1.2.3.4".to_string());
    let mut req = Request::new();
    let clock = Clock { now: 1_700_000_000_000_000, elapsed: 3 };
    let mut event = Event::Input(Ok(()));
    let mut written = Vec::new();
    let mut seen = Vec::new();
    let mut next = 0;
    for _ in 0..10_000 {
        match process(&mut req, &mut br, ss, event, &clock) {
            Action::Fill => {
                if next == chunks.len() {
                    event = Event::Input(br.fill(&[]));
                } else {
                    event = Event::Input(br.fill(chunks[next]));
                    next += 1;
                }
            }
            Action::Again => event = Event::Input(Ok(())),
            Action::Run(mut t) => {
                let mut copy = Trans::new(t.qy.now);
                copy.qy.sql = t.qy.sql.clone();
                copy.qy.path = t.qy.path.clone();
                copy.readonly = t.readonly;
                copy.ext.uid = t.ext.uid.clone();
                copy.ext.has_state = t.ext.has_state;
                for i in 0..t.qy.form.len() {
                    let (k, v) = t.qy.form.entry(i);
                    copy.qy.form.insert(k.clone(), v.clone());
                }
                seen.push(copy);
                run(&mut t);
                ss.process(&mut t, 250);
                event = Event::Ran(t);
            }
            Action::Write(bytes, _wait) => {
                written.extend_from_slice(&bytes);
                event = Event::Written(2, Ok(()));
            }
            Action::End(result) => {
                assert_eq!(req.phase, Phase::Done);
                return (written, result, seen, br);
            }
        }
    }
    panic!("the request did not end");
}

#[test]
fn get_request_is_answered_with_the_output() {
    let mut ss = state([100, 1_000_000, 10_000_000, 1_000_000]);
    let (written, result, seen, br) =
        serve(&mut ss, &[b"GET /hello?who=you HTTP/1.1\r\nHost: h\r\n\r\n"], |t| {
            if t.qy.sql == "EXEC web.Main()" {
                t.rp.output.extend_from_slice(b"Hello, you");
            }
        });
    assert!(result.is_ok());
    assert_eq!(written, b"HTTP/1.1 200\r\nContent-Length: 10\r\n\r\nHello, you".to_vec());
    assert_eq!(seen.len(), 2);
    assert_eq!(seen[0].qy.sql, "EXEC web.SetUser()");
    assert!(seen[0].readonly);
    assert_eq!(seen[0].qy.path, "/hello");
    assert_eq!(seen[0].ext.uid, "1.2.3.4");
    assert!(seen[0].ext.has_state);
    assert_eq!(seen[1].qy.sql, "EXEC web.Main()");
    assert!(seen[1].readonly);
    assert_eq!(br.usage().used[2], 250);
}

#[test]
fn post_request_writes_and_carries_its_form() {
    let mut ss = state([100, 1_000_000, 10_000_000, 1_000_000]);
    let (written, result, seen, _) = serve(
        &mut ss,
        &[
            b"POST /save HTTP/1.1\r\nContent-Type: application/x-www-form-urlencoded\r\n",
            b"Content-Length: 7\r\n\r\na=1",
            b"&b=2extra",
        ],
        |t| {
            if t.qy.sql == "EXEC web.Main()" {
                t.rp.status_code = 303;
                t.rp.headers.push(("Location".to_string(), "/".to_string()));
            }
        },
    );
    assert!(result.is_ok());
    assert_eq!(written, b"HTTP/1.1 303\r\nLocation:/\r\nContent-Length: 0\r\n\r\n".to_vec());
    assert_eq!(seen.len(), 2);
    assert!(!seen[1].readonly);
    assert_eq!(seen[1].qy.form.get("a").unwrap(), "1");
    assert_eq!(seen[1].qy.form.get("b").unwrap(), "2");
}

#[test]
fn readonly_parameter_makes_a_post_read() {
    let mut ss = state([100, 1_000_000, 10_000_000, 1_000_000]);
    let (_, result, seen, _) =
        serve(&mut ss, &[b"POST /x?readonly=1 HTTP/1.1\r\n\r\n"], |_t| {});
    assert!(result.is_ok());
    assert!(seen[1].readonly);
}

#[test]
fn unknown_content_type_is_not_run() {
    let mut ss = state([100, 1_000_000, 10_000_000, 1_000_000]);
    let (written, result, seen, _) =
        serve(&mut ss, &[b"POST /x HTTP/1.1\r\nContent-Type: text/xml\r\n\r\n<a/>"], |_t| {});
    assert!(result.is_ok());
    assert_eq!(written, b"HTTP/1.1 501\r\nContent-Length: 0\r\n\r\n".to_vec());
    assert_eq!(seen.len(), 1);
}

#[test]
fn form_without_length_is_refused() {
    let mut ss = state([100, 1_000_000, 10_000_000, 1_000_000]);
    let (written, result, seen, _) = serve(
        &mut ss,
        &[b"POST /x HTTP/1.1\r\nContent-Type: application/x-www-form-urlencoded\r\n\r\na=1"],
        |_t| {},
    );
    assert_eq!(result.unwrap_err().code, 400);
    assert!(written.is_empty());
    assert_eq!(seen.len(), 1);
}

#[test]
fn stream_that_ends_in_the_head_ends_in_silence() {
    let mut ss = state([100, 1_000_000, 10_000_000, 1_000_000]);
    let (written, result, seen, _) = serve(&mut ss, &[b"GET /hel"], |_t| {});
    assert!(result.is_ok());
    assert!(written.is_empty());
    assert!(seen.is_empty());
}

#[test]
fn stream_that_ends_in_the_body_is_an_error() {
    let mut ss = state([100, 1_000_000, 10_000_000, 1_000_000]);
    let (_, result, seen, _) = serve(
        &mut ss,
        &[b"POST /x HTTP/1.1\r\nContent-Type: application/x-www-form-urlencoded\r\nContent-Length: 9\r\n\r\na=1"],
        |_t| {},
    );
    assert_eq!(result.unwrap_err().code, 0);
    assert_eq!(seen.len(), 1);
}

#[test]
fn read_that_runs_out_of_time_never_runs_a_transaction() {
    let mut ss = state([100, 1_000_000, 10_000_000, 1_000_000]);
    let mut br = Buffer::new(&mut ss, "1.2.3.4".to_string());
    let mut req = Request::new();
    let clock = Clock { now: 0, elapsed: 0 };
    let first = process(&mut req, &mut br, &mut ss, Event::Input(Ok(())), &clock);
    assert!(matches!(first, Action::Fill));
    br.fill(b"POST /pay HT").unwrap();
    let second = process(&mut req, &mut br, &mut ss, Event::Input(Ok(())), &clock);
    assert!(matches!(second, Action::Fill));
    // The allowance is half a million milli-seconds; this is past it.
    let late = br.fill_timeout(500_000 * 1_000_000);
    assert_eq!(late.as_ref().unwrap_err().code, 429);
    let end = process(&mut req, &mut br, &mut ss, Event::Input(Err(tmr())), &clock);
    assert!(matches!(end, Action::End(Err(e)) if e.code == 429));
    assert_eq!(req.phase, Phase::Done);
    let after = process(&mut req, &mut br, &mut ss, Event::Input(Ok(())), &clock);
    assert!(matches!(after, Action::End(Err(e)) if e.code == 500));
}

#[test]
fn proxy_header_moves_the_account_to_the_client() {
    let mut ss = state([100, 1_000_000, 10_000_000, 1_000_000]);
    let (_, result, seen, br) =
        serve(&mut ss, &[b"GET / HTTP/1.1\r\nX-Real-IP: 10.0.0.7\r\n\r\n"], |t| {
            t.ext.uid = "user7".to_string();
        });
    assert!(result.is_ok());
    assert_eq!(seen[0].ext.uid, "10.0.0.7");
    assert_eq!(br.identity(), "user7");
    assert!(ss.usage("10.0.0.7").is_some());
    assert!(ss.usage("user7").is_some());
}

#[test]
fn proxy_header_of_a_spent_client_ends_the_request() {
    let mut ss = state([1, 1_000_000, 10_000_000, 1_000_000]);
    ss.u_budget("10.0.0.7".to_string());
    ss.u_inc("10.0.0.7", [1, 0, 0, 0]);
    let (written, result, seen, _) =
        serve(&mut ss, &[b"GET / HTTP/1.1\r\nX-Real-IP: 10.0.0.7\r\n\r\n"], |_t| {});
    assert_eq!(result.unwrap_err().code, 429);
    assert!(written.is_empty());
    assert!(seen.is_empty());
}

#[test]
fn write_that_fails_ends_the_request_and_is_charged() {
    let mut ss = state([100, 1_000_000, 10_000_000, 1_000_000]);
    let mut br = Buffer::new(&mut ss, "w".to_string());
    let mut req = Request::new();
    let clock = Clock { now: 0, elapsed: 0 };
    let mut st = Trans::new(0);
    st.rp.output = vec![b'x'; 4096];
    req.trans = Some(st);
    req.phase = Phase::Reply;
    let a = process(&mut req, &mut br, &mut ss, Event::Input(Ok(())), &clock);
    match a {
        Action::Write(head, wait) => {
            assert_eq!(head, b"HTTP/1.1 200\r\nContent-Length: 4096\r\n\r\n".to_vec());
            assert_eq!(wait, 1_000_000);
        }
        _ => panic!("the head was not written"),
    }
    let a = process(&mut req, &mut br, &mut ss, Event::Written(5, Ok(())), &clock);
    match a {
        Action::Write(body, wait) => {
            assert_eq!(body.len(), 4096);
            assert_eq!(wait, 1_000_000 / 5);
        }
        _ => panic!("the body was not written"),
    }
    let a = process(&mut req, &mut br, &mut ss, Event::Written(7, Err(tmr())), &clock);
    assert!(matches!(a, Action::End(Err(e)) if e.code == 429));
    assert_eq!(br.usage().used[3], 28);
}

#[test]
fn content_length_is_decimal() {
    assert_eq!(parse_length(b"0"), Some(0));
    assert_eq!(parse_length(b"42"), Some(42));
    assert_eq!(parse_length(b"+42"), Some(42));
    assert_eq!(parse_length(b"007"), Some(7));
    assert_eq!(parse_length(b""), None);
    assert_eq!(parse_length(b"+"), None);
    assert_eq!(parse_length(b"-1"), None);
    assert_eq!(parse_length(b" 1"), None);
    assert_eq!(parse_length(b"1a"), None);
    assert_eq!(parse_length(b"18446744073709551615"), Some(usize::MAX));
    assert_eq!(parse_length(b"18446744073709551616"), None);
}

#[test]
fn content_length_that_was_written_is_read_back() {
    for n in [0u64, 9, 10, 12, 4096, 999_999, u64::MAX] {
        let mut text = Vec::new();
        rustweb::request::push_decimal(&mut text, n);
        assert_eq!(parse_length(&text), Some(n as usize));
    }
}

#[test]
fn new_request_has_read_nothing() {
    let req = Request::new();
    assert_eq!(req.phase, Phase::Head);
    assert!(req.head.token.is_empty());
    assert!(req.body.boundary.is_empty() && req.body.line.is_empty() && req.body.data.is_empty());
    assert!(req.form.is_empty());
    assert_eq!(req.length, 0);
    assert!(!req.readonly);
    assert!(req.trans.is_none());
    assert!(req.output.is_empty());
    assert_eq!(req.writing, 0);
}

#[test]
fn body_kinds() {
    assert!(matches!(body_kind(b""), BodyKind::Empty));
    assert!(matches!(body_kind(b"application/x-www-form-urlencoded"), BodyKind::Form));
    assert!(matches!(body_kind(b"multipart/form-data; boundary=b"), BodyKind::Multipart));
    assert!(matches!(body_kind(b"application/json"), BodyKind::Unsupported));
    assert!(matches!(
        body_kind(b"application/x-www-form-urlencoded; charset=utf-8"),
        BodyKind::Unsupported
    ));
}

#[test]
fn route_by_readonly() {
    let ss = state([1; 4]);
    let mut t = Trans::new(0);
    assert_eq!(ss.route(&t), Route::Writer);
    t.readonly = true;
    assert_eq!(ss.route(&t), Route::Snapshot);
}

fn plan_of(ss: &SharedState, t: &mut Trans) -> Plan {
    ss.process(t, 99)
}

#[test]
fn plan_follows_the_signals() {
    let master = state([1; 4]);
    let mut t = Trans::new(0);
    t.updates = 3;
    t.ext.sleep = 500;
    t.ext.tx_email = true;
    t.ext.trans_wait = true;
    t.ext.trans_flush = true;
    t.ext.to_pdf = true;
    t.ext.uid = "u".to_string();
    let plan = plan_of(&master, &mut t);
    assert!(plan.notify);
    assert_eq!(plan.sleep, Some(500));
    assert!(plan.email);
    assert_eq!(plan.wait, Some(WAIT_SECS));
    assert_eq!(WAIT_SECS, 600);
    assert!(plan.flush);
    assert!(plan.to_pdf);
    assert_eq!(t.run_time, 99);
    assert_eq!(t.uid, "u");
    let mut quiet = Trans::new(0);
    let plan = plan_of(&master, &mut quiet);
    assert!(!plan.notify && !plan.email && !plan.flush && !plan.to_pdf);
    assert_eq!(plan.sleep, None);
    assert_eq!(plan.wait, None);
}

#[test]
fn replica_neither_sleeps_nor_mails() {
    let replica = SharedState::new("http://m".to_string(), String::new(), [1; 4], false, false, false);
    let mut t = Trans::new(0);
    t.ext.sleep = 500;
    t.ext.tx_email = true;
    t.ext.trans_wait = true;
    let plan = plan_of(&replica, &mut t);
    assert_eq!(plan.sleep, None);
    assert!(!plan.email);
    assert_eq!(plan.wait, Some(600));
}

#[test]
fn log_decision() {
    let mut t = Trans::new(0);
    assert!(t.should_log(true));
    assert!(!t.should_log(false));
    t.ext.no_log = true;
    assert!(t.no_log());
    assert!(!t.should_log(true));
    t.ext.no_log = false;
    t.log = false;
    assert!(!t.should_log(true));
    let r = replayed(rustweb::share::Query::new(5), 9);
    assert!(r.replication);
    assert!(r.should_log(false));
    assert_eq!(r.qy.now, 5);
}

#[test]
fn new_transactions() {
    let t = Trans::new(77);
    assert_eq!(t.qy.sql, "EXEC web.Main()");
    assert_eq!(t.qy.now, 77);
    assert_eq!(t.rp.status_code, 200);
    assert!(t.log && !t.readonly && !t.replication);
    assert!(!t.ext.has_state);
    let t = Trans::new_with_state("9.9.9.9".to_string(), 78);
    assert!(t.ext.has_state);
    assert_eq!(t.ext.uid, "9.9.9.9");
    assert_eq!(t.uid, "");
}

#[test]
fn builtin_requests() {
    let mut ss = state([100; 4]);
    let mut ext = TransExt::new();
    ext.ask_sleep(0);
    assert_eq!(ext.sleep, 1);
    ext.ask_sleep(-5);
    assert_eq!(ext.sleep, 1);
    ext.ask_sleep(2500);
    assert_eq!(ext.sleep, 2500);
    // Without shared state nothing is set and nothing is exceeded.
    assert_eq!(ext.ask_dos(&mut ss, "u".to_string(), [1, 1, 1, 1]), 1);
    assert!(ss.usage("u").is_none());
    assert_eq!(ext.uid, "u");
    ext.has_state = true;
    assert_eq!(ext.ask_dos(&mut ss, "v".to_string(), [5, 6, 7, -1]), 1);
    assert_eq!(ss.usage("v").unwrap().limit, [5, 6, 7, u64::MAX]);
    assert_eq!(ext.ask_dos(&mut ss, "v".to_string(), [5, 0, 7, 8]), 0);
    assert!(ext.set_dos(&mut ss, "v".to_string(), [1, 1, 1, 1]));
}

#[test]
fn replica_replays_each_transaction_once() {
    let mut state = SyncState::Start;
    let a = sync_loop(&mut state, SyncEvent::Opened(false), 0);
    assert!(matches!(a, SyncAction::FindNext));
    for _ in 0..3 {
        let a = sync_loop(&mut state, SyncEvent::NextId(5), 0);
        assert!(matches!(a, SyncAction::Fetch(ref url) if url == "/GetTransaction?k=5"));
        assert_eq!(state, SyncState::Tailing(5));
        let a = sync_loop(&mut state, SyncEvent::Body(Vec::new()), 0);
        assert!(matches!(a, SyncAction::FindNext));
    }
    let a = sync_loop(&mut state, SyncEvent::NextId(5), 0);
    assert!(matches!(a, SyncAction::Fetch(ref url) if url == "/GetTransaction?k=5"));
    let a = sync_loop(&mut state, SyncEvent::Body(vec![1, 2, 3]), 0);
    assert!(matches!(a, SyncAction::Replay(ref b) if b == &vec![1, 2, 3]));
    assert_eq!(state, SyncState::Applying);
    // Until the replay has run, nothing else is handed out.
    let a = sync_loop(&mut state, SyncEvent::Ran, 0);
    assert!(matches!(a, SyncAction::FindNext));
    let a = sync_loop(&mut state, SyncEvent::NextId(6), 0);
    assert!(matches!(a, SyncAction::Fetch(ref url) if url == "/GetTransaction?k=6"));
    let a = sync_loop(&mut state, SyncEvent::Body(Vec::new()), 0);
    assert!(matches!(a, SyncAction::FindNext));
}

#[test]
fn new_replica_loads_the_script_first() {
    let mut state = SyncState::Start;
    let a = sync_loop(&mut state, SyncEvent::Opened(true), 0);
    assert!(matches!(a, SyncAction::Fetch(ref url) if url == "/ScriptExact?readonly"));
    let a = sync_loop(&mut state, SyncEvent::Body(b"CREATE SCHEMA x".to_vec()), 44);
    match a {
        SyncAction::Run(t) => {
            assert_eq!(t.qy.sql, "CREATE SCHEMA x");
            assert!(!t.log);
            assert!(!t.readonly);
            assert!(!t.should_log(true));
            assert_eq!(t.qy.now, 44);
        }
        _ => panic!("the script was not run"),
    }
    let a = sync_loop(&mut state, SyncEvent::Ran, 0);
    assert!(matches!(a, SyncAction::FindNext));
    assert_eq!(state, SyncState::Polling);
}

#[test]
fn replica_stops_on_what_it_cannot_use() {
    let mut state = SyncState::Bootstrap;
    let a = sync_loop(&mut state, SyncEvent::Body(vec![0xff]), 0);
    assert!(matches!(a, SyncAction::Stop));
    assert_eq!(state, SyncState::Stopped);
    let mut state = SyncState::Polling;
    let a = sync_loop(&mut state, SyncEvent::Ran, 0);
    assert!(matches!(a, SyncAction::Stop));
    let a = sync_loop(&mut state, SyncEvent::NextId(1), 0);
    assert!(matches!(a, SyncAction::Stop));
}

#[test]
fn rget_retries_all_but_a_body() {
    assert!(matches!(rget(Fetched::Body(vec![9])), Fetch::Done(ref b) if b == &vec![9]));
    assert!(matches!(rget(Fetched::Body(Vec::new())), Fetch::Done(ref b) if b.is_empty()));
    assert!(matches!(rget(Fetched::Status(503)), Fetch::Retry(10)));
    assert!(matches!(rget(Fetched::Failed), Fetch::Retry(10)));
    assert!(matches!(rget(Fetched::TimedOut), Fetch::Retry(10)));
    assert_eq!(RETRY_SECS, 10);
}

#[test]
fn master_url_joins_source_and_query() {
    let ss = SharedState::new("https://m.example".to_string(), String::new(), [1; 4], false, false, false);
    assert_eq!(master_url(&ss, "/GetTransaction?k=5"), "https://m.example/GetTransaction?k=5");
}

#[test]
fn sleep_real_naps_until_the_time_has_passed() {
    assert!(sleep_real(800, 0, None));
    assert!(sleep_real(800, 1, Some(10)));
    assert!(sleep_real(800, 79, Some(799)));
    assert!(!sleep_real(800, 80, Some(799)));
    assert!(!sleep_real(800, 5, Some(800)));
    assert!(!sleep_real(800, 5, None));
    assert!(!sleep_real(0, 0, Some(0)));
    assert!(sleep_real(5, 0, Some(0)));
    assert!(!sleep_real(5, 1, Some(1)));
    assert!(sleep_real(11, 1, Some(10)));
    assert!(!sleep_real(11, 2, Some(10)));
    assert!(sleep_real(u64::MAX, 7, Some(70)));
}

#[test]
fn sleep_loop_runs_the_jobs_on_a_master() {
    let mut st = SleepState::new();
    assert_eq!(st.sleep_micro, FIRST_SLEEP);
    assert_eq!(FIRST_SLEEP, 5_000_000);
    let a = sleep_loop(&mut st, SleepEvent::Elapsed, true, 12);
    match a {
        SleepAction::Run(t) => {
            assert_eq!(t.qy.sql, "EXEC timed.Run()");
            assert!(!t.readonly);
            assert_eq!(t.qy.now, 12);
        }
        _ => panic!("the jobs were not run"),
    }
    let a = sleep_loop(&mut st, SleepEvent::Ran, true, 0);
    assert!(matches!(a, SleepAction::Sleep(5_000_000)));
    let a = sleep_loop(&mut st, SleepEvent::Asked(250), true, 0);
    assert!(matches!(a, SleepAction::Sleep(250)));
    assert_eq!(st.sleep_micro, 250);
    let a = sleep_loop(&mut st, SleepEvent::Elapsed, false, 0);
    assert!(matches!(a, SleepAction::Sleep(250)));
}

#[test]
fn sleep_loop_sleeps_a_day_at_most() {
    let mut st = SleepState::new();
    let a = sleep_loop(&mut st, SleepEvent::Asked(u64::MAX), true, 0);
    assert!(matches!(a, SleepAction::Sleep(86_400_000_000)));
    assert_eq!(st.sleep_micro, LONGEST_SLEEP);
    let a = sleep_loop(&mut st, SleepEvent::Asked(LONGEST_SLEEP), true, 0);
    assert!(matches!(a, SleepAction::Sleep(86_400_000_000)));
}

#[test]
fn email_follow_up_queries() {
    assert_eq!(email_sent(42, 0).qy.sql, "EXEC email.Sent(42)");
    assert_eq!(
        email_error(7, 1, "greylisted".to_string(), 0).qy.sql,
        "EXEC email.LogSendError(7,1,'greylisted')"
    );
    assert_eq!(email_loop(3, SendOutcome::Sent, 0).qy.sql, "EXEC email.Sent(3)");
    assert_eq!(
        email_loop(3, SendOutcome::Address("no @".to_string()), 0).qy.sql,
        "EXEC email.LogSendError(3,0,'no @')"
    );
    assert_eq!(
        email_loop(3, SendOutcome::Message("empty".to_string()), 0).qy.sql,
        "EXEC email.LogSendError(3,0,'empty')"
    );
    assert_eq!(
        email_loop(3, SendOutcome::Smtp(true, "busy".to_string()), 0).qy.sql,
        "EXEC email.LogSendError(3,1,'busy')"
    );
    assert_eq!(
        email_loop(u64::MAX, SendOutcome::Smtp(false, "no user".to_string()), 0).qy.sql,
        "EXEC email.LogSendError(18446744073709551615,0,'no user')"
    );
}

#[test]
fn numbers_as_text() {
    let mut s = "k=".to_string();
    push_number(&mut s, 0);
    push_number(&mut s, 90);
    push_number(&mut s, 12345678);
    assert_eq!(s, "k=09012345678");
}
