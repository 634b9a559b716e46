use file_server::conn::{ConnState, Connection, FlushProgress, Interest, ReadAdvance};
use file_server::pool::{PoolModel, SubmitDecision};
use file_server::reactor::{
    ApplyDirective, JobOutcome, JobResult, ReactorCore, ReadDirective, WriteDirective,
};
use file_server::response::{http_handler, FileRead};
use file_server::table::{ConnTable, Token};
use std::collections::HashSet;

#[test]
fn accept_read_work_flush_close_cycle() {
    let mut core = ReactorCore::new();
    let t = core.on_accept();

    let chunk = b"GET /missing HTTP/1.1\r\n\r\n".to_vec();
    let job = match core.on_readable_data(t, &chunk) {
        ReadDirective::Dispatch(job) => job,
        _ => panic!("a complete request line must dispatch a job"),
    };
    assert_eq!(job.token, t);
    assert_eq!(job.request_line, "GET /missing HTTP/1.1");

    let page = b"<h1>404</h1>".to_vec();
    let response = http_handler(job.request_line, false, FileRead::Content(page));
    let d = core.on_job_result(JobResult { token: t, outcome: JobOutcome::Response(response.clone()) });
    assert_eq!(d, ApplyDirective::RegisterWritable);

    let pending = core.on_writable(t).expect("a loaded connection offers its bytes");
    assert_eq!(pending, response);

    let d = core.on_wrote(t, pending.len(), false);
    assert_eq!(d, WriteDirective::CloseNow);
    assert!(core.on_writable(t).is_none());
}

#[test]
fn request_line_may_arrive_in_pieces() {
    let mut core = ReactorCore::new();
    let t = core.on_accept();
    match core.on_readable_data(t, &b"GET / HT".to_vec()) {
        ReadDirective::NeedMore => {},
        _ => panic!("an incomplete line must ask for more"),
    }
    match core.on_readable_data(t, &b"TP/1.1\r\n".to_vec()) {
        ReadDirective::Dispatch(job) => assert_eq!(job.request_line, "GET / HTTP/1.1"),
        _ => panic!("the completed line must dispatch"),
    }
}

#[test]
fn crlf_split_across_chunks_still_completes() {
    let mut core = ReactorCore::new();
    let t = core.on_accept();
    match core.on_readable_data(t, &b"GET /split HTTP/1.1\r".to_vec()) {
        ReadDirective::NeedMore => {}
        _ => panic!("a lone carriage return does not complete the line"),
    }
    match core.on_readable_data(t, &b"\n".to_vec()) {
        ReadDirective::Dispatch(job) => assert_eq!(job.request_line, "GET /split HTTP/1.1"),
        _ => panic!("the line feed completes the line"),
    }
}

#[test]
fn result_is_applied_exactly_once() {
    let mut core = ReactorCore::new();
    let t = core.on_accept();
    match core.on_readable_data(t, &b"GET / HTTP/1.1\r\n".to_vec()) {
        ReadDirective::Dispatch(_) => {},
        _ => panic!("expected dispatch"),
    }
    let result = JobResult { token: t, outcome: JobOutcome::Response(b"x".to_vec()) };
    let first = core.on_job_result(result);
    assert_eq!(first, ApplyDirective::RegisterWritable);
    let again = JobResult { token: t, outcome: JobOutcome::Failed };
    assert_eq!(core.on_job_result(again), ApplyDirective::Discarded);
    assert_eq!(core.on_writable(t).unwrap(), b"x".to_vec());
}

#[test]
fn stale_result_after_close_is_discarded() {
    let mut core = ReactorCore::new();
    let t = core.on_accept();
    match core.on_readable_data(t, &b"GET /a HTTP/1.1\r\n".to_vec()) {
        ReadDirective::Dispatch(_) => {},
        _ => panic!("expected dispatch"),
    }
    assert!(core.on_conn_error(t));

    // The slot may be reused, but under a new generation.
    let t2 = core.on_accept();
    assert_ne!(t, t2);

    let late = JobResult { token: t, outcome: JobOutcome::Response(b"late".to_vec()) };
    assert_eq!(core.on_job_result(late), ApplyDirective::Discarded);
    assert!(core.on_writable(t).is_none());
    assert!(core.on_writable(t2).is_none());
}

#[test]
fn failed_job_closes_the_connection() {
    let mut core = ReactorCore::new();
    let t = core.on_accept();
    match core.on_readable_data(t, &b"GET /x HTTP/1.1\r\n".to_vec()) {
        ReadDirective::Dispatch(_) => {},
        _ => panic!("expected dispatch"),
    }
    let d = core.on_job_result(JobResult { token: t, outcome: JobOutcome::Failed });
    assert_eq!(d, ApplyDirective::CloseNow);
    assert!(core.on_writable(t).is_none());
}

#[test]
fn malformed_request_line_closes_the_connection() {
    let mut core = ReactorCore::new();
    let t = core.on_accept();
    let mut bad = b"GET /\xff\xfe".to_vec();
    bad.extend_from_slice(b"\r\n");
    match core.on_readable_data(t, &bad) {
        ReadDirective::CloseNow => {},
        _ => panic!("an invalid request line must close the connection"),
    }
    assert!(core.on_writable(t).is_none());
}

#[test]
fn peer_close_before_request_removes_connection() {
    let mut core = ReactorCore::new();
    let t = core.on_accept();
    assert!(core.on_conn_error(t));
    assert!(!core.on_conn_error(t));
}

#[test]
fn partial_writes_advance_the_buffer() {
    let mut core = ReactorCore::new();
    let t = core.on_accept();
    match core.on_readable_data(t, &b"GET /p HTTP/1.1\r\n".to_vec()) {
        ReadDirective::Dispatch(_) => {},
        _ => panic!("expected dispatch"),
    }
    let d = core.on_job_result(JobResult {
        token: t,
        outcome: JobOutcome::Response(b"abcdef".to_vec()),
    });
    assert_eq!(d, ApplyDirective::RegisterWritable);
    assert_eq!(core.on_wrote(t, 4, false), WriteDirective::KeepWriting);
    assert_eq!(core.on_writable(t).unwrap(), b"ef".to_vec());
    assert_eq!(core.on_wrote(t, 2, false), WriteDirective::CloseNow);
}

#[test]
fn write_error_closes_the_connection() {
    let mut core = ReactorCore::new();
    let t = core.on_accept();
    match core.on_readable_data(t, &b"GET /w HTTP/1.1\r\n".to_vec()) {
        ReadDirective::Dispatch(_) => {},
        _ => panic!("expected dispatch"),
    }
    core.on_job_result(JobResult { token: t, outcome: JobOutcome::Response(b"zz".to_vec()) });
    assert_eq!(core.on_wrote(t, 0, true), WriteDirective::CloseNow);
    assert!(core.on_writable(t).is_none());
}

#[test]
fn keep_alive_connection_resets_after_flush() {
    let mut c = Connection::new();
    c.set_keep_alive(true);
    match c.on_data(&b"GET / HTTP/1.1\r\n".to_vec()) {
        ReadAdvance::Submitted(line) => assert_eq!(line, "GET / HTTP/1.1"),
        _ => panic!("expected a submitted line"),
    }
    assert_eq!(c.state, ConnState::AwaitingWork);
    assert_eq!(c.interest, Interest::Idle);
    c.apply_result(b"ok".to_vec());
    assert_eq!(c.state, ConnState::AwaitingFlush);
    assert_eq!(c.interest, Interest::Writable);
    assert_eq!(c.on_wrote(2), FlushProgress::ResetForNextRequest);
    assert_eq!(c.state, ConnState::AwaitingRequest);
    assert_eq!(c.interest, Interest::Readable);
    assert!(c.read_buffer.is_empty());
    assert!(c.write_buffer.is_empty());

    // The reset connection takes a second request.
    match c.on_data(&b"GET /next HTTP/1.1\r\n".to_vec()) {
        ReadAdvance::Submitted(line) => assert_eq!(line, "GET /next HTTP/1.1"),
        _ => panic!("expected a second submitted line"),
    }
    assert_eq!(c.state, ConnState::AwaitingWork);
}

#[test]
fn close_without_keep_alive_after_flush() {
    let mut c = Connection::new();
    match c.on_data(&b"GET / HTTP/1.1\r\n".to_vec()) {
        ReadAdvance::Submitted(_) => {},
        _ => panic!("expected a submitted line"),
    }
    c.apply_result(b"ok".to_vec());
    assert_eq!(c.on_wrote(1), FlushProgress::StillFlushing);
    assert_eq!(c.on_wrote(1), FlushProgress::Finished);
    assert_eq!(c.state, ConnState::Closed);
}

#[test]
fn table_generation_check_rejects_stale_tokens() {
    let mut table = ConnTable::new();
    let t1 = table.insert(Connection::new());
    assert!(table.get(t1).is_some());
    assert!(table.remove(t1).is_some());
    assert!(table.get(t1).is_none());
    assert!(table.remove(t1).is_none());

    // Reuse of the slot mints a different generation.
    let t2 = table.insert(Connection::new());
    assert_eq!(t2.index, t1.index);
    assert_ne!(t2.generation, t1.generation);
    assert!(table.get(t1).is_none());
    assert!(table.get(t2).is_some());
}

#[test]
fn a_thousand_connections_get_their_own_responses() {
    let mut core = ReactorCore::new();
    let mut tokens: Vec<Token> = Vec::new();
    let mut seen: HashSet<(usize, u64)> = HashSet::new();
    for _ in 0..1000 {
        let t = core.on_accept();
        assert!(seen.insert((t.index, t.generation)), "token collision");
        tokens.push(t);
    }
    let mut responses: Vec<Vec<u8>> = Vec::new();
    for (i, t) in tokens.iter().enumerate() {
        let line = format!("GET /page{} HTTP/1.1\r\n", i);
        let job = match core.on_readable_data(*t, &line.into_bytes()) {
            ReadDirective::Dispatch(job) => job,
            _ => panic!("expected dispatch"),
        };
        assert_eq!(job.token, *t);
        let body = format!("content of page {}", i).into_bytes();
        let response = http_handler(job.request_line, true, FileRead::Content(body));
        responses.push(response.clone());
        let d = core.on_job_result(JobResult { token: *t, outcome: JobOutcome::Response(response) });
        assert_eq!(d, ApplyDirective::RegisterWritable, "dropped completion");
    }
    for (i, t) in tokens.iter().enumerate() {
        let pending = core.on_writable(*t).expect("every connection holds its response");
        assert_eq!(pending, responses[i], "responses interleaved");
        assert_eq!(core.on_wrote(*t, pending.len(), false), WriteDirective::CloseNow);
    }
    for t in tokens.iter() {
        assert!(core.on_writable(*t).is_none());
    }
}

#[test]
fn pool_enqueues_until_saturated_then_runs_inline() {
    let mut pool = PoolModel::new(4, 2);
    assert_eq!(pool.submit(), SubmitDecision::Enqueued);
    assert_eq!(pool.submit(), SubmitDecision::Enqueued);
    assert_eq!(pool.submit(), SubmitDecision::RunInline);
    assert_eq!(pool.queued, 2);
}

#[test]
fn pool_never_executes_more_than_its_workers() {
    let mut pool = PoolModel::new(2, 8);
    for _ in 0..4 {
        assert_eq!(pool.submit(), SubmitDecision::Enqueued);
    }
    pool.begin_job();
    pool.begin_job();
    assert_eq!(pool.executing, 2);
    assert!(pool.executing <= pool.workers);
    pool.finish_job();
    pool.begin_job();
    assert_eq!(pool.executing, 2);
    assert!(pool.executing <= pool.workers);
    assert_eq!(pool.queued, 1);
}
