use systemair_save_tools::connection::{
    choose_transport, iam2_register_bytes, response_nanos, retry_step, send_step, send_waits,
    Iam2Error, InflightRequests, RetryStep, SendAction, SendEvent, SendTiming, Transport,
};
use systemair_save_tools::modbus::{Response, ResponseKind};

fn inflight(ids: &[u16]) -> InflightRequests {
    let mut r = InflightRequests::new(3);
    for (k, &id) in ids.iter().enumerate() {
        r.sent(id, 100 + k as u64);
    }
    r
}

#[test]
fn sent_requests_keep_the_oldest_deadline() {
    let mut r = InflightRequests::new(3);
    assert!(r.is_empty());
    assert_eq!(r.sent(1, 500), 500);
    assert_eq!(r.sent(2, 300), 500);
    assert!(!r.is_empty());
}

#[test]
fn a_response_times_out_the_requests_sent_before_it() {
    let mut r = inflight(&[1, 2, 3]);
    assert_eq!(r.handle_response(2, false), Some(vec![1]));
    let timeout = r.handle_timeout();
    assert_eq!(timeout.transaction_id, 3);
    assert!(r.is_empty());
}

#[test]
fn a_busy_response_settles_only_its_request() {
    let mut r = inflight(&[1, 2, 3]);
    assert_eq!(r.handle_response(2, true), Some(vec![]));
    assert_eq!(r.take_all(), vec![1, 3]);
}

#[test]
fn an_unexpected_response_changes_nothing() {
    let mut r = inflight(&[1, 2]);
    assert_eq!(r.handle_response(9, false), None);
    assert_eq!(r.take_all(), vec![1, 2]);
    assert!(r.is_empty());
}

#[test]
fn timeouts_report_the_oldest_with_the_next_deadline() {
    let mut r = inflight(&[4, 5]);
    let first = r.handle_timeout();
    assert_eq!(first.transaction_id, 4);
    assert!(!first.reconnect);
    assert_eq!(first.next_deadline, Some(101));
    let second = r.handle_timeout();
    assert_eq!(second.transaction_id, 5);
    assert!(!second.reconnect);
    assert_eq!(second.next_deadline, None);
}

#[test]
fn reconnect_after_the_configured_number_of_timeouts() {
    let mut r = inflight(&[1, 2, 3, 4]);
    assert!(!r.handle_timeout().reconnect);
    assert!(!r.handle_timeout().reconnect);
    assert!(r.handle_timeout().reconnect);
}

#[test]
fn a_successful_response_refills_the_countdown() {
    let mut r = inflight(&[1, 2, 3, 4, 5]);
    assert!(!r.handle_timeout().reconnect);
    assert!(!r.handle_timeout().reconnect);
    assert_eq!(r.handle_response(3, false), Some(vec![]));
    assert!(!r.handle_timeout().reconnect);
    assert!(!r.handle_timeout().reconnect);
    r.sent(6, 200);
    assert!(r.handle_timeout().reconnect);
}

#[test]
fn no_timeouts_are_borne_without_a_budget() {
    let mut r = InflightRequests::new(0);
    r.sent(1, 1);
    assert!(r.handle_timeout().reconnect);
    let mut r = InflightRequests::new(3);
    r.sent(1, 1);
    r.sent(2, 1);
    r.sent(3, 1);
    r.handle_timeout();
    r.connected();
    r.handle_timeout();
    r.handle_timeout();
    r.sent(4, 1);
    assert!(r.handle_timeout().reconnect);
}

#[test]
fn response_time_on_the_wire() {
    assert_eq!(response_nanos(7, 9600), 7_291_666);
    assert_eq!(response_nanos(0, 9600), 0);
    assert_eq!(response_nanos(96, 9600), 100_000_000);
    assert_eq!(response_nanos(1, 10), 1_000_000_000);
}

fn response(kind: ResponseKind) -> Option<Response> {
    Some(Response { device_id: 1, transaction_id: 1, kind })
}

#[test]
fn retry_steps() {
    assert_eq!(retry_step(&None), RetryStep::Resend);
    assert_eq!(retry_step(&response(ResponseKind::ErrorCode(6))), RetryStep::WaitThenResend);
    assert_eq!(retry_step(&response(ResponseKind::ErrorCode(2))), RetryStep::Done);
    assert_eq!(
        retry_step(&response(ResponseKind::GetHoldings { values: vec![] })),
        RetryStep::Done
    );
}

fn entries(pairs: &[(&str, Option<i64>)]) -> Vec<(String, Option<i64>)> {
    pairs.iter().map(|(k, v)| (k.to_string(), *v)).collect()
}

#[test]
fn iam2_answer_becomes_register_bytes() {
    let e = entries(&[("1002", Some(-1)), ("1001", Some(300)), ("x", Some(4))]);
    assert_eq!(iam2_register_bytes(1001, 2, &e), Ok(vec![0x01, 0x2c, 0xff, 0xff]));
    let e = entries(&[("1001", Some(5)), ("1002", Some(6)), ("1003", Some(7))]);
    assert_eq!(iam2_register_bytes(1001, 2, &e), Ok(vec![0, 5, 0, 6]));
}

#[test]
fn iam2_answer_missing_registers() {
    let e = entries(&[("1001", Some(5)), ("1002", None)]);
    assert_eq!(iam2_register_bytes(1001, 2, &e), Err(Iam2Error::ResponseIncomplete(2, 1)));
}

#[test]
fn iam2_answer_with_other_registers() {
    let e = entries(&[("1001", Some(5)), ("1003", Some(6))]);
    assert_eq!(
        iam2_register_bytes(1001, 2, &e),
        Err(Iam2Error::ResponseWeirdKeys(1003, 1001, 1003))
    );
}

#[test]
fn transports() {
    assert_eq!(choose_transport(true, false), Transport::Tcp);
    assert_eq!(choose_transport(true, true), Transport::Tcp);
    assert_eq!(choose_transport(false, true), Transport::Iam2);
}

use systemair_save_tools::connection::ResponseTable;

#[test]
fn answers_are_taken_once() {
    let mut table = ResponseTable::new();
    assert!(table.take(1).is_none());
    table.add_response(Response { device_id: 1, transaction_id: 1, kind: ResponseKind::ErrorCode(2) });
    table.mark_timeout(2);
    match table.take(1) {
        Some(Some(r)) => assert_eq!(r.exception_code(), Some(2)),
        _ => panic!("expected the response"),
    }
    assert!(table.take(1).is_none());
    assert!(matches!(table.take(2), Some(None)));
    table.mark_timeout(3);
    table.add_response(Response { device_id: 1, transaction_id: 3, kind: ResponseKind::ErrorCode(4) });
    assert!(matches!(table.take(3), Some(Some(_))));
}

fn timing() -> SendTiming {
    SendTiming { baudrate: 9600, read_timeout: 500_000_000, send_delay: 40_000_000, send_timeout: 1_000_000_000 }
}

#[test]
fn send_waits_follow_the_slot() {
    assert_eq!(send_waits(true, false), (true, true, false));
    assert_eq!(send_waits(true, true), (true, true, false));
    assert_eq!(send_waits(false, false), (false, true, false));
    assert_eq!(send_waits(false, true), (false, false, true));
}

#[test]
fn a_flushed_request_goes_in_flight_and_paces_the_next() {
    let event = SendEvent::Flushed { ok: true, response_length: 9 };
    assert_eq!(
        send_step(true, event, 1000, timing(), true),
        (false, SendAction::InFlight { deadline: 509_376_000, next_slot: 49_376_000 })
    );
    let failed = SendEvent::Flushed { ok: false, response_length: 9 };
    assert_eq!(send_step(true, failed, 1000, timing(), true), (true, SendAction::Reconnect));
}

#[test]
fn send_timeouts_jobs_and_shutdown() {
    assert_eq!(send_step(true, SendEvent::SendTimer, 5, timing(), true), (true, SendAction::Reconnect));
    assert_eq!(send_step(false, SendEvent::SendTimer, 5, timing(), true), (false, SendAction::Wait));
    assert_eq!(
        send_step(false, SendEvent::Job, 5, timing(), true),
        (true, SendAction::Send { flush_deadline: 1_000_000_005 })
    );
    assert_eq!(send_step(false, SendEvent::JobsClosed, 5, timing(), true), (false, SendAction::Close { stop: true }));
    assert_eq!(send_step(false, SendEvent::JobsClosed, 5, timing(), false), (false, SendAction::Close { stop: false }));
    assert_eq!(send_step(false, SendEvent::Answered, 5, timing(), true), (false, SendAction::OpenSlot));
    assert_eq!(send_step(false, SendEvent::Answered, 5, timing(), false), (false, SendAction::Wait));
}
