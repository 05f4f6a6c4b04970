use signald_tui::signald::signald::{Signald, WaitOutcome, BUS_SIZE, TIMEOUT_MS};
use signald_tui::signald::signaldrequest::SignaldRequest;
use signald_tui::signald::signaldresponse::{ResponseType, SignaldResponse};

fn client() -> Signald {
    Signald::connect("/run/signald.sock".to_string())
}

fn matched(outcome: WaitOutcome) -> SignaldResponse {
    match outcome {
        WaitOutcome::Matched(response) => response,
        other => panic!("no reply: {:?}", other),
    }
}

#[test]
fn client_starts_with_nothing_sent() {
    let signald = client();
    assert_eq!(signald.message_count(), 0);
    assert_eq!(signald.socket().socket_path(), "/run/signald.sock");
    assert_eq!(signald.socket().bus().capacity(), BUS_SIZE);
    assert_eq!(BUS_SIZE, 100);
    assert_eq!(TIMEOUT_MS, 3000);
}

#[test]
fn calls_carry_increasing_ids() {
    let mut signald = client();
    let first = signald.list_accounts(0);
    let second = signald.subscribe("+15550001111".to_string(), 0);
    let third = signald.list_contacts("+15550001111".to_string(), 0);
    assert_eq!(first.line, "{\"type\":\"list_accounts\",\"username\":\"\",\"id\":\"0\"}\n");
    assert_eq!(
        second.line,
        "{\"type\":\"subscribe\",\"username\":\"+15550001111\",\"id\":\"1\"}\n"
    );
    assert_eq!(
        third.line,
        "{\"type\":\"list_contacts\",\"username\":\"+15550001111\",\"id\":\"2\"}\n"
    );
    assert_eq!(signald.message_count(), 3);
}

#[test]
fn every_operation_builds_its_request() {
    let mut signald = client();
    assert_eq!(
        signald.unsubscribe("+1".to_string(), 0).line,
        "{\"type\":\"unsubscribe\",\"username\":\"+1\",\"id\":\"0\"}\n"
    );
    assert_eq!(signald.link(0).line, "{\"type\":\"link\",\"username\":\"\",\"id\":\"1\"}\n");
    assert_eq!(signald.version(0).line, "{\"type\":\"version\",\"username\":\"\",\"id\":\"2\"}\n");
    assert_eq!(
        signald.sync_contacts("+1".to_string()),
        "{\"type\":\"sync_contacts\",\"username\":\"+1\",\"id\":\"3\"}\n"
    );
    assert_eq!(
        signald.send("+1".to_string(), "+2".to_string(), Some("hi".to_string())),
        "{\"type\":\"send\",\"username\":\"+1\",\"messageBody\":\"hi\",\"recipientNumber\":\"+2\"}\n"
    );
    assert_eq!(
        signald.send("+1".to_string(), "+2".to_string(), None),
        "{\"type\":\"send\",\"username\":\"+1\",\"recipientNumber\":\"+2\"}\n"
    );
    assert_eq!(signald.message_count(), 6);
}

#[test]
fn earlier_request_does_not_leak_into_the_next() {
    let mut signald = client();
    let _ = signald.send("+1".to_string(), "+2".to_string(), Some("secret".to_string()));
    let call = signald.link(0);
    assert_eq!(call.line, "{\"type\":\"link\",\"username\":\"\",\"id\":\"1\"}\n");
}

#[test]
fn send_request_counts_and_frames() {
    let mut signald = client();
    let mut request = SignaldRequest::default();
    request.typ = "custom".to_string();
    assert_eq!(signald.send_request(&request), "{\"type\":\"custom\",\"username\":\"\"}\n");
    assert_eq!(signald.message_count(), 1);
}

#[test]
fn reply_with_the_id_is_matched() {
    let mut signald = client();
    let mut call = signald.subscribe("+15550001111".to_string(), 1000);
    assert!(matches!(signald.wait_for_request(&mut call.wait, 1000), WaitOutcome::Pending));
    signald.receive(b"{\"type\":\"subscribed\",\"id\":\"0\"}\n");
    let response = matched(signald.wait_for_request(&mut call.wait, 1500));
    assert_eq!(response.typ, "subscribed");
    assert_eq!(response.id, Some("0".to_string()));
}

#[test]
fn reply_published_before_the_call_is_not_seen() {
    let mut signald = client();
    signald.receive(b"{\"type\":\"subscribed\",\"id\":\"0\"}\n");
    let mut call = signald.subscribe("+15550001111".to_string(), 0);
    assert!(matches!(signald.wait_for_request(&mut call.wait, 1), WaitOutcome::Pending));
}

#[test]
fn pending_call_times_out_after_3000_ms() {
    let mut signald = client();
    for _ in 0..7 {
        let _ = signald.sync_contacts("+1".to_string());
    }
    let mut call = signald.list_contacts("+1".to_string(), 10_000);
    assert_eq!(call.line, "{\"type\":\"list_contacts\",\"username\":\"+1\",\"id\":\"7\"}\n");
    assert!(matches!(signald.wait_for_request(&mut call.wait, 10_000), WaitOutcome::Pending));
    signald.heartbeat();
    assert!(matches!(signald.wait_for_request(&mut call.wait, 11_000), WaitOutcome::Pending));
    signald.heartbeat();
    assert!(matches!(signald.wait_for_request(&mut call.wait, 12_999), WaitOutcome::Pending));
    assert!(matches!(signald.wait_for_request(&mut call.wait, 13_000), WaitOutcome::TimedOut));
    assert!(matches!(signald.wait_for_request(&mut call.wait, 20_000), WaitOutcome::TimedOut));
}

#[test]
fn unrelated_lines_do_not_keep_a_call_alive() {
    let mut signald = client();
    let mut call = signald.subscribe("+1".to_string(), 0);
    signald.receive(b"{\"type\":\"message\",\"data\":{}}\n{\"type\":\"subscribed\",\"id\":\"5\"}\n");
    assert!(matches!(signald.wait_for_request(&mut call.wait, 100), WaitOutcome::Pending));
    signald.receive(b"not json at all\n{\"type\":\"x\"}\n");
    signald.heartbeat();
    assert!(matches!(signald.wait_for_request(&mut call.wait, 2999), WaitOutcome::Pending));
    signald.receive(b"{\"type\":\"y\",\"id\":\"00\"}\n");
    assert!(matches!(signald.wait_for_request(&mut call.wait, 3000), WaitOutcome::TimedOut));
}

#[test]
fn reply_that_arrives_after_the_deadline_is_dropped() {
    let mut signald = client();
    let mut call = signald.subscribe("+1".to_string(), 0);
    assert!(matches!(signald.wait_for_request(&mut call.wait, 2000), WaitOutcome::Pending));
    signald.receive(b"{\"type\":\"subscribed\",\"id\":\"0\"}\n");
    assert!(matches!(signald.wait_for_request(&mut call.wait, 3000), WaitOutcome::TimedOut));
}

#[test]
fn clock_that_runs_backwards_does_not_time_out() {
    let mut signald = client();
    let mut call = signald.subscribe("+1".to_string(), 5000);
    assert!(matches!(signald.wait_for_request(&mut call.wait, 0), WaitOutcome::Pending));
}

#[test]
fn heartbeat_and_unparseable_lines_are_skipped() {
    let mut signald = client();
    let mut call = signald.list_accounts(0);
    signald.heartbeat();
    signald.receive(b"update\n{\"broken\n\n");
    signald.heartbeat();
    signald.receive(b"{\"type\":\"account_list\",\"id\":\"0\",\"data\":{\"accounts\":[]}}\n");
    let response = matched(signald.wait_for_request(&mut call.wait, 10));
    assert_eq!(response.data, ResponseType::AccountList(Vec::new()));
}

#[test]
fn concurrent_calls_do_not_take_each_others_replies() {
    let mut signald = client();
    let mut first = signald.list_accounts(0);
    let mut second = signald.list_contacts("+1".to_string(), 0);
    signald.receive(b"{\"type\":\"list_contacts\",\"id\":\"1\",\"data\":[]}\n");
    assert!(matches!(signald.wait_for_request(&mut first.wait, 10), WaitOutcome::Pending));
    let reply = matched(signald.wait_for_request(&mut second.wait, 10));
    assert_eq!(reply.id, Some("1".to_string()));
    signald.receive(b"{\"type\":\"account_list\",\"id\":\"0\",\"data\":{\"accounts\":[]}}\n");
    let reply = matched(signald.wait_for_request(&mut first.wait, 20));
    assert_eq!(reply.id, Some("0".to_string()));
    assert!(matches!(signald.wait_for_request(&mut second.wait, 20), WaitOutcome::Pending));
}

#[test]
fn both_waits_see_a_line_that_neither_wants() {
    let mut signald = client();
    let mut first = signald.link(0);
    let mut second = signald.link(0);
    signald.receive(b"{\"type\":\"linking_uri\",\"id\":\"1\"}\n{\"type\":\"linking_uri\",\"id\":\"0\"}\n");
    assert_eq!(matched(signald.wait_for_request(&mut first.wait, 1)).id, Some("0".to_string()));
    assert_eq!(matched(signald.wait_for_request(&mut second.wait, 1)).id, Some("1".to_string()));
}

#[test]
fn first_of_two_replies_is_returned() {
    let mut signald = client();
    let mut call = signald.link(0);
    signald.receive(b"{\"type\":\"one\",\"id\":\"0\"}\n{\"type\":\"two\",\"id\":\"0\"}\n");
    assert_eq!(matched(signald.wait_for_request(&mut call.wait, 1)).typ, "one");
    assert_eq!(matched(signald.wait_for_request(&mut call.wait, 2)).typ, "two");
    assert!(matches!(signald.wait_for_request(&mut call.wait, 3), WaitOutcome::Pending));
}

#[test]
fn version_reply_is_matched_by_its_tag() {
    let mut signald = client();
    let mut call = signald.version(0);
    signald.receive(b"{\"type\":\"subscribed\",\"id\":\"0\"}\n");
    assert!(matches!(signald.wait_for_request(&mut call.wait, 1), WaitOutcome::Pending));
    signald.receive(
        b"{\"type\":\"version\",\"data\":{\"name\":\"signald\",\"version\":\"1\",\"branch\":\"b\",\"commit\":\"c\"}}\n",
    );
    let response = matched(signald.wait_for_request(&mut call.wait, 2));
    assert_eq!(response.typ, "version");
    assert_eq!(response.id, None);
}

#[test]
fn line_that_says_it_is_a_heartbeat_is_still_a_line() {
    let mut signald = client();
    let mut call = signald.link(0);
    signald.receive(b"{\"type\":\"bus_update\",\"id\":\"0\"}\n");
    assert_eq!(matched(signald.wait_for_request(&mut call.wait, 1)).typ, "bus_update");
}

#[test]
fn reply_lost_to_overflow_is_not_matched() {
    let mut signald = client();
    let mut call = signald.link(0);
    signald.receive(b"{\"type\":\"linking_uri\",\"id\":\"0\"}\n");
    for _ in 0..BUS_SIZE {
        signald.heartbeat();
    }
    assert!(matches!(signald.wait_for_request(&mut call.wait, 1), WaitOutcome::Pending));
}

#[test]
fn fresh_subscription_starts_at_the_end() {
    let mut signald = client();
    signald.receive(b"a\n");
    let mut rx = signald.get_rx();
    assert_eq!(signald.socket().bus().try_recv(&mut rx), None);
}

#[test]
fn wait_with_another_deadline() {
    let mut signald = client();
    let call = signald.link(100);
    let mut wait = call.wait.with_timeout(10);
    assert!(matches!(signald.wait_for_request(&mut wait, 109), WaitOutcome::Pending));
    assert!(matches!(signald.wait_for_request(&mut wait, 110), WaitOutcome::TimedOut));
    let mut at_once = signald.link(100).wait.with_timeout(0);
    signald.receive(b"{\"type\":\"linking_uri\",\"id\":\"1\"}\n");
    assert!(matches!(signald.wait_for_request(&mut at_once, 100), WaitOutcome::TimedOut));
}
