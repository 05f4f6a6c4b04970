use signald_tui::app::{App, Contact, Conversation, Message};
use signald_tui::network::{Action, Clock, DispatchError, Intent, IoEvent, Network, SendMessageData};
use signald_tui::signald::signald::{Call, WaitOutcome};
use signald_tui::signald::signaldresponse::SignaldResponse;

const USER: &str = "+15550001111";
const BOB: &str = "+15551234567";

fn at(monotonic_ms: u64) -> Clock {
    Clock { monotonic_ms, unix_ms: 1_700_000_000_000 + monotonic_ms as i64 }
}

fn fresh() -> (Network, App) {
    (Network::new("/run/signald.sock".to_string()), App::new())
}

fn call_of(action: Action, expected: Intent) -> Call {
    match action {
        Action::Call(call, intent) => {
            assert_eq!(intent, expected);
            call
        }
        other => panic!("no call: {:?}", other),
    }
}

fn reply(network: &Network, call: &mut Call, now: u64) -> Option<SignaldResponse> {
    match network.signald.wait_for_request(&mut call.wait, now) {
        WaitOutcome::Matched(response) => Some(response),
        WaitOutcome::TimedOut => None,
        WaitOutcome::Pending => panic!("the call is still pending"),
    }
}

fn loaded() -> (Network, App) {
    let (mut network, mut app) = fresh();
    let mut call = call_of(network.handle_event(&mut app, IoEvent::LoadAccount, at(0)), Intent::LoadAccount);
    network.signald.receive(
        b"{\"type\":\"account_list\",\"id\":\"0\",\"data\":{\"accounts\":[{\"username\":\"+15550001111\"}]}}\n",
    );
    let response = reply(&network, &mut call, 1);
    assert_eq!(network.handle_reply(&mut app, Intent::LoadAccount, response), Ok(()));
    (network, app)
}

fn message(sender: &str, receiver: &str, timestamp: i64, text: &str) -> Message {
    Message {
        sender: sender.to_string(),
        receiver: receiver.to_string(),
        timestamp,
        message: text.to_string(),
    }
}

#[test]
fn load_account_adopts_the_first_account() {
    let (mut network, mut app) = fresh();
    assert!(!app.loaded());
    assert_eq!(app.username(), "");
    let action = network.handle_event(&mut app, IoEvent::LoadAccount, at(0));
    let mut call = call_of(action, Intent::LoadAccount);
    assert_eq!(call.line, "{\"type\":\"list_accounts\",\"username\":\"\",\"id\":\"0\"}\n");
    network.signald.receive(
        b"{\"type\":\"account_list\",\"id\":\"0\",\"data\":{\"accounts\":[{\"username\":\"+15550001111\"}]}}\n",
    );
    let response = reply(&network, &mut call, 5);
    assert_eq!(network.handle_reply(&mut app, Intent::LoadAccount, response), Ok(()));
    assert_eq!(app.username(), USER);
    assert_eq!(network.username(), USER);
    assert!(app.loaded());
}

#[test]
fn load_account_takes_the_first_of_several() {
    let (mut network, mut app) = fresh();
    let response = SignaldResponse::parse(
        b"{\"type\":\"list_accounts\",\"data\":{\"accounts\":[{\"username\":\"+2\"},{\"username\":\"+1\"}]}}",
    );
    assert_eq!(network.load_accounts(&mut app, response), Ok(()));
    assert_eq!(app.username(), "+2");
    assert!(app.loaded());
}

#[test]
fn load_account_without_accounts_is_a_configuration_error() {
    let (mut network, mut app) = fresh();
    let response =
        SignaldResponse::parse(b"{\"type\":\"account_list\",\"id\":\"0\",\"data\":{\"accounts\":[]}}");
    assert!(response.is_some());
    assert_eq!(
        network.handle_reply(&mut app, Intent::LoadAccount, response),
        Err(DispatchError::Configuration)
    );
    assert!(!app.loaded());
    assert_eq!(app.username(), "");
    assert_eq!(network.username(), "");
}

#[test]
fn load_account_with_another_payload_is_a_configuration_error() {
    let (mut network, mut app) = fresh();
    let response = SignaldResponse::parse(b"{\"type\":\"unexpected_error\",\"id\":\"0\"}");
    assert_eq!(
        network.handle_reply(&mut app, Intent::LoadAccount, response),
        Err(DispatchError::Configuration)
    );
    assert!(!app.loaded());
}

#[test]
fn load_account_timeout_is_fatal() {
    let (mut network, mut app) = fresh();
    let mut call = call_of(network.handle_event(&mut app, IoEvent::LoadAccount, at(0)), Intent::LoadAccount);
    let response = reply(&network, &mut call, 3000);
    assert_eq!(response, None);
    assert_eq!(
        network.handle_reply(&mut app, Intent::LoadAccount, response),
        Err(DispatchError::Timeout)
    );
    assert!(!app.loaded());
}

#[test]
fn subscribe_names_the_active_user_and_ignores_a_timeout() {
    let (mut network, mut app) = loaded();
    let mut call = call_of(network.handle_event(&mut app, IoEvent::Subscribe, at(10)), Intent::Subscribe);
    assert_eq!(call.line, "{\"type\":\"subscribe\",\"username\":\"+15550001111\",\"id\":\"1\"}\n");
    let response = reply(&network, &mut call, 3010);
    assert_eq!(response, None);
    assert_eq!(network.handle_reply(&mut app, Intent::Subscribe, response), Ok(()));
    assert_eq!(app.username(), USER);
    assert!(app.contacts().is_empty());
}

#[test]
fn contact_list_reply_adds_the_contact_and_its_conversation() {
    let (mut network, mut app) = loaded();
    let _ = call_of(network.handle_event(&mut app, IoEvent::Subscribe, at(0)), Intent::Subscribe);
    let _ = network.signald.sync_contacts(USER.to_string());
    let mut call =
        call_of(network.handle_event(&mut app, IoEvent::GetContactList, at(0)), Intent::GetContactList);
    assert_eq!(
        call.line,
        "{\"type\":\"list_contacts\",\"username\":\"+15550001111\",\"id\":\"3\"}\n"
    );
    network.signald.receive(
        b"{\"type\":\"list_contacts\",\"id\":\"3\",\"data\":[{\"number\":\"+15551234567\",\"name\":\"Bob\"}]}\n",
    );
    let response = reply(&network, &mut call, 100);
    assert_eq!(response.as_ref().map(|r| r.id.clone()), Some(Some("3".to_string())));
    assert_eq!(network.handle_reply(&mut app, Intent::GetContactList, response), Ok(()));
    assert_eq!(
        app.contacts(),
        &vec![Contact { number: BOB.to_string(), name: Some("Bob".to_string()), color: None }]
    );
    assert_eq!(
        app.get_conversation(BOB),
        Some(&Conversation {
            contact: Contact { number: BOB.to_string(), name: Some("Bob".to_string()), color: None },
            messages: Vec::new(),
        })
    );
    assert_eq!(app.conversations().len(), 1);
}

#[test]
fn contact_list_timeout_changes_nothing() {
    let (mut network, mut app) = loaded();
    app.update_contacts(vec![Contact { number: BOB.to_string(), name: None, color: None }]);
    network.get_contact_list(&mut app, None);
    assert_eq!(app.contacts().len(), 1);
    assert_eq!(network.handle_reply(&mut app, Intent::GetContactList, None), Ok(()));
    assert_eq!(app.contacts().len(), 1);
    let other = SignaldResponse::parse(b"{\"type\":\"version\",\"id\":\"3\"}");
    assert_eq!(network.handle_reply(&mut app, Intent::GetContactList, other), Ok(()));
    assert_eq!(app.contacts().len(), 1);
}

#[test]
fn second_contact_list_replaces_the_first() {
    let (mut network, mut app) = loaded();
    let first = SignaldResponse::parse(
        b"{\"type\":\"list_contacts\",\"data\":[{\"number\":\"+1\",\"name\":\"A\"},{\"number\":\"+2\",\"name\":\"B\"}]}",
    );
    network.get_contact_list(&mut app, first);
    assert_eq!(app.contacts().len(), 2);
    let second = SignaldResponse::parse(b"{\"type\":\"list_contacts\",\"data\":[{\"number\":\"+3\"}]}");
    network.get_contact_list(&mut app, second);
    assert_eq!(app.contacts(), &vec![Contact { number: "+3".to_string(), name: None, color: None }]);
    assert_eq!(app.conversations().len(), 3);
    let empty = SignaldResponse::parse(b"{\"type\":\"list_contacts\",\"data\":[]}");
    network.get_contact_list(&mut app, empty);
    assert!(app.contacts().is_empty());
    assert_eq!(app.conversations().len(), 3);
}

#[test]
fn send_message_is_recorded_at_once() {
    let (mut network, mut app) = loaded();
    let data = SendMessageData { recipient: BOB.to_string(), message: "hi".to_string() };
    let action = network.handle_event(&mut app, IoEvent::SendMessage(data), at(77));
    match action {
        Action::Send(line) => assert_eq!(
            line,
            "{\"type\":\"send\",\"username\":\"+15550001111\",\"messageBody\":\"hi\",\
             \"recipientNumber\":\"+15551234567\"}\n"
        ),
        other => panic!("no send: {:?}", other),
    }
    let conversation = app.get_conversation(BOB).unwrap();
    assert_eq!(conversation.messages, vec![message(USER, BOB, 1_700_000_000_077, "hi")]);
    assert_eq!(
        conversation.contact,
        Contact { number: BOB.to_string(), name: None, color: None }
    );
}

#[test]
fn send_message_appends_to_an_existing_conversation() {
    let (mut network, mut app) = loaded();
    app.update_contacts(vec![Contact {
        number: BOB.to_string(),
        name: Some("Bob".to_string()),
        color: None,
    }]);
    for (i, text) in ["one", "two", "three"].iter().enumerate() {
        let data = SendMessageData { recipient: BOB.to_string(), message: text.to_string() };
        let _ = network.send_message(&mut app, data, i as i64);
    }
    let conversation = app.get_conversation(BOB).unwrap();
    assert_eq!(conversation.contact.name, Some("Bob".to_string()));
    assert_eq!(
        conversation.messages,
        vec![message(USER, BOB, 0, "one"), message(USER, BOB, 1, "two"), message(USER, BOB, 2, "three")]
    );
    assert_eq!(app.conversations().len(), 1);
}

#[test]
fn tick_records_a_message_sent_from_another_device() {
    let (mut network, mut app) = loaded();
    network.signald.receive(
        b"{\"type\":\"message\",\"data\":{\"syncMessage\":{\"sent\":{\"destination\":\"+15551234567\",\
          \"timestamp\":123,\"message\":{\"message\":\"from my phone\"}}}}}\n",
    );
    assert!(matches!(network.handle_event(&mut app, IoEvent::Tick, at(0)), Action::Nothing));
    assert_eq!(
        app.get_conversation(BOB).unwrap().messages,
        vec![message(USER, BOB, 123, "from my phone")]
    );
}

#[test]
fn tick_records_an_incoming_message() {
    let (mut network, mut app) = loaded();
    network.signald.receive(
        b"{\"type\":\"message\",\"data\":{\"source\":\"+15551234567\",\
          \"dataMessage\":{\"timestamp\":456,\"message\":\"yo\"}}}\n",
    );
    network.handle_responses(&mut app);
    assert_eq!(app.get_conversation(BOB).unwrap().messages, vec![message(BOB, USER, 456, "yo")]);
}

#[test]
fn tick_processes_everything_that_waits_in_order() {
    let (mut network, mut app) = loaded();
    network.signald.receive(
        b"{\"type\":\"message\",\"data\":{\"source\":\"+15551234567\",\"dataMessage\":{\"timestamp\":1,\"message\":\"a\"}}}\n",
    );
    network.signald.heartbeat();
    network.signald.receive(b"garbage\n{\"type\":\"contact_list\",\"data\":[{\"number\":\"+9\"}]}\n");
    network.signald.receive(
        b"{\"type\":\"message\",\"data\":{\"source\":\"+15551234567\",\"dataMessage\":{\"timestamp\":2,\"message\":\"b\"},\
          \"syncMessage\":{\"sent\":{\"destination\":\"+7\",\"timestamp\":3,\"message\":{\"message\":\"c\"}}}}}\n",
    );
    network.signald.receive(b"{\"type\":\"version\",\"data\":{}}\n");
    let _ = network.handle_event(&mut app, IoEvent::Tick, at(0));
    assert_eq!(
        app.get_conversation(BOB).unwrap().messages,
        vec![message(BOB, USER, 1, "a"), message(BOB, USER, 2, "b")]
    );
    assert_eq!(app.get_conversation("+7").unwrap().messages, vec![message(USER, "+7", 3, "c")]);
    assert_eq!(app.get_conversation("+9"), None);
    assert!(app.contacts().is_empty());
    let numbers: Vec<&str> = app.conversations().iter().map(|c| c.contact.number.as_str()).collect();
    assert_eq!(numbers, vec![BOB, "+7"]);
    let _ = network.handle_event(&mut app, IoEvent::Tick, at(1));
    assert_eq!(app.get_conversation(BOB).unwrap().messages.len(), 2);
}

#[test]
fn tick_ignores_a_message_without_source() {
    let (mut network, mut app) = loaded();
    network
        .signald
        .receive(b"{\"type\":\"message\",\"data\":{\"dataMessage\":{\"timestamp\":1,\"message\":\"a\"}}}\n");
    network.handle_responses(&mut app);
    assert!(app.conversations().is_empty());
}

#[test]
fn tick_on_an_empty_bus_does_nothing() {
    let (mut network, mut app) = fresh();
    assert!(matches!(network.handle_event(&mut app, IoEvent::Tick, at(0)), Action::Nothing));
    assert!(app.conversations().is_empty());
    assert_eq!(network.signald.message_count(), 0);
}

#[test]
fn reply_of_a_call_is_also_seen_by_the_tick() {
    let (mut network, mut app) = loaded();
    let mut call =
        call_of(network.handle_event(&mut app, IoEvent::GetContactList, at(0)), Intent::GetContactList);
    network.signald.receive(
        b"{\"type\":\"message\",\"data\":{\"source\":\"+5\",\"dataMessage\":{\"timestamp\":1,\"message\":\"m\"}}}\n\
          {\"type\":\"list_contacts\",\"id\":\"1\",\"data\":[]}\n",
    );
    assert!(reply(&network, &mut call, 1).is_some());
    let _ = network.handle_event(&mut app, IoEvent::Tick, at(2));
    assert_eq!(app.get_conversation("+5").unwrap().messages, vec![message("+5", USER, 1, "m")]);
}

#[test]
fn new_dispatcher_has_nothing_pending() {
    let (network, _app) = fresh();
    assert_eq!(network.username(), "");
    assert_eq!(network.signald.message_count(), 0);
    assert_eq!(network.signald.socket().socket_path(), "/run/signald.sock");
}
