use signald_tui::json::Json;
use signald_tui::signald::signaldresponse::{
    Account, Message, MessageData, ResponseType, SentMessage, SignaldResponse, SyncMessage,
    VersionData,
};

fn parse(line: &str) -> Option<SignaldResponse> {
    SignaldResponse::parse(line.as_bytes())
}

#[test]
fn version_response() {
    let response = parse(
        "{\"type\":\"version\",\"data\":{\"name\":\"signald\",\"version\":\"0.9.0\",\
         \"branch\":\"master\",\"commit\":\"abc123\"}}",
    )
    .unwrap();
    assert_eq!(response.typ, "version");
    assert_eq!(response.id, None);
    assert_eq!(
        response.data,
        ResponseType::Version(VersionData {
            name: "signald".to_string(),
            version: "0.9.0".to_string(),
            branch: "master".to_string(),
            commit: "abc123".to_string(),
        })
    );
}

#[test]
fn version_without_commit_is_kept_raw() {
    let response = parse("{\"type\":\"version\",\"data\":{\"name\":\"signald\"}}").unwrap();
    assert_eq!(
        response.data,
        ResponseType::Unknown(Json::Object(vec![(
            "name".to_string(),
            Json::Text("signald".to_string())
        )]))
    );
}

#[test]
fn contact_list_response() {
    let response = parse(
        "{\"type\":\"list_contacts\",\"id\":\"3\",\
         \"data\":[{\"number\":\"+15551234567\",\"name\":\"Bob\"}]}",
    )
    .unwrap();
    assert_eq!(response.typ, "list_contacts");
    assert_eq!(response.id, Some("3".to_string()));
    assert_eq!(
        response.data,
        ResponseType::ContactList(vec![Account {
            name: Some("Bob".to_string()),
            number: "+15551234567".to_string(),
            color: None,
        }])
    );
}

#[test]
fn contact_list_under_the_payload_tag() {
    let response = parse(
        "{\"type\":\"contact_list\",\"id\":\"1\",\"data\":[\
         {\"number\":\"+1\",\"name\":null,\"color\":\"red\"},{\"number\":\"+2\"}]}",
    )
    .unwrap();
    assert_eq!(
        response.data,
        ResponseType::ContactList(vec![
            Account { name: None, number: "+1".to_string(), color: Some("red".to_string()) },
            Account { name: None, number: "+2".to_string(), color: None },
        ])
    );
}

#[test]
fn empty_contact_list() {
    let response = parse("{\"type\":\"list_contacts\",\"data\":[]}").unwrap();
    assert_eq!(response.data, ResponseType::ContactList(Vec::new()));
}

#[test]
fn contact_without_number_makes_the_payload_raw() {
    let response = parse("{\"type\":\"list_contacts\",\"data\":[{\"name\":\"Bob\"}]}").unwrap();
    assert_eq!(
        response.data,
        ResponseType::Unknown(Json::List(vec![Json::Object(vec![(
            "name".to_string(),
            Json::Text("Bob".to_string())
        )])]))
    );
}

#[test]
fn contact_with_a_number_for_a_name_makes_the_payload_raw() {
    let response =
        parse("{\"type\":\"list_contacts\",\"data\":[{\"number\":\"+1\",\"name\":5}]}").unwrap();
    assert!(matches!(response.data, ResponseType::Unknown(_)));
}

#[test]
fn account_list_response() {
    let response = parse(
        "{\"type\":\"account_list\",\"id\":\"0\",\"data\":{\"accounts\":[\
         {\"username\":\"+15550001111\",\"registered\":true},{\"username\":\"+15550002222\"}]}}",
    )
    .unwrap();
    assert_eq!(
        response.data,
        ResponseType::AccountList(vec!["+15550001111".to_string(), "+15550002222".to_string()])
    );
    let echoed = parse("{\"type\":\"list_accounts\",\"data\":{\"accounts\":[]}}").unwrap();
    assert_eq!(echoed.data, ResponseType::AccountList(Vec::new()));
}

#[test]
fn account_list_without_accounts_is_kept_raw() {
    let response = parse("{\"type\":\"account_list\",\"data\":{}}").unwrap();
    assert_eq!(response.data, ResponseType::Unknown(Json::Object(Vec::new())));
}

#[test]
fn sync_sent_envelope() {
    let response = parse(
        "{\"type\":\"message\",\"data\":{\"username\":\"+15550001111\",\"syncMessage\":{\
         \"sent\":{\"destination\":\"+15551234567\",\"timestamp\":1700000000000,\
         \"message\":{\"timestamp\":1700000000000,\"message\":\"from my phone\"}}}}}",
    )
    .unwrap();
    assert_eq!(
        response.data,
        ResponseType::Message(MessageData {
            source: None,
            sync_message: Some(SyncMessage {
                sent: Some(SentMessage {
                    destination: "+15551234567".to_string(),
                    timestamp: 1700000000000,
                    message: "from my phone".to_string(),
                }),
            }),
            data_message: None,
        })
    );
}

#[test]
fn incoming_envelope() {
    let response = parse(
        "{\"type\":\"message\",\"data\":{\"source\":\"+15551234567\",\"syncMessage\":null,\
         \"dataMessage\":{\"timestamp\":-5,\"message\":\"yo\",\"expiresInSeconds\":0}}}",
    )
    .unwrap();
    assert_eq!(
        response.data,
        ResponseType::Message(MessageData {
            source: Some("+15551234567".to_string()),
            sync_message: None,
            data_message: Some(Message { timestamp: -5, message: "yo".to_string() }),
        })
    );
}

#[test]
fn envelope_with_nothing_in_it() {
    let response = parse("{\"type\":\"message\",\"data\":{\"syncMessage\":{}}}").unwrap();
    assert_eq!(
        response.data,
        ResponseType::Message(MessageData {
            source: None,
            sync_message: Some(SyncMessage { sent: None }),
            data_message: None,
        })
    );
}

#[test]
fn envelope_with_a_message_without_text_is_kept_raw() {
    let response = parse(
        "{\"type\":\"message\",\"data\":{\"source\":\"+1\",\"dataMessage\":{\"timestamp\":1}}}",
    )
    .unwrap();
    assert!(matches!(response.data, ResponseType::Unknown(_)));
}

#[test]
fn envelope_with_a_fractional_timestamp_is_kept_raw() {
    let response = parse(
        "{\"type\":\"message\",\"data\":{\"source\":\"+1\",\
         \"dataMessage\":{\"timestamp\":1.5,\"message\":\"x\"}}}",
    )
    .unwrap();
    assert!(matches!(response.data, ResponseType::Unknown(_)));
}

#[test]
fn envelope_that_is_no_object_is_kept_raw() {
    let response = parse("{\"type\":\"message\",\"data\":[1,2]}").unwrap();
    assert_eq!(
        response.data,
        ResponseType::Unknown(Json::List(vec![Json::Number(Some(1)), Json::Number(Some(2))]))
    );
}

#[test]
fn unknown_tag_keeps_the_payload() {
    let response =
        parse("{\"type\":\"linking_uri\",\"id\":\"4\",\"data\":{\"uri\":\"tsdevice:/\"}}").unwrap();
    assert_eq!(response.typ, "linking_uri");
    assert_eq!(response.id, Some("4".to_string()));
    assert_eq!(
        response.data,
        ResponseType::Unknown(Json::Object(vec![(
            "uri".to_string(),
            Json::Text("tsdevice:/".to_string())
        )]))
    );
}

#[test]
fn response_without_data() {
    let response = parse("{\"type\":\"subscribed\",\"id\":\"1\"}").unwrap();
    assert_eq!(response.typ, "subscribed");
    assert_eq!(response.data, ResponseType::Unknown(Json::Null));
}

#[test]
fn null_id_is_no_id() {
    let response = parse("{\"type\":\"version\",\"id\":null,\"data\":null}").unwrap();
    assert_eq!(response.id, None);
    assert_eq!(response.data, ResponseType::Unknown(Json::Null));
}

#[test]
fn lines_that_are_no_responses() {
    assert_eq!(parse(""), None);
    assert_eq!(parse("update"), None);
    assert_eq!(parse("{\"type\":\"version\""), None);
    assert_eq!(parse("{\"type\":\"version\"} trailing"), None);
    assert_eq!(parse("{\"id\":\"1\",\"data\":{}}"), None);
    assert_eq!(parse("{\"type\":7}"), None);
    assert_eq!(parse("{\"type\":\"version\",\"id\":7}"), None);
    assert_eq!(parse("[\"version\"]"), None);
    assert_eq!(parse("\"version\""), None);
    assert_eq!(SignaldResponse::parse(&[0xff, 0xfe]), None);
}

#[test]
fn white_space_around_a_response_is_accepted() {
    let response = parse("  {\"type\" : \"version\" }\r").unwrap();
    assert_eq!(response.typ, "version");
}

#[test]
fn json_values() {
    let json = Json::parse(b"{\"a\":[1,-2,3.5,true,null,\"x\"],\"b\":{\"c\":18446744073709551615}}")
        .unwrap();
    assert_eq!(
        json.get("a"),
        Some(&Json::List(vec![
            Json::Number(Some(1)),
            Json::Number(Some(-2)),
            Json::Number(None),
            Json::Bool(true),
            Json::Null,
            Json::Text("x".to_string()),
        ]))
    );
    assert_eq!(json.get("b").and_then(|b| b.get("c")), Some(&Json::Number(None)));
    assert_eq!(json.get("missing"), None);
    assert_eq!(json.as_text(), None);
    assert_eq!(json.as_int(), None);
    assert_eq!(json.as_list(), None);
    assert!(!json.is_null());
    assert_eq!(Json::parse(b"9223372036854775807").unwrap().as_int(), Some(i64::MAX));
    assert_eq!(Json::parse(b"null"), Some(Json::Null));
    assert!(Json::Null.is_null());
    assert_eq!(Json::parse(b"nul"), None);
}

#[test]
fn first_member_wins_in_a_hand_made_object() {
    let json = Json::Object(vec![
        ("k".to_string(), Json::Number(Some(1))),
        ("k".to_string(), Json::Number(Some(2))),
    ]);
    assert_eq!(json.get("k"), Some(&Json::Number(Some(1))));
    assert_eq!(json.clone(), json);
}

#[test]
fn response_from_a_hand_made_value() {
    let json = Json::Object(vec![
        ("id".to_string(), Json::Text("9".to_string())),
        ("type".to_string(), Json::Text("other".to_string())),
        ("data".to_string(), Json::Bool(false)),
    ]);
    let response = SignaldResponse::from_json(&json).unwrap();
    assert_eq!(
        response,
        SignaldResponse {
            typ: "other".to_string(),
            id: Some("9".to_string()),
            data: ResponseType::Unknown(Json::Bool(false)),
        }
    );
    assert_eq!(SignaldResponse::from_json(&Json::Null), None);
}
