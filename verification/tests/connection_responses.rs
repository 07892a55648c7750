use cast_channels::channels::connection::{ConnectionChannel, ConnectionResponse};
use cast_channels::errors::ChannelError;
use cast_channels::message::{CastMessage, CastMessagePayload};
use serde_json::{Number, Value};

const NAMESPACE: &str = "urn:x-cast:com.google.cast.tp.connection";

fn text_on(namespace: &str, payload: &str) -> CastMessage {
    CastMessage {
        namespace: namespace.to_string(),
        source: "receiver-0".to_string(),
        destination: "sender-0".to_string(),
        payload: CastMessagePayload::String(payload.to_string()),
    }
}

fn text(payload: &str) -> CastMessage {
    text_on(NAMESPACE, payload)
}

fn bytes_on(namespace: &str, payload: Vec<u8>) -> CastMessage {
    CastMessage {
        namespace: namespace.to_string(),
        source: "receiver-0".to_string(),
        destination: "sender-0".to_string(),
        payload: CastMessagePayload::Binary(payload),
    }
}

fn channel() -> ConnectionChannel {
    ConnectionChannel::new("sender-0")
}

#[test]
fn can_handle_accepts_the_connection_namespace() {
    assert!(channel().can_handle(&text("{}")));
    assert!(channel().can_handle(&bytes_on(NAMESPACE, vec![1, 2, 3])));
}

#[test]
fn can_handle_rejects_the_empty_namespace() {
    assert!(!channel().can_handle(&text_on("", "{\"type\":\"CONNECT\"}")));
}

#[test]
fn can_handle_rejects_case_variants() {
    assert!(!channel().can_handle(&text_on("URN:X-CAST:COM.GOOGLE.CAST.TP.CONNECTION", "{}")));
    assert!(!channel().can_handle(&text_on("urn:x-cast:com.google.cast.tp.Connection", "{}")));
    assert!(!channel().can_handle(&text_on("Urn:x-cast:com.google.cast.tp.connection", "{}")));
}

#[test]
fn can_handle_rejects_other_namespaces() {
    let others = vec![
        "urn:x-cast:com.google.cast.receiver",
        "urn:x-cast:com.google.cast.tp.heartbeat",
        "urn:x-cast:com.google.cast.tp.connection ",
        " urn:x-cast:com.google.cast.tp.connection",
        "urn:x-cast:com.google.cast.tp.connectio",
        "urn:x-cast:com.google.cast.tp.connection.v2",
    ];
    for namespace in others {
        assert!(!channel().can_handle(&text_on(namespace, "{}")));
    }
}

#[test]
fn can_handle_does_not_depend_on_the_sender() {
    let message = text("{}");
    assert!(ConnectionChannel::new("").can_handle(&message));
    assert!(ConnectionChannel::new("someone-else").can_handle(&message));
}

#[test]
fn parse_reads_connect() {
    let response = channel().parse(&text("{\"type\":\"CONNECT\"}")).unwrap();
    assert_eq!(response, ConnectionResponse::Connect);
}

#[test]
fn parse_reads_connect_with_other_members() {
    let response = channel()
        .parse(&text("{\"user_agent\":\"tv\",\"type\":\"CONNECT\",\"n\":[1,2]}"))
        .unwrap();
    assert_eq!(response, ConnectionResponse::Connect);
}

#[test]
fn parse_reads_close() {
    let response = channel().parse(&text("{\"type\":\"CLOSE\",\"reason\":5}")).unwrap();
    assert_eq!(response, ConnectionResponse::Close);
}

#[test]
fn parse_keeps_an_unknown_kind_and_its_document() {
    let response = channel().parse(&text("{\"type\":\"FOO\",\"x\":1}")).unwrap();
    let mut members = serde_json::Map::new();
    members.insert("type".to_string(), Value::String("FOO".to_string()));
    members.insert("x".to_string(), Value::Number(Number::from(1u64)));
    assert_eq!(
        response,
        ConnectionResponse::NotImplemented("FOO".to_string(), Value::Object(members))
    );
}

#[test]
fn parse_without_type_gives_the_empty_kind() {
    let response = channel().parse(&text("{\"x\":1}")).unwrap();
    let mut members = serde_json::Map::new();
    members.insert("x".to_string(), Value::Number(Number::from(1u64)));
    assert_eq!(
        response,
        ConnectionResponse::NotImplemented(String::new(), Value::Object(members))
    );
}

#[test]
fn parse_with_a_type_that_is_no_string_gives_the_empty_kind() {
    let response = channel().parse(&text("{\"type\":7}")).unwrap();
    let mut members = serde_json::Map::new();
    members.insert("type".to_string(), Value::Number(Number::from(7u64)));
    assert_eq!(
        response,
        ConnectionResponse::NotImplemented(String::new(), Value::Object(members))
    );
    let nested = channel().parse(&text("{\"type\":{\"type\":\"CONNECT\"}}")).unwrap();
    assert!(matches!(nested, ConnectionResponse::NotImplemented(kind, _) if kind.is_empty()));
}

#[test]
fn parse_of_a_document_that_is_no_object_gives_the_empty_kind() {
    let string = channel().parse(&text("\"CONNECT\"")).unwrap();
    assert_eq!(
        string,
        ConnectionResponse::NotImplemented(String::new(), Value::String("CONNECT".to_string()))
    );
    let array = channel().parse(&text("[\"type\",\"CONNECT\"]")).unwrap();
    assert_eq!(
        array,
        ConnectionResponse::NotImplemented(
            String::new(),
            Value::Array(vec![
                Value::String("type".to_string()),
                Value::String("CONNECT".to_string())
            ])
        )
    );
    let null = channel().parse(&text("null")).unwrap();
    assert_eq!(null, ConnectionResponse::NotImplemented(String::new(), Value::Null));
}

#[test]
fn parse_matches_the_kind_letter_for_letter() {
    let kinds = vec!["connect", "Connect", "CONNECT ", " CLOSE", "CLOSED", "CLOS", "close", ""];
    for kind in kinds {
        let mut members = serde_json::Map::new();
        members.insert("type".to_string(), Value::String(kind.to_string()));
        let document = Value::Object(members);
        let payload = serde_json::to_string(&document).unwrap();
        let response = channel().parse(&text(&payload)).unwrap();
        assert_eq!(response, ConnectionResponse::NotImplemented(kind.to_string(), document));
    }
}

#[test]
fn parse_takes_the_last_of_repeated_members() {
    let response = channel()
        .parse(&text("{\"type\":\"CONNECT\",\"type\":\"CLOSE\"}"))
        .unwrap();
    assert_eq!(response, ConnectionResponse::Close);
}

#[test]
fn parse_reads_text_on_any_namespace() {
    let response = channel()
        .parse(&text_on("urn:x-cast:com.google.cast.receiver", "{\"type\":\"CLOSE\"}"))
        .unwrap();
    assert_eq!(response, ConnectionResponse::Close);
}

#[test]
fn parse_refuses_bytes() {
    let result = channel().parse(&bytes_on(NAMESPACE, b"{\"type\":\"CONNECT\"}".to_vec()));
    assert!(matches!(result, Err(ChannelError::PayloadKind)));
    let empty = channel().parse(&bytes_on(NAMESPACE, Vec::new()));
    assert!(matches!(empty, Err(ChannelError::PayloadKind)));
}

#[test]
fn parse_refuses_bytes_on_any_namespace() {
    let other = channel().parse(&bytes_on("urn:x-cast:com.google.cast.media", vec![0, 159]));
    assert!(matches!(other, Err(ChannelError::PayloadKind)));
    let unnamed = channel().parse(&bytes_on("", vec![123, 125]));
    assert!(matches!(unnamed, Err(ChannelError::PayloadKind)));
}

#[test]
fn parse_reports_text_that_is_no_document() {
    let broken = vec!["", "{", "{\"type\":\"CONNECT\"", "{type:CONNECT}", "CONNECT", "{} {}"];
    for payload in broken {
        let result = channel().parse(&text(payload));
        assert!(matches!(result, Err(ChannelError::Decoding(_))));
    }
}

#[test]
fn parse_twice_gives_equal_results() {
    let messages = vec![
        text("{\"type\":\"CONNECT\"}"),
        text("{\"type\":\"CLOSE\"}"),
        text("{\"type\":\"FOO\",\"x\":1}"),
        text("{\"x\":[1,2,{\"y\":null}]}"),
    ];
    let channel = channel();
    for message in messages {
        let first = channel.parse(&message).unwrap();
        let second = channel.parse(&message).unwrap();
        assert_eq!(first, second);
    }
}

#[test]
fn parse_twice_gives_equal_faults() {
    let channel = channel();
    let broken = text("{\"type\":");
    let first = channel.parse(&broken).unwrap_err();
    let second = channel.parse(&broken).unwrap_err();
    match (first, second) {
        (ChannelError::Decoding(first), ChannelError::Decoding(second)) => {
            assert_eq!(first.to_string(), second.to_string());
            assert_eq!(first.line(), second.line());
            assert_eq!(first.column(), second.column());
        }
        _ => panic!("text that is no document is a decoding fault"),
    }
    let binary = bytes_on(NAMESPACE, vec![1]);
    assert!(matches!(channel.parse(&binary), Err(ChannelError::PayloadKind)));
    assert!(matches!(channel.parse(&binary), Err(ChannelError::PayloadKind)));
}

#[test]
fn parse_leaves_the_envelope_as_it_was() {
    let message = text("{\"type\":\"FOO\",\"x\":1}");
    let before = message.clone();
    let _ = channel().parse(&message);
    let _ = channel().can_handle(&message);
    assert_eq!(message, before);
}

#[test]
fn message_type_reads_the_member_type() {
    let mut members = serde_json::Map::new();
    members.insert("type".to_string(), Value::String("LAUNCH".to_string()));
    members.insert("user_agent".to_string(), Value::String("CONNECT".to_string()));
    assert_eq!(ConnectionResponse::message_type(&Value::Object(members)), "LAUNCH");
}

#[test]
fn message_type_is_empty_where_none_is_named() {
    assert_eq!(ConnectionResponse::message_type(&Value::Null), "");
    assert_eq!(ConnectionResponse::message_type(&Value::Bool(true)), "");
    assert_eq!(ConnectionResponse::message_type(&Value::String("CLOSE".to_string())), "");
    assert_eq!(ConnectionResponse::message_type(&Value::Object(serde_json::Map::new())), "");
    let mut members = serde_json::Map::new();
    members.insert("Type".to_string(), Value::String("CLOSE".to_string()));
    members.insert("type".to_string(), Value::Bool(false));
    assert_eq!(ConnectionResponse::message_type(&Value::Object(members)), "");
}

#[test]
fn classify_knows_connect_and_close() {
    assert_eq!(
        ConnectionResponse::classify("CONNECT".to_string(), Value::Null),
        ConnectionResponse::Connect
    );
    assert_eq!(
        ConnectionResponse::classify("CLOSE".to_string(), Value::Bool(true)),
        ConnectionResponse::Close
    );
}

#[test]
fn classify_keeps_what_it_does_not_know() {
    assert_eq!(
        ConnectionResponse::classify("PING".to_string(), Value::Bool(true)),
        ConnectionResponse::NotImplemented("PING".to_string(), Value::Bool(true))
    );
    assert_eq!(
        ConnectionResponse::classify(String::new(), Value::Null),
        ConnectionResponse::NotImplemented(String::new(), Value::Null)
    );
}
