use bedrock_ws::event::EventType;
use bedrock_ws::json::{Json, JsonNumber, JsonObject, SyntaxError};
use bedrock_ws::packet::wire::{get_unexpected, open_frame, read_purpose};
use bedrock_ws::packet::{
    CommandRequestPacket, CommandResponsePacket, ErrorPacket, EventPacket, Origin, OriginType,
    Packet, SchemaError, SubscribePacket, Unexpected, UnsubscribePacket,
};

const ID: u128 = 0x550e8400_e29b_41d4_a716_446655440000;
const ID_TEXT: &str = "550e8400-e29b-41d4-a716-446655440000";

fn object(text: &str) -> JsonObject {
    match Json::parse(text).expect("valid JSON") {
        Json::Object(object) => object,
        other => panic!("not an object: {:?}", other),
    }
}

#[test]
fn command_request_round_trip_keeps_line_and_id() {
    let packet = Packet::CommandRequest(CommandRequestPacket::with_id("say hi", ID));
    let text = packet.to_text().expect("a request can be written");
    match Packet::from_text(&text) {
        Ok(Packet::CommandRequest(read)) => {
            assert_eq!(read.command_line, "say hi");
            assert_eq!(read.request_id, ID);
            assert_eq!(read.origin, Origin { origin_type: OriginType::Player });
        }
        other => panic!("not a command request: {:?}", other),
    }
}

#[test]
fn command_request_is_written_header_first() {
    let packet = Packet::CommandRequest(CommandRequestPacket::with_id("say hi", ID));
    let expected = format!(
        "{{\"header\":{{\"messagePurpose\":\"commandRequest\",\"messageType\":\"commandRequest\",\"requestId\":\"{}\",\"version\":1}},\"body\":{{\"commandLine\":\"say hi\",\"origin\":{{\"origin\":\"player\"}}}}}}",
        ID_TEXT
    );
    assert_eq!(packet.to_text_with(0), Ok(expected.clone()));
    assert_eq!(packet.to_text(), Ok(expected));
}

#[test]
fn subscription_packets_carry_the_command_request_message_type() {
    let subscribe = Packet::Subscribe(SubscribePacket { event_name: EventType::PlayerMessage });
    assert_eq!(
        subscribe.to_text_with(ID),
        Ok(format!(
            "{{\"header\":{{\"messagePurpose\":\"subscribe\",\"messageType\":\"commandRequest\",\"requestId\":\"{}\",\"version\":1}},\"body\":{{\"eventName\":\"PlayerMessage\"}}}}",
            ID_TEXT
        ))
    );
    let unsubscribe = Packet::Unsubscribe(UnsubscribePacket { event_name: EventType::BlockBroken });
    assert_eq!(
        unsubscribe.to_text_with(ID),
        Ok(format!(
            "{{\"header\":{{\"messagePurpose\":\"unsubscribe\",\"messageType\":\"commandRequest\",\"requestId\":\"{}\",\"version\":1}},\"body\":{{\"eventName\":\"BlockBroken\"}}}}",
            ID_TEXT
        ))
    );
}

#[test]
fn subscription_packets_get_a_minted_request_id() {
    let subscribe = Packet::Subscribe(SubscribePacket { event_name: EventType::ItemUsed });
    let first = subscribe.to_text().expect("writable");
    let second = subscribe.to_text().expect("writable");
    assert_ne!(first, second);
    assert_eq!(
        Packet::from_text(&first),
        Ok(Packet::Subscribe(SubscribePacket { event_name: EventType::ItemUsed }))
    );
}

#[test]
fn packets_that_only_the_server_sends_are_not_written() {
    let error = Packet::Error(ErrorPacket { status_message: "no".to_string(), status_code: 2 });
    assert_eq!(error.to_text(), Err(SchemaError::Unserializable));
    assert_eq!(error.encode_with(ID), Err(SchemaError::Unserializable));
    let event = Packet::Event(EventPacket::default());
    assert_eq!(event.encode(), Err(SchemaError::Unserializable));
    let response = Packet::CommandResponse(CommandResponsePacket {
        status_code: 0,
        status_message: None,
        request_id: ID,
        extra_data: JsonObject::new(),
    });
    assert_eq!(response.to_text_with(ID), Err(SchemaError::Unserializable));
}

#[test]
fn command_response_keeps_the_rest_of_the_body_as_extra_data() {
    let text = format!(
        r#"{{"header":{{"messagePurpose":"commandResponse","requestId":"{}","version":1}},"body":{{"statusCode":0,"statusMessage":"ok","page":2,"body":"text"}}}}"#,
        ID_TEXT
    );
    match Packet::from_text(&text) {
        Ok(Packet::CommandResponse(response)) => {
            assert_eq!(response.status_code, 0);
            assert_eq!(response.status_message, Some("ok".to_string()));
            assert_eq!(response.request_id, ID);
            assert_eq!(response.extra_data, object(r#"{"body":"text","page":2}"#));
        }
        other => panic!("not a command response: {:?}", other),
    }
}

#[test]
fn command_response_may_lack_the_status_message() {
    let text = format!(
        r#"{{"header":{{"messagePurpose":"commandResponse","requestId":"{}","version":1}},"body":{{"statusCode":-2147483648}}}}"#,
        ID_TEXT
    );
    match Packet::from_text(&text) {
        Ok(Packet::CommandResponse(response)) => {
            assert_eq!(response.status_code, i32::MIN);
            assert_eq!(response.status_message, None);
            assert_eq!(response.extra_data, JsonObject::new());
        }
        other => panic!("not a command response: {:?}", other),
    }
}

#[test]
fn error_and_event_packets_are_read() {
    let error = r#"{"header":{"messagePurpose":"error","version":1},"body":{"statusMessage":"bad","statusCode":7}}"#;
    assert_eq!(
        Packet::from_text(error),
        Ok(Packet::Error(ErrorPacket { status_message: "bad".to_string(), status_code: 7 }))
    );
    let event = r#"{"header":{"messagePurpose":"event","version":1,"eventName":"PlayerMessage"},"body":{"message":"hi"}}"#;
    assert_eq!(
        Packet::from_text(event),
        Ok(Packet::Event(EventPacket {
            event_name: EventType::PlayerMessage,
            properties: object(r#"{"message":"hi"}"#),
        }))
    );
}

#[test]
fn a_wrong_message_purpose_is_a_schema_error() {
    let event_text = r#"{"header":{"messagePurpose":"event","version":1,"eventName":"PlayerMessage"},"body":{}}"#;
    assert_eq!(
        CommandResponsePacket::decode(object(event_text)),
        Err(SchemaError::InvalidValue(Unexpected::Text("event".to_string()), "commandResponse"))
    );
    assert_eq!(
        ErrorPacket::decode(object(event_text)),
        Err(SchemaError::InvalidValue(Unexpected::Text("event".to_string()), "error"))
    );
    assert_eq!(
        CommandRequestPacket::decode(object(event_text)),
        Err(SchemaError::InvalidValue(Unexpected::Text("event".to_string()), "commandRequest"))
    );
    let unknown = r#"{"header":{"messagePurpose":"greeting","version":1},"body":{}}"#;
    assert_eq!(
        Packet::from_text(unknown),
        Err(SchemaError::InvalidValue(Unexpected::Text("greeting".to_string()), "packet type"))
    );
}

#[test]
fn text_that_is_no_json_is_a_syntax_error() {
    assert_eq!(Packet::from_text("{"), Err(SchemaError::Syntax(SyntaxError::Malformed)));
}

#[test]
fn a_document_that_is_no_object_is_no_packet() {
    assert_eq!(
        Packet::from_text("[1]"),
        Err(SchemaError::InvalidType(Unexpected::Array, "packet"))
    );
    assert_eq!(
        Packet::decode(Json::Number(JsonNumber::Unsigned(3))),
        Err(SchemaError::InvalidType(Unexpected::Unsigned(3), "packet"))
    );
}

#[test]
fn missing_and_mistyped_members_are_named() {
    assert_eq!(Packet::from_text("{}"), Err(SchemaError::MissingField("header")));
    assert_eq!(
        Packet::from_text(r#"{"header":5}"#),
        Err(SchemaError::InvalidValue(Unexpected::Unsigned(5), "json object"))
    );
    assert_eq!(
        Packet::from_text(r#"{"header":{}}"#),
        Err(SchemaError::MissingField("header.messagePurpose"))
    );
    assert_eq!(
        Packet::from_text(r#"{"header":{"messagePurpose":true}}"#),
        Err(SchemaError::InvalidValue(Unexpected::Bool(true), "string"))
    );
    assert_eq!(
        Packet::from_text(r#"{"header":{"messagePurpose":"error"}}"#),
        Err(SchemaError::MissingField("body"))
    );
    assert_eq!(
        Packet::from_text(r#"{"header":{"messagePurpose":"error"},"body":null}"#),
        Err(SchemaError::InvalidType(Unexpected::Null, "json object"))
    );
    assert_eq!(
        Packet::from_text(r#"{"header":{"messagePurpose":"error"},"body":{}}"#),
        Err(SchemaError::MissingField("header.version"))
    );
    assert_eq!(
        Packet::from_text(r#"{"header":{"messagePurpose":"error","version":"1"},"body":{}}"#),
        Err(SchemaError::InvalidType(Unexpected::Text("1".to_string()), "i64"))
    );
    assert_eq!(
        Packet::from_text(r#"{"header":{"messagePurpose":"error","version":1},"body":{}}"#),
        Err(SchemaError::MissingField("body.statusMessage"))
    );
    assert_eq!(
        Packet::from_text(
            r#"{"header":{"messagePurpose":"error","version":1},"body":{"statusMessage":"m"}}"#
        ),
        Err(SchemaError::MissingField("body.statusCode"))
    );
    assert_eq!(
        Packet::from_text(
            r#"{"header":{"messagePurpose":"error","version":1},"body":{"statusMessage":"m","statusCode":2147483648}}"#
        ),
        Err(SchemaError::FieldFailed("statusCode", "i32"))
    );
    assert_eq!(
        Packet::from_text(
            r#"{"header":{"messagePurpose":"error","version":1},"body":{"statusMessage":3,"statusCode":1}}"#
        ),
        Err(SchemaError::FieldFailed("statusMessage", "String"))
    );
}

#[test]
fn command_response_members_are_checked() {
    let head = r#"{"header":{"messagePurpose":"commandResponse","version":1"#;
    assert_eq!(
        Packet::from_text(&format!(r#"{}}},"body":{{"statusCode":1.5}}}}"#, head)),
        Err(SchemaError::FieldFailed("statusCode", "i32"))
    );
    assert_eq!(
        Packet::from_text(&format!(r#"{}}},"body":{{"statusCode":1,"statusMessage":null}}}}"#, head)),
        Err(SchemaError::FieldFailed("statusMessage", "Option<String>"))
    );
    assert_eq!(
        Packet::from_text(&format!(r#"{}}},"body":{{"statusCode":1}}}}"#, head)),
        Err(SchemaError::MissingField("header.requestId"))
    );
    assert_eq!(
        Packet::from_text(&format!(r#"{},"requestId":"nope"}},"body":{{"statusCode":1}}}}"#, head)),
        Err(SchemaError::FieldFailed("requestId", "Uuid"))
    );
    assert_eq!(
        Packet::from_text(&format!(r#"{},"requestId":7}},"body":{{"statusCode":1}}}}"#, head)),
        Err(SchemaError::FieldFailed("requestId", "Uuid"))
    );
}

#[test]
fn event_names_are_checked() {
    assert_eq!(
        Packet::from_text(r#"{"header":{"messagePurpose":"event","version":1},"body":{}}"#),
        Err(SchemaError::MissingField("header.eventName"))
    );
    assert_eq!(
        Packet::from_text(
            r#"{"header":{"messagePurpose":"event","version":1,"eventName":"Nothing"},"body":{}}"#
        ),
        Err(SchemaError::FieldFailed("eventName", "EventType"))
    );
}

#[test]
fn client_packets_are_checked_when_read() {
    let request = format!(
        r#"{{"header":{{"messagePurpose":"commandRequest","messageType":"other","requestId":"{}","version":1}},"body":{{"commandLine":"x","origin":{{"origin":"player"}}}}}}"#,
        ID_TEXT
    );
    assert_eq!(
        Packet::from_text(&request),
        Err(SchemaError::InvalidValue(Unexpected::Text("other".to_string()), "commandRequest"))
    );
    let no_origin = format!(
        r#"{{"header":{{"messagePurpose":"commandRequest","messageType":"commandRequest","requestId":"{}","version":1}},"body":{{"commandLine":"x","origin":{{"origin":"server"}}}}}}"#,
        ID_TEXT
    );
    assert_eq!(Packet::from_text(&no_origin), Err(SchemaError::FieldFailed("origin", "Origin")));
    let unsubscribe = r#"{"header":{"messagePurpose":"unsubscribe","messageType":"commandRequest","version":1},"body":{"eventName":"MobKilled"}}"#;
    assert_eq!(
        Packet::from_text(unsubscribe),
        Ok(Packet::Unsubscribe(UnsubscribePacket { event_name: EventType::MobKilled }))
    );
}

#[test]
fn purposes_are_the_six_of_the_protocol() {
    assert_eq!(Packet::Event(EventPacket::default()).purpose(), "event");
    assert_eq!(Packet::Subscribe(SubscribePacket::default()).purpose(), "subscribe");
    assert_eq!(Packet::Unsubscribe(UnsubscribePacket::default()).purpose(), "unsubscribe");
    assert_eq!(
        Packet::Error(ErrorPacket { status_message: String::new(), status_code: 0 }).purpose(),
        "error"
    );
    assert_eq!(
        Packet::CommandRequest(CommandRequestPacket::with_id("x", 1)).purpose(),
        "commandRequest"
    );
}

#[test]
fn new_request_gets_a_random_id_and_the_player_origin() {
    let first = CommandRequestPacket::new("list");
    let second = CommandRequestPacket::new("list");
    assert_eq!(first.command_line, "list");
    assert_eq!(first.origin, Origin::default());
    assert_eq!(Origin::default().origin_type, OriginType::Player);
    assert_ne!(first.request_id, second.request_id);
    assert_eq!((first.request_id >> 76) & 0xf, 4);
}

#[test]
fn unexpected_values_are_reported_by_kind() {
    assert_eq!(get_unexpected(&Json::Null), Unexpected::Null);
    assert_eq!(get_unexpected(&Json::Bool(true)), Unexpected::Bool(true));
    assert_eq!(get_unexpected(&Json::Array(vec![])), Unexpected::Array);
    assert_eq!(get_unexpected(&Json::Object(JsonObject::new())), Unexpected::Object);
    assert_eq!(get_unexpected(&Json::Text("t".to_string())), Unexpected::Text("t".to_string()));
    assert_eq!(
        get_unexpected(&Json::Number(JsonNumber::Signed(4))),
        Unexpected::Unsigned(4)
    );
    assert_eq!(
        get_unexpected(&Json::Number(JsonNumber::Signed(-4))),
        Unexpected::Signed(-4)
    );
    assert_eq!(
        get_unexpected(&Json::Number(JsonNumber::Decimal("0.5".to_string()))),
        Unexpected::Decimal("0.5".to_string())
    );
}

#[test]
fn frames_are_opened_by_purpose() {
    let document = object(r#"{"header":{"messagePurpose":"event","version":2},"body":{"a":1}}"#);
    assert_eq!(read_purpose(&document), Ok("event".to_string()));
    let frame = open_frame(document, "event").expect("a frame");
    assert_eq!(frame.header, object(r#"{"messagePurpose":"event","version":2}"#));
    assert_eq!(frame.body, object(r#"{"a":1}"#));
}

#[test]
fn a_frame_that_holds_no_number_text_cannot_be_written() {
    let mut body = JsonObject::new();
    body.push("n", Json::Number(JsonNumber::Decimal("x".to_string())));
    let frame = bedrock_ws::packet::Frame { header: JsonObject::new(), body };
    assert_eq!(frame.render(), Err(SchemaError::Syntax(SyntaxError::Unwritable)));
    let mut header = JsonObject::new();
    header.push("n", Json::Number(JsonNumber::Decimal("1.5".to_string())));
    let frame = bedrock_ws::packet::Frame { header, body: JsonObject::new() };
    assert_eq!(frame.render(), Ok(r#"{"header":{"n":1.5},"body":{}}"#.to_string()));
}

#[test]
fn a_request_is_read_in_whatever_order_its_members_stand() {
    let text = format!(
        r#"{{"body":{{"origin":{{"origin":"player"}},"extra":1,"commandLine":"say hi"}},"more":null,"header":{{"version":1,"requestId":"{}","messageType":"commandRequest","messagePurpose":"commandRequest"}}}}"#,
        ID_TEXT
    );
    assert_eq!(
        Packet::from_text(&text),
        Ok(Packet::CommandRequest(CommandRequestPacket::with_id("say hi", ID)))
    );
}
