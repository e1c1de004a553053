use better_endpoint_protection::codec::{
    action_from_field, decode_action, decode_event, encode_action, encode_event,
    event_from_fields, field_key, frame_action, frame_event, read_integer_field, read_text_field,
    DecodeError, Field, RecordField,
};
use better_endpoint_protection::decimal::{decimal_text, push_decimal, push_decimal_i32};
use better_endpoint_protection::{ResponseAction, ThreatEvent};

fn event(label: &str, severity: i32) -> ThreatEvent {
    ThreatEvent { event_type: label.to_string(), severity }
}

fn action(label: &str) -> ResponseAction {
    ResponseAction { action: label.to_string() }
}

#[test]
fn decimal_text_of_small_and_large_numbers() {
    assert_eq!(decimal_text(0), "0");
    assert_eq!(decimal_text(7), "7");
    assert_eq!(decimal_text(10), "10");
    assert_eq!(decimal_text(1234567890), "1234567890");
    assert_eq!(decimal_text(u128::MAX), "340282366920938463463374607431768211455");
}

#[test]
fn push_decimal_appends_to_what_is_there() {
    let mut out = String::from("n=");
    push_decimal(&mut out, 305);
    assert_eq!(out, "n=305");
}

#[test]
fn push_decimal_i32_writes_the_sign() {
    let mut out = String::new();
    push_decimal_i32(&mut out, -42);
    out.push(' ');
    push_decimal_i32(&mut out, 0);
    out.push(' ');
    push_decimal_i32(&mut out, i32::MIN);
    out.push(' ');
    push_decimal_i32(&mut out, i32::MAX);
    assert_eq!(out, "-42 0 -2147483648 2147483647");
}

#[test]
fn field_keys_are_the_wire_names() {
    assert_eq!(field_key(RecordField::EventType), "event_type");
    assert_eq!(field_key(RecordField::Severity), "severity");
    assert_eq!(field_key(RecordField::Action), "action");
}

#[test]
fn frame_event_writes_the_two_members_in_order() {
    assert_eq!(frame_event("\"x\"", 5), "{\"event_type\":\"x\",\"severity\":5}");
    assert_eq!(frame_event("\"\"", -1), "{\"event_type\":\"\",\"severity\":-1}");
}

#[test]
fn frame_action_writes_the_one_member() {
    assert_eq!(frame_action("\"isolate\""), "{\"action\":\"isolate\"}");
}

#[test]
fn encode_event_gives_the_wire_text() {
    let text = encode_event(&event("malware_detected_1", 5)).unwrap();
    assert_eq!(text, "{\"event_type\":\"malware_detected_1\",\"severity\":5}");
}

#[test]
fn encode_event_keeps_any_severity() {
    assert_eq!(
        encode_event(&event("a", i32::MIN)).unwrap(),
        "{\"event_type\":\"a\",\"severity\":-2147483648}"
    );
    assert_eq!(
        encode_event(&event("a", i32::MAX)).unwrap(),
        "{\"event_type\":\"a\",\"severity\":2147483647}"
    );
    assert_eq!(encode_event(&event("a", 0)).unwrap(), "{\"event_type\":\"a\",\"severity\":0}");
}

#[test]
fn encode_event_escapes_the_label() {
    let text = encode_event(&event("a\"b\\c\nd\te\u{1}f\u{7f}\u{e9}", 1)).unwrap();
    assert_eq!(
        text,
        "{\"event_type\":\"a\\\"b\\\\c\\nd\\te\\u0001f\u{7f}\u{e9}\",\"severity\":1}"
    );
}

#[test]
fn encode_event_escapes_every_control_character() {
    let text = encode_event(&event("\u{8}\u{c}\r\u{0}\u{1f}\u{1a} /", 1)).unwrap();
    assert_eq!(
        text,
        "{\"event_type\":\"\\b\\f\\r\\u0000\\u001f\\u001a /\",\"severity\":1}"
    );
}

#[test]
fn encode_event_accepts_the_empty_label() {
    assert_eq!(encode_event(&event("", 3)).unwrap(), "{\"event_type\":\"\",\"severity\":3}");
}

#[test]
fn encode_action_gives_the_wire_text() {
    assert_eq!(encode_action(&action("isolate")).unwrap(), "{\"action\":\"isolate\"}");
    assert_eq!(encode_action(&action("say \"hi\"")).unwrap(), "{\"action\":\"say \\\"hi\\\"\"}");
}

#[test]
fn decode_event_reads_the_wire_text() {
    let decoded = decode_event("{\"event_type\":\"malware_detected_1\",\"severity\":5}");
    assert_eq!(decoded, Ok(event("malware_detected_1", 5)));
}

#[test]
fn decode_event_allows_space_order_and_other_members() {
    let decoded = decode_event(" { \"severity\" : -7 , \"extra\" : [1, {\"a\": null}] , \"event_type\" : \"x\" } ");
    assert_eq!(decoded, Ok(event("x", -7)));
}

#[test]
fn decode_event_reads_escapes() {
    let decoded = decode_event("{\"event_type\":\"a\\u0041\\n\\\"\",\"severity\":0}");
    assert_eq!(decoded, Ok(event("aA\n\"", 0)));
}

#[test]
fn decode_event_rejects_text_that_is_no_document() {
    assert_eq!(decode_event(""), Err(DecodeError::Malformed));
    assert_eq!(decode_event("not json"), Err(DecodeError::Malformed));
    assert_eq!(decode_event("{\"event_type\":\"x\",\"severity\":5"), Err(DecodeError::Malformed));
    assert_eq!(
        decode_event("{\"event_type\":\"x\",\"severity\":5} trailing"),
        Err(DecodeError::Malformed)
    );
    assert_eq!(decode_event("{event_type:\"x\"}"), Err(DecodeError::Malformed));
}

#[test]
fn decode_event_rejects_a_missing_member() {
    assert_eq!(
        decode_event("{\"severity\":5}"),
        Err(DecodeError::MissingField(RecordField::EventType))
    );
    assert_eq!(
        decode_event("{\"event_type\":\"x\"}"),
        Err(DecodeError::MissingField(RecordField::Severity))
    );
    assert_eq!(decode_event("{}"), Err(DecodeError::MissingField(RecordField::EventType)));
}

#[test]
fn decode_event_rejects_a_document_that_is_no_object() {
    assert_eq!(decode_event("[\"x\",5]"), Err(DecodeError::MissingField(RecordField::EventType)));
    assert_eq!(decode_event("5"), Err(DecodeError::MissingField(RecordField::EventType)));
    assert_eq!(decode_event("null"), Err(DecodeError::MissingField(RecordField::EventType)));
}

#[test]
fn decode_event_rejects_a_member_of_the_wrong_type() {
    assert_eq!(
        decode_event("{\"event_type\":5,\"severity\":5}"),
        Err(DecodeError::WrongType(RecordField::EventType))
    );
    assert_eq!(
        decode_event("{\"event_type\":null,\"severity\":5}"),
        Err(DecodeError::WrongType(RecordField::EventType))
    );
    assert_eq!(
        decode_event("{\"event_type\":\"x\",\"severity\":\"5\"}"),
        Err(DecodeError::WrongType(RecordField::Severity))
    );
    assert_eq!(
        decode_event("{\"event_type\":\"x\",\"severity\":5.5}"),
        Err(DecodeError::WrongType(RecordField::Severity))
    );
    assert_eq!(
        decode_event("{\"event_type\":\"x\",\"severity\":5.0}"),
        Err(DecodeError::WrongType(RecordField::Severity))
    );
}

#[test]
fn decode_event_rejects_a_severity_beyond_32_bits() {
    assert_eq!(
        decode_event("{\"event_type\":\"x\",\"severity\":2147483648}"),
        Err(DecodeError::WrongType(RecordField::Severity))
    );
    assert_eq!(
        decode_event("{\"event_type\":\"x\",\"severity\":-2147483649}"),
        Err(DecodeError::WrongType(RecordField::Severity))
    );
    assert_eq!(
        decode_event("{\"event_type\":\"x\",\"severity\":18446744073709551615}"),
        Err(DecodeError::WrongType(RecordField::Severity))
    );
    assert_eq!(
        decode_event("{\"event_type\":\"x\",\"severity\":2147483647}"),
        Ok(event("x", i32::MAX))
    );
    assert_eq!(
        decode_event("{\"event_type\":\"x\",\"severity\":-2147483648}"),
        Ok(event("x", i32::MIN))
    );
}

#[test]
fn decode_event_looks_at_the_label_first() {
    assert_eq!(
        decode_event("{\"event_type\":1,\"severity\":\"x\"}"),
        Err(DecodeError::WrongType(RecordField::EventType))
    );
}

#[test]
fn decode_failure_repeats() {
    let texts = ["", "{", "{\"severity\":1}", "{\"event_type\":\"x\",\"severity\":true}", "[]"];
    for text in texts {
        let first = decode_event(text);
        let second = decode_event(text);
        assert!(first.is_err());
        assert_eq!(first, second);
    }
    let first = decode_action("{\"action\":7}");
    let second = decode_action("{\"action\":7}");
    assert_eq!(first, Err(DecodeError::WrongType(RecordField::Action)));
    assert_eq!(first, second);
}

#[test]
fn decode_action_reads_the_wire_text() {
    assert_eq!(decode_action("{\"action\":\"isolate\"}"), Ok(action("isolate")));
    assert_eq!(decode_action("{\"action\":\"\",\"more\":1}"), Ok(action("")));
}

#[test]
fn decode_action_rejects_what_is_no_reply() {
    assert_eq!(decode_action("isolate"), Err(DecodeError::Malformed));
    assert_eq!(decode_action("{}"), Err(DecodeError::MissingField(RecordField::Action)));
    assert_eq!(
        decode_action("{\"event_type\":\"x\",\"severity\":5}"),
        Err(DecodeError::MissingField(RecordField::Action))
    );
    assert_eq!(
        decode_action("{\"action\":[\"isolate\"]}"),
        Err(DecodeError::WrongType(RecordField::Action))
    );
}

#[test]
fn event_round_trip() {
    let events = [
        event("malware_detected_1", 5),
        event("", 0),
        event("quote \" backslash \\ newline \n tab \t nul \u{0} bell \u{7}", -3),
        event("\u{1f}\u{20}\u{7f}\u{80}\u{e9}\u{4e2d}\u{1f600}", i32::MAX),
        event("{\"event_type\":\"nested\",\"severity\":1}", i32::MIN),
    ];
    for e in events {
        let text = encode_event(&e).unwrap();
        assert_eq!(decode_event(&text), Ok(e));
    }
}

#[test]
fn event_round_trip_over_every_low_character() {
    for code in 0u32..0x100 {
        let c = char::from_u32(code).unwrap();
        let e = event(&format!("a{}b", c), code as i32);
        let text = encode_event(&e).unwrap();
        assert_eq!(decode_event(&text), Ok(e));
    }
}

#[test]
fn action_round_trip() {
    let actions = [action("isolate"), action(""), action("a\"b\\c\r\n\u{3}\u{e9}")];
    for a in actions {
        let text = encode_action(&a).unwrap();
        assert_eq!(decode_action(&text), Ok(a));
    }
}

#[test]
fn event_from_fields_takes_text_and_a_32_bit_number() {
    assert_eq!(
        event_from_fields(Field::Present("x".to_string()), Field::Present(9)),
        Ok(event("x", 9))
    );
    assert_eq!(
        event_from_fields(Field::Present("x".to_string()), Field::Present(2147483648)),
        Err(DecodeError::WrongType(RecordField::Severity))
    );
    assert_eq!(
        event_from_fields(Field::Present("x".to_string()), Field::Present(-2147483649)),
        Err(DecodeError::WrongType(RecordField::Severity))
    );
    assert_eq!(
        event_from_fields(Field::Present("x".to_string()), Field::Missing),
        Err(DecodeError::MissingField(RecordField::Severity))
    );
    assert_eq!(
        event_from_fields(Field::Present("x".to_string()), Field::Mistyped),
        Err(DecodeError::WrongType(RecordField::Severity))
    );
    assert_eq!(
        event_from_fields(Field::Missing, Field::Mistyped),
        Err(DecodeError::MissingField(RecordField::EventType))
    );
    assert_eq!(
        event_from_fields(Field::Mistyped, Field::Missing),
        Err(DecodeError::WrongType(RecordField::EventType))
    );
}

#[test]
fn action_from_field_takes_text() {
    assert_eq!(action_from_field(Field::Present("isolate".to_string())), Ok(action("isolate")));
    assert_eq!(
        action_from_field(Field::Missing),
        Err(DecodeError::MissingField(RecordField::Action))
    );
    assert_eq!(
        action_from_field(Field::Mistyped),
        Err(DecodeError::WrongType(RecordField::Action))
    );
}

#[test]
fn read_fields_of_a_document() {
    let document: serde_json::Value =
        serde_json::from_str("{\"event_type\":\"x\",\"severity\":12,\"action\":false}").unwrap();
    assert_eq!(
        read_text_field(&document, RecordField::EventType),
        Field::Present("x".to_string())
    );
    assert_eq!(read_text_field(&document, RecordField::Severity), Field::Mistyped);
    assert_eq!(read_text_field(&document, RecordField::Action), Field::Mistyped);
    assert_eq!(read_integer_field(&document, RecordField::Severity), Field::Present(12));
    assert_eq!(read_integer_field(&document, RecordField::EventType), Field::Mistyped);
    let other: serde_json::Value = serde_json::from_str("{\"severity\":9223372036854775808}").unwrap();
    assert_eq!(read_integer_field(&other, RecordField::Severity), Field::Mistyped);
    assert_eq!(read_integer_field(&other, RecordField::Action), Field::Missing);
    assert_eq!(read_text_field(&other, RecordField::EventType), Field::Missing);
}
