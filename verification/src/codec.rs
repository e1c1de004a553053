//! The message codec: records to wire text and back.
//!
//! One record travels per frame. An event is written as
//! `{"event_type":<string>,"severity":<integer>}` and a reply as
//! `{"action":<string>}`. Reading is structural only: a document is accepted
//! when it holds the record's members with the right types, whatever else it
//! holds, and no content is normalised or checked.

use vstd::prelude::*;
use vstd::string::*;
use crate::decimal::{decimal_int, push_decimal_i32};
use crate::json::{
    as_integer, as_text, json_document, json_integer, json_member, json_quoted, json_text, member,
    parse_document, quote_text,
};
use crate::{ResponseAction, ResponseActionView, ThreatEvent, ThreatEventView};

verus! {

/// A member of a record.
#[derive(Debug, Clone, Copy, PartialEq, Eq, Structural)]
pub enum RecordField {
    EventType,
    Severity,
    Action,
}

/// Why a frame's text is no record of the expected kind.
#[derive(Debug, Clone, Copy, PartialEq, Eq, Structural)]
pub enum DecodeError {
    /// The text is not a well-formed document.
    Malformed,
    /// The document does not hold this member.
    MissingField(RecordField),
    /// The member is there, but is no text where text is expected, or no
    /// 32-bit signed integer where a number is expected.
    WrongType(RecordField),
}

/// The outbound text of a record could not be built.
#[derive(Debug, Clone, Copy, PartialEq, Eq, Structural)]
pub enum EncodeError {
    /// The writer refused the record's text.
    Rejected,
}

/// What a document holds under one member's name.
#[derive(Debug, Clone, PartialEq, Eq)]
pub enum Field<T> {
    /// No such member.
    Missing,
    /// A member of another type.
    Mistyped,
    /// The member's value.
    Present(T),
}

/// The wire name of a member.
pub open spec fn field_name(field: RecordField) -> Seq<char> {
    match field {
        RecordField::EventType => "event_type"@,
        RecordField::Severity => "severity"@,
        RecordField::Action => "action"@,
    }
}

/// The text member of `document` under `field`.
pub open spec fn text_field(document: serde_json::Value, field: RecordField) -> Field<Seq<char>> {
    match json_member(document, field_name(field)) {
        None => Field::Missing,
        Some(found) => match json_text(found) {
            None => Field::Mistyped,
            Some(text) => Field::Present(text),
        },
    }
}

/// The integer member of `document` under `field`.
pub open spec fn integer_field(document: serde_json::Value, field: RecordField) -> Field<i64> {
    match json_member(document, field_name(field)) {
        None => Field::Missing,
        Some(found) => match json_integer(found) {
            None => Field::Mistyped,
            Some(number) => Field::Present(number),
        },
    }
}

/// The event that two members make, or the first reason why they make none:
/// the label is looked at before the severity.
pub open spec fn event_of_fields(event_type: Field<Seq<char>>, severity: Field<i64>) -> Result<
    ThreatEventView,
    DecodeError,
> {
    match event_type {
        Field::Missing => Err(DecodeError::MissingField(RecordField::EventType)),
        Field::Mistyped => Err(DecodeError::WrongType(RecordField::EventType)),
        Field::Present(label) => match severity {
            Field::Missing => Err(DecodeError::MissingField(RecordField::Severity)),
            Field::Mistyped => Err(DecodeError::WrongType(RecordField::Severity)),
            Field::Present(number) => if i32::MIN <= number <= i32::MAX {
                Ok(ThreatEventView { event_type: label, severity: number as int })
            } else {
                Err(DecodeError::WrongType(RecordField::Severity))
            },
        },
    }
}

/// The reply that one member makes, or the reason why it makes none.
pub open spec fn action_of_field(action: Field<Seq<char>>) -> Result<
    ResponseActionView,
    DecodeError,
> {
    match action {
        Field::Missing => Err(DecodeError::MissingField(RecordField::Action)),
        Field::Mistyped => Err(DecodeError::WrongType(RecordField::Action)),
        Field::Present(label) => Ok(ResponseActionView { action: label }),
    }
}

/// What decoding `text` as an event gives.
pub open spec fn decode_event_spec(text: Seq<char>) -> Result<ThreatEventView, DecodeError> {
    match json_document(text) {
        None => Err(DecodeError::Malformed),
        Some(document) => event_of_fields(
            text_field(document, RecordField::EventType),
            integer_field(document, RecordField::Severity),
        ),
    }
}

/// What decoding `text` as a reply gives.
pub open spec fn decode_action_spec(text: Seq<char>) -> Result<ResponseActionView, DecodeError> {
    match json_document(text) {
        None => Err(DecodeError::Malformed),
        Some(document) => action_of_field(text_field(document, RecordField::Action)),
    }
}

/// `text` is a well-formed document that holds a text member `event_type` and
/// a member `severity` that is a 32-bit signed integer.
pub open spec fn is_event_text(text: Seq<char>) -> bool {
    &&& json_document(text) is Some
    &&& text_field(json_document(text)->Some_0, RecordField::EventType) is Present
    &&& integer_field(json_document(text)->Some_0, RecordField::Severity) matches Field::Present(
        number,
    ) && i32::MIN <= number <= i32::MAX
}

/// `text` is a well-formed document that holds a text member `action`.
pub open spec fn is_action_text(text: Seq<char>) -> bool {
    &&& json_document(text) is Some
    &&& text_field(json_document(text)->Some_0, RecordField::Action) is Present
}

/// The value of a decoded event or of the error in its place.
pub open spec fn event_result_view(r: Result<ThreatEvent, DecodeError>) -> Result<
    ThreatEventView,
    DecodeError,
> {
    match r {
        Ok(event) => Ok(event@),
        Err(error) => Err(error),
    }
}

/// The value of a decoded reply or of the error in its place.
pub open spec fn action_result_view(r: Result<ResponseAction, DecodeError>) -> Result<
    ResponseActionView,
    DecodeError,
> {
    match r {
        Ok(action) => Ok(action@),
        Err(error) => Err(error),
    }
}

/// The value of a member read as text.
pub open spec fn text_field_view(field: Field<String>) -> Field<Seq<char>> {
    match field {
        Field::Missing => Field::Missing,
        Field::Mistyped => Field::Mistyped,
        Field::Present(text) => Field::Present(text@),
    }
}

/// The wire text of an event around its label, already written as a JSON
/// string.
pub open spec fn framed_event(quoted: Seq<char>, severity: int) -> Seq<char> {
    "{\"event_type\":"@ + quoted + ",\"severity\":"@ + decimal_int(severity) + "}"@
}

/// The wire text of a reply around its label, already written as a JSON
/// string.
pub open spec fn framed_action(quoted: Seq<char>) -> Seq<char> {
    "{\"action\":"@ + quoted + "}"@
}

/// The wire text of an event.
pub open spec fn event_wire(event: ThreatEventView) -> Seq<char> {
    framed_event(json_quoted(event.event_type), event.severity)
}

/// The wire text of a reply.
pub open spec fn action_wire(action: ResponseActionView) -> Seq<char> {
    framed_action(json_quoted(action.action))
}

/// The wire name of `field`.
pub fn field_key(field: RecordField) -> (r: &'static str)
    ensures
        r@ == field_name(field),
{
    match field {
        RecordField::EventType => "event_type",
        RecordField::Severity => "severity",
        RecordField::Action => "action",
    }
}

/// Reads the text member of `document` under `field`.
pub fn read_text_field(document: &serde_json::Value, field: RecordField) -> (r: Field<String>)
    ensures
        text_field_view(r) == text_field(*document, field),
{
    match member(document, field_key(field)) {
        None => Field::Missing,
        Some(found) => match as_text(found) {
            None => Field::Mistyped,
            Some(text) => Field::Present(text.to_owned()),
        },
    }
}

/// Reads the integer member of `document` under `field`.
pub fn read_integer_field(document: &serde_json::Value, field: RecordField) -> (r: Field<i64>)
    ensures
        r == integer_field(*document, field),
{
    match member(document, field_key(field)) {
        None => Field::Missing,
        Some(found) => match as_integer(found) {
            None => Field::Mistyped,
            Some(number) => Field::Present(number),
        },
    }
}

/// Builds an event from what a document holds under its two members.
///
/// The label must be text and the severity an integer of 32 signed bits. The
/// first member that is missing or mistyped decides the error, the label
/// before the severity.
pub fn event_from_fields(event_type: Field<String>, severity: Field<i64>) -> (r: Result<
    ThreatEvent,
    DecodeError,
>)
    ensures
        event_result_view(r) == event_of_fields(text_field_view(event_type), severity),
{
    match event_type {
        Field::Missing => Err(DecodeError::MissingField(RecordField::EventType)),
        Field::Mistyped => Err(DecodeError::WrongType(RecordField::EventType)),
        Field::Present(label) => match severity {
            Field::Missing => Err(DecodeError::MissingField(RecordField::Severity)),
            Field::Mistyped => Err(DecodeError::WrongType(RecordField::Severity)),
            Field::Present(number) => {
                if -2147483648 <= number && number <= 2147483647 {
                    Ok(ThreatEvent { event_type: label, severity: number as i32 })
                } else {
                    Err(DecodeError::WrongType(RecordField::Severity))
                }
            },
        },
    }
}

/// Builds a reply from what a document holds under its member.
pub fn action_from_field(action: Field<String>) -> (r: Result<ResponseAction, DecodeError>)
    ensures
        action_result_view(r) == action_of_field(text_field_view(action)),
{
    match action {
        Field::Missing => Err(DecodeError::MissingField(RecordField::Action)),
        Field::Mistyped => Err(DecodeError::WrongType(RecordField::Action)),
        Field::Present(label) => Ok(ResponseAction { action: label }),
    }
}

/// Decodes the text of one frame as an event.
///
/// Succeeds exactly on the texts that [`is_event_text`] describes; members
/// other than the two of the record are passed over.
pub fn decode_event(text: &str) -> (r: Result<ThreatEvent, DecodeError>)
    ensures
        event_result_view(r) == decode_event_spec(text@),
        r is Ok <==> is_event_text(text@),
{
    match parse_document(text) {
        Err(_) => Err(DecodeError::Malformed),
        Ok(document) => {
            let event_type = read_text_field(&document, RecordField::EventType);
            let severity = read_integer_field(&document, RecordField::Severity);
            event_from_fields(event_type, severity)
        },
    }
}

/// Decodes the text of one frame as a reply.
///
/// Succeeds exactly on the texts that [`is_action_text`] describes.
pub fn decode_action(text: &str) -> (r: Result<ResponseAction, DecodeError>)
    ensures
        action_result_view(r) == decode_action_spec(text@),
        r is Ok <==> is_action_text(text@),
{
    match parse_document(text) {
        Err(_) => Err(DecodeError::Malformed),
        Ok(document) => {
            let action = read_text_field(&document, RecordField::Action);
            action_from_field(action)
        },
    }
}

/// Writes the wire text of an event around `quoted`, its label as a JSON
/// string.
pub fn frame_event(quoted: &str, severity: i32) -> (r: String)
    ensures
        r@ == framed_event(quoted@, severity as int),
{
    let mut out = String::from_str("{\"event_type\":");
    out.append(quoted);
    out.append(",\"severity\":");
    push_decimal_i32(&mut out, severity);
    out.append("}");
    out
}

/// Writes the wire text of a reply around `quoted`, its label as a JSON
/// string.
pub fn frame_action(quoted: &str) -> (r: String)
    ensures
        r@ == framed_action(quoted@),
{
    let mut out = String::from_str("{\"action\":");
    out.append(quoted);
    out.append("}");
    out
}

/// Encodes an event as the text of one frame.
///
/// Every event has a wire text, whatever its label and its severity, so the
/// result is always `Ok` of that text.
pub fn encode_event(event: &ThreatEvent) -> (r: Result<String, EncodeError>)
    ensures
        r is Ok,
        r matches Ok(text) ==> text@ == event_wire(event@),
{
    match quote_text(event.event_type.as_str()) {
        Ok(quoted) => Ok(frame_event(quoted.as_str(), event.severity)),
        Err(_) => Err(EncodeError::Rejected),
    }
}

/// Encodes a reply as the text of one frame.
///
/// Every reply has a wire text, whatever its label, so the result is always
/// `Ok` of that text.
pub fn encode_action(action: &ResponseAction) -> (r: Result<String, EncodeError>)
    ensures
        r is Ok,
        r matches Ok(text) ==> text@ == action_wire(action@),
{
    match quote_text(action.action.as_str()) {
        Ok(quoted) => Ok(frame_action(quoted.as_str())),
        Err(_) => Err(EncodeError::Rejected),
    }
}

/// A text that is no event never decodes as one: the result is an error, the
/// same one each time the text is decoded, and never an event.
pub proof fn invalid_event_text_is_rejected(text: Seq<char>)
    requires
        !is_event_text(text),
    ensures
        decode_event_spec(text) is Err,
{
}

/// A text that is no reply never decodes as one.
pub proof fn invalid_action_text_is_rejected(text: Seq<char>)
    requires
        !is_action_text(text),
    ensures
        decode_action_spec(text) is Err,
{
}

/// The members that an event is written from read back as that event.
pub proof fn event_fields_read_back(event: ThreatEvent)
    ensures
        event_of_fields(Field::Present(event@.event_type), Field::Present(event.severity as i64))
            == Ok::<ThreatEventView, DecodeError>(event@),
{
}

/// The member that a reply is written from reads back as that reply.
pub proof fn action_field_reads_back(action: ResponseAction)
    ensures
        action_of_field(Field::Present(action@.action)) == Ok::<ResponseActionView, DecodeError>(
            action@,
        ),
{
}

} // verus!
